//! The echo service: every byte that comes in goes back out.

use vstd::prelude::*;
use vstd::slice::slice_subrange;

verus! {

/// What to send back after a read that put `n` bytes at the start of
/// `buffer`: these bytes, unchanged. After a read of no bytes the peer has
/// closed its side, and `None` says that the conversation is over.
pub fn echo_reply<'a>(buffer: &'a [u8], n: usize) -> (reply: Option<&'a [u8]>)
    requires
        n <= buffer@.len(),
    ensures
        match reply {
            Some(bytes) => n > 0 && bytes@ == buffer@.take(n as int),
            None => n == 0,
        },
{
    if n == 0 {
        None
    } else {
        Some(slice_subrange(buffer, 0, n))
    }
}

} // verus!
