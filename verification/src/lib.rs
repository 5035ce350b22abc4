//! A prime-testing request service, verified with Verus.
//!
//! The core takes the text of one JSON request, decides whether the number
//! it names is prime, and answers with the text of one JSON response. It
//! keeps no state, performs no I/O and never fails: a request that cannot be
//! decoded or names an unknown method gets the fixed malformed response.

pub mod configuration;
pub mod echo;
pub mod json;
pub mod primality;
pub mod request;
pub mod response;
