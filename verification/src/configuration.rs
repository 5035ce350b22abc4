//! Settings of the echo service and the environment they are read for.

use vstd::prelude::*;
use vstd::string::StringExecFns;

verus! {

/// All settings.
#[derive(Debug)]
pub struct Settings {
    pub application: AppSettings,
}

/// Where the service listens.
#[derive(Debug)]
pub struct AppSettings {
    pub host: String,
    pub port: String,
}

/// The environment that selects the settings file.
#[derive(Clone, Copy, Debug, PartialEq, Eq, Structural)]
pub enum Env {
    Local,
    Prod,
}

/// `text` in lower case, as std's `str::to_lowercase` gives it.
pub uninterp spec fn lowercase(text: Seq<char>) -> Seq<char>;

/// std's `str::to_lowercase`. Which character maps to which is Unicode's
/// business and is not stated: `lowercase` names the result.
#[verifier::external_body]
fn to_lowercase(text: &str) -> (r: String)
    ensures
        r@ == lowercase(text@),
{
    text.to_lowercase()
}

/// The environment with the given name, where there is one.
pub open spec fn env_named(name: Seq<char>) -> Option<Env> {
    if name == "local"@ {
        Some(Env::Local)
    } else if name == "prod"@ {
        Some(Env::Prod)
    } else {
        None
    }
}

/// What is said of a name that names no environment.
pub open spec fn unsupported_env_message(name: Seq<char>) -> Seq<char> {
    name + " is not a supported env. Use either 'local' or 'production'"@
}

/// The outcome of looking up a name: the environment, or the message.
pub open spec fn names_env(name: Seq<char>, r: Result<Env, String>) -> bool {
    match r {
        Ok(env) => env_named(name) == Some(env),
        Err(message) => env_named(name) is None && message@ == unsupported_env_message(name),
    }
}

impl Env {
    /// The name of the environment, as a mathematical value.
    pub open spec fn name(self) -> Seq<char> {
        match self {
            Env::Prod => "prod"@,
            Env::Local => "local"@,
        }
    }

    /// The name of the environment.
    pub fn as_str(&self) -> (name: &'static str)
        ensures
            name@ == self.name(),
    {
        match self {
            Env::Prod => "prod",
            Env::Local => "local",
        }
    }

    /// The name of the settings file of the environment.
    pub fn file_name(&self) -> (name: String)
        ensures
            name@ == self.name() + ".yaml"@,
    {
        self.as_str().to_owned().concat(".yaml")
    }

    /// Looks up an environment by its name in lower case.
    pub fn from_lowercase(name: &str) -> (r: Result<Env, String>)
        ensures
            names_env(name@, r),
    {
        let given: String = name.to_owned();
        if given == "local".to_owned() {
            Ok(Env::Local)
        } else if given == "prod".to_owned() {
            Ok(Env::Prod)
        } else {
            Err(given.concat(" is not a supported env. Use either 'local' or 'production'"))
        }
    }
}

impl TryFrom<String> for Env {
    type Error = String;

    /// Looks up an environment by its name, in whatever case it is written.
    fn try_from(value: String) -> (r: Result<Self, Self::Error>)
        ensures
            names_env(lowercase(value@), r),
    {
        let name = to_lowercase(value.as_str());
        Env::from_lowercase(name.as_str())
    }
}

/// `try_from` is specified by its own `ensures`: the error it returns is a
/// `String`, which a contract can describe by its view only, and no spec
/// function can build.
impl vstd::std_specs::convert::TryFromSpecImpl<String> for Env {
    open spec fn obeys_try_from_spec() -> bool {
        false
    }

    open spec fn try_from_spec(value: String) -> Result<Self, String> {
        arbitrary()
    }
}

impl AppSettings {
    /// The address to listen on: host and port with a colon between.
    pub fn address(&self) -> (address: String)
        ensures
            address@ == self.host@ + ":"@ + self.port@,
    {
        self.host.clone().concat(":").concat(self.port.as_str())
    }
}

} // verus!
