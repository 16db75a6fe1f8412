use vstd::pervasive::arbitrary;
use vstd::prelude::*;
use vstd::std_specs::convert::TryFromSpecImpl;
use vstd::string::StringExecFns;

verus! {

/// Where the application listens, and the address under which it is reached
/// from outside.
#[derive(Debug)]
pub struct ApplicationSettings {
    pub host: String,
    pub port: u16,
    pub base_url: String,
}

/// Where the application runs. It decides which configuration file is read.
#[derive(Clone, Copy, Debug, PartialEq, Eq, Structural)]
pub enum Environment {
    Local,
    Production,
}

/// A text with every character in lower case.
pub uninterp spec fn lowercase_of(s: Seq<char>) -> Seq<char>;

/// Puts `s` in lower case with `str::to_lowercase`. The result is taken on
/// trust.
#[verifier::external_body]
fn to_lowercase(s: &str) -> (lowered: String)
    ensures
        lowered@ == lowercase_of(s@),
{
    s.to_lowercase()
}

/// What follows the name in the message for an unknown environment.
pub open spec fn unsupported_suffix() -> Seq<char> {
    " is not a supported environment. Use 'local' or 'production'."@
}

impl Environment {
    /// The environment's name.
    pub open spec fn name(self) -> Seq<char> {
        match self {
            Environment::Local => "local"@,
            Environment::Production => "production"@,
        }
    }

    /// The environment that a name in lower case stands for.
    pub open spec fn named(lowered: Seq<char>) -> Option<Environment> {
        if lowered == "local"@ {
            Some(Environment::Local)
        } else if lowered == "production"@ {
            Some(Environment::Production)
        } else {
            None
        }
    }

    /// The environment's name as text.
    pub fn as_str(&self) -> (name: &'static str)
        ensures
            name@ == self.name(),
    {
        match self {
            Environment::Local => "local",
            Environment::Production => "production",
        }
    }

    /// The name of the configuration file for this environment: the
    /// environment's name, then `.yaml`.
    pub fn configuration_file(&self) -> (file: String)
        ensures
            file@ == self.name() + ".yaml"@,
    {
        let name = self.as_str().to_owned();
        name.concat(".yaml")
    }

    /// Reads a name that is in lower case already: `local` or `production`.
    /// Any other is refused, with a message that starts with it.
    pub fn from_lowercase(lowered: String) -> (r: Result<Environment, String>)
        ensures
            match r {
                Ok(environment) => Environment::named(lowered@) == Some(environment),
                Err(message) => Environment::named(lowered@) is None && message@ == lowered@
                    + unsupported_suffix(),
            },
    {
        if lowered == "local".to_owned() {
            Ok(Environment::Local)
        } else if lowered == "production".to_owned() {
            Ok(Environment::Production)
        } else {
            Err(lowered.concat(" is not a supported environment. Use 'local' or 'production'."))
        }
    }
}

impl TryFrom<String> for Environment {
    type Error = String;

    /// Reads an environment's name, in whatever case it is written.
    fn try_from(value: String) -> (r: Result<Self, String>)
        ensures
            match r {
                Ok(environment) => Environment::named(lowercase_of(value@)) == Some(environment),
                Err(message) => Environment::named(lowercase_of(value@)) is None && message@
                    == lowercase_of(value@) + unsupported_suffix(),
            },
    {
        Environment::from_lowercase(to_lowercase(value.as_str()))
    }
}

/// The conversion is specified by the `ensures` of `try_from` itself.
impl TryFromSpecImpl<String> for Environment {
    open spec fn obeys_try_from_spec() -> bool {
        false
    }

    open spec fn try_from_spec(value: String) -> Result<Self, String> {
        arbitrary()
    }
}

} // verus!
