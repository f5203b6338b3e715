use vstd::prelude::*;
use crate::text::text_eq;

verus! {

/// The deployment the service runs in, named in upper case ("DEV", "PROD", "TEST").
#[derive(Clone, Copy, Debug, PartialEq, Eq, Structural)]
pub enum Environment {
    Dev,
    Prod,
    Test,
}

impl Environment {
    /// The upper-case name of the environment.
    pub open spec fn spec_name(self) -> Seq<char> {
        match self {
            Environment::Dev => "DEV"@,
            Environment::Prod => "PROD"@,
            Environment::Test => "TEST"@,
        }
    }

    /// The environment whose name is exactly the text, if any.
    pub fn from_name(s: &str) -> (r: Option<Environment>)
        ensures
            match r {
                Some(e) => e.spec_name() == s@,
                None => s@ != "DEV"@ && s@ != "PROD"@ && s@ != "TEST"@,
            },
    {
        if text_eq(s, "DEV") {
            Some(Environment::Dev)
        } else if text_eq(s, "PROD") {
            Some(Environment::Prod)
        } else if text_eq(s, "TEST") {
            Some(Environment::Test)
        } else {
            None
        }
    }

    /// The environment that the setting of `ENV` selects: "DEV" when unset, and `Dev` for
    /// a name that is not an environment's.
    pub fn from_setting(setting: Option<String>) -> (r: Environment)
        ensures
            match setting {
                Some(s) => if s@ == "PROD"@ {
                    r == Environment::Prod
                } else if s@ == "TEST"@ {
                    r == Environment::Test
                } else {
                    r == Environment::Dev
                },
                None => r == Environment::Dev,
            },
    {
        proof {
            reveal_strlit("DEV");
            reveal_strlit("PROD");
            reveal_strlit("TEST");
            assert("DEV"@.len() == 3 && "PROD"@[0] == 'P' && "TEST"@[0] == 'T');
        }
        let name = match setting {
            Some(s) => s,
            None => crate::text::text("DEV"),
        };
        match Environment::from_name(name.as_str()) {
            Some(e) => e,
            None => Environment::Dev,
        }
    }

    /// The database address to use: none is needed under test (the empty text), the
    /// configured one otherwise (absent when `MONGO_URI` is unset).
    pub fn database_uri(&self, configured: Option<String>) -> (r: Option<String>)
        ensures
            *self == Environment::Test ==> (r matches Some(u) && u@.len() == 0),
            *self != Environment::Test ==> r == configured,
    {
        match self {
            Environment::Test => Some(String::new()),
            _ => configured,
        }
    }
}

} // verus!
