//! Authentication types.

use vstd::prelude::*;
use vstd::string::*;

use crate::text::lower;
use crate::text::lowered;
use crate::text::same;

verus! {

/// How the client authenticates with the master and the workers.
#[derive(Debug, Clone, Copy, PartialEq, Eq, Structural, Hash)]
pub enum AuthType {
    /// No authentication.
    NoSasl,
    /// PLAIN SASL with a user name.
    Simple,
}

impl Default for AuthType {
    fn default() -> (r: Self)
        ensures
            r == AuthType::Simple,
    {
        AuthType::Simple
    }
}

/// The authentication type that `s` names, in any case of its letters.
pub open spec fn auth_type_named(s: Seq<char>) -> Option<AuthType> {
    if lowered(s) == "nosasl"@ {
        Some(AuthType::NoSasl)
    } else if lowered(s) == "simple"@ {
        Some(AuthType::Simple)
    } else {
        None
    }
}

impl AuthType {
    /// The authentication type that `s` names, in any case of its letters.
    pub fn parse_name(s: &str) -> (r: Result<AuthType, String>)
        ensures
            match auth_type_named(s@) {
                Some(t) => r == Ok::<AuthType, String>(t),
                None => r matches Err(e) && e@ == "unknown authentication type '"@ + s@ + "'"@,
            },
    {
        let l = lower(s);
        proof {
            reveal_strlit("nosasl");
            reveal_strlit("simple");
            assert("nosasl"@[0] != "simple"@[0]);
        }
        if same(l.as_str(), "nosasl") {
            Ok(AuthType::NoSasl)
        } else if same(l.as_str(), "simple") {
            Ok(AuthType::Simple)
        } else {
            let mut e = String::new();
            e.append("unknown authentication type '");
            e.append(s);
            e.append("'");
            proof {
                assert(e@ =~= "unknown authentication type '"@ + s@ + "'"@);
            }
            Err(e)
        }
    }
}

impl std::str::FromStr for AuthType {
    type Err = String;

    fn from_str(s: &str) -> (r: Result<Self, String>)
        ensures
            match auth_type_named(s@) {
                Some(t) => r == Ok::<AuthType, String>(t),
                None => r matches Err(e) && e@ == "unknown authentication type '"@ + s@ + "'"@,
            },
    {
        AuthType::parse_name(s)
    }
}

} // verus!
