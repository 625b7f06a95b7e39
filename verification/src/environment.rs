//! The runtime environment a configuration is resolved for, named by the
//! `APP_ENVIRONMENT` variable: `local` or `production`, case-insensitively;
//! every other name is refused rather than silently defaulted.

use vstd::prelude::*;

use crate::text::eq_ignore_ascii_case;
use crate::text::lower;
use crate::text::lower_char;
use crate::text::string_from_chars;
use crate::text::to_lower_char;
use vstd::string::StringExecFns;

verus! {

/// The environment the service runs in.
#[derive(Clone, Copy, PartialEq, Eq, Structural, Debug)]
pub enum Environment {
    Local,
    Production,
}

/// The canonical, lower-case name of an environment; the environment-specific
/// configuration source is named after it.
pub open spec fn spec_env_name(e: Environment) -> Seq<char> {
    match e {
        Environment::Local => "local"@,
        Environment::Production => "production"@,
    }
}

/// The two canonical environment names are already lower-case.
proof fn lemma_canonical_names_lower()
    ensures
        lower("local"@) == "local"@,
        lower("production"@) == "production"@,
        "local"@ != "production"@,
{
    reveal_strlit("local");
    reveal_strlit("production");
    assert("local"@.len() != "production"@.len());
    assert(lower("local"@) =~= "local"@);
    assert(lower("production"@) =~= "production"@);
}

/// The message reported for an unsupported environment name: the name in
/// lower case followed by the fixed suffix.
pub open spec fn spec_unsupported_env_message(name: Seq<char>) -> Seq<char> {
    lower(name) + " is not supported env"@
}

/// Renders the unsupported-environment message for the given name.
fn unsupported_env_message(s: &str) -> (r: String)
    ensures
        r@ == spec_unsupported_env_message(s@),
{
    let len = s.unicode_len();
    let mut chars: Vec<char> = Vec::new();
    let mut i: usize = 0;
    while i < len
        invariant
            i <= len == s@.len(),
            chars@.len() == i,
            forall|j: int| 0 <= j < i ==> chars@[j] == lower_char(s@[j]),
        decreases len - i,
    {
        chars.push(to_lower_char(s.get_char(i)));
        i = i + 1;
    }
    proof {
        assert(chars@ =~= lower(s@));
    }
    let lowered = string_from_chars(&chars);
    lowered.concat(" is not supported env")
}

impl Environment {
    /// The canonical name of this environment.
    pub fn as_str(&self) -> (r: &'static str)
        ensures
            r@ == spec_env_name(*self),
    {
        match self {
            Environment::Local => "local",
            Environment::Production => "production",
        }
    }

    /// Parses an environment name, ignoring ASCII case. A name that is
    /// neither `local` nor `production` is refused with an error message
    /// naming it in lower case.
    pub fn try_from(s: &str) -> (r: Result<Environment, String>)
        ensures
            r is Ok <==> (lower(s@) == "local"@ || lower(s@) == "production"@),
            r == Ok::<Environment, String>(Environment::Local) <==> lower(s@) == "local"@,
            r == Ok::<Environment, String>(Environment::Production) <==> lower(s@)
                == "production"@,
            r is Err ==> r->Err_0@ == spec_unsupported_env_message(s@),
    {
        proof {
            lemma_canonical_names_lower();
        }
        if eq_ignore_ascii_case(s, "local") {
            Ok(Environment::Local)
        } else if eq_ignore_ascii_case(s, "production") {
            Ok(Environment::Production)
        } else {
            Err(unsupported_env_message(s))
        }
    }
}

} // verus!
