use vstd::prelude::*;
use vstd::string::{StrSliceExecFns, StringExecFns};

verus! {

/// The application's listening address, as configuration hands it over.
pub struct ApplicationSettings {
    pub host: String,
    pub port: u16,
}

/// The ASCII uppercase letters folded to lowercase; every other code point
/// is left as it is.
pub open spec fn lower_code(n: u32) -> u32 {
    if 65 <= n && n <= 90 {
        (n + 32) as u32
    } else {
        n
    }
}

/// Whether `s` spells the (lowercase) keyword `k`, comparing ASCII letters
/// case-insensitively.
pub open spec fn matches_keyword(s: Seq<char>, k: Seq<char>) -> bool {
    s.len() == k.len() && forall|i: int|
        0 <= i < s.len() ==> lower_code(#[trigger] s[i] as u32) == k[i] as u32
}

fn ascii_lower_code(c: char) -> (n: u32)
    ensures
        n == lower_code(c as u32),
{
    let n = c as u32;
    if 65 <= n && n <= 90 {
        n + 32
    } else {
        n
    }
}

fn eq_keyword(s: &str, k: &str) -> (r: bool)
    ensures
        r == matches_keyword(s@, k@),
{
    let sl: usize = s.unicode_len();
    let kl: usize = k.unicode_len();
    if sl != kl {
        return false;
    }
    let mut i: usize = 0;
    while i < sl
        invariant
            0 <= i <= sl,
            sl == s@.len(),
            sl == k@.len(),
            forall|j: int| 0 <= j < i ==> lower_code(#[trigger] s@[j] as u32) == k@[j] as u32,
        decreases sl - i,
    {
        let sc = ascii_lower_code(s.get_char(i));
        let kc = k.get_char(i) as u32;
        if sc != kc {
            return false;
        }
        i += 1;
    }
    true
}

/// Possible runtime environments for the application.
pub enum Environment {
    Local,
    Production,
}

/// The error text `Environment::try_from` returns for an unsupported value.
pub open spec fn environment_rejection_message(value: Seq<char>) -> Seq<char> {
    "'"@ + value
        + "' is not a supported environment. Supported environments are 'local' and 'production'."@
}

impl Environment {
    /// Convert `Environment` into a string slice.
    pub fn as_str(&self) -> (r: &'static str)
        ensures
            self is Local ==> r@ == "local"@,
            self is Production ==> r@ == "production"@,
    {
        match self {
            Environment::Local => "local",
            Environment::Production => "production",
        }
    }

    /// Reads an environment name, accepting ASCII case variants of "local"
    /// and "production" and rejecting everything else.
    pub fn try_from(value: String) -> (r: Result<Environment, String>)
        ensures
            r matches Ok(e) ==> ((e is Local && matches_keyword(value@, "local"@)) || (e
                is Production && matches_keyword(value@, "production"@))),
            r is Err <==> !matches_keyword(value@, "local"@) && !matches_keyword(
                value@,
                "production"@,
            ),
            r matches Err(m) ==> m@ == environment_rejection_message(value@),
    {
        if eq_keyword(value.as_str(), "local") {
            Ok(Environment::Local)
        } else if eq_keyword(value.as_str(), "production") {
            Ok(Environment::Production)
        } else {
            let mut m: String = "'".to_owned();
            m.append(value.as_str());
            m.append(
                "' is not a supported environment. Supported environments are 'local' and 'production'.",
            );
            Err(m)
        }
    }
}

} // verus!
