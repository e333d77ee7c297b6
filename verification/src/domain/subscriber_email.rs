use vstd::prelude::*;
use vstd::string::StrSliceExecFns;
use crate::domain::{is_whitespace, is_whitespace_char, build_rejection_message, rejection_message};

verus! {

/// No character of the string is whitespace.
pub open spec fn no_whitespace(s: Seq<char>) -> bool {
    forall|i: int| 0 <= i < s.len() ==> !is_whitespace_char(#[trigger] s[i])
}

/// Position `i` holds the only `@` of the string.
pub open spec fn sole_at_position(s: Seq<char>, i: int) -> bool {
    &&& 0 <= i < s.len()
    &&& s[i] == '@'
    &&& forall|j: int| 0 <= j < s.len() && j != i ==> #[trigger] s[j] != '@'
}

/// What a subscriber email must satisfy: no whitespace anywhere, and exactly
/// one `@` with a non-empty local-part before it and a non-empty domain-part
/// after it. No further structure (such as a dot in the domain) is required.
pub open spec fn email_valid(s: Seq<char>) -> bool {
    &&& no_whitespace(s)
    &&& exists|i: int| #[trigger] sole_at_position(s, i) && 0 < i < s.len() - 1
}

/// Checks validity of a new user's email.
///
/// Returns `true` if the string satisfies the email grammar, `false`
/// otherwise.
pub fn is_valid_email(email: &str) -> (r: bool)
    ensures
        r == email_valid(email@),
{
    let len: usize = email.unicode_len();
    let mut i: usize = 0;
    let mut at_pos: usize = 0;
    let mut seen_at = false;
    let mut seen_second_at = false;
    let mut seen_ws = false;
    while i < len
        invariant
            0 <= i <= len,
            len == email@.len(),
            seen_ws == exists|j: int| 0 <= j < i && is_whitespace_char(#[trigger] email@[j]),
            seen_at ==> 0 <= at_pos < i && email@[at_pos as int] == '@',
            !seen_at ==> forall|j: int| 0 <= j < i ==> #[trigger] email@[j] != '@',
            !seen_at ==> !seen_second_at,
            seen_at && !seen_second_at ==> forall|j: int|
                0 <= j < i && j != at_pos ==> #[trigger] email@[j] != '@',
            seen_second_at ==> exists|j: int|
                0 <= j < i && j != at_pos && #[trigger] email@[j] == '@',
        decreases len - i,
    {
        let c = email.get_char(i);
        if is_whitespace(c) {
            seen_ws = true;
        }
        if c == '@' {
            if !seen_at {
                seen_at = true;
                at_pos = i;
            } else {
                seen_second_at = true;
            }
        }
        i += 1;
    }
    if seen_ws || !seen_at || seen_second_at {
        proof {
            if seen_second_at {
                let j2 = choose|j: int|
                    0 <= j < len && j != at_pos && #[trigger] email@[j] == '@';
                assert forall|k: int| !(#[trigger] sole_at_position(email@, k) && 0 < k < len - 1)
                by {
                    if sole_at_position(email@, k) {
                        if k != at_pos {
                            assert(email@[at_pos as int] != '@');
                        } else {
                            assert(email@[j2] != '@');
                        }
                    }
                }
            }
        }
        return false;
    }
    let accepted = at_pos > 0 && at_pos < len - 1;
    proof {
        if accepted {
            assert(sole_at_position(email@, at_pos as int));
        } else {
            assert forall|k: int| !(#[trigger] sole_at_position(email@, k) && 0 < k < len - 1)
            by {
                if sole_at_position(email@, k) && k != at_pos {
                    assert(email@[at_pos as int] != '@');
                }
            }
        }
    }
    accepted
}

/// The error text `SubscriberEmail::parse` returns for an invalid email.
pub open spec fn email_rejection_message(value: Seq<char>) -> Seq<char> {
    rejection_message(value, "\" is not a valid subscriber email."@)
}

/// A subscriber's email address. Every instance satisfies `email_valid`:
/// `parse` is the only way to construct one, so an invalid address cannot
/// exist beyond the input boundary.
pub struct SubscriberEmail(String);

impl View for SubscriberEmail {
    type V = Seq<char>;

    closed spec fn view(&self) -> Seq<char> {
        self.0@
    }
}

impl SubscriberEmail {
    #[verifier::type_invariant]
    pub(crate) open spec fn type_inv(self) -> bool {
        email_valid(self@)
    }

    /// Checks validity of a new user's email.
    ///
    /// Returns an instance of `SubscriberEmail` holding the input unchanged
    /// if it satisfies the email grammar, and the rejection text otherwise.
    pub fn parse(email: String) -> (r: Result<SubscriberEmail, String>)
        ensures
            r is Ok <==> email_valid(email@),
            r matches Ok(e) ==> e@ == email@ && email_valid(e@),
            r matches Err(m) ==> m@ == email_rejection_message(email@),
    {
        if is_valid_email(email.as_str()) {
            Ok(SubscriberEmail(email))
        } else {
            Err(build_rejection_message(email.as_str(), "\" is not a valid subscriber email."))
        }
    }

    /// Gets the inner value of `SubscriberEmail` as `&str`: exactly the
    /// string that `parse` accepted.
    pub fn as_ref(&self) -> (r: &str)
        ensures
            r@ == self@,
    {
        self.0.as_str()
    }
}

/// Law: a string with no `@`, or with whitespace anywhere, or whose first
/// character is `@` (empty local-part), or whose last character is `@`
/// (empty domain-part), is never a valid subscriber email.
pub proof fn lemma_malformed_email_rejected(s: Seq<char>)
    requires
        ({
            ||| forall|i: int| 0 <= i < s.len() ==> #[trigger] s[i] != '@'
            ||| exists|i: int| 0 <= i < s.len() && is_whitespace_char(#[trigger] s[i])
            ||| s.len() > 0 && s[0] == '@'
            ||| s.len() > 0 && s[s.len() - 1] == '@'
        }),
    ensures
        !email_valid(s),
{
    if email_valid(s) {
        let i0 = choose|i: int| #[trigger] sole_at_position(s, i) && 0 < i < s.len() - 1;
        assert(s[i0] == '@');
        if s.len() > 0 && s[0] == '@' {
            assert(i0 == 0);
        }
        if s.len() > 0 && s[s.len() - 1] == '@' {
            assert(i0 == s.len() - 1);
        }
        assert(false);
    }
}

} // verus!
