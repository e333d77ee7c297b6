use vstd::prelude::*;
use vstd::string::StrSliceExecFns;
use unicode_segmentation::UnicodeSegmentation;

pub mod subscriber_email;

pub use subscriber_email::SubscriberEmail;

verus! {

/// Maximum number of extended grapheme clusters allowed in a subscriber name.
pub const MAX_NAME_LEN: usize = 256;

/// The Unicode `White_Space` characters, by code point. This is the set that
/// `str::trim` strips, so "trimmed form is empty" means "every character is
/// in this set".
pub open spec fn is_whitespace_char(c: char) -> bool {
    let n = c as u32;
    ||| (0x09 <= n && n <= 0x0D)
    ||| n == 0x20
    ||| n == 0x85
    ||| n == 0xA0
    ||| n == 0x1680
    ||| (0x2000 <= n && n <= 0x200A)
    ||| n == 0x2028
    ||| n == 0x2029
    ||| n == 0x202F
    ||| n == 0x205F
    ||| n == 0x3000
}

/// The characters a subscriber name must not contain.
pub open spec fn is_forbidden_char(c: char) -> bool {
    ||| c == '/'
    ||| c == '('
    ||| c == ')'
    ||| c == '"'
    ||| c == '<'
    ||| c == '>'
    ||| c == '\\'
    ||| c == '{'
    ||| c == '}'
}

/// A string is blank when every character is whitespace; trimming such a
/// string leaves nothing. The empty string is blank.
pub open spec fn is_blank(s: Seq<char>) -> bool {
    forall|i: int| 0 <= i < s.len() ==> is_whitespace_char(#[trigger] s[i])
}

/// Whether any character of the string is in the forbidden set.
pub open spec fn has_forbidden_char(s: Seq<char>) -> bool {
    exists|i: int| 0 <= i < s.len() && is_forbidden_char(#[trigger] s[i])
}

pub(crate) fn is_whitespace(c: char) -> (r: bool)
    ensures
        r == is_whitespace_char(c),
{
    let n = c as u32;
    (0x09 <= n && n <= 0x0D) || n == 0x20 || n == 0x85 || n == 0xA0 || n == 0x1680 || (0x2000 <= n
        && n <= 0x200A) || n == 0x2028 || n == 0x2029 || n == 0x202F || n == 0x205F || n == 0x3000
}

fn is_forbidden(c: char) -> (r: bool)
    ensures
        r == is_forbidden_char(c),
{
    c == '/' || c == '(' || c == ')' || c == '"' || c == '<' || c == '>' || c == '\\' || c == '{'
        || c == '}'
}

fn blank(s: &str) -> (r: bool)
    ensures
        r == is_blank(s@),
{
    let len: usize = s.unicode_len();
    let mut i: usize = 0;
    while i < len
        invariant
            0 <= i <= len,
            len == s@.len(),
            forall|j: int| 0 <= j < i ==> is_whitespace_char(#[trigger] s@[j]),
        decreases len - i,
    {
        let c = s.get_char(i);
        if !is_whitespace(c) {
            return false;
        }
        i += 1;
    }
    true
}

fn contains_forbidden(s: &str) -> (r: bool)
    ensures
        r == has_forbidden_char(s@),
{
    let len: usize = s.unicode_len();
    let mut i: usize = 0;
    while i < len
        invariant
            0 <= i <= len,
            len == s@.len(),
            forall|j: int| 0 <= j < i ==> !is_forbidden_char(#[trigger] s@[j]),
        decreases len - i,
    {
        let c = s.get_char(i);
        if is_forbidden(c) {
            return true;
        }
        i += 1;
    }
    false
}

/// How many extended grapheme clusters a string breaks into. Left abstract:
/// segmentation is pinned down by Unicode, not restated here.
pub uninterp spec fn grapheme_count(s: Seq<char>) -> nat;

/// Relies on unicode_segmentation's `graphemes` (and the iterator's `count`):
/// the extended grapheme clusters of a string are a function of its
/// characters alone.
#[verifier::external_body]
fn count_graphemes(s: &str) -> (n: usize)
    ensures
        n == grapheme_count(s@),
{
    s.graphemes(true).count()
}

/// What a subscriber name must satisfy: not blank, at most `MAX_NAME_LEN`
/// grapheme clusters, and no forbidden character.
pub open spec fn name_valid(s: Seq<char>) -> bool {
    &&& !is_blank(s)
    &&& grapheme_count(s) <= MAX_NAME_LEN
    &&& !has_forbidden_char(s)
}

/// Checks validity of a new user's name.
///
/// Returns `true` if all input validation constraints are satisfied,
/// `false` otherwise.
pub fn is_valid_name(name: &str) -> (r: bool)
    ensures
        r == name_valid(name@),
{
    let is_empty_or_whitespace = blank(name);
    let is_too_long = count_graphemes(name) > MAX_NAME_LEN;
    let contains_a_forbidden_character = contains_forbidden(name);
    !(is_empty_or_whitespace || is_too_long || contains_a_forbidden_character)
}

/// The text of a rejection: the offending value in double quotes, then the
/// reason.
pub open spec fn rejection_message(value: Seq<char>, reason: Seq<char>) -> Seq<char> {
    "\""@ + value + reason
}

/// Builds `rejection_message(value@, reason@)`: the offending value in double
/// quotes followed by the reason (the reason starts with the closing quote).
pub(crate) fn build_rejection_message(value: &str, reason: &str) -> (r: String)
    ensures
        r@ == rejection_message(value@, reason@),
{
    let mut m: String = "\"".to_owned();
    m.append(value);
    m.append(reason);
    m
}

/// The error text `SubscriberName::parse` returns for an invalid name.
pub open spec fn name_rejection_message(value: Seq<char>) -> Seq<char> {
    rejection_message(value, "\" is not a valid subscriber name."@)
}

/// A subscriber's display name. Every instance satisfies `name_valid`:
/// `parse` is the only way to construct one, so an invalid name cannot
/// exist beyond the input boundary.
pub struct SubscriberName(String);

impl View for SubscriberName {
    type V = Seq<char>;

    closed spec fn view(&self) -> Seq<char> {
        self.0@
    }
}

impl SubscriberName {
    #[verifier::type_invariant]
    pub(crate) open spec fn type_inv(self) -> bool {
        name_valid(self@)
    }

    /// Checks validity of a new user's name.
    ///
    /// Returns an instance of `SubscriberName` holding the input unchanged
    /// (no trimming, no normalization) if all validation constraints are
    /// satisfied, and the rejection text otherwise.
    pub fn parse(name: String) -> (r: Result<SubscriberName, String>)
        ensures
            r is Ok <==> name_valid(name@),
            r matches Ok(n) ==> n@ == name@ && name_valid(n@),
            r matches Err(e) ==> e@ == name_rejection_message(name@),
    {
        if !is_valid_name(name.as_str()) {
            Err(build_rejection_message(name.as_str(), "\" is not a valid subscriber name."))
        } else {
            Ok(SubscriberName(name))
        }
    }

    /// Gets the inner value of `SubscriberName` as `&str`: exactly the string
    /// that `parse` accepted.
    pub fn as_ref(&self) -> (r: &str)
        ensures
            r@ == self@,
    {
        self.0.as_str()
    }
}

/// A new subscriber: the only form in which a subscriber exists beyond the
/// input boundary. Both fields are validated value types, so no unvalidated
/// pair can be assembled into one.
pub struct NewSubscriber {
    pub email: SubscriberEmail,
    pub name: SubscriberName,
}

/// Law: a string containing any forbidden character is never a valid
/// subscriber name, whatever else it contains.
pub proof fn lemma_forbidden_char_rejected(s: Seq<char>)
    requires
        exists|i: int| 0 <= i < s.len() && is_forbidden_char(#[trigger] s[i]),
    ensures
        !name_valid(s),
{
}

/// Law: a string whose trimmed form is empty (every character whitespace,
/// including the empty string) is never a valid subscriber name.
pub proof fn lemma_blank_name_rejected(s: Seq<char>)
    requires
        is_blank(s),
    ensures
        !name_valid(s),
{
}

} // verus!
