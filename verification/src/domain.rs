//! Domain value types for the subscription intake: a validated subscriber
//! name, a validated subscriber email, and the aggregate of the two.
use vstd::prelude::*;

verus! {

/// Characters that may never occur in a subscriber name.
pub open spec fn is_forbidden_char(c: char) -> bool {
    c == '/' || c == '(' || c == ')' || c == '"' || c == '<' || c == '>' || c == '\\'
        || c == '{' || c == '}'
}

/// The Unicode white-space characters, the set that `str::trim` strips.
pub open spec fn is_space_char(c: char) -> bool {
    let u = c as u32;
    (0x09 <= u && u <= 0x0D) || u == 0x20 || u == 0x85 || u == 0xA0 || u == 0x1680 || (0x2000
        <= u && u <= 0x200A) || u == 0x2028 || u == 0x2029 || u == 0x202F || u == 0x205F || u
        == 0x3000
}

/// A string is empty after trimming exactly when every character is white space
/// (vacuously, when it is empty).
pub open spec fn is_whitespace_only(s: Seq<char>) -> bool {
    forall|i: int| 0 <= i < s.len() ==> is_space_char(s[i])
}

pub open spec fn has_forbidden_char(s: Seq<char>) -> bool {
    exists|i: int| 0 <= i < s.len() && is_forbidden_char(s[i])
}

/// The number of extended grapheme clusters (user-perceived characters) in a
/// string; determined by its characters alone.
pub uninterp spec fn grapheme_clusters(s: Seq<char>) -> nat;

/// A subscriber name is valid when it is not blank, spans at most 256
/// user-perceived characters, and contains no forbidden character.
pub open spec fn is_valid_name(s: Seq<char>) -> bool {
    &&& !is_whitespace_only(s)
    &&& grapheme_clusters(s) <= 256
    &&& !has_forbidden_char(s)
}

/// Relies on `unicode_segmentation::UnicodeSegmentation::graphemes` with the
/// extended grapheme definition: the count of grapheme clusters of the input.
#[verifier::external_body]
fn grapheme_count(s: &str) -> (n: usize)
    ensures
        n as nat == grapheme_clusters(s@),
{
    unicode_segmentation::UnicodeSegmentation::graphemes(s, true).count()
}

fn space_char(c: char) -> (b: bool)
    ensures
        b == is_space_char(c),
{
    let u = c as u32;
    (0x09 <= u && u <= 0x0D) || u == 0x20 || u == 0x85 || u == 0xA0 || u == 0x1680 || (0x2000
        <= u && u <= 0x200A) || u == 0x2028 || u == 0x2029 || u == 0x202F || u == 0x205F || u
        == 0x3000
}

fn forbidden_char(c: char) -> (b: bool)
    ensures
        b == is_forbidden_char(c),
{
    c == '/' || c == '(' || c == ')' || c == '"' || c == '<' || c == '>' || c == '\\'
        || c == '{' || c == '}'
}

fn whitespace_only(s: &str) -> (b: bool)
    ensures
        b == is_whitespace_only(s@),
{
    let len = s.unicode_len();
    let mut i: usize = 0;
    while i < len
        invariant
            len == s@.len(),
            0 <= i <= len,
            forall|j: int| 0 <= j < i ==> is_space_char(s@[j]),
        decreases len - i,
    {
        let c = s.get_char(i);
        if !space_char(c) {
            assert(!is_space_char(s@[i as int]));
            return false;
        }
        i += 1;
    }
    true
}

fn contains_forbidden(s: &str) -> (b: bool)
    ensures
        b == has_forbidden_char(s@),
{
    let len = s.unicode_len();
    let mut i: usize = 0;
    while i < len
        invariant
            len == s@.len(),
            0 <= i <= len,
            forall|j: int| 0 <= j < i ==> !is_forbidden_char(s@[j]),
        decreases len - i,
    {
        let c = s.get_char(i);
        if forbidden_char(c) {
            assert(is_forbidden_char(s@[i as int]));
            return true;
        }
        i += 1;
    }
    false
}

/// A validated subscriber display name; once constructed it stays valid.
#[derive(Debug)]
pub struct SubscriberName(String);

impl View for SubscriberName {
    type V = Seq<char>;

    closed spec fn view(&self) -> Seq<char> {
        self.0@
    }
}

impl SubscriberName {
    /// Returns a `SubscriberName` exactly when the input satisfies all the
    /// validation constraints on subscriber names, and otherwise an error
    /// message naming the offending input.
    pub fn parse(s: String) -> (r: Result<SubscriberName, String>)
        ensures
            match r {
                Ok(name) => is_valid_name(s@) && name@ == s@,
                Err(m) => !is_valid_name(s@) && m@ == s@ + " is not a valid subscriber name."@,
            },
    {
        let is_empty_or_whitespace = whitespace_only(s.as_str());
        let is_too_long = grapheme_count(s.as_str()) > 256;
        let contains_forbidden_characters = contains_forbidden(s.as_str());
        if is_empty_or_whitespace || is_too_long || contains_forbidden_characters {
            let mut m = s;
            m.append(" is not a valid subscriber name.");
            Err(m)
        } else {
            Ok(SubscriberName(s))
        }
    }

    /// A read-only view of the wrapped string.
    pub fn as_ref(&self) -> (r: &str)
        ensures
            r@ == self@,
    {
        self.0.as_str()
    }
}

pub open spec fn count_char(s: Seq<char>, c: char) -> int
    decreases s.len(),
{
    if s.len() == 0 {
        0
    } else {
        count_char(s.drop_last(), c) + if s.last() == c {
            1int
        } else {
            0int
        }
    }
}

/// A subscriber email is valid when it contains exactly one `@`, neither at
/// the first nor at the last position, and no white-space character.
pub open spec fn is_valid_email(s: Seq<char>) -> bool {
    &&& s.len() >= 3
    &&& count_char(s, '@') == 1
    &&& s[0] != '@'
    &&& s[s.len() - 1] != '@'
    &&& forall|i: int| 0 <= i < s.len() ==> !is_space_char(s[i])
}

proof fn lemma_count_char_extend(s: Seq<char>, i: int, c: char)
    requires
        0 <= i < s.len(),
    ensures
        count_char(s.subrange(0, i + 1), c) == count_char(s.subrange(0, i), c) + if s[i] == c {
            1int
        } else {
            0int
        },
{
    let pre = s.subrange(0, i + 1);
    assert(pre.drop_last() =~= s.subrange(0, i));
    assert(pre.last() == s[i]);
}

fn email_shape_ok(s: &str) -> (b: bool)
    ensures
        b == is_valid_email(s@),
{
    let len = s.unicode_len();
    if len < 3 {
        return false;
    }
    let mut i: usize = 0;
    let mut ats: usize = 0;
    while i < len
        invariant
            len == s@.len(),
            0 <= i <= len,
            ats == count_char(s@.subrange(0, i as int), '@'),
            ats <= i,
            forall|j: int| 0 <= j < i ==> !is_space_char(s@[j]),
        decreases len - i,
    {
        let c = s.get_char(i);
        if space_char(c) {
            assert(is_space_char(s@[i as int]));
            return false;
        }
        proof {
            lemma_count_char_extend(s@, i as int, '@');
        }
        if c == '@' {
            ats += 1;
        }
        i += 1;
    }
    assert(s@.subrange(0, len as int) =~= s@);
    ats == 1 && s.get_char(0) != '@' && s.get_char(len - 1) != '@'
}

/// A validated subscriber email address; once constructed it stays valid.
#[derive(Debug)]
pub struct SubscriberEmail(String);

impl View for SubscriberEmail {
    type V = Seq<char>;

    closed spec fn view(&self) -> Seq<char> {
        self.0@
    }
}

impl SubscriberEmail {
    /// Returns a `SubscriberEmail` exactly when the input is a syntactically
    /// valid address, and otherwise an error message naming the offending
    /// input.
    pub fn parse(s: String) -> (r: Result<SubscriberEmail, String>)
        ensures
            match r {
                Ok(email) => is_valid_email(s@) && email@ == s@,
                Err(m) => !is_valid_email(s@) && m@ == s@
                    + " is not a valid subscriber email."@,
            },
    {
        if email_shape_ok(s.as_str()) {
            Ok(SubscriberEmail(s))
        } else {
            let mut m = s;
            m.append(" is not a valid subscriber email.");
            Err(m)
        }
    }

    /// A read-only view of the wrapped string.
    pub fn as_ref(&self) -> (r: &str)
        ensures
            r@ == self@,
    {
        self.0.as_str()
    }
}

/// A registration request that has passed validation.
#[derive(Debug)]
pub struct NewSubscriber {
    pub email: SubscriberEmail,
    pub name: SubscriberName,
}

/// The raw two-field submission as it arrives at the boundary.
pub struct FormData {
    pub email: String,
    pub name: String,
}

impl NewSubscriber {
    /// Validates a raw submission, name first, then email; returns the
    /// aggregate exactly when both parts are valid.
    pub fn try_from(value: FormData) -> (r: Result<NewSubscriber, String>)
        ensures
            match r {
                Ok(n) => is_valid_name(value.name@) && is_valid_email(value.email@) && n.name@
                    == value.name@ && n.email@ == value.email@,
                Err(m) => (!is_valid_name(value.name@) || !is_valid_email(value.email@)) && if
                    !is_valid_name(value.name@) {
                    m@ == value.name@ + " is not a valid subscriber name."@
                } else {
                    m@ == value.email@ + " is not a valid subscriber email."@
                },
            },
    {
        let name = match SubscriberName::parse(value.name) {
            Ok(n) => n,
            Err(m) => {
                return Err(m);
            },
        };
        let email = match SubscriberEmail::parse(value.email) {
            Ok(e) => e,
            Err(m) => {
                return Err(m);
            },
        };
        Ok(NewSubscriber { email, name })
    }
}

} // verus!
