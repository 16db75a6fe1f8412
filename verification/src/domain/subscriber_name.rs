use crate::domain::validation::{ValidationError, ValidationRule};
use unicode_segmentation::UnicodeSegmentation;
use vstd::prelude::*;
use vstd::std_specs::cmp::PartialEqSpecImpl;

verus! {

/// The most grapheme clusters a subscriber's name may have.
pub const MAX_NAME_GRAPHEMES: usize = 256;

/// The characters that carry the Unicode `White_Space` property.
pub open spec fn is_white_space(c: char) -> bool {
    let n = c as u32;
    ||| 0x09 <= n <= 0x0D
    ||| n == 0x20
    ||| n == 0x85
    ||| n == 0xA0
    ||| n == 0x1680
    ||| 0x2000 <= n <= 0x200A
    ||| n == 0x2028
    ||| n == 0x2029
    ||| n == 0x202F
    ||| n == 0x205F
    ||| n == 0x3000
}

/// The characters that no subscriber's name may hold:
/// `/ ( ) " < > \ { } [ ]`.
pub open spec fn is_forbidden(c: char) -> bool {
    ||| c == '/'
    ||| c == '('
    ||| c == ')'
    ||| c == '"'
    ||| c == '<'
    ||| c == '>'
    ||| c == '\\'
    ||| c == '{'
    ||| c == '}'
    ||| c == '['
    ||| c == ']'
}

/// A text is blank when it holds nothing but white space; the empty text is blank.
pub open spec fn is_blank(s: Seq<char>) -> bool {
    forall|i: int| 0 <= i < s.len() ==> is_white_space(#[trigger] s[i])
}

/// A text has a forbidden character when one stands at some position of it.
pub open spec fn has_forbidden(s: Seq<char>) -> bool {
    exists|i: int| 0 <= i < s.len() && is_forbidden(#[trigger] s[i])
}

/// The number of extended grapheme clusters that a text falls into.
pub uninterp spec fn grapheme_count(s: Seq<char>) -> nat;

/// The first rule that a name of `graphemes` grapheme clusters breaks, if it
/// breaks any: blankness is looked at first, then the length, then the
/// characters.
pub open spec fn name_fault(s: Seq<char>, graphemes: nat) -> Option<ValidationRule> {
    if is_blank(s) {
        Some(ValidationRule::BlankName)
    } else if graphemes > MAX_NAME_GRAPHEMES {
        Some(ValidationRule::NameTooLong)
    } else if has_forbidden(s) {
        Some(ValidationRule::ForbiddenCharacter)
    } else {
        None
    }
}

/// What makes a text a subscriber's name: it is not blank, has at most 256
/// grapheme clusters and none of the forbidden characters.
pub open spec fn valid_name(s: Seq<char>) -> bool {
    &&& !is_blank(s)
    &&& grapheme_count(s) <= MAX_NAME_GRAPHEMES
    &&& !has_forbidden(s)
}

/// Whether `c` is white space.
pub fn is_whitespace_char(c: char) -> (r: bool)
    ensures
        r == is_white_space(c),
{
    let n: u32 = c as u32;
    (0x09 <= n && n <= 0x0D) || n == 0x20 || n == 0x85 || n == 0xA0 || n == 0x1680 || (0x2000 <= n
        && n <= 0x200A) || n == 0x2028 || n == 0x2029 || n == 0x202F || n == 0x205F || n == 0x3000
}

/// Whether `c` is one of the forbidden characters.
pub fn is_forbidden_char(c: char) -> (r: bool)
    ensures
        r == is_forbidden(c),
{
    c == '/' || c == '(' || c == ')' || c == '"' || c == '<' || c == '>' || c == '\\' || c == '{'
        || c == '}' || c == '[' || c == ']'
}

/// Whether `s` is empty or made of white space only.
pub fn is_blank_text(s: &str) -> (r: bool)
    ensures
        r == is_blank(s@),
{
    let mut blank = true;
    for c in it: s.chars()
        invariant
            it.seq() == s@,
            blank == is_blank(s@.take(it.index() as int)),
    {
        proof {
            // What is read after this step is what was read before it, then `c`.
            let before = s@.take(it.index() as int);
            let after = s@.take(it.index() + 1);
            assert(after[it.index() as int] == c);
            assert(forall|i: int| 0 <= i < before.len() ==> before[i] == after[i]);
        }
        blank = blank && is_whitespace_char(c);
    }
    proof {
        assert(s@.take(s@.len() as int) == s@);
    }
    blank
}

/// Whether one of the forbidden characters stands in `s`.
pub fn contains_forbidden(s: &str) -> (r: bool)
    ensures
        r == has_forbidden(s@),
{
    let mut found = false;
    for c in it: s.chars()
        invariant
            it.seq() == s@,
            found == has_forbidden(s@.take(it.index() as int)),
    {
        proof {
            // What is read after this step is what was read before it, then `c`.
            let before = s@.take(it.index() as int);
            let after = s@.take(it.index() + 1);
            assert(after[it.index() as int] == c);
            assert(forall|i: int| 0 <= i < before.len() ==> before[i] == after[i]);
            if has_forbidden(after) && !is_forbidden(c) {
                let k = choose|k: int| 0 <= k < after.len() && is_forbidden(#[trigger] after[k]);
                assert(is_forbidden(before[k]));
            }
        }
        found = found || is_forbidden_char(c);
    }
    proof {
        assert(s@.take(s@.len() as int) == s@);
    }
    found
}

/// Counts the extended grapheme clusters of `s` with
/// `unicode_segmentation::UnicodeSegmentation::graphemes`. The count is taken
/// on trust. So is its bound: every cluster that the iterator hands out is a
/// slice of `s` that is not empty, and the slices do not overlap, so there are
/// no more clusters than characters.
#[verifier::external_body]
pub(crate) fn count_graphemes(s: &str) -> (n: usize)
    ensures
        n == grapheme_count(s@),
        n <= s@.len(),
{
    s.graphemes(true).count()
}

/// The first rule that `s` breaks as a name, given the number of its grapheme
/// clusters; `None` where it breaks none.
pub fn check_name(s: &str, graphemes: usize) -> (fault: Option<ValidationRule>)
    ensures
        fault == name_fault(s@, graphemes as nat),
{
    if is_blank_text(s) {
        Some(ValidationRule::BlankName)
    } else if graphemes > MAX_NAME_GRAPHEMES {
        Some(ValidationRule::NameTooLong)
    } else if contains_forbidden(s) {
        Some(ValidationRule::ForbiddenCharacter)
    } else {
        None
    }
}

/// The name of a subscriber: a text that met `valid_name` when it was parsed.
/// There is no other way to make one.
#[derive(Debug)]
pub struct SubscriberName(String);

impl Clone for SubscriberName {
    fn clone(&self) -> (copy: Self)
        ensures
            copy@ == self@,
    {
        proof {
            use_type_invariant(self);
        }
        SubscriberName(self.0.clone())
    }
}

impl View for SubscriberName {
    type V = Seq<char>;

    closed spec fn view(&self) -> Seq<char> {
        self.0@
    }
}

impl PartialEq for SubscriberName {
    fn eq(&self, other: &Self) -> (same: bool) {
        self.0 == other.0
    }
}

impl Eq for SubscriberName {

}

/// Two values are equal when their texts are.
impl PartialEqSpecImpl for SubscriberName {
    open spec fn obeys_eq_spec() -> bool {
        true
    }

    open spec fn eq_spec(&self, other: &Self) -> bool {
        self@ == other@
    }
}

impl SubscriberName {
    /// What holds of every name that a program can have in its hands.
    #[verifier::type_invariant]
    pub open spec fn is_valid(self) -> bool {
        valid_name(self@)
    }

    /// Accepts `s` as a name where it is valid, and keeps it as it is.
    /// Otherwise the error names the first rule that `s` breaks, and `s`.
    pub fn parse(s: String) -> (r: Result<SubscriberName, ValidationError>)
        ensures
            r is Ok <==> valid_name(s@),
            s@.len() <= MAX_NAME_GRAPHEMES && !is_blank(s@) && !has_forbidden(s@) ==> r is Ok,
            match r {
                Ok(name) => name@ == s@,
                Err(e) => Some(e.rule) == name_fault(s@, grapheme_count(s@)) && e.input@ == s@,
            },
    {
        let graphemes = count_graphemes(s.as_str());
        match check_name(s.as_str(), graphemes) {
            None => Ok(SubscriberName(s)),
            Some(rule) => Err(ValidationError { rule, input: s }),
        }
    }

}

impl AsRef<str> for SubscriberName {
    /// The name as text.
    fn as_ref(&self) -> (s: &str)
        ensures
            s@ == self@,
            valid_name(s@),
    {
        proof {
            use_type_invariant(self);
        }
        self.0.as_str()
    }
}

} // verus!
