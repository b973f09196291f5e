use vstd::prelude::*;

use crate::text::{chars_of, trim, trim_str};

verus! {

/// Whether character `c` may stand at position `i` of a canonical locator:
/// upper-case letters for the field and the extended subsquare pair, digits
/// for the square and the extended square, lower-case letters for the
/// subsquare.
pub open spec fn locator_char_fits(i: int, c: char) -> bool {
    if i == 2 || i == 3 || i == 6 || i == 7 {
        '0' <= c && c <= '9'
    } else if i == 4 || i == 5 {
        'a' <= c && c <= 'z'
    } else {
        'A' <= c && c <= 'Z'
    }
}

/// Whether `s` is spelled as a canonical locator: 4, 6, 8 or 10 characters
/// in the pattern `AA00aa00AA`.
pub open spec fn locator_shape(s: Seq<char>) -> bool {
    &&& (s.len() == 4 || s.len() == 6 || s.len() == 8 || s.len() == 10)
    &&& forall|i: int| 0 <= i < s.len() ==> locator_char_fits(i, #[trigger] s[i])
}

/// Whether character `c` may stand at position `i` of a canonical locator.
fn char_fits(i: usize, c: char) -> (r: bool)
    ensures
        r == locator_char_fits(i as int, c),
{
    if i == 2 || i == 3 || i == 6 || i == 7 {
        '0' <= c && c <= '9'
    } else if i == 4 || i == 5 {
        'a' <= c && c <= 'z'
    } else {
        'A' <= c && c <= 'Z'
    }
}

/// A Maidenhead grid locator in its canonical spelling, such as `JP53fi`.
#[derive(Debug, PartialEq, Eq)]
pub struct MaidenheadLocator(String);

/// The text a locator is read from: the input without surrounding
/// whitespace.
pub fn locator_input(value: &str) -> (r: String)
    ensures
        r@ == trim(value@),
{
    trim_str(value)
}

impl MaidenheadLocator {
    /// A locator only ever holds a canonically spelled grid square.
    #[verifier::type_invariant]
    spec fn canonical(self) -> bool {
        locator_shape(self.0@)
    }

    /// The locator's text.
    pub closed spec fn spec_text(&self) -> Seq<char> {
        self.0@
    }

    /// The locator spelled `canonical`, a grid square as the `maidenhead`
    /// crate writes it; `None` where the text is not in that spelling.
    pub fn from_canonical(canonical: String) -> (r: Option<MaidenheadLocator>)
        ensures
            r is Some <==> locator_shape(canonical@),
            r matches Some(l) ==> l.spec_text() == canonical@,
    {
        let cs = chars_of(canonical.as_str());
        let n = cs.len();
        if !(n == 4 || n == 6 || n == 8 || n == 10) {
            return None;
        }
        let mut i: usize = 0;
        while i < n
            invariant
                n == cs.len(),
                cs@ == canonical@,
                i <= n,
                forall|j: int| 0 <= j < i ==> locator_char_fits(j, #[trigger] cs@[j]),
            decreases n - i,
        {
            if !char_fits(i, cs[i]) {
                return None;
            }
            i = i + 1;
        }
        Some(MaidenheadLocator(canonical))
    }

    /// The locator's text, which is always canonically spelled.
    pub fn as_str(&self) -> (r: &str)
        ensures
            r@ == self.spec_text(),
            locator_shape(r@),
    {
        proof {
            use_type_invariant(self);
        }
        self.0.as_str()
    }

    /// The locator's text, as it is displayed.
    pub fn to_string(&self) -> (r: String)
        ensures
            r@ == self.spec_text(),
            locator_shape(r@),
    {
        proof {
            use_type_invariant(self);
        }
        self.0.clone()
    }
}

impl Clone for MaidenheadLocator {
    /// A copy of the locator, with the same text.
    fn clone(&self) -> (r: Self)
        ensures
            r.spec_text() == self.spec_text(),
    {
        proof {
            use_type_invariant(self);
        }
        MaidenheadLocator(self.0.clone())
    }
}

} // verus!
