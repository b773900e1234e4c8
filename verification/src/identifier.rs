//! Stable string identifiers naming declared values across images.

use vstd::prelude::*;
use vstd::string::*;

verus! {

/// Compares two string slices character by character.
fn str_eq(a: &str, b: &str) -> (r: bool)
    ensures
        r == (a@ == b@),
{
    let a_len = a.unicode_len();
    let b_len = b.unicode_len();
    if a_len != b_len {
        return false;
    }
    let mut i: usize = 0;
    while i < a_len
        invariant
            a_len == a@.len(),
            b_len == b@.len(),
            a_len == b_len,
            i <= a_len,
            forall|j: int| 0 <= j < i ==> a@[j] == b@[j],
        decreases a_len - i,
    {
        if a.get_char(i) != b.get_char(i) {
            return false;
        }
        i += 1;
    }
    proof {
        assert(a@ =~= b@);
    }
    true
}

/// The stable key uniquely naming one declared value across all images.
///
/// Two identifiers are equal exactly when their strings are equal,
/// regardless of which image constructed them; they are never compared by
/// address.  Distinct declarations must produce distinct strings — the
/// declaration surface guarantees this, the registries cannot detect a
/// collision.
pub struct Identifier {
    text: String,
}

impl View for Identifier {
    type V = Seq<char>;

    closed spec fn view(&self) -> Seq<char> {
        self.text@
    }
}

impl Identifier {
    /// Builds the identifier for a declaration from its name, its value-type
    /// description and its declaring module path, most specific first, so
    /// that comparisons between unequal identifiers fail early.
    pub fn new(name: &str, type_desc: &str, path: &str) -> (id: Identifier)
        ensures
            id@ == name@ + type_desc@ + path@,
    {
        Identifier { text: String::from_str(name).concat(type_desc).concat(path) }
    }

    /// Wraps an already assembled identifier string, as handed across the
    /// image boundary.
    pub fn from_text(text: String) -> (id: Identifier)
        ensures
            id@ == text@,
    {
        Identifier { text }
    }

    /// The identifier's string.
    pub fn as_text(&self) -> (t: &str)
        ensures
            t@ == self@,
    {
        self.text.as_str()
    }
}

impl Clone for Identifier {
    fn clone(&self) -> (r: Self)
        ensures
            r@ == self@,
    {
        Identifier { text: String::from_str(self.text.as_str()) }
    }
}

impl PartialEq for Identifier {
    fn eq(&self, other: &Self) -> (r: bool) {
        str_eq(self.text.as_str(), other.text.as_str())
    }
}

impl Eq for Identifier {

}

impl vstd::std_specs::cmp::PartialEqSpecImpl for Identifier {
    open spec fn obeys_eq_spec() -> bool {
        true
    }

    open spec fn eq_spec(&self, other: &Self) -> bool {
        self@ == other@
    }
}

} // verus!
