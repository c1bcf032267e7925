use vstd::prelude::*;
use vstd::string::StrSliceExecFns;

verus! {

/// Whether two strings hold the same characters.
pub fn same_text(a: &str, b: &str) -> (r: bool)
    ensures
        r == (a@ == b@),
{
    let n = a.unicode_len();
    if n != b.unicode_len() {
        return false;
    }
    let mut i: usize = 0;
    while i < n
        invariant
            n == a@.len(),
            n == b@.len(),
            i <= n,
            forall|j: int| 0 <= j < i ==> a@[j] == b@[j],
        decreases n - i,
    {
        if a.get_char(i) != b.get_char(i) {
            return false;
        }
        i += 1;
    }
    assert(a@ =~= b@);
    true
}


/// How a visual theme lays out its particles at start.
#[derive(Clone, Copy, Debug, PartialEq, Eq, Structural)]
pub enum SpawnPattern {
    /// Random angles on an annulus, scaled to the screen's aspect ratio.
    Ring,
    /// Uniform over a tall rectangle above and below the viewport.
    Snow,
    /// Every particle at the origin, at zero depth.
    Origin,
}

/// Directory name of the theme whose particles form a ring.
pub open spec fn ring_name() -> Seq<char> {
    "Circle"@
}

/// Directory name of the theme whose particles fall like snow.
pub open spec fn snow_name() -> Seq<char> {
    "SnowyCircle"@
}

/// The particle layout that a theme name selects.
pub open spec fn pattern_for(name: Seq<char>) -> SpawnPattern {
    if name == ring_name() {
        SpawnPattern::Ring
    } else if name == snow_name() {
        SpawnPattern::Snow
    } else {
        SpawnPattern::Origin
    }
}

/// Resolves a theme name to its particle layout, once, at start.
pub fn pattern_of(name: &str) -> (r: SpawnPattern)
    ensures
        r == pattern_for(name@),
{
    if same_text(name, "Circle") {
        SpawnPattern::Ring
    } else if same_text(name, "SnowyCircle") {
        SpawnPattern::Snow
    } else {
        SpawnPattern::Origin
    }
}

/// Whether `name` is one of `names`.
pub open spec fn lists_name(names: Seq<String>, name: Seq<char>) -> bool {
    exists|i: int| 0 <= i < names.len() && #[trigger] names[i]@ == name
}

/// Whether `name` is among the discovered theme names.
pub fn is_known_variant(names: &Vec<String>, name: &str) -> (r: bool)
    ensures
        r == lists_name(names@, name@),
{
    let mut i: usize = 0;
    while i < names.len()
        invariant
            i <= names@.len(),
            forall|j: int| 0 <= j < i ==> #[trigger] names@[j]@ != name@,
        decreases names@.len() - i,
    {
        if same_text(names[i].as_str(), name) {
            return true;
        }
        i += 1;
    }
    false
}

} // verus!
