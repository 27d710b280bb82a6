//! Case-insensitive substring matching on task names.
use vstd::prelude::*;

verus! {

/// What `str::to_lowercase` gives for a string.
pub uninterp spec fn lower_of(s: Seq<char>) -> Seq<char>;

/// Relies on str::to_lowercase: the result depends on the characters alone,
/// and the empty string stays empty.
#[verifier::external_body]
fn lowercase(s: &str) -> (r: String)
    ensures
        r@ == lower_of(s@),
        s@.len() == 0 ==> r@.len() == 0,
{
    s.to_lowercase()
}

/// `needle` occurs in `hay` starting at `at`.
pub open spec fn occurs_at(hay: Seq<char>, needle: Seq<char>, at: int) -> bool {
    0 <= at && at + needle.len() <= hay.len() && hay.subrange(at, at + needle.len()) == needle
}

pub open spec fn contains_seq(hay: Seq<char>, needle: Seq<char>) -> bool {
    exists|at: int| occurs_at(hay, needle, at)
}

/// A name matches a search fragment when it contains the fragment, ignoring case.
pub open spec fn name_matches(name: Seq<char>, fragment: Seq<char>) -> bool {
    contains_seq(lower_of(name), lower_of(fragment))
}

/// Whether `needle` occurs in `hay`, character for character.
pub fn contains_chars(hay: &str, needle: &str) -> (r: bool)
    ensures
        r == contains_seq(hay@, needle@),
{
    let h = hay.unicode_len();
    let n = needle.unicode_len();
    if n > h {
        assert forall|at: int| !occurs_at(hay@, needle@, at) by {}
        return false;
    }
    let mut at: usize = 0;
    while at <= h - n
        invariant
            h == hay@.len(),
            n == needle@.len(),
            n <= h,
            forall|k: int| 0 <= k < at ==> !occurs_at(hay@, needle@, k),
        decreases h - n + 1 - at,
    {
        let mut j: usize = 0;
        let mut same = true;
        while j < n
            invariant
                h == hay@.len(),
                n == needle@.len(),
                at + n <= h,
                j <= n,
                same == (forall|k: int| 0 <= k < j ==> hay@[at + k] == needle@[k]),
            decreases n - j,
        {
            if hay.get_char(at + j) != needle.get_char(j) {
                same = false;
            }
            j = j + 1;
        }
        if same {
            assert(hay@.subrange(at as int, at + n) =~= needle@);
            assert(occurs_at(hay@, needle@, at as int));
            return true;
        }
        assert(!occurs_at(hay@, needle@, at as int)) by {
            if occurs_at(hay@, needle@, at as int) {
                assert forall|k: int| 0 <= k < n implies hay@[at + k] == needle@[k] by {
                    assert(hay@.subrange(at as int, at + n)[k] == hay@[at + k]);
                }
            }
        }
        at = at + 1;
    }
    assert forall|k: int| !occurs_at(hay@, needle@, k) by {
        if k >= at {
        }
    }
    false
}

/// Whether `name` contains `fragment`, ignoring case.
pub fn matches_fragment(name: &str, fragment: &str) -> (r: bool)
    ensures
        r == name_matches(name@, fragment@),
{
    let a = lowercase(name);
    let b = lowercase(fragment);
    contains_chars(a.as_str(), b.as_str())
}

/// The pattern that asks the store for names containing `fragment`:
/// the fragment between two `%` wildcards.
pub fn like_pattern(fragment: &str) -> (r: String)
    ensures
        r@ == seq!['%'] + fragment@ + seq!['%'],
{
    let mut r = String::from_str("%");
    r.append(fragment);
    r.append("%");
    proof {
        reveal_strlit("%");
    }
    assert(r@ =~= seq!['%'] + fragment@ + seq!['%']);
    r
}

} // verus!
