//! The access-control gate.
//!
//! In sharer mode an allowlist of peer-identifier fragments is supplied at
//! startup. An inbound peer identifier (its textual form, held here as
//! bytes) is accepted iff the list is empty (accept-all) or some entry of
//! the list occurs as a substring of the identifier.

use vstd::prelude::*;

verus! {

/// `pat` occurs in `hay` starting at position `i`.
pub open spec fn is_match_at(hay: Seq<u8>, pat: Seq<u8>, i: int) -> bool {
    &&& 0 <= i
    &&& i + pat.len() <= hay.len()
    &&& forall|j: int| 0 <= j < pat.len() ==> hay[i + j] == #[trigger] pat[j]
}

/// `pat` occurs somewhere in `hay`.
pub open spec fn contains_pattern(hay: Seq<u8>, pat: Seq<u8>) -> bool {
    exists|i: int| is_match_at(hay, pat, i)
}

/// An allowlist accepts a peer identifier iff it is empty or some entry
/// occurs as a substring of the identifier.
pub open spec fn acl_accepts(acl: Seq<Seq<u8>>, peer: Seq<u8>) -> bool {
    acl.len() == 0 || exists|k: int| 0 <= k < acl.len() && contains_pattern(peer, #[trigger] acl[k])
}

/// Whether `pat` occurs in `hay` at exactly position `i`.
fn match_at(hay: &Vec<u8>, pat: &Vec<u8>, i: usize) -> (r: bool)
    requires
        i + pat@.len() <= hay@.len(),
    ensures
        r == is_match_at(hay@, pat@, i as int),
{
    let n = hay.len();
    let mut j: usize = 0;
    while j < pat.len()
        invariant
            n == hay@.len(),
            i + pat@.len() <= hay@.len(),
            j <= pat@.len(),
            forall|k: int| 0 <= k < j ==> hay@[i + k] == #[trigger] pat@[k],
        decreases pat@.len() - j,
    {
        if hay[i + j] != pat[j] {
            return false;
        }
        j += 1;
    }
    true
}

/// Substring search: whether `pat` occurs anywhere in `hay`.
pub fn contains_substring(hay: &Vec<u8>, pat: &Vec<u8>) -> (r: bool)
    ensures
        r == contains_pattern(hay@, pat@),
{
    if pat.len() == 0 {
        assert(is_match_at(hay@, pat@, 0));
        return true;
    }
    if pat.len() > hay.len() {
        assert(forall|i: int| !is_match_at(hay@, pat@, i));
        return false;
    }
    let n = hay.len();
    let last = n - pat.len();
    let mut i: usize = 0;
    while i <= last
        invariant
            n == hay@.len(),
            0 < pat@.len() <= hay@.len(),
            last == hay@.len() - pat@.len(),
            i <= last + 1,
            forall|m: int| 0 <= m < i ==> !is_match_at(hay@, pat@, m),
        decreases last + 1 - i,
    {
        if match_at(hay, pat, i) {
            return true;
        }
        i += 1;
    }
    assert forall|m: int| !is_match_at(hay@, pat@, m) by {
        if 0 <= m < i {
            assert(!is_match_at(hay@, pat@, m));
        }
    }
    false
}

/// The allowlist of peer-identifier fragments configured at startup in
/// sharer mode. Empty means accept-all.
#[derive(Clone)]
pub struct AccessControlList {
    entries: Vec<Vec<u8>>,
}

impl View for AccessControlList {
    type V = Seq<Seq<u8>>;

    closed spec fn view(&self) -> Seq<Seq<u8>> {
        self.entries.deep_view()
    }
}

impl AccessControlList {
    /// Build the allowlist from the entries supplied at startup.
    pub fn new(entries: Vec<Vec<u8>>) -> (r: AccessControlList)
        ensures
            r@ == entries.deep_view(),
    {
        AccessControlList { entries }
    }

    /// An empty list accepts every peer (logged by the caller as a
    /// security warning).
    pub fn is_empty(&self) -> (r: bool)
        ensures
            r == (self@.len() == 0),
    {
        self.entries.len() == 0
    }

    /// The authorization decision: accept iff the list is empty or some
    /// entry is a substring of the peer identifier.
    pub fn accepts(&self, peer: &Vec<u8>) -> (r: bool)
        ensures
            r == acl_accepts(self@, peer@),
    {
        if self.entries.len() == 0 {
            return true;
        }
        let mut k: usize = 0;
        while k < self.entries.len()
            invariant
                self@.len() == self.entries@.len(),
                k <= self.entries@.len(),
                forall|m: int| 0 <= m < k ==> !contains_pattern(peer@, #[trigger] self@[m]),
            decreases self.entries@.len() - k,
        {
            assert(self@[k as int] == self.entries@[k as int]@);
            if contains_substring(peer, &self.entries[k]) {
                return true;
            }
            k += 1;
        }
        false
    }
}

} // verus!
