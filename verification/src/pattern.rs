//! Byte patterns with wildcards, and the signature scan that locates them.
//!
//! A pattern is an ordered sequence of cells; each cell either requires one
//! exact byte value or is a wildcard that matches any byte.  Scanning finds
//! the first offset of a byte range at which every non-wildcard cell
//! matches; a single mismatch anywhere means that offset is rejected.

use vstd::prelude::*;

verus! {

/// A byte pattern: cell values `0..=255` must match that byte exactly,
/// `-1` is a wildcard.
pub struct Pattern {
    cells: Vec<i16>,
}

/// Whether every cell of `pat` is an admissible pattern cell.
pub open spec fn cells_wf(cells: Seq<i16>) -> bool {
    forall|j: int| 0 <= j < cells.len() ==> -1 <= #[trigger] cells[j] <= 255
}

/// Whether `pat` matches `hay` at offset `i`: the pattern fits and every
/// non-wildcard cell equals the corresponding byte.
pub open spec fn matches_at(hay: Seq<u8>, pat: Seq<i16>, i: int) -> bool {
    &&& 0 <= i
    &&& i + pat.len() <= hay.len()
    &&& forall|j: int| 0 <= j < pat.len() && #[trigger] pat[j] >= 0 ==> hay[i + j] == pat[j]
}

/// The first offset at or after `i` where `pat` matches `hay`, if any.
pub open spec fn first_match_from(hay: Seq<u8>, pat: Seq<i16>, i: int) -> Option<int>
    decreases hay.len() - i,
{
    if i < 0 || i + pat.len() > hay.len() {
        None
    } else if matches_at(hay, pat, i) {
        Some(i)
    } else {
        first_match_from(hay, pat, i + 1)
    }
}

/// The first offset where `pat` matches `hay`, if any.
pub open spec fn first_match(hay: Seq<u8>, pat: Seq<i16>) -> Option<int> {
    first_match_from(hay, pat, 0)
}

/// The first match is a match, and no smaller offset matches; and where
/// there is no first match, no offset matches at all.
pub proof fn lemma_first_match_correct(hay: Seq<u8>, pat: Seq<i16>, i: int)
    requires
        0 <= i <= hay.len(),
    ensures
        match first_match_from(hay, pat, i) {
            Some(m) => matches_at(hay, pat, m) && i <= m && forall|k: int|
                i <= k < m ==> !matches_at(hay, pat, k),
            None => forall|k: int| k >= i ==> !matches_at(hay, pat, k),
        },
    decreases hay.len() - i,
{
    if i + pat.len() > hay.len() {
        assert forall|k: int| k >= i implies !matches_at(hay, pat, k) by {}
    } else if matches_at(hay, pat, i) {
    } else {
        lemma_first_match_correct(hay, pat, i + 1);
    }
}

impl Pattern {
    /// The pattern's cells.
    pub closed spec fn view(&self) -> Seq<i16> {
        self.cells@
    }

    /// Build a pattern directly from its cells; any negative cell is a
    /// wildcard.  (A cell above 255 can never match any byte; use
    /// [`Pattern::from_cells`] to reject such cells.)
    pub fn new(cells: Vec<i16>) -> (r: Pattern)
        ensures
            r@ == cells@,
    {
        Pattern { cells }
    }

    /// Build a pattern from its cells: `0..=255` are exact bytes, `-1` is
    /// a wildcard.  Rejects any cell outside those values.
    pub fn from_cells(cells: Vec<i16>) -> (r: Option<Pattern>)
        ensures
            match r {
                Some(p) => p@ == cells@ && cells_wf(cells@),
                None => !cells_wf(cells@),
            },
    {
        let n = cells.len();
        let mut j: usize = 0;
        while j < n
            invariant
                n == cells@.len(),
                0 <= j <= n,
                forall|k: int| 0 <= k < j ==> -1 <= #[trigger] cells@[k] <= 255,
            decreases n - j,
        {
            let c = cells[j];
            if c < -1 || c > 255 {
                return None;
            }
            j += 1;
        }
        Some(Pattern { cells })
    }

    /// The number of cells.
    pub fn len(&self) -> (r: usize)
        ensures
            r == self@.len(),
    {
        self.cells.len()
    }

    /// Scan `hay` for the first offset at which this pattern matches.
    pub fn scan(&self, hay: &[u8]) -> (r: Option<usize>)
        ensures
            match r {
                Some(m) => first_match(hay@, self@) == Some(m as int),
                None => first_match(hay@, self@) is None,
            },
    {
        let n = hay.len();
        let plen = self.cells.len();
        if plen > n {
            return None;
        }
        let mut i: usize = 0;
        while i <= n - plen
            invariant
                n == hay@.len(),
                plen == self@.len(),
                plen <= n,
                0 <= i <= n - plen + 1,
                first_match(hay@, self@) == first_match_from(hay@, self@, i as int),
            decreases n - plen - i + 1,
        {
            let mut j: usize = 0;
            let mut ok: bool = true;
            while j < plen
                invariant
                    n == hay@.len(),
                    plen == self@.len(),
                    plen <= n,
                    0 <= i <= n - plen,
                    0 <= j <= plen,
                    ok == (forall|k: int| 0 <= k < j && #[trigger] self@[k] >= 0
                        ==> hay@[i + k] == self@[k]),
                decreases plen - j,
            {
                let c = self.cells[j];
                if c >= 0 && (hay[i + j] as i16) != c {
                    ok = false;
                    j = plen;
                } else {
                    j += 1;
                }
            }
            if ok {
                assert(matches_at(hay@, self@, i as int));
                return Some(i);
            }
            assert(!matches_at(hay@, self@, i as int));
            i += 1;
        }
        assert(first_match_from(hay@, self@, i as int) is None);
        None
    }
}

} // verus!
