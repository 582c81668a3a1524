//! Qualified names.

use vstd::prelude::*;
use vstd::std_specs::cmp::PartialEqSpecImpl;

verus! {

/// Fully qualified path of a symbol, e.g. `std::vec::Vec`: the ordered
/// segments of its module, type and item nesting.
///
/// Its view is the sequence of its segments, each a sequence of characters.
#[derive(Debug)]
pub struct Path(pub Vec<String>);

impl View for Path {
    type V = Seq<Seq<char>>;

    open spec fn view(&self) -> Seq<Seq<char>> {
        crate::model::views(self.0@)
    }
}

impl Clone for Path {
    fn clone(&self) -> (out: Path)
        ensures
            out@ == self@,
    {
        let segments = self.0.clone();
        proof {
            assert(crate::model::views(segments@) =~= self@);
        }
        Path(segments)
    }
}

impl PartialEq for Path {
    fn eq(&self, other: &Path) -> (same: bool) {
        if self.0.len() != other.0.len() {
            proof {
                assert(self@.len() != other@.len());
            }
            return false;
        }
        let mut i: usize = 0;
        while i < self.0.len()
            invariant
                i <= self.0.len(),
                self.0.len() == other.0.len(),
                self@.take(i as int) == other@.take(i as int),
            decreases self.0.len() - i,
        {
            if self.0[i] != other.0[i] {
                proof {
                    assert(self@[i as int] != other@[i as int]);
                }
                return false;
            }
            proof {
                assert(self@.take(i + 1) =~= self@.take(i as int).push(self@[i as int]));
                assert(other@.take(i + 1) =~= other@.take(i as int).push(other@[i as int]));
            }
            i += 1;
        }
        proof {
            assert(self@.take(self.0.len() as int) =~= self@);
            assert(other@.take(self.0.len() as int) =~= other@);
        }
        true
    }
}

impl PartialEqSpecImpl for Path {
    open spec fn obeys_eq_spec() -> bool {
        true
    }

    open spec fn eq_spec(&self, other: &Path) -> bool {
        self@ == other@
    }
}

impl Eq for Path {

}

impl Path {
    /// Create an empty path.
    pub fn empty() -> (out: Path)
        ensures
            out@ == Seq::<Seq<char>>::empty(),
    {
        let out = Path(Vec::new());
        proof {
            assert(out@ =~= Seq::<Seq<char>>::empty());
        }
        out
    }

    /// Convert to string representation with "::" separator.
    pub fn to_string(&self) -> (out: String)
        ensures
            out@ == crate::text::joined(self@, "::"@),
    {
        crate::text::join(&self.0, "::")
    }

    /// Convert to a flattened identifier with "___" separator.
    pub fn to_ident(&self) -> (out: String)
        ensures
            out@ == crate::text::joined(self@, "___"@),
    {
        crate::text::join(&self.0, "___")
    }

    /// Parse from a string representation with "::" separator. The path
    /// has at least one segment, and renders as the text it was parsed from.
    pub fn from_str(s: &str) -> (out: Path)
        ensures
            out@ == crate::text::split_parts(s@, "::"@),
            out@.len() > 0,
            crate::text::joined(out@, "::"@) == s@,
    {
        proof {
            crate::text::split_then_joined(s@, "::"@);
        }
        Path(crate::text::split(s, "::"))
    }

    /// Append one segment to this path.
    pub fn join(self, seg: String) -> (out: Path)
        ensures
            out@ == self@.push(seg@),
    {
        let mut segments = self.0;
        segments.push(seg);
        let out = Path(segments);
        proof {
            assert(out@ =~= self@.push(seg@));
        }
        out
    }
}

/// Copies every path of `paths`.
pub fn clone_paths(paths: &Vec<Path>) -> (out: Vec<Path>)
    ensures
        crate::model::views(out@) == crate::model::views(paths@),
{
    let out = paths.clone();
    proof {
        assert(crate::model::views(out@) =~= crate::model::views(paths@));
    }
    out
}

} // verus!
