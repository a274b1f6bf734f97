//! The payload carried in each frame: a mapping from text keys to unsigned
//! integers, held as a key-sorted list of entries.

use vstd::prelude::*;

verus! {

/// Lexicographic order on character sequences, by unicode scalar value.
///
/// For the keys that reach the wire this coincides with the byte order of
/// their UTF-8 encodings, which is the order the serializer emits map
/// entries in.
pub open spec fn str_lt(a: Seq<char>, b: Seq<char>) -> bool
    decreases a.len(),
{
    if b.len() == 0 {
        false
    } else if a.len() == 0 {
        true
    } else if a[0] == b[0] {
        str_lt(a.drop_first(), b.drop_first())
    } else {
        (a[0] as u32) < (b[0] as u32)
    }
}

/// Entry lists whose keys are strictly increasing: each key occurs once and
/// the list is in the order the wire format uses.
pub open spec fn entries_sorted(s: Seq<(Seq<char>, u64)>) -> bool {
    forall|i: int, j: int| 0 <= i < j < s.len() ==> #[trigger] str_lt(s[i].0, s[j].0)
}

/// One decodable item: a mapping from text keys to unsigned integers.
#[derive(Debug)]
pub struct Record {
    pub fields: Vec<(String, u64)>,
}

impl View for Record {
    type V = Seq<(Seq<char>, u64)>;

    open spec fn view(&self) -> Seq<(Seq<char>, u64)> {
        self.fields@.map_values(|p: (String, u64)| (p.0@, p.1))
    }
}

impl Record {
    /// A record in the canonical form the wire produces: keys strictly
    /// sorted, so each key occurs at most once.
    pub open spec fn wf(self) -> bool {
        entries_sorted(self@)
    }
}

} // verus!
