//! Strings of a rule and their matches, projected out of the engine's
//! string array.
//!
//! The array ends with an entry flagged as the terminator. The engine keeps
//! one match list per string for each scanning thread, indexed by the
//! thread's engine-assigned index.
use vstd::prelude::*;

use crate::matches::{MatchIterator, Match, RawMatch};
use crate::yara_sys::STRING_GFLAGS_NULL;

verus! {

/// One entry of the engine's string array, as read from native memory.
#[derive(Debug)]
pub struct RawString {
    pub g_flags: u32,
    /// Name of the string, with the '$'.
    pub identifier: String,
    /// One match list per thread slot.
    pub matches: Vec<Vec<RawMatch>>,
}

/// Whether a flag set marks the entry that ends the array.
pub open spec fn is_terminator(g_flags: u32) -> bool {
    g_flags & STRING_GFLAGS_NULL != 0
}

/// The entries before the terminator.
pub open spec fn string_entries(s: Seq<RawString>) -> Seq<RawString>
    decreases s.len(),
{
    if s.len() == 0 || is_terminator(s[0].g_flags) {
        seq![]
    } else {
        seq![s[0]] + string_entries(s.drop_first())
    }
}

/// Whether every entry has a match list for thread slot `tidx`.
pub open spec fn has_slot(s: Seq<RawString>, tidx: int) -> bool {
    forall|i: int| 0 <= i < s.len() ==> tidx < #[trigger] s[i].matches@.len()
}

/// A string as seen from thread slot `tidx`: its name and that slot's matches.
pub open spec fn string_model(s: RawString, tidx: int) -> (Seq<char>, Seq<(usize, usize, Seq<u8>)>) {
    (s.identifier@, s.matches@[tidx]@.map_values(|m: RawMatch| m@))
}

/// A matcher string of a rule, with its matches for the scan.
#[derive(Debug)]
pub struct YrString {
    /// Name of the string, with the '$'.
    pub identifier: String,
    /// Matches of the string for the scan.
    pub matches: Vec<Match>,
}

impl View for YrString {
    type V = (Seq<char>, Seq<(usize, usize, Seq<u8>)>);

    open spec fn view(&self) -> (Seq<char>, Seq<(usize, usize, Seq<u8>)>) {
        (self.identifier@, self.matches@.map_values(|m: Match| m@))
    }
}

impl YrString {
    /// Projects a string with the matches of thread slot `tidx`.
    pub fn from(string: RawString, tidx: usize) -> (r: YrString)
        requires
            tidx < string.matches@.len(),
        ensures
            r@ == string_model(string, tidx as int),
    {
        let mut slots = string.matches;
        let slot = slots.remove(tidx);
        let matches = MatchIterator::from(slot).collect();
        YrString { identifier: string.identifier, matches }
    }
}

/// Lazy, non-restartable walk over a string array, seen from one thread slot.
pub struct YrStringIterator {
    strings: Vec<RawString>,
    tidx: usize,
}

impl YrStringIterator {
    pub closed spec fn tidx(&self) -> int {
        self.tidx as int
    }

    /// The strings not yet visited, in array order.
    pub closed spec fn remaining(&self) -> Seq<(Seq<char>, Seq<(usize, usize, Seq<u8>)>)> {
        string_entries(self.strings@).map_values(|s: RawString| string_model(s, self.tidx as int))
    }

    pub closed spec fn inv(&self) -> bool {
        has_slot(string_entries(self.strings@), self.tidx as int)
    }

    pub fn from(strings: Vec<RawString>, tidx: usize) -> (r: YrStringIterator)
        requires
            has_slot(string_entries(strings@), tidx as int),
        ensures
            r.inv(),
            r.tidx() == tidx,
            r.remaining() == string_entries(strings@).map_values(
                |s: RawString| string_model(s, tidx as int),
            ),
    {
        YrStringIterator { strings, tidx }
    }

    pub fn next(&mut self) -> (r: Option<YrString>)
        requires
            old(self).inv(),
        ensures
            final(self).inv(),
            final(self).tidx() == old(self).tidx(),
            old(self).remaining().len() == 0 ==> r is None && final(self).remaining().len()
                == 0,
            old(self).remaining().len() > 0 ==> (r matches Some(s) && s@ == old(
                self,
            ).remaining()[0]) && final(self).remaining() == old(self).remaining().drop_first(),
    {
        if self.strings.len() == 0 {
            return None;
        }
        if self.strings[0].g_flags & STRING_GFLAGS_NULL != 0 {
            self.strings = Vec::new();
            proof {
                assert(string_entries(self.strings@) =~= seq![]);
            }
            return None;
        }
        let s = self.strings.remove(0);
        proof {
            let o = old(self).strings@;
            assert(o.drop_first() =~= self.strings@);
            assert(string_entries(o) =~= seq![o[0]] + string_entries(o.drop_first()));
            assert(string_entries(o)[0] == s);
            assert(self.remaining() =~= old(self).remaining().drop_first());
            assert forall|i: int| 0 <= i < string_entries(self.strings@).len() implies self.tidx
                < #[trigger] string_entries(self.strings@)[i].matches@.len() by {
                assert(string_entries(self.strings@)[i] == string_entries(o)[i + 1]);
            }
        }
        Some(YrString::from(s, self.tidx))
    }

    /// Projects every remaining string, in array order.
    pub fn collect(self) -> (r: Vec<YrString>)
        requires
            self.inv(),
        ensures
            r@.map_values(|s: YrString| s@) == self.remaining(),
    {
        let mut it = self;
        let mut out: Vec<YrString> = Vec::new();
        let ghost all = it.remaining();
        loop
            invariant
                it.inv(),
                out@.map_values(|s: YrString| s@) + it.remaining() == all,
                all == self.remaining(),
            decreases it.remaining().len(),
        {
            let ghost before = it.remaining();
            let ghost prev = out@;
            match it.next() {
                Some(s) => {
                    out.push(s);
                    proof {
                        assert(out@.map_values(|s: YrString| s@) =~= prev.map_values(
                            |s: YrString| s@,
                        ) + seq![before[0]]);
                        assert(before =~= seq![before[0]] + it.remaining());
                    }
                },
                None => {
                    proof {
                        assert(out@.map_values(|s: YrString| s@) =~= all);
                    }
                    return out;
                },
            }
        }
    }
}

} // verus!
