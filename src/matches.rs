//! Matches of one string, projected out of the engine's match list.
use vstd::prelude::*;

verus! {

/// One node of the engine's match list, as read from native memory.
#[derive(Debug)]
pub struct RawMatch {
    pub offset: usize,
    pub length: usize,
    /// The bytes the engine kept for the match.
    pub data: Vec<u8>,
}

impl View for RawMatch {
    type V = (usize, usize, Seq<u8>);

    open spec fn view(&self) -> (usize, usize, Seq<u8>) {
        (self.offset, self.length, self.data@)
    }
}

/// A match within a scan.
#[derive(Debug)]
pub struct Match {
    /// Offset of the match within the scanning area.
    pub offset: usize,
    /// Length of the match. Can be useful if the matcher string has not a fixed length.
    pub length: usize,
    /// Matched data, copied out of the engine.
    pub data: Vec<u8>,
}

impl View for Match {
    type V = (usize, usize, Seq<u8>);

    open spec fn view(&self) -> (usize, usize, Seq<u8>) {
        (self.offset, self.length, self.data@)
    }
}

impl Match {
    pub fn from(m: RawMatch) -> (r: Match)
        ensures
            r@ == m@,
    {
        Match { offset: m.offset, length: m.length, data: m.data }
    }
}

/// Lazy, non-restartable walk over a match list.
pub struct MatchIterator {
    nodes: Vec<RawMatch>,
}

impl MatchIterator {
    /// The nodes not yet visited, in list order.
    pub closed spec fn remaining(&self) -> Seq<(usize, usize, Seq<u8>)> {
        self.nodes@.map_values(|m: RawMatch| m@)
    }

    pub fn from(nodes: Vec<RawMatch>) -> (r: MatchIterator)
        ensures
            r.remaining() == nodes@.map_values(|m: RawMatch| m@),
    {
        MatchIterator { nodes }
    }

    pub fn next(&mut self) -> (r: Option<Match>)
        ensures
            old(self).remaining().len() == 0 ==> r is None && final(self).remaining() == old(
                self,
            ).remaining(),
            old(self).remaining().len() > 0 ==> (r matches Some(m) && m@ == old(
                self,
            ).remaining()[0]) && final(self).remaining() == old(self).remaining().drop_first(),
    {
        if self.nodes.len() == 0 {
            return None;
        }
        let m = self.nodes.remove(0);
        proof {
            assert(self.nodes@.map_values(|m: RawMatch| m@) =~= old(self).nodes@.map_values(
                |m: RawMatch| m@,
            ).drop_first());
        }
        Some(Match::from(m))
    }

    /// Projects every remaining node, in list order.
    pub fn collect(self) -> (r: Vec<Match>)
        ensures
            r@.map_values(|m: Match| m@) == self.remaining(),
    {
        let mut it = self;
        let mut out: Vec<Match> = Vec::new();
        let ghost all = it.remaining();
        while it.nodes.len() > 0
            invariant
                out@.map_values(|m: Match| m@) + it.remaining() == all,
            decreases it.nodes@.len(),
        {
            let ghost before = it.remaining();
            let ghost prev = out@;
            let m = it.next();
            match m {
                Some(m) => {
                    out.push(m);
                    proof {
                        assert(out@.map_values(|m: Match| m@) =~= prev.map_values(|m: Match| m@)
                            + seq![before[0]]);
                        assert(before =~= seq![before[0]] + it.remaining());
                    }
                },
                None => {},
            }
        }
        proof {
            assert(out@.map_values(|m: Match| m@) =~= all);
        }
        out
    }
}

} // verus!
