//! Compiled rule sets and the rules they report as matching.
use vstd::prelude::*;
use vstd::utf8::{decode_utf8, valid_utf8};

use crate::errors::{engine_failure, yara_result, Error, IoError, IoErrorKind, YaraError};
use crate::meta::{meta_entries, metadata_model, MetadataIterator, RawMeta};
use crate::stream::StreamBridge;
use crate::string::{has_slot, string_entries, string_model, RawString, YrString, YrStringIterator};

verus! {

/// Index of the first NUL byte of `b` at or after `i`, or the length of `b`.
pub open spec fn nul_from(b: Seq<u8>, i: int) -> int
    decreases b.len() - i,
{
    if i >= b.len() || b[i] == 0 {
        i
    } else {
        nul_from(b, i + 1)
    }
}

pub proof fn lemma_nul_from_bounds(b: Seq<u8>, i: int)
    requires
        0 <= i <= b.len(),
    ensures
        i <= nul_from(b, i) <= b.len(),
        nul_from(b, i) < b.len() ==> b[nul_from(b, i)] == 0,
    decreases b.len() - i,
{
    if i < b.len() && b[i] != 0 {
        lemma_nul_from_bounds(b, i + 1);
    }
}

/// The tags packed in `b` from position `i`: NUL-terminated names, the
/// list itself ending at an empty name (or at the end of the buffer).
pub open spec fn tags_from(b: Seq<u8>, i: int) -> Seq<Seq<u8>>
    decreases b.len() - i via tags_from_decreases
{
    if i < 0 || i >= b.len() || b[i] == 0 {
        seq![]
    } else if nul_from(b, i) >= b.len() {
        seq![b.subrange(i, b.len() as int)]
    } else {
        seq![b.subrange(i, nul_from(b, i))] + tags_from(b, nul_from(b, i) + 1)
    }
}

#[via_fn]
pub proof fn tags_from_decreases(b: Seq<u8>, i: int) {
    if !(i < 0 || i >= b.len() || b[i] == 0) {
        lemma_nul_from_bounds(b, i);
    }
}

/// Relies on `String::from_utf8`: it succeeds exactly on valid UTF-8 and
/// then holds the characters those bytes encode.
#[verifier::external_body]
fn string_from_utf8(bytes: Vec<u8>) -> (r: Option<String>)
    ensures
        r is Some == valid_utf8(bytes@),
        r matches Some(s) ==> s@ == decode_utf8(bytes@),
{
    String::from_utf8(bytes).ok()
}

/// Lazy, non-restartable walk over a packed tag buffer.
pub struct TagIterator {
    buf: Vec<u8>,
    pos: usize,
}

impl TagIterator {
    pub closed spec fn remaining(&self) -> Seq<Seq<u8>> {
        tags_from(self.buf@, self.pos as int)
    }

    pub fn from(buf: Vec<u8>) -> (r: TagIterator)
        ensures
            r.remaining() == tags_from(buf@, 0),
    {
        TagIterator { buf, pos: 0 }
    }

    pub fn next(&mut self) -> (r: Option<Vec<u8>>)
        ensures
            old(self).remaining().len() == 0 ==> r is None && final(self).remaining().len()
                == 0,
            old(self).remaining().len() > 0 ==> (r matches Some(t) && t@ == old(
                self,
            ).remaining()[0]) && final(self).remaining() == old(self).remaining().drop_first(),
    {
        let len = self.buf.len();
        if self.pos >= len || self.buf[self.pos] == 0 {
            return None;
        }
        let ghost b = self.buf@;
        let start = self.pos;
        let mut j: usize = start;
        let mut tag: Vec<u8> = Vec::new();
        while j < len && self.buf[j] != 0
            invariant
                b == self.buf@,
                len == b.len(),
                start <= j <= len,
                start < len,
                nul_from(b, start as int) == nul_from(b, j as int),
                tag@ == b.subrange(start as int, j as int),
            decreases len - j,
        {
            tag.push(self.buf[j]);
            proof {
                assert(tag@ =~= b.subrange(start as int, j + 1));
            }
            j = j + 1;
        }
        proof {
            assert(nul_from(b, j as int) == j);
            if j < len {
                assert(tags_from(b, start as int) == seq![tag@] + tags_from(b, j + 1));
            } else {
                assert(tags_from(b, start as int) == seq![tag@]);
            }
        }
        if j < len {
            self.pos = j + 1;
        } else {
            self.pos = len;
        }
        proof {
            assert(self.remaining() =~= old(self).remaining().drop_first());
        }
        Some(tag)
    }
}

/// Whether every tag packed in `b` is valid UTF-8.
pub open spec fn tags_are_text(b: Seq<u8>) -> bool {
    forall|k: int| 0 <= k < tags_from(b, 0).len() ==> valid_utf8(#[trigger] tags_from(b, 0)[k])
}

/// The tag names packed in `b`.
pub open spec fn tag_names(b: Seq<u8>) -> Seq<Seq<char>> {
    tags_from(b, 0).map_values(|t: Seq<u8>| decode_utf8(t))
}

/// Decodes every tag packed in `buf`; `None` when one is not UTF-8.
pub fn decode_tags(buf: Vec<u8>) -> (r: Option<Vec<String>>)
    ensures
        r is Some == tags_are_text(buf@),
        r matches Some(v) ==> v@.map_values(|s: String| s@) == tag_names(buf@),
{
    let ghost all = tags_from(buf@, 0);
    let mut it = TagIterator::from(buf);
    let mut out: Vec<String> = Vec::new();
    loop
        invariant
            all == tags_from(buf@, 0),
            all.len() == out@.len() + it.remaining().len(),
            it.remaining() == all.subrange(out@.len() as int, all.len() as int),
            forall|k: int| 0 <= k < out@.len() ==> valid_utf8(#[trigger] all[k]),
            out@.map_values(|s: String| s@) == all.subrange(0, out@.len() as int).map_values(
                |t: Seq<u8>| decode_utf8(t),
            ),
        decreases it.remaining().len(),
    {
        let ghost prev = out@;
        let ghost before = it.remaining();
        match it.next() {
            None => {
                proof {
                    assert(all.subrange(0, out@.len() as int) =~= all);
                }
                return Some(out);
            },
            Some(tag) => {
                let ghost k = out@.len() as int;
                assert(tag@ == all[k]);
                match string_from_utf8(tag) {
                    None => {
                        return None;
                    },
                    Some(s) => {
                        out.push(s);
                        proof {
                            assert(out@.map_values(|s: String| s@) =~= prev.map_values(
                                |s: String| s@,
                            ).push(decode_utf8(all[k])));
                            assert(it.remaining() =~= all.subrange(k + 1, all.len() as int));
                            assert(out@.map_values(|s: String| s@) =~= all.subrange(
                                0,
                                k + 1,
                            ).map_values(|t: Seq<u8>| decode_utf8(t)));
                        }
                    },
                }
            },
        }
    }
}

/// Type of the value in a [`Metadata`].
#[derive(Debug)]
pub enum MetadataValue {
    Integer(i64),
    String(String),
    Boolean(bool),
}

/// The mathematical value of a [`MetadataValue`].
pub enum MetadataValueModel {
    Integer(i64),
    Text(Seq<char>),
    Boolean(bool),
}

impl View for MetadataValue {
    type V = MetadataValueModel;

    open spec fn view(&self) -> MetadataValueModel {
        match self {
            MetadataValue::Integer(i) => MetadataValueModel::Integer(*i),
            MetadataValue::String(s) => MetadataValueModel::Text(s@),
            MetadataValue::Boolean(b) => MetadataValueModel::Boolean(*b),
        }
    }
}

/// Metadata specified in a rule.
#[derive(Debug)]
pub struct Metadata {
    pub identifier: String,
    pub value: MetadataValue,
}

impl View for Metadata {
    type V = (Seq<char>, MetadataValueModel);

    open spec fn view(&self) -> (Seq<char>, MetadataValueModel) {
        (self.identifier@, self.value@)
    }
}


/// A matched rule as reported by the engine, read from native memory.
#[derive(Debug)]
pub struct RawRule {
    pub identifier: String,
    pub namespace: String,
    /// Packed tag buffer: NUL-terminated names, ended by an empty name.
    pub tags: Vec<u8>,
    /// Metadata array, ended by a terminator entry.
    pub metas: Vec<RawMeta>,
    /// String array, ended by a terminator entry.
    pub strings: Vec<RawString>,
}

/// What a matched rule is, seen from thread slot `tidx`.
pub type RuleModel = (
    Seq<char>,
    Seq<char>,
    Seq<(Seq<char>, MetadataValueModel)>,
    Seq<Seq<char>>,
    Seq<(Seq<char>, Seq<(usize, usize, Seq<u8>)>)>,
);

pub open spec fn rule_model(r: RawRule, tidx: int) -> RuleModel {
    (
        r.identifier@,
        r.namespace@,
        meta_entries(r.metas@).map_values(|m: RawMeta| metadata_model(m)),
        tag_names(r.tags@),
        string_entries(r.strings@).map_values(|s: RawString| string_model(s, tidx)),
    )
}

/// Whether a reported rule can be projected from thread slot `tidx`: every
/// string has a match list for the slot, and every tag is UTF-8.
pub open spec fn projectable(r: RawRule, tidx: int) -> bool {
    has_slot(string_entries(r.strings@), tidx) && tags_are_text(r.tags@)
}

/// A rule that matched during a scan.
#[derive(Debug)]
pub struct Rule {
    /// Name of the rule.
    pub identifier: String,
    /// Namespace of the rule.
    pub namespace: String,
    /// Metadatas of the rule.
    pub metadatas: Vec<Metadata>,
    /// Tags of the rule.
    pub tags: Vec<String>,
    /// Matcher strings of the rule.
    pub strings: Vec<YrString>,
}

impl View for Rule {
    type V = RuleModel;

    open spec fn view(&self) -> RuleModel {
        (
            self.identifier@,
            self.namespace@,
            self.metadatas@.map_values(|m: Metadata| m@),
            self.tags@.map_values(|t: String| t@),
            self.strings@.map_values(|s: YrString| s@),
        )
    }
}

impl Rule {
    /// Projects a reported rule from thread slot `tidx`; `None` when one of
    /// its tags is not UTF-8.
    pub fn from(rule: RawRule, tidx: usize) -> (r: Option<Rule>)
        requires
            has_slot(string_entries(rule.strings@), tidx as int),
        ensures
            r is Some == tags_are_text(rule.tags@),
            r matches Some(x) ==> x@ == rule_model(rule, tidx as int),
    {
        let tags = match decode_tags(rule.tags) {
            Some(t) => t,
            None => {
                return None;
            },
        };
        let metadatas = MetadataIterator::from(rule.metas).collect();
        let strings = YrStringIterator::from(rule.strings, tidx).collect();
        Some(Rule { identifier: rule.identifier, namespace: rule.namespace, metadatas, tags, strings })
    }
}

/// The rules of a scan, projected from thread slot `tidx`, in report order.
pub open spec fn scan_model(matched: Seq<RawRule>, tidx: int) -> Seq<RuleModel> {
    matched.map_values(|r: RawRule| rule_model(r, tidx))
}

/// Projects every reported rule, in report order.
pub fn project_rules(matched: Vec<RawRule>, tidx: usize) -> (r: Vec<Rule>)
    requires
        forall|i: int| 0 <= i < matched@.len() ==> projectable(#[trigger] matched@[i], tidx as int),
    ensures
        r@.map_values(|x: Rule| x@) == scan_model(matched@, tidx as int),
{
    let ghost all = matched@;
    let mut rest = matched;
    let mut out: Vec<Rule> = Vec::new();
    while rest.len() > 0
        invariant
            all.len() == out@.len() + rest@.len(),
            rest@ == all.subrange(out@.len() as int, all.len() as int),
            forall|i: int| 0 <= i < all.len() ==> projectable(#[trigger] all[i], tidx as int),
            out@.map_values(|x: Rule| x@) == scan_model(all.subrange(0, out@.len() as int), tidx as int),
        decreases rest@.len(),
    {
        let ghost k = out@.len() as int;
        let raw = rest.remove(0);
        assert(raw == all[k]);
        match Rule::from(raw, tidx) {
            Some(rule) => {
                let ghost prev = out@;
                out.push(rule);
                proof {
                    assert(out@.map_values(|x: Rule| x@) =~= prev.map_values(|x: Rule| x@).push(
                        rule_model(all[k], tidx as int),
                    ));
                    assert(all.subrange(0, k + 1) =~= all.subrange(0, k).push(all[k]));
                    assert(scan_model(all.subrange(0, k + 1), tidx as int) =~= scan_model(
                        all.subrange(0, k),
                        tidx as int,
                    ).push(rule_model(all[k], tidx as int)));
                    assert(rest@ =~= all.subrange(k + 1, all.len() as int));
                }
            },
            None => {},
        }
    }
    proof {
        assert(all.subrange(0, out@.len() as int) =~= all);
    }
    out
}



/// How many reported rules carry the name `x`.
pub open spec fn count_reported(s: Seq<RawRule>, x: Seq<char>) -> nat
    decreases s.len(),
{
    if s.len() == 0 {
        0
    } else {
        (if s.last().identifier@ == x {
            1nat
        } else {
            0nat
        }) + count_reported(s.drop_last(), x)
    }
}

/// How many scan results carry the name `x`.
pub open spec fn count_listed(s: Seq<RuleModel>, x: Seq<char>) -> nat
    decreases s.len(),
{
    if s.len() == 0 {
        0
    } else {
        (if s.last().0 == x {
            1nat
        } else {
            0nat
        }) + count_listed(s.drop_last(), x)
    }
}

/// A scan lists each rule as many times as the engine reported it as
/// matching: a rule reported once appears exactly once in the results.
pub proof fn lemma_scan_lists_reported_rules(matched: Seq<RawRule>, tidx: int, x: Seq<char>)
    ensures
        scan_model(matched, tidx).len() == matched.len(),
        count_listed(scan_model(matched, tidx), x) == count_reported(matched, x),
    decreases matched.len(),
{
    if matched.len() > 0 {
        assert(scan_model(matched, tidx).drop_last() =~= scan_model(matched.drop_last(), tidx));
        lemma_scan_lists_reported_rules(matched.drop_last(), tidx, x);
    }
}

/// Scanning is a function of the engine's report: two scans whose reported
/// rules agree, one by one, yield identical ordered results.
pub proof fn lemma_scan_deterministic(a: Seq<RawRule>, b: Seq<RawRule>, tidx: int)
    requires
        a.len() == b.len(),
        forall|i: int| 0 <= i < a.len() ==> rule_model(#[trigger] a[i], tidx) == rule_model(b[i], tidx),
    ensures
        scan_model(a, tidx) == scan_model(b, tidx),
{
    assert(scan_model(a, tidx) =~= scan_model(b, tidx));
}

/// A compiled rule set: the engine's handle to it and the scan flags used
/// by the scans issued on it.
#[derive(Debug)]
pub struct Rules {
    handle: usize,
    flags: u32,
}

impl Rules {
    /// Address of the engine's rule set.
    pub closed spec fn spec_handle(&self) -> usize {
        self.handle
    }

    pub closed spec fn spec_flags(&self) -> u32 {
        self.flags
    }

    /// Takes ownership of the engine's rule set at `handle`, with no scan flags.
    pub fn from_handle(handle: usize) -> (r: Rules)
        ensures
            r.spec_handle() == handle,
            r.spec_flags() == 0,
    {
        Rules { handle, flags: 0 }
    }

    pub fn handle(&self) -> (r: usize)
        ensures
            r == self.spec_handle(),
    {
        self.handle
    }

    pub fn flags(&self) -> (r: u32)
        ensures
            r == self.spec_flags(),
    {
        self.flags
    }

    /// Outcome of a memory scan, from the engine's status and the rules it
    /// reported as matching, seen from the scanning thread's slot `tidx`.
    pub fn scan_mem(&self, status: i32, matched: Vec<RawRule>, tidx: usize) -> (r: Result<
        Vec<Rule>,
        YaraError,
    >)
        requires
            forall|i: int|
                0 <= i < matched@.len() ==> projectable(#[trigger] matched@[i], tidx as int),
        ensures
            status != 0 ==> r == Err::<Vec<Rule>, YaraError>(engine_failure(status)),
            status == 0 ==> (r matches Ok(v) && v@.map_values(|x: Rule| x@) == scan_model(
                matched@,
                tidx as int,
            )),
    {
        match yara_result(status) {
            Err(e) => Err(e),
            Ok(()) => Ok(project_rules(matched, tidx)),
        }
    }

    /// Outcome of a file scan: `open_error` is the failure to open the file,
    /// if any; otherwise as for a memory scan.
    pub fn scan_file(
        &self,
        open_error: Option<String>,
        status: i32,
        matched: Vec<RawRule>,
        tidx: usize,
    ) -> (r: Result<Vec<Rule>, Error>)
        requires
            forall|i: int|
                0 <= i < matched@.len() ==> projectable(#[trigger] matched@[i], tidx as int),
        ensures
            open_error matches Some(m) ==> (r matches Err(Error::Io(e)) && e.kind
                == IoErrorKind::OpenScanFile && e.message == m),
            open_error is None && status != 0 ==> (r matches Err(Error::Yara(e)) && e
                == engine_failure(status)),
            open_error is None && status == 0 ==> (r matches Ok(v) && v@.map_values(
                |x: Rule| x@,
            ) == scan_model(matched@, tidx as int)),
    {
        match open_error {
            Some(m) => Err(Error::Io(IoError::new(m, IoErrorKind::OpenScanFile))),
            None => match self.scan_mem(status, matched, tidx) {
                Ok(v) => Ok(v),
                Err(e) => Err(Error::Yara(e)),
            },
        }
    }

    /// Outcome of saving the rule set to a path.
    pub fn save(&mut self, status: i32) -> (r: Result<(), YaraError>)
        ensures
            *final(self) == *old(self),
            status == 0 ==> r is Ok,
            status != 0 ==> r == Err::<(), YaraError>(engine_failure(status)),
    {
        yara_result(status)
    }

    /// Outcome of saving the rule set through a writer bridge: a failure of
    /// the writer wins over the engine's status.
    pub fn save_to_stream(&mut self, bridge: StreamBridge, status: i32) -> (r: Result<(), Error>)
        requires
            bridge.wf(),
            bridge.context() == IoErrorKind::WritingRules,
        ensures
            *final(self) == *old(self),
            bridge.error() matches Some(e) ==> (r matches Err(Error::Io(x)) && x.kind
                == IoErrorKind::WritingRules && x.message == e.message),
            bridge.error() is None && status == 0 ==> r is Ok,
            bridge.error() is None && status != 0 ==> (r matches Err(Error::Yara(y)) && y
                == engine_failure(status)),
    {
        bridge.finish(status)
    }

    /// Outcome of loading a rule set through a reader bridge; `handle` is
    /// where the engine put the loaded rule set. A failure of the reader wins
    /// over the engine's status.
    pub fn load_from_stream(bridge: StreamBridge, status: i32, handle: usize) -> (r: Result<
        Rules,
        Error,
    >)
        requires
            bridge.wf(),
            bridge.context() == IoErrorKind::ReadingRules,
        ensures
            bridge.error() matches Some(e) ==> (r matches Err(Error::Io(x)) && x.kind
                == IoErrorKind::ReadingRules && x.message == e.message),
            bridge.error() is None && status == 0 ==> (r matches Ok(rules) && rules.spec_handle()
                == handle && rules.spec_flags() == 0),
            bridge.error() is None && status != 0 ==> (r matches Err(Error::Yara(y)) && y
                == engine_failure(status)),
    {
        match bridge.finish(status) {
            Ok(()) => Ok(Rules::from_handle(handle)),
            Err(e) => Err(e),
        }
    }

    /// Outcome of loading a rule set from a path; `handle` is where the
    /// engine put the loaded rule set.
    pub fn load_from_file(status: i32, handle: usize) -> (r: Result<Rules, YaraError>)
        ensures
            status == 0 ==> (r matches Ok(rules) && rules.spec_handle() == handle
                && rules.spec_flags() == 0),
            status != 0 ==> r == Err::<Rules, YaraError>(engine_failure(status)),
    {
        match yara_result(status) {
            Ok(()) => Ok(Rules::from_handle(handle)),
            Err(e) => Err(e),
        }
    }

    /// Replaces the flags used by subsequent scans.
    pub fn set_flags(&mut self, flags: u32)
        ensures
            final(self).spec_flags() == flags,
            final(self).spec_handle() == old(self).spec_handle(),
    {
        self.flags = flags;
    }
}

} // verus!
