use rs_yara::errors::{Error, IoErrorKind};
use rs_yara::matches::{Match, MatchIterator, RawMatch};
use rs_yara::meta::{MetadataIterator, RawMeta};
use rs_yara::rules::{decode_tags, MetadataValue, RawRule, Rule, Rules, TagIterator};
use rs_yara::stream::StreamBridge;
use rs_yara::string::{RawString, YrStringIterator};
use rs_yara::yara_sys;

fn raw_match(offset: usize, data: &[u8]) -> RawMatch {
    RawMatch {
        offset,
        length: data.len(),
        data: data.to_vec(),
    }
}

fn terminator_string() -> RawString {
    RawString {
        g_flags: yara_sys::STRING_GFLAGS_NULL,
        identifier: String::new(),
        matches: vec![],
    }
}

fn terminator_meta() -> RawMeta {
    RawMeta {
        type_: yara_sys::META_TYPE_NULL as i32,
        identifier: String::new(),
        integer: 0,
        string: String::new(),
    }
}

/// The engine's report for `rule is_text { strings: $a = "hello" condition: $a }`
/// scanned over `b"say hello world"`, seen from thread slot 0.
fn is_text_report() -> RawRule {
    RawRule {
        identifier: String::from("is_text"),
        namespace: String::from("default"),
        tags: vec![0],
        metas: vec![terminator_meta()],
        strings: vec![
            RawString {
                g_flags: 0,
                identifier: String::from("$a"),
                matches: vec![vec![raw_match(4, b"hello")], vec![]],
            },
            terminator_string(),
        ],
    }
}

#[test]
fn scan_of_hello_reports_is_text() {
    let rules = Rules::from_handle(0x10);
    let result = rules.scan_mem(0, vec![is_text_report()], 0).unwrap();
    assert_eq!(1, result.len());
    assert_eq!("is_text", result[0].identifier);
    assert_eq!("default", result[0].namespace);
    assert!(result[0].metadatas.is_empty());
    assert!(result[0].tags.is_empty());
    assert_eq!(1, result[0].strings.len());
    assert_eq!("$a", result[0].strings[0].identifier);
    let m = &result[0].strings[0].matches;
    assert_eq!(1, m.len());
    assert_eq!(4, m[0].offset);
    assert_eq!(5, m[0].length);
    assert_eq!(b"hello".to_vec(), m[0].data);
}

#[test]
fn matching_rule_appears_once() {
    let rules = Rules::from_handle(0x10);
    let mut other = is_text_report();
    other.identifier = String::from("is_other");
    let result = rules.scan_mem(0, vec![other, is_text_report()], 0).unwrap();
    let n = result.iter().filter(|r| r.identifier == "is_text").count();
    assert_eq!(1, n);
    assert_eq!("is_other", result[0].identifier);
    assert_eq!("is_text", result[1].identifier);
}

#[test]
fn same_report_gives_same_results() {
    let rules = Rules::from_handle(0x10);
    let a = rules.scan_mem(0, vec![is_text_report()], 0).unwrap();
    let b = rules.scan_mem(0, vec![is_text_report()], 0).unwrap();
    assert_eq!(a.len(), b.len());
    for (x, y) in a.iter().zip(b.iter()) {
        assert_eq!(x.identifier, y.identifier);
        assert_eq!(x.strings.len(), y.strings.len());
        for (s, t) in x.strings.iter().zip(y.strings.iter()) {
            assert_eq!(s.identifier, t.identifier);
            let so: Vec<(usize, usize)> = s.matches.iter().map(|m| (m.offset, m.length)).collect();
            let to: Vec<(usize, usize)> = t.matches.iter().map(|m| (m.offset, m.length)).collect();
            assert_eq!(so, to);
        }
    }
}

#[test]
fn scan_timeout_is_reported() {
    let rules = Rules::from_handle(0x10);
    let r = rules.scan_mem(yara_sys::ERROR_SCAN_TIMEOUT as i32, vec![], 0);
    assert_eq!(yara_sys::Error::ScanTimeout, r.unwrap_err().kind);
}

#[test]
fn missing_scan_file_is_io_error() {
    let rules = Rules::from_handle(0x10);
    let r = rules.scan_file(Some(String::from("No such file")), 0, vec![], 0);
    match r {
        Err(Error::Io(e)) => assert_eq!(IoErrorKind::OpenScanFile, e.kind),
        other => panic!("unexpected {:?}", other),
    }
}

#[test]
fn scan_file_engine_failure() {
    let rules = Rules::from_handle(0x10);
    let r = rules.scan_file(None, yara_sys::ERROR_COULD_NOT_MAP_FILE as i32, vec![], 0);
    match r {
        Err(Error::Yara(e)) => assert_eq!(yara_sys::Error::CouldNotMapFile, e.kind),
        other => panic!("unexpected {:?}", other),
    }
}

#[test]
fn scan_reads_own_thread_slot() {
    let mut report = is_text_report();
    report.strings[0].matches = vec![vec![], vec![raw_match(9, b"lo")]];
    let rules = Rules::from_handle(0x10);
    let result = rules.scan_mem(0, vec![report], 1).unwrap();
    let m = &result[0].strings[0].matches;
    assert_eq!(1, m.len());
    assert_eq!(9, m[0].offset);
    assert_eq!(2, m[0].length);
}

#[test]
fn flags_replace_previous() {
    let mut rules = Rules::from_handle(0x10);
    assert_eq!(0, rules.flags());
    rules.set_flags(yara_sys::SCAN_FLAGS_FAST_MODE);
    rules.set_flags(yara_sys::SCAN_FLAGS_PROCESS_MEMORY);
    assert_eq!(yara_sys::SCAN_FLAGS_PROCESS_MEMORY, rules.flags());
    assert_eq!(0x10, rules.handle());
}

#[test]
fn save_and_load_outcomes() {
    let mut rules = Rules::from_handle(0x10);
    rules.set_flags(1);
    assert!(rules.save(0).is_ok());
    assert_eq!(
        yara_sys::Error::CouldNotOpenFile,
        rules.save(yara_sys::ERROR_COULD_NOT_OPEN_FILE as i32).unwrap_err().kind
    );
    let mut w = StreamBridge::for_writing();
    assert_eq!(8, w.transfer(8, Ok(())));
    assert!(rules.save_to_stream(w, 0).is_ok());
    let mut r = StreamBridge::for_reading();
    assert_eq!(8, r.transfer(8, Ok(())));
    let loaded = Rules::load_from_stream(r, 0, 0x20).unwrap();
    assert_eq!(0x20, loaded.handle());
    assert_eq!(0, loaded.flags());
    let from_file = Rules::load_from_file(0, 0x30).unwrap();
    assert_eq!(0x30, from_file.handle());
    assert_eq!(
        yara_sys::Error::UnsupportedFileVersion,
        Rules::load_from_file(yara_sys::ERROR_UNSUPPORTED_FILE_VERSION as i32, 0)
            .unwrap_err()
            .kind
    );
}

#[test]
fn load_read_failure_wins() {
    let mut r = StreamBridge::for_reading();
    assert_eq!(0, r.transfer(8, Err(String::from("broken pipe"))));
    match Rules::load_from_stream(r, 0, 0x20) {
        Err(Error::Io(e)) => assert_eq!(IoErrorKind::ReadingRules, e.kind),
        other => panic!("unexpected {:?}", other.map(|x| x.handle())),
    }
}

#[test]
fn tags_are_split_at_nul() {
    let mut it = TagIterator::from(b"first\0second\0\0junk\0".to_vec());
    assert_eq!(Some(b"first".to_vec()), it.next());
    assert_eq!(Some(b"second".to_vec()), it.next());
    assert_eq!(None, it.next());
    assert_eq!(None, it.next());
}

#[test]
fn tags_decode_to_text() {
    let tags = decode_tags(b"alpha\0beta\0\0".to_vec()).unwrap();
    assert_eq!(vec![String::from("alpha"), String::from("beta")], tags);
    assert_eq!(Some(vec![]), decode_tags(vec![]));
    assert_eq!(None, decode_tags(vec![0xff, 0xfe, 0]));
}

#[test]
fn rule_with_bad_tag_is_refused() {
    let mut report = is_text_report();
    report.tags = vec![0xc3, 0x28, 0, 0];
    assert!(Rule::from(report, 0).is_none());
}

#[test]
fn metadata_decoded_until_terminator() {
    let metas = vec![
        RawMeta {
            type_: yara_sys::META_TYPE_INTEGER as i32,
            identifier: String::from("size"),
            integer: 42,
            string: String::new(),
        },
        RawMeta {
            type_: yara_sys::META_TYPE_STRING as i32,
            identifier: String::from("author"),
            integer: 0,
            string: String::from("me"),
        },
        RawMeta {
            type_: yara_sys::META_TYPE_BOOLEAN as i32,
            identifier: String::from("active"),
            integer: 2,
            string: String::new(),
        },
        terminator_meta(),
        RawMeta {
            type_: yara_sys::META_TYPE_INTEGER as i32,
            identifier: String::from("after"),
            integer: 1,
            string: String::new(),
        },
    ];
    let all = MetadataIterator::from(metas).collect();
    assert_eq!(3, all.len());
    assert_eq!("size", all[0].identifier);
    assert!(matches!(all[0].value, MetadataValue::Integer(42)));
    assert!(matches!(&all[1].value, MetadataValue::String(s) if s == "me"));
    assert!(matches!(all[2].value, MetadataValue::Boolean(true)));
}

#[test]
fn unknown_meta_type_ends_walk() {
    let metas = vec![RawMeta {
        type_: 9,
        identifier: String::from("x"),
        integer: 0,
        string: String::new(),
    }];
    let mut it = MetadataIterator::from(metas);
    assert!(it.next().is_none());
    assert!(it.next().is_none());
}

#[test]
fn strings_stop_at_null_flag() {
    let strings = vec![
        RawString {
            g_flags: 0x08,
            identifier: String::from("$x"),
            matches: vec![vec![]],
        },
        RawString {
            g_flags: 0x08 | yara_sys::STRING_GFLAGS_NULL,
            identifier: String::from("$end"),
            matches: vec![vec![]],
        },
        RawString {
            g_flags: 0,
            identifier: String::from("$y"),
            matches: vec![vec![]],
        },
    ];
    let all = YrStringIterator::from(strings, 0).collect();
    assert_eq!(1, all.len());
    assert_eq!("$x", all[0].identifier);
}

#[test]
fn match_list_in_order() {
    let mut it = MatchIterator::from(vec![raw_match(1, b"a"), raw_match(5, b"bc")]);
    let first: Match = it.next().unwrap();
    assert_eq!(1, first.offset);
    let second = it.next().unwrap();
    assert_eq!(5, second.offset);
    assert_eq!(b"bc".to_vec(), second.data);
    assert!(it.next().is_none());
}
