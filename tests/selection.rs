use toml_test::corpus::{invalid, valid, version, versions, Corpus, CorpusFile, Invalid, Valid};
use toml_test::error::{Error, ErrorKind};
use toml_test::harness::{verify_decoder, DecoderHarness, EncoderHarness};
use toml_test::select::{Matches, Verdict};
use toml_test::value::DecodedValue;
use toml_test::verify::{Decoder, Encoder};

fn file(path: &str, contents: &str) -> CorpusFile {
    CorpusFile { path: path.to_owned(), contents: contents.as_bytes().to_vec() }
}

fn corpus() -> Corpus {
    Corpus {
        files: vec![
            file("files-toml-1.0.0", "valid/a.toml\ninvalid/x/bad.toml\n"),
            file("files-toml-1.1.0", "valid/a.toml\r\nvalid/sub/b.toml"),
            file("valid/a.toml", "a = 1"),
            file("valid/a.json", r#"{"a": {"type": "integer", "value": "1"}}"#),
            file("valid/sub/b.toml", "b = 2"),
            file("valid/sub/b.json", r#"{"b": {"type": "integer", "value": "2"}}"#),
            file("invalid/x/bad.toml", "a = "),
            file("invalid/y/worse.toml", "= 1"),
        ],
    }
}

#[test]
fn vendor_cases_are_skipped() {
    let m = Matches::new(&["vendor/*"]).unwrap();
    assert!(!m.matched("vendor/foo.toml"));
    assert!(m.matched("core/foo.toml"));
    assert_eq!(m.verdict("vendor/foo.toml"), Verdict::Ignored);
    assert_eq!(m.verdict("core/foo.toml"), Verdict::Unmatched);
}

#[test]
fn later_patterns_include_again() {
    let m = Matches::new(&["valid/*", "!valid/keep.toml"]).unwrap();
    assert!(!m.matched("valid/drop.toml"));
    assert!(m.matched("valid/keep.toml"));
    assert_eq!(m.verdict("valid/keep.toml"), Verdict::Whitelisted);
    let parents = Matches::new(&["invalid/"]).unwrap();
    assert!(!parents.matched("invalid/x/bad.toml"));
}

#[test]
fn malformed_pattern_is_a_selector_error() {
    let e = Matches::new(&["valid/*", "{unclosed"]).err().unwrap();
    assert_eq!(e.kind(), ErrorKind::Selector);
    struct Never;
    impl Decoder for Never {
        fn decode(&self, _: &[u8]) -> Result<DecodedValue, Error> {
            panic!("no case may run")
        }
        fn name(&self) -> &str {
            "never"
        }
    }
    let mut h = DecoderHarness::new(Never);
    let e = h.ignore(&["{unclosed"]).unwrap_err();
    assert_eq!(e.kind(), ErrorKind::Selector);
    assert_ne!(e.kind(), ErrorKind::Mismatch);
}

#[test]
fn corpus_groups_and_pairs() {
    let c = corpus();
    let v: Vec<Valid> = valid(&c).unwrap();
    assert_eq!(v.len(), 2);
    assert_eq!(v[0].name(), "valid/a.toml");
    assert_eq!(v[0].fixture(), b"a = 1");
    assert_eq!(v[0].expected(), br#"{"a": {"type": "integer", "value": "1"}}"#);
    assert_eq!(v[1].name(), "valid/sub/b.toml");
    let copy = v[1].borrow();
    assert_eq!(copy.name(), v[1].name());
    assert_eq!(copy.expected(), v[1].expected());
    let i: Vec<Invalid> = invalid(&c).unwrap();
    assert_eq!(i.len(), 2);
    assert_eq!(i[1].name(), "invalid/y/worse.toml");
    assert_eq!(i[1].borrow().fixture(), b"= 1");
}

#[test]
fn missing_expected_encoding_is_a_corpus_error() {
    let c = Corpus { files: vec![file("valid/lonely.toml", "a = 1")] };
    assert_eq!(valid(&c).err().unwrap().kind(), ErrorKind::Corpus);
}

#[test]
fn version_lists() {
    let c = corpus();
    assert_eq!(version(&c, "1.0.0"), vec!["valid/a.toml", "invalid/x/bad.toml"]);
    assert_eq!(version(&c, "1.1.0"), vec!["valid/a.toml", "valid/sub/b.toml"]);
    assert!(version(&c, "0.5.0").is_empty());
    let all = versions(&c);
    assert_eq!(all.len(), 2);
    assert_eq!(all[0].version, "1.0.0");
    assert_eq!(all[1].version, "1.1.0");
    assert_eq!(all[1].cases, vec!["valid/a.toml", "valid/sub/b.toml"]);
}

#[derive(Clone, Copy)]
struct Echo;

impl Decoder for Echo {
    /// Reads `<key> = <integer>` and fails on anything else.
    fn decode(&self, data: &[u8]) -> Result<DecodedValue, Error> {
        let text = std::str::from_utf8(data).unwrap();
        match text.split_once(" = ") {
            Some((k, v)) if !k.is_empty() && v.parse::<i64>().is_ok() => Ok(DecodedValue::Table(vec![(
                k.to_owned(),
                DecodedValue::Scalar(toml_test::DecodedScalar::Integer(v.to_owned())),
            )])),
            _ => Err(Error::new(format!("cannot read {text:?}"))),
        }
    }
    fn name(&self) -> &str {
        "echo"
    }
}

impl Encoder for Echo {
    fn encode(&self, _: DecodedValue) -> Result<String, Error> {
        Err(Error::new("no".to_owned()))
    }
    fn name(&self) -> &str {
        "echo"
    }
}

#[test]
fn decoder_run_counts_passes_and_failures() {
    let c = corpus();
    let m = Matches::new(&[]).unwrap();
    let t = verify_decoder(&Echo, &m, &c).unwrap();
    assert_eq!((t.passed, t.failed), (4, 0));
    assert!(t.succeeded());
    let m = Matches::new(&["sub/"]).unwrap();
    let t = verify_decoder(&Echo, &m, &c).unwrap();
    assert_eq!((t.passed, t.failed), (3, 0));
    let broken = Corpus {
        files: vec![
            file("valid/a.toml", "a = x"),
            file("valid/a.json", r#"{"a": {"type": "integer", "value": "1"}}"#),
            file("invalid/z/ok.toml", "z = 3"),
        ],
    };
    let t = verify_decoder(&Echo, &Matches::new(&[]).unwrap(), &broken).unwrap();
    assert_eq!((t.passed, t.failed), (0, 2));
    assert!(!t.succeeded());
}

#[test]
fn harness_plans_by_version_and_patterns() {
    let c = corpus();
    let mut h = DecoderHarness::new(Echo);
    let p = h.plan(&c).unwrap();
    assert_eq!(p.valid_ignored, vec![false, false]);
    assert_eq!(p.invalid_ignored, vec![false, false]);
    h.version("1.0.0");
    h.extend_valid(vec![Valid {
        name: "custom/c.toml".to_owned(),
        fixture: b"c = 3".to_vec(),
        expected: br#"{"c": {"type": "integer", "value": "3"}}"#.to_vec(),
    }]);
    h.extend_invalid(vec![Invalid { name: "custom/d.toml".to_owned(), fixture: b"d".to_vec() }]);
    let p = h.plan(&c).unwrap();
    let names: Vec<&str> = p.valid.iter().map(|v| v.name()).collect();
    assert_eq!(names, vec!["valid/a.toml", "valid/sub/b.toml", "custom/c.toml"]);
    assert_eq!(p.valid_ignored, vec![false, true, false]);
    assert_eq!(p.invalid_ignored, vec![false, true, false]);
    h.ignore(&["custom/*", "valid/a.toml"]).unwrap();
    let p = h.plan(&c).unwrap();
    assert_eq!(p.valid_ignored, vec![true, true, true]);
    assert_eq!(p.invalid_ignored, vec![false, true, true]);
    h.snapshot_root("snapshots");
    assert_eq!(h.snapshot_dir(), Some("snapshots"));
    let mut e = EncoderHarness::new(Echo, Echo);
    e.version("1.1.0");
    let p = e.plan(&c).unwrap();
    assert_eq!(p.valid_ignored, vec![false, false]);
    assert!(p.invalid.is_empty());
}

#[test]
fn absolute_case_names_are_refused() {
    let c = Corpus {
        files: vec![file("invalid/x/a.toml", "")],
    };
    let mut h = DecoderHarness::new(Echo);
    h.extend_invalid(vec![Invalid { name: "/abs.toml".to_owned(), fixture: vec![] }]);
    assert_eq!(h.plan(&c).err().unwrap().kind(), ErrorKind::Corpus);
}

#[test]
fn corpus_layout_is_checked() {
    let deep = Corpus {
        files: vec![
            file("valid/a/b/c.toml", "a = 1"),
            file("valid/a/b/c.json", "{}"),
        ],
    };
    assert_eq!(valid(&deep).err().unwrap().kind(), ErrorKind::Corpus);
    let flat = Corpus { files: vec![file("invalid/bad.toml", "")] };
    assert_eq!(invalid(&flat).err().unwrap().kind(), ErrorKind::Corpus);
    let nested = Corpus { files: vec![file("invalid/a/b/bad.toml", "")] };
    assert_eq!(invalid(&nested).err().unwrap().kind(), ErrorKind::Corpus);
    let m = Matches::new(&[]).unwrap();
    assert_eq!(verify_decoder(&Echo, &m, &flat).err().unwrap().kind(), ErrorKind::Corpus);
}

#[test]
fn comments_and_blank_patterns_add_nothing() {
    let m = Matches::new(&["# a comment", "   ", ""]).unwrap();
    assert!(m.matched("valid/a.toml"));
    assert_eq!(m.verdict("valid/a.toml"), Verdict::Unmatched);
    let m = Matches::new(&["valid/*   "]).unwrap();
    assert!(!m.matched("valid/a.toml"));
}
