use tblgen::diagnostic::DK_ERROR;
use tblgen::diagnostic::DK_NOTE;
use tblgen::diagnostic::DK_REMARK;
use tblgen::diagnostic::DK_WARNING;
use tblgen::Diagnostic;
use tblgen::DiagnosticCollection;
use tblgen::DiagnosticEntry;
use tblgen::DiagnosticIter;
use tblgen::DiagnosticKind;

fn entry(kind: u32, message: &str, filename: &str, line: i32, column: i32) -> DiagnosticEntry {
    DiagnosticEntry {
        kind,
        message: message.as_bytes().to_vec(),
        filename: filename.as_bytes().to_vec(),
        line,
        column,
    }
}

/// The diagnostics a failed parse of `class A; invalid_token; class B;`
/// leaves behind: one error with no filename, at line 1 column 9.
fn failed_parse_diagnostics() -> DiagnosticCollection {
    let _source = "class A; invalid_token; class B;";
    let mut diags = DiagnosticCollection::new();
    diags.push(entry(DK_ERROR, "Unexpected token at top level", "", 1, 9));
    diags
}

#[test]
fn parse_error() {
    // The parse of "class A; invalid_token; class B;" fails ("invalid
    // tablegen") and reports exactly one diagnostic.
    let diags = failed_parse_diagnostics();
    assert_eq!(diags.len(), 1);

    let mut iter = DiagnosticIter::from_raw_vector(&diags);
    let first: Diagnostic = iter.next().expect("one diagnostic");
    assert_eq!(first.kind(), DiagnosticKind::Error);
    assert_eq!(first.filename().as_str().unwrap(), "");
    assert_eq!(first.line(), 1);
    assert_eq!(first.column(), 9);
    assert_eq!(
        first.message().as_str().unwrap(),
        "Unexpected token at top level",
    );
    assert!(iter.next().is_none());
}

#[test]
fn iteration_visits_entries_in_order() {
    let mut diags = DiagnosticCollection::new();
    diags.push(entry(DK_ERROR, "first", "a.td", 1, 1));
    diags.push(entry(DK_WARNING, "second", "a.td", 2, 5));
    diags.push(entry(DK_NOTE, "third", "b.td", 3, 7));

    let mut iter = DiagnosticIter::from_raw_vector(&diags);
    let d0 = iter.next().expect("entry 0");
    assert_eq!(d0.message().as_str().unwrap(), "first");
    assert_eq!(d0.kind(), DiagnosticKind::Error);
    let d1 = iter.next().expect("entry 1");
    assert_eq!(d1.message().as_str().unwrap(), "second");
    assert_eq!(d1.kind(), DiagnosticKind::Warning);
    let d2 = iter.next().expect("entry 2");
    assert_eq!(d2.message().as_str().unwrap(), "third");
    assert_eq!(d2.kind(), DiagnosticKind::Note);

    // Exhausted: the sentinel is produced and iteration never restarts.
    assert!(iter.next().is_none());
    assert!(iter.next().is_none());
    assert!(iter.next().is_none());
}

#[test]
fn empty_collection_yields_no_entries() {
    let diags = DiagnosticCollection::new();
    assert_eq!(diags.len(), 0);
    let mut iter = DiagnosticIter::from_raw_vector(&diags);
    assert!(iter.next().is_none());
    assert!(iter.next().is_none());
}

#[test]
fn indexing_past_the_end_is_the_sentinel() {
    let mut diags = DiagnosticCollection::new();
    diags.push(entry(DK_REMARK, "only", "", 4, 2));
    assert!(diags.get(0).is_some());
    assert!(diags.get(1).is_none());
    assert!(diags.get(1000).is_none());
}

#[test]
fn recognized_kinds_map_to_named_variants() {
    assert_eq!(DiagnosticKind::from_raw(DK_ERROR), DiagnosticKind::Error);
    assert_eq!(DiagnosticKind::from_raw(DK_WARNING), DiagnosticKind::Warning);
    assert_eq!(DiagnosticKind::from_raw(DK_REMARK), DiagnosticKind::Remark);
    assert_eq!(DiagnosticKind::from_raw(DK_NOTE), DiagnosticKind::Note);
}

#[test]
fn unrecognized_kind_preserves_the_code() {
    let kind = DiagnosticKind::from_raw(42);
    assert_eq!(kind, DiagnosticKind::Unknown(42));
    match kind {
        DiagnosticKind::Unknown(code) => assert_eq!(code, 42),
        _ => panic!("expected an unknown kind"),
    }
    assert_eq!(DiagnosticKind::from_raw(4), DiagnosticKind::Unknown(4));
    assert_eq!(
        DiagnosticKind::from_raw(u32::MAX),
        DiagnosticKind::Unknown(u32::MAX),
    );
}

#[test]
fn accessors_pass_line_and_column_through_unchanged() {
    // No clamping or validation: even non-positive values come back as
    // stored.
    let mut diags = DiagnosticCollection::new();
    diags.push(entry(DK_WARNING, "odd place", "weird.td", -3, 0));
    let mut iter = DiagnosticIter::from_raw_vector(&diags);
    let d = iter.next().expect("one diagnostic");
    assert_eq!(d.line(), -3);
    assert_eq!(d.column(), 0);
}

#[test]
fn undecodable_message_is_an_error_not_a_crash() {
    let mut diags = DiagnosticCollection::new();
    diags.push(DiagnosticEntry {
        kind: DK_ERROR,
        message: vec![0xFF, 0xFE],
        filename: Vec::new(),
        line: 1,
        column: 1,
    });
    let mut iter = DiagnosticIter::from_raw_vector(&diags);
    let d = iter.next().expect("one diagnostic");
    assert_eq!(
        d.message().as_str().unwrap_err(),
        tblgen::TableGenError::InvalidText,
    );
    // The rest of the entry is still readable.
    assert_eq!(d.kind(), DiagnosticKind::Error);
    assert_eq!(d.filename().as_str().unwrap(), "");
}
