use tblgen::diagnostic::DK_ERROR;
use tblgen::DiagnosticCollection;
use tblgen::DiagnosticEntry;
use tblgen::DiagnosticIter;
use tblgen::FilePos;
use tblgen::SourceInfo;
use tblgen::SourceLocation;
use tblgen::StringRef;

/// The address at which the session below loads its single in-memory buffer.
const BUFFER_BASE: u64 = 0x1000;

/// A source-manager handle as a parse of `source` leaves it: one in-memory
/// buffer (empty filepath) covering the whole text.
fn session_for(source: &str) -> SourceInfo {
    let mut info = SourceInfo::new();
    info.add_buffer(Vec::new(), BUFFER_BASE, source.len() as u64);
    info
}

/// The location token the parser attaches to the entity whose text starts at
/// `offset` inside the session's buffer.
fn token_at(offset: u64) -> SourceLocation {
    SourceLocation::from_raw(BUFFER_BASE + offset)
}

#[test]
fn record() {
    let source = "class Foo { int x; }";
    let info = session_for(source);

    // class Foo { int x; }
    //       ^
    let foo_offset = source.find("Foo").expect("class Foo exists") as u64;
    let loc = tblgen::resolve(&info, token_at(foo_offset)).expect("valid location");
    assert_eq!(loc.pos(), 6);

    // class Foo { int x; }
    //                 ^
    let x_offset = source.find("x").expect("x exists") as u64;
    let loc = tblgen::resolve(&info, token_at(x_offset)).expect("valid location");
    assert_eq!(loc.pos(), 16);
}

#[test]
fn unresolvable_location_is_absent_not_an_error() {
    let info = session_for("class Foo { int x; }");
    // A token outside every buffer models a synthetic entity with no textual
    // origin: resolution yields an absent result.
    assert!(tblgen::resolve(&info, SourceLocation::from_raw(0)).is_none());
    assert!(tblgen::resolve(&info, SourceLocation::from_raw(BUFFER_BASE + 20)).is_none());
    // A session with no buffers resolves nothing.
    let empty = SourceInfo::new();
    assert!(tblgen::resolve(&empty, token_at(0)).is_none());
}

#[test]
fn resolvable_location_reports_buffer_and_offset() {
    let mut info = SourceInfo::new();
    info.add_buffer(b"first.td".to_vec(), 100, 10);
    info.add_buffer(b"second.td".to_vec(), 200, 10);

    let fp = tblgen::resolve(&info, SourceLocation::from_raw(100)).expect("start of first");
    assert_eq!(fp.filepath().as_str().unwrap(), "first.td");
    assert_eq!(fp.pos(), 0);

    let fp = tblgen::resolve(&info, SourceLocation::from_raw(207)).expect("inside second");
    assert_eq!(fp.filepath().as_str().unwrap(), "second.td");
    assert_eq!(fp.pos(), 7);

    // The gap between the buffers belongs to neither.
    assert!(tblgen::resolve(&info, SourceLocation::from_raw(150)).is_none());
}

#[test]
fn offsets_are_zero_based_and_diagnostics_are_one_based() {
    // Both conventions asserted on the same source text: the resolver
    // reports a 0-based offset, a diagnostic reports 1-based line/column.
    let source = "class Foo { int x; }";
    let info = session_for(source);

    // "Foo" starts at offset 6 of the buffer...
    let fp = tblgen::resolve(&info, token_at(6)).expect("valid location");
    assert_eq!(fp.pos(), 6);

    // ...which a diagnostic about it reports as line 1, column 7.
    let mut diags = DiagnosticCollection::new();
    diags.push(DiagnosticEntry {
        kind: DK_ERROR,
        message: b"about Foo".to_vec(),
        filename: Vec::new(),
        line: 1,
        column: 7,
    });
    let mut iter = DiagnosticIter::from_raw_vector(&diags);
    let d = iter.next().expect("one diagnostic");
    assert_eq!(d.line(), 1);
    assert_eq!(d.column(), 7);
    assert_eq!(d.column() as u32, fp.pos() + 1);
}

#[test]
fn file_pos_accessors_return_the_raw_parts() {
    let path = b"input.td";
    let fp = FilePos::from_raw(StringRef::from_raw(&path[..]), 11);
    assert_eq!(fp.pos(), 11);
    assert_eq!(fp.filepath().as_str().unwrap(), "input.td");
    assert_eq!(fp.filepath().as_bytes(), b"input.td");
}
