//! Diagnostics collected during parsing: storage, kinds, and iteration.
//!
//! A parse attempt leaves behind a vector of diagnostic entries. The vector is
//! read strictly by index: probing an index either yields the entry stored
//! there or an absent sentinel, and iteration walks indices forward until the
//! sentinel is hit. Each entry carries a raw kind code, message and filename
//! bytes, and 1-based line and column numbers.

use vstd::prelude::*;

use crate::string_ref::StringRef;

verus! {

/// Raw code for an error diagnostic.
pub const DK_ERROR: u32 = 0;

/// Raw code for a warning diagnostic.
pub const DK_WARNING: u32 = 1;

/// Raw code for a remark diagnostic.
pub const DK_REMARK: u32 = 2;

/// Raw code for a note diagnostic.
pub const DK_NOTE: u32 = 3;

/// One stored diagnostic entry, as the parser left it.
///
/// `line` and `column` are 1-based and are passed through to callers without
/// validation of sign or range. An empty `filename` is a valid value and means
/// the source had no file (for example, in-memory text).
#[derive(Debug, PartialEq, Eq)]
pub struct DiagnosticEntry {
    /// Raw kind code; see [`DiagnosticKind::from_raw`].
    pub kind: u32,
    /// Message bytes; not assumed to be valid UTF-8.
    pub message: Vec<u8>,
    /// Filename bytes; empty means "no file".
    pub filename: Vec<u8>,
    /// 1-based line number.
    pub line: i32,
    /// 1-based column number.
    pub column: i32,
}

/// The diagnostics a parse attempt produced, accessed strictly by index.
///
/// No length is promised upfront to readers: probing an index past the end
/// yields the absent sentinel, which is how iteration discovers the end.
#[derive(Debug)]
pub struct DiagnosticCollection {
    entries: Vec<DiagnosticEntry>,
}

impl View for DiagnosticCollection {
    type V = Seq<DiagnosticEntry>;

    closed spec fn view(&self) -> Seq<DiagnosticEntry> {
        self.entries@
    }
}

impl DiagnosticCollection {
    /// Creates an empty collection.
    pub fn new() -> (r: Self)
        ensures
            r@ == Seq::<DiagnosticEntry>::empty(),
    {
        Self { entries: Vec::new() }
    }

    /// Appends one entry at the end of the collection.
    pub fn push(&mut self, entry: DiagnosticEntry)
        ensures
            final(self)@ == old(self)@.push(entry),
    {
        self.entries.push(entry);
    }

    /// Returns how many entries the collection holds.
    pub fn len(&self) -> (r: usize)
        ensures
            r == self@.len(),
    {
        self.entries.len()
    }

    /// Indexes the collection, yielding the entry stored at `index` or the
    /// absent sentinel when `index` is past the end.
    pub fn get(&self, index: usize) -> (r: Option<&DiagnosticEntry>)
        ensures
            r is Some <==> index < self@.len(),
            r matches Some(e) ==> *e == self@[index as int],
    {
        if index < self.entries.len() {
            Some(&self.entries[index])
        } else {
            None
        }
    }
}

/// The kind of a diagnostic message.
///
/// The four recognized raw codes map to named variants; every other code is
/// preserved, not dropped, inside [`DiagnosticKind::Unknown`] so that callers
/// can still inspect the raw value.
#[derive(Clone, Copy, Debug, PartialEq, Eq, Structural)]
pub enum DiagnosticKind {
    Error,
    Warning,
    Remark,
    Note,
    Unknown(u32),
}

/// The kind a raw code classifies as.
pub open spec fn kind_of_code(code: u32) -> DiagnosticKind {
    if code == DK_ERROR {
        DiagnosticKind::Error
    } else if code == DK_WARNING {
        DiagnosticKind::Warning
    } else if code == DK_REMARK {
        DiagnosticKind::Remark
    } else if code == DK_NOTE {
        DiagnosticKind::Note
    } else {
        DiagnosticKind::Unknown(code)
    }
}

impl DiagnosticKind {
    /// Converts a raw kind code to the enum representation.
    pub fn from_raw(kind: u32) -> (r: Self)
        ensures
            r == kind_of_code(kind),
    {
        if kind == DK_ERROR {
            Self::Error
        } else if kind == DK_WARNING {
            Self::Warning
        } else if kind == DK_REMARK {
            Self::Remark
        } else if kind == DK_NOTE {
            Self::Note
        } else {
            Self::Unknown(kind)
        }
    }
}

/// Classification is total and lossless: each recognized code yields its named
/// kind, and every unrecognized code is carried unchanged inside `Unknown`, so
/// the raw value can always be recovered.
pub proof fn lemma_kind_preserves_code(code: u32)
    ensures
        code == DK_ERROR ==> kind_of_code(code) == DiagnosticKind::Error,
        code == DK_WARNING ==> kind_of_code(code) == DiagnosticKind::Warning,
        code == DK_REMARK ==> kind_of_code(code) == DiagnosticKind::Remark,
        code == DK_NOTE ==> kind_of_code(code) == DiagnosticKind::Note,
        code != DK_ERROR && code != DK_WARNING && code != DK_REMARK && code != DK_NOTE
            ==> kind_of_code(code) == DiagnosticKind::Unknown(code),
        kind_of_code(code) matches DiagnosticKind::Unknown(c) ==> c == code,
{
}

/// A view of one diagnostic entry.
///
/// Accessors fetch from the underlying entry on every call; nothing is cached
/// at construction. The lifetime ties the view to the collection that owns
/// the entry.
#[derive(Clone, Copy, Debug, PartialEq, Eq)]
pub struct Diagnostic<'a> {
    raw: &'a DiagnosticEntry,
}

impl<'a> Diagnostic<'a> {
    /// The entry this diagnostic views.
    pub closed spec fn entry(self) -> DiagnosticEntry {
        *self.raw
    }

    /// Creates a diagnostic view of one stored entry.
    pub(crate) fn from_raw(raw: &'a DiagnosticEntry) -> (r: Self)
        ensures
            r.entry() == *raw,
    {
        Self { raw }
    }

    /// Returns the kind of this diagnostic.
    pub fn kind(&self) -> (r: DiagnosticKind)
        ensures
            r == kind_of_code(self.entry().kind),
    {
        DiagnosticKind::from_raw(self.raw.kind)
    }

    /// Returns the diagnostic message as a borrowed text handle.
    pub fn message(&self) -> (r: StringRef<'a>)
        ensures
            r@ == self.entry().message@,
    {
        StringRef::from_raw(self.raw.message.as_slice())
    }

    /// Returns the filename where the diagnostic was generated; empty means
    /// the source had no file.
    pub fn filename(&self) -> (r: StringRef<'a>)
        ensures
            r@ == self.entry().filename@,
    {
        StringRef::from_raw(self.raw.filename.as_slice())
    }

    /// Returns the line number where the diagnostic was generated (1-based),
    /// exactly as stored.
    pub fn line(&self) -> (r: i32)
        ensures
            r == self.entry().line,
    {
        self.raw.line
    }

    /// Returns the column number where the diagnostic was generated
    /// (1-based), exactly as stored.
    pub fn column(&self) -> (r: i32)
        ensures
            r == self.entry().column,
    {
        self.raw.column
    }
}

/// The cursor position after one `next` call: the index advances on every
/// call, including the terminal one, stopping only at the machine limit.
pub open spec fn step_cursor(i: int) -> int {
    if i < usize::MAX {
        i + 1
    } else {
        i
    }
}

/// The cursor position after `n` calls starting from `i`.
pub open spec fn step_cursor_n(i: int, n: nat) -> int
    decreases n,
{
    if n == 0 {
        i
    } else {
        step_cursor(step_cursor_n(i, (n - 1) as nat))
    }
}

/// What indexing the collection at cursor `i` yields: the entry there, or the
/// absent sentinel once `i` is past the end.
pub open spec fn iter_output(entries: Seq<DiagnosticEntry>, i: int) -> Option<DiagnosticEntry> {
    if 0 <= i < entries.len() {
        Some(entries[i])
    } else {
        None
    }
}

/// Iterator over the diagnostics of a collection.
///
/// Strictly forward, single pass, non-restartable: each call probes the
/// current index and advances, and once the sentinel has been produced every
/// later call produces it again.
pub struct DiagnosticIter<'a> {
    raw: &'a DiagnosticCollection,
    index: usize,
}

impl<'a> DiagnosticIter<'a> {
    /// The entries of the collection being iterated.
    pub closed spec fn entries(self) -> Seq<DiagnosticEntry> {
        self.raw@
    }

    /// The current cursor position.
    pub closed spec fn cursor(self) -> int {
        self.index as int
    }

    /// Creates a diagnostic iterator over a collection, positioned at the
    /// first entry.
    pub fn from_raw_vector(raw: &'a DiagnosticCollection) -> (r: Self)
        ensures
            r.entries() == raw@,
            r.cursor() == 0,
    {
        Self { raw, index: 0 }
    }

    /// Probes the collection at the current cursor and advances the cursor.
    ///
    /// Yields the entry at the cursor while entries remain, and the absent
    /// sentinel forever after. The cursor advances even on the terminal call.
    pub fn next(&mut self) -> (r: Option<Diagnostic<'a>>)
        ensures
            final(self).entries() == old(self).entries(),
            final(self).cursor() == step_cursor(old(self).cursor()),
            r is Some <==> iter_output(old(self).entries(), old(self).cursor()) is Some,
            r matches Some(d) ==> iter_output(old(self).entries(), old(self).cursor())
                == Some(d.entry()),
    {
        let probed = self.raw.get(self.index);
        if self.index < usize::MAX {
            self.index = self.index + 1;
        }
        match probed {
            Some(entry) => Some(Diagnostic::from_raw(entry)),
            None => None,
        }
    }
}

proof fn lemma_step_cursor_n_from_zero(n: nat)
    ensures
        step_cursor_n(0, n) == if n <= usize::MAX {
            n as int
        } else {
            usize::MAX as int
        },
    decreases n,
{
    if n > 0 {
        lemma_step_cursor_n_from_zero((n - 1) as nat);
    }
}

/// Iteration from the start visits exactly the stored entries, in index
/// order: the output of the `n`-th call (counting from zero) is the `n`-th
/// entry while entries remain, and the absent sentinel once they are
/// exhausted — entries are neither skipped, reordered, nor revisited.
pub proof fn lemma_iteration_in_order(entries: Seq<DiagnosticEntry>, n: nat)
    requires
        entries.len() <= usize::MAX,
    ensures
        iter_output(entries, step_cursor_n(0, n)) == if n < entries.len() {
            Some(entries[n as int])
        } else {
            None::<DiagnosticEntry>
        },
{
    lemma_step_cursor_n_from_zero(n);
}

/// Once the sentinel has been produced, iteration is terminal: stepping the
/// cursor from any exhausted position yields the sentinel again, so the
/// iterator never restarts.
pub proof fn lemma_no_restart(entries: Seq<DiagnosticEntry>, i: int)
    requires
        0 <= i,
        iter_output(entries, i) is None,
    ensures
        iter_output(entries, step_cursor(i)) is None,
{
}

} // verus!
