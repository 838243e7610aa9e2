//! File positions and the chunked string-transfer protocol.
//!
//! A resolved source position pairs a borrowed filepath with a 0-based
//! character offset. Separately, this module holds the two transfer modes by
//! which parser-owned text reaches the caller chunk by chunk: writing into
//! a caller-visible output (borrowed-view mode) and accumulating into an
//! owned buffer (accumulation mode). Both modes validate every chunk as
//! UTF-8 and enforce first-error-wins: after the first chunk fails to
//! decode, every later chunk of the same operation is ignored.

use vstd::prelude::*;
use vstd::string::StringExecFns;
use vstd::utf8::decode_utf8;
use vstd::utf8::valid_utf8;

use crate::error::TableGenError;
use crate::string_ref::StringRef;

verus! {

/// A resolved position in a source file: a filepath and a 0-based character
/// offset into that file's buffer.
///
/// This is an offset, not a line/column pair: it comes from resolving an
/// opaque location token against the source manager, not from a diagnostic.
/// The lifetime ties the filepath view to the source manager that owns it.
#[derive(Debug)]
pub struct FilePos<'a> {
    filepath: StringRef<'a>,
    pos: u32,
}

impl<'a> FilePos<'a> {
    /// The filepath bytes of this position.
    pub closed spec fn spec_filepath(self) -> Seq<u8> {
        self.filepath@
    }

    /// The 0-based offset of this position.
    pub closed spec fn spec_pos(self) -> u32 {
        self.pos
    }

    /// Creates a file position from its raw parts.
    pub fn from_raw(filepath: StringRef<'a>, pos: u32) -> (r: Self)
        ensures
            r.spec_filepath() == filepath@,
            r.spec_pos() == pos,
    {
        Self { filepath, pos }
    }

    /// Returns the filepath as a borrowed text handle.
    pub fn filepath(&self) -> (r: StringRef<'a>)
        ensures
            r@ == self.spec_filepath(),
    {
        self.filepath
    }

    /// Returns the character position within the file (0-based).
    pub fn pos(&self) -> (r: u32)
        ensures
            r == self.spec_pos(),
    {
        self.pos
    }
}

/// How many leading chunks of one transfer operation decode successfully:
/// every chunk before this count is valid UTF-8, and the chunk at this count,
/// if any, is the first failure.
pub open spec fn transfer_len(views: Seq<Seq<u8>>) -> int
    decreases views.len(),
{
    if views.len() == 0 {
        0
    } else if !valid_utf8(views[0]) {
        0
    } else {
        1 + transfer_len(views.drop_first())
    }
}

/// Whether `n` marks the point a transfer stops at: every chunk before `n`
/// decodes, and the chunk at `n`, if any, does not. At most one `n` satisfies
/// this for a given chunk sequence.
pub open spec fn decodes_until(views: Seq<Seq<u8>>, n: int) -> bool {
    &&& 0 <= n <= views.len()
    &&& forall|j: int| 0 <= j < n ==> valid_utf8(#[trigger] views[j])
    &&& n < views.len() ==> !valid_utf8(views[n])
}

/// The text transferred by the first `n` chunks, in delivery order.
pub open spec fn rendered(views: Seq<Seq<u8>>, n: int) -> Seq<char>
    decreases n,
{
    if n <= 0 {
        Seq::empty()
    } else {
        rendered(views, n - 1) + decode_utf8(views[n - 1])
    }
}

/// `transfer_len` is exactly the stopping point of a transfer: all chunks
/// before it decode, and the chunk at it, if any, is a failure.
pub proof fn lemma_transfer_len(views: Seq<Seq<u8>>)
    ensures
        decodes_until(views, transfer_len(views)),
    decreases views.len(),
{
    if views.len() > 0 && valid_utf8(views[0]) {
        let rest = views.drop_first();
        lemma_transfer_len(rest);
        assert(forall|j: int| 1 <= j < views.len() ==> views[j] == rest[j - 1]);
    }
}

/// The stopping point of a transfer is unique: any point that satisfies
/// `decodes_until` is `transfer_len`.
pub proof fn lemma_decodes_until_unique(views: Seq<Seq<u8>>, n: int)
    requires
        decodes_until(views, n),
    ensures
        n == transfer_len(views),
{
    lemma_transfer_len(views);
    let tl = transfer_len(views);
    if n < tl {
        assert(valid_utf8(views[n]));
        assert(!valid_utf8(views[n]));
    }
    if n > tl {
        assert(valid_utf8(views[tl]));
        assert(!valid_utf8(views[tl]));
    }
}

/// The text transferred by the first `n` chunks depends on those chunks
/// alone.
pub proof fn lemma_rendered_prefix(a: Seq<Seq<u8>>, b: Seq<Seq<u8>>, n: int)
    requires
        forall|j: int| 0 <= j < n ==> a[j] == b[j],
    ensures
        rendered(a, n) == rendered(b, n),
    decreases n,
{
    if n > 0 {
        lemma_rendered_prefix(a, b, n - 1);
    }
}

/// First error wins: once a chunk of an operation has failed to decode,
/// chunks delivered after it change nothing — not the number of chunks
/// transferred, not the text transferred, and not which chunk the failure is
/// attributed to.
pub proof fn lemma_first_error_wins(views: Seq<Seq<u8>>, more: Seq<Seq<u8>>)
    requires
        transfer_len(views) < views.len(),
    ensures
        transfer_len(views + more) == transfer_len(views),
        rendered(views + more, transfer_len(views + more)) == rendered(
            views,
            transfer_len(views),
        ),
        (views + more)[transfer_len(views)] == views[transfer_len(views)],
{
    lemma_transfer_len(views);
    let tl = transfer_len(views);
    let all = views + more;
    assert(forall|j: int| 0 <= j < views.len() ==> all[j] == views[j]);
    assert(decodes_until(all, tl));
    lemma_decodes_until_unique(all, tl);
    lemma_rendered_prefix(all, views, tl);
}

/// The state cell shared by the accumulation-mode callbacks of one transfer
/// operation: the owned buffer being assembled and the first error seen, if
/// any. Scoped strictly to one operation and never exposed to callers.
pub(crate) struct StringCell {
    pub(crate) buffer: String,
    pub(crate) result: Result<(), TableGenError>,
}

/// Borrowed-view-mode transfer callback: writes one chunk of parser-owned text
/// into the caller-visible output, for the duration of the call only. After
/// a first failure every later invocation of the same operation is a no-op,
/// so the first error wins and the output keeps exactly the text written
/// before the failure.
pub(crate) fn print_callback<'a>(
    formatter: &mut String,
    result: &mut Result<(), TableGenError>,
    string: StringRef<'a>,
)
    ensures
        (*old(result)) is Err ==> final(formatter)@ == old(formatter)@ && *final(result) == *old(
            result,
        ),
        (*old(result)) is Ok && valid_utf8(string@) ==> final(formatter)@ == old(formatter)@
            + decode_utf8(string@) && (*final(result)) is Ok,
        (*old(result)) is Ok && !valid_utf8(string@) ==> final(formatter)@ == old(formatter)@
            && *final(result) == Err::<(), TableGenError>(TableGenError::InvalidText),
{
    if result.is_err() {
        return ;
    }
    match string.as_str() {
        Ok(s) => {
            formatter.append(s);
            *result = Ok(());
        },
        Err(e) => {
            *result = Err(e);
        },
    }
}

/// Accumulation-mode transfer callback: validates one chunk of parser-owned text
/// and appends it to the owned buffer. After a first failure every later
/// invocation of the same operation is a no-op, so the first error wins and
/// the buffer keeps exactly the chunks appended before the failure.
pub(crate) fn print_string_callback<'a>(data: &mut StringCell, string: StringRef<'a>)
    ensures
        old(data).result is Err ==> final(data).buffer@ == old(data).buffer@ && final(data).result
            == old(data).result,
        old(data).result is Ok && valid_utf8(string@) ==> final(data).buffer@ == old(data).buffer@
            + decode_utf8(string@) && final(data).result is Ok,
        old(data).result is Ok && !valid_utf8(string@) ==> final(data).buffer@ == old(
            data,
        ).buffer@ && final(data).result == Err::<(), TableGenError>(TableGenError::InvalidText),
{
    if data.result.is_err() {
        return ;
    }
    match string.as_str() {
        Ok(s) => {
            data.buffer.append(s);
        },
        Err(e) => {
            data.result = Err(e);
        },
    }
}

/// The byte views of a sequence of text chunks.
pub open spec fn chunk_views<'a>(chunks: Seq<StringRef<'a>>) -> Seq<Seq<u8>> {
    chunks.map_values(|c: StringRef<'a>| c@)
}

/// Drives one borrowed-view-mode transfer operation: delivers the chunks in
/// order into the caller-visible output.
///
/// The output gains exactly the text of the chunks before the first decode
/// failure; the result is `Ok` exactly when every chunk decodes.
pub fn write_chunks<'a>(out: &mut String, chunks: &Vec<StringRef<'a>>) -> (r: Result<
    (),
    TableGenError,
>)
    ensures
        ({
            let views = chunk_views(chunks@);
            &&& final(out)@ == old(out)@ + rendered(views, transfer_len(views))
            &&& (r is Ok <==> transfer_len(views) == views.len())
            &&& (r matches Err(e) ==> e == TableGenError::InvalidText)
        }),
{
    let ghost views = chunk_views(chunks@);
    let mut result: Result<(), TableGenError> = Ok(());
    let n = chunks.len();
    let mut i: usize = 0;
    while i < n
        invariant
            n == chunks@.len(),
            0 <= i <= n,
            views == chunk_views(chunks@),
            views.len() == n,
            result is Ok ==> (forall|j: int| 0 <= j < i ==> valid_utf8(#[trigger] views[j]))
                && out@ == old(out)@ + rendered(views, i as int),
            result is Err ==> transfer_len(views) < views.len() && out@ == old(out)@ + rendered(
                views,
                transfer_len(views),
            ) && result == Err::<(), TableGenError>(TableGenError::InvalidText),
        decreases n - i,
    {
        let was_ok = result.is_ok();
        let chunk = chunks[i];
        proof {
            assert(views[i as int] == chunk@);
        }
        print_callback(out, &mut result, chunk);
        proof {
            if was_ok && !valid_utf8(chunk@) {
                assert(decodes_until(views, i as int));
                lemma_decodes_until_unique(views, i as int);
            }
        }
        i = i + 1;
    }
    proof {
        if result is Ok {
            assert(decodes_until(views, n as int));
            lemma_decodes_until_unique(views, n as int);
        }
    }
    result
}

/// Drives one accumulation-mode transfer operation: delivers the chunks in
/// order into an owned buffer and returns the assembled text.
///
/// Succeeds with the concatenation of all chunks exactly when every chunk
/// decodes; otherwise the first decode failure is surfaced and the partial
/// buffer is discarded.
pub fn render_chunks<'a>(chunks: &Vec<StringRef<'a>>) -> (r: Result<String, TableGenError>)
    ensures
        ({
            let views = chunk_views(chunks@);
            &&& (r is Ok <==> transfer_len(views) == views.len())
            &&& (r matches Ok(s) ==> s@ == rendered(views, views.len() as int))
            &&& (r matches Err(e) ==> e == TableGenError::InvalidText)
        }),
{
    let ghost views = chunk_views(chunks@);
    let mut data = StringCell { buffer: String::from_str(""), result: Ok(()) };
    proof {
        reveal_strlit("");
        assert(data.buffer@ =~= rendered(views, 0));
    }
    let n = chunks.len();
    let mut i: usize = 0;
    while i < n
        invariant
            n == chunks@.len(),
            0 <= i <= n,
            views == chunk_views(chunks@),
            views.len() == n,
            data.result is Ok ==> (forall|j: int| 0 <= j < i ==> valid_utf8(#[trigger] views[j]))
                && data.buffer@ == rendered(views, i as int),
            data.result is Err ==> transfer_len(views) < views.len() && data.result == Err::<
                (),
                TableGenError,
            >(TableGenError::InvalidText),
        decreases n - i,
    {
        let was_ok = data.result.is_ok();
        let chunk = chunks[i];
        proof {
            assert(views[i as int] == chunk@);
        }
        print_string_callback(&mut data, chunk);
        proof {
            if was_ok && !valid_utf8(chunk@) {
                assert(decodes_until(views, i as int));
                lemma_decodes_until_unique(views, i as int);
            }
        }
        i = i + 1;
    }
    match data.result {
        Ok(_) => {
            proof {
                assert(decodes_until(views, n as int));
                lemma_decodes_until_unique(views, n as int);
            }
            Ok(data.buffer)
        },
        Err(e) => Err(e),
    }
}

} // verus!
