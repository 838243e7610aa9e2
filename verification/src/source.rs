//! Source-location resolution.
//!
//! A parse leaves the source manager holding a set of source buffers, each
//! with a filepath and an address range. A location token produced during
//! that parse is an address; resolving it means finding the buffer whose
//! range contains the address and turning the address into a 0-based offset
//! from the start of that buffer. A token that falls in no buffer — a
//! synthetic or built-in entity with no textual origin — resolves to an
//! absent result, which is expected, not an error.

use vstd::prelude::*;

use crate::string_ref::StringRef;
use crate::util::FilePos;

verus! {

/// One source buffer registered with the source manager: a filepath and the
/// address range `[start, start + size)` its text occupies.
#[derive(Debug, PartialEq, Eq)]
pub struct SourceBuffer {
    /// Filepath bytes; empty means in-memory source with no file.
    pub filepath: Vec<u8>,
    /// Address of the first byte of the buffer.
    pub start: u64,
    /// Number of addresses the buffer covers.
    pub size: u64,
}

impl SourceBuffer {
    /// A buffer is well formed when offsets into it fit in a `u32` and its
    /// address range does not wrap around.
    pub open spec fn wf(self) -> bool {
        &&& self.size <= u32::MAX
        &&& self.start + self.size <= u64::MAX
    }
}

/// Whether `addr` falls inside the address range of buffer `b`.
pub open spec fn buffer_contains(b: SourceBuffer, addr: u64) -> bool {
    b.start <= addr < b.start + b.size
}

/// The index of the first buffer whose range contains `addr`, if any.
pub open spec fn find_buffer(bufs: Seq<SourceBuffer>, addr: u64) -> Option<int>
    decreases bufs.len(),
{
    if bufs.len() == 0 {
        None
    } else if buffer_contains(bufs[0], addr) {
        Some(0)
    } else {
        match find_buffer(bufs.drop_first(), addr) {
            None => None,
            Some(i) => Some(i + 1),
        }
    }
}

/// `find_buffer` yields exactly the first containing buffer: it succeeds if
/// and only if some buffer contains the address, and what it yields is a
/// containing buffer before which no other buffer contains the address.
pub proof fn lemma_find_buffer(bufs: Seq<SourceBuffer>, addr: u64)
    ensures
        find_buffer(bufs, addr) is Some <==> exists|i: int|
            0 <= i < bufs.len() && buffer_contains(bufs[i], addr),
        find_buffer(bufs, addr) matches Some(i) ==> {
            &&& 0 <= i < bufs.len()
            &&& buffer_contains(bufs[i], addr)
            &&& forall|j: int| 0 <= j < i ==> !buffer_contains(bufs[j], addr)
        },
    decreases bufs.len(),
{
    if bufs.len() > 0 && !buffer_contains(bufs[0], addr) {
        lemma_find_buffer(bufs.drop_first(), addr);
        let rest = bufs.drop_first();
        if find_buffer(rest, addr) is Some {
            let i = find_buffer(rest, addr)->Some_0;
            assert(bufs[i + 1] == rest[i]);
            assert(forall|j: int| 1 <= j < i + 1 ==> bufs[j] == rest[j - 1]);
        } else {
            assert(forall|i: int|
                1 <= i < bufs.len() ==> bufs[i] == rest[i - 1]);
        }
    }
}

/// An opaque location token attached to a record or field during parsing.
///
/// The token is an address into one of the buffers of the parse session that
/// produced it; resolving it against a different session's [`SourceInfo`] is
/// a contract violation of the producing parser, not checked here.
#[derive(Clone, Copy, Debug, PartialEq, Eq, Structural)]
pub struct SourceLocation {
    raw: u64,
}

impl SourceLocation {
    /// The address this token stands for.
    pub closed spec fn addr(self) -> u64 {
        self.raw
    }

    /// Creates a location token from a raw address.
    pub fn from_raw(raw: u64) -> (r: Self)
        ensures
            r.addr() == raw,
    {
        Self { raw }
    }
}

/// A handle to the source manager of one parse session: the buffers the
/// session loaded, in registration order.
#[derive(Debug)]
pub struct SourceInfo {
    buffers: Vec<SourceBuffer>,
}

impl View for SourceInfo {
    type V = Seq<SourceBuffer>;

    closed spec fn view(&self) -> Seq<SourceBuffer> {
        self.buffers@
    }
}

impl SourceInfo {
    /// All registered buffers are well formed.
    pub open spec fn wf(self) -> bool {
        forall|i: int| 0 <= i < self@.len() ==> (#[trigger] self@[i]).wf()
    }

    /// Creates a source manager handle with no buffers.
    pub fn new() -> (r: Self)
        ensures
            r@ == Seq::<SourceBuffer>::empty(),
            r.wf(),
    {
        Self { buffers: Vec::new() }
    }

    /// Registers one source buffer: `filepath` names the file it came from
    /// (empty for in-memory text) and `[start, start + size)` is the address
    /// range its text occupies.
    pub fn add_buffer(&mut self, filepath: Vec<u8>, start: u64, size: u64)
        requires
            size <= u32::MAX,
            start + size <= u64::MAX,
        ensures
            final(self)@ == old(self)@.push(SourceBuffer { filepath, start, size }),
            old(self).wf() ==> final(self).wf(),
    {
        self.buffers.push(SourceBuffer { filepath, start, size });
        proof {
            if old(self).wf() {
                assert forall|i: int| 0 <= i < self@.len() implies (#[trigger] self@[i]).wf() by {
                    if i < old(self)@.len() {
                        assert(old(self)@[i].wf());
                    } else {
                        assert(self@[i].size == size);
                        assert(self@[i].start == start);
                    }
                }
            }
        }
    }
}

/// Resolves an opaque location token into a concrete file position, using
/// the source manager of the parse session that produced the token.
///
/// Succeeds exactly when some buffer of the session contains the token's
/// address; the result then names the first such buffer's filepath and the
/// 0-based offset of the address from that buffer's start. A token with no
/// textual origin resolves to the absent result.
///
/// The token must come from the parse session whose source manager `info`
/// describes: handing in a token from another session is a contract
/// violation of the caller and yields a meaningless position, not an error.
pub fn resolve<'a>(info: &'a SourceInfo, location: SourceLocation) -> (r: Option<FilePos<'a>>)
    requires
        info.wf(),
    ensures
        r is Some <==> find_buffer(info@, location.addr()) is Some,
        r matches Some(fp) ==> {
            let i = find_buffer(info@, location.addr())->Some_0;
            &&& fp.spec_filepath() == info@[i].filepath@
            &&& fp.spec_pos() == location.addr() - info@[i].start
        },
{
    let addr = location.raw;
    let n = info.buffers.len();
    let mut i: usize = 0;
    while i < n
        invariant
            n == info@.len(),
            0 <= i <= n,
            info.wf(),
            addr == location.addr(),
            forall|j: int| 0 <= j < i ==> !buffer_contains(info@[j], addr),
        decreases n - i,
    {
        let b = &info.buffers[i];
        if b.start <= addr && addr - b.start < b.size {
            proof {
                lemma_find_buffer(info@, addr);
                assert(buffer_contains(info@[i as int], addr));
            }
            let offset = (addr - b.start) as u32;
            let fp = FilePos::from_raw(StringRef::from_raw(b.filepath.as_slice()), offset);
            proof {
                let k = find_buffer(info@, addr)->Some_0;
                if k < i as int {
                    assert(!buffer_contains(info@[k], addr));
                }
                if k > i as int {
                    assert(false);
                }
            }
            return Some(fp);
        }
        i = i + 1;
    }
    proof {
        lemma_find_buffer(info@, addr);
    }
    None
}

} // verus!
