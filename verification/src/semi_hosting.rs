//! Line buffering of the semi-hosting output: standard output is collected into lines of at
//! most 100 bytes before it goes to the host; error output goes out unbuffered.

use vstd::prelude::*;
use vstd::string::StringSliceAdditionalSpecFns;

verus! {

/// The size of the standard output buffer.
pub const BUFFER_SIZE: usize = 100;

/// The standard output buffer: bytes written but not yet sent to the host.
pub struct Stdout {
    pending: Vec<u8>,
}

/// The concatenation of the chunks.
pub open spec fn concat(chunks: Seq<Seq<u8>>) -> Seq<u8>
    decreases chunks.len(),
{
    if chunks.len() == 0 {
        seq![]
    } else {
        concat(chunks.drop_last()) + chunks.last()
    }
}

/// Whether a chunk is ready to be sent: it is cut at its first newline, or is a full buffer
/// without one. So a chunk holds a newline only as its last byte.
pub open spec fn complete_chunk(chunk: Seq<u8>) -> bool {
    &&& chunk.len() > 0
    &&& !chunk.drop_last().contains(10u8)
    &&& (chunk.len() == BUFFER_SIZE || chunk.last() == 10u8)
}

impl Stdout {
    /// The bytes written but not yet sent.
    pub closed spec fn pending(&self) -> Seq<u8> {
        self.pending@
    }

    /// Pending bytes are fewer than a full buffer and hold no newline.
    pub open spec fn wf(&self) -> bool {
        self.pending().len() < BUFFER_SIZE && !self.pending().contains(10u8)
    }

    /// An empty buffer.
    pub fn new() -> (r: Stdout)
        ensures
            r.wf(),
            r.pending() == Seq::<u8>::empty(),
    {
        Stdout { pending: Vec::new() }
    }
}

/// Writes `s` to standard output. Returns the chunks to send to the host, in order: each
/// time the buffer fills up or receives a newline it is sent and emptied.
///
/// Nothing is lost or reordered: the chunks followed by the bytes that stay pending are the
/// previously pending bytes followed by `s`.
pub fn print(stdout: &mut Stdout, s: &str) -> (chunks: Vec<Vec<u8>>)
    requires
        old(stdout).wf(),
    ensures
        final(stdout).wf(),
        concat(chunks@.map_values(|c: Vec<u8>| c@)) + final(stdout).pending() == old(stdout).pending()
            + s.spec_bytes(),
        forall|i: int| 0 <= i < chunks@.len() ==> complete_chunk(#[trigger] chunks@[i]@),
{
    let bytes = s.as_bytes();
    let mut chunks: Vec<Vec<u8>> = Vec::new();
    let mut k: usize = 0;
    while k < bytes.len()
        invariant
            k <= bytes@.len(),
            bytes@ == s.spec_bytes(),
            stdout.wf(),
            concat(chunks@.map_values(|c: Vec<u8>| c@)) + stdout.pending() == old(stdout).pending()
                + bytes@.subrange(0, k as int),
            forall|i: int| 0 <= i < chunks@.len() ==> complete_chunk(#[trigger] chunks@[i]@),
        decreases bytes@.len() - k,
    {
        let byte = bytes[k];
        let ghost before_chunks = chunks@.map_values(|c: Vec<u8>| c@);
        let ghost before_pending = stdout.pending@;
        stdout.pending.push(byte);
        assert(bytes@.subrange(0, k + 1) == bytes@.subrange(0, k as int).push(byte));
        assert(concat(before_chunks) + stdout.pending@ =~= (concat(before_chunks) + before_pending).push(byte));
        if stdout.pending.len() >= BUFFER_SIZE || byte == 10u8 {
            let mut chunk: Vec<u8> = Vec::new();
            core::mem::swap(&mut chunk, &mut stdout.pending);
            assert(chunk@.drop_last() =~= before_pending);
            chunks.push(chunk);
            let ghost pushed = before_chunks.push(chunk@);
            assert(chunks@.map_values(|c: Vec<u8>| c@) =~= pushed);
            assert(pushed.drop_last() =~= before_chunks);
            assert(concat(pushed) == concat(before_chunks) + chunk@);
            assert(concat(pushed) + stdout.pending@ =~= concat(before_chunks) + chunk@);
        }
        k = k + 1;
    }
    assert(bytes@.subrange(0, bytes@.len() as int) == bytes@);
    chunks
}

/// Writes `s` to the error output, which is not buffered: the result is the single chunk to
/// send to the host.
pub fn print_err(s: &str) -> (chunk: Vec<u8>)
    ensures
        chunk@ == s.spec_bytes(),
{
    let bytes = s.as_bytes();
    let mut chunk: Vec<u8> = Vec::new();
    let mut k: usize = 0;
    while k < bytes.len()
        invariant
            k <= bytes@.len(),
            chunk@ == bytes@.subrange(0, k as int),
        decreases bytes@.len() - k,
    {
        chunk.push(bytes[k]);
        assert(bytes@.subrange(0, k + 1) == bytes@.subrange(0, k as int).push(bytes@[k as int]));
        k = k + 1;
    }
    assert(bytes@.subrange(0, bytes@.len() as int) == bytes@);
    chunk
}

} // verus!
