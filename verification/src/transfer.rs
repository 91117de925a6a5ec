//! The data transfer pipeline's byte handling.
//!
//! Once an offer and a content type are chosen, the server streams the
//! clipboard bytes through a kernel pipe.  The caller reads the pipe in
//! fixed-size chunks and hands each outcome to this module, which absorbs
//! the bytes into an append-only buffer until a zero-length read signals
//! the end of the stream, then decodes the whole buffer as UTF-8 text.
//! A read error aborts the transfer; a decode failure discards the bytes.

use crate::errors::ClipboardError;
use vstd::prelude::*;
use vstd::utf8::decode_utf8;
use vstd::utf8::valid_utf8;

verus! {

/// The transfer byte buffer: an append-only byte sequence owned by the
/// calling thread, filled chunk by chunk from the transfer pipe.
pub struct TransferBuffer {
    data: Vec<u8>,
}

impl View for TransferBuffer {
    type V = Seq<u8>;

    closed spec fn view(&self) -> Seq<u8> {
        self.data@
    }
}

impl TransferBuffer {
    /// An empty buffer, ready to absorb a transfer.
    pub fn new() -> (r: TransferBuffer)
        ensures
            r@ == Seq::<u8>::empty(),
    {
        TransferBuffer { data: Vec::new() }
    }

    /// How many bytes have been absorbed so far.
    pub fn len(&self) -> (r: usize)
        ensures
            r == self@.len(),
    {
        self.data.len()
    }

    /// The bytes absorbed so far, in arrival order.
    pub fn bytes(&self) -> (r: &[u8])
        ensures
            r@ == self@,
    {
        self.data.as_slice()
    }

    /// Append the first `count` bytes of a chunk, exactly as one successful
    /// pipe read of `count` bytes into `chunk` delivered them.
    pub fn push_chunk(&mut self, chunk: &[u8], count: usize)
        requires
            count <= chunk@.len(),
        ensures
            final(self)@ == old(self)@ + chunk@.take(count as int),
    {
        let mut i: usize = 0;
        while i < count
            invariant
                i <= count,
                count <= chunk@.len(),
                self.data@ == old(self).data@ + chunk@.take(i as int),
            decreases count - i,
        {
            self.data.push(chunk[i]);
            proof {
                assert(chunk@.take(i as int + 1) =~= chunk@.take(i as int).push(
                    chunk@[i as int],
                ));
                assert(old(self).data@ + chunk@.take(i as int + 1) =~= (old(self).data@
                    + chunk@.take(i as int)).push(chunk@[i as int]));
            }
            i = i + 1;
        }
    }

    /// Decode the accumulated bytes as UTF-8 text, consuming the buffer.
    /// Exactly the valid encodings decode; anything else is an encoding
    /// error, and the partial bytes are discarded rather than returned.
    /// An empty transfer decodes to the empty string.
    pub fn decode(self) -> (r: Result<String, ClipboardError>)
        ensures
            valid_utf8(self@) ==> (r matches Ok(s) && s@ == decode_utf8(self@)),
            !valid_utf8(self@) ==> r == Err::<String, ClipboardError>(ClipboardError::Encoding),
            self@.len() == 0 ==> (r matches Ok(s) && s@ == Seq::<char>::empty()),
    {
        proof {
            if self@.len() == 0 {
                assert(valid_utf8(self@));
                assert(decode_utf8(self@) =~= Seq::<char>::empty());
            }
        }
        match bytes_to_string(self.data) {
            Some(s) => Ok(s),
            None => Err(ClipboardError::Encoding),
        }
    }
}

/// Relies on `String::from_utf8`: it succeeds exactly when the bytes are a
/// valid UTF-8 encoding, returning the text those bytes encode, and fails
/// on anything else.
#[verifier::external_body]
fn bytes_to_string(bytes: Vec<u8>) -> (r: Option<String>)
    ensures
        r is Some <==> valid_utf8(bytes@),
        r matches Some(s) ==> s@ == decode_utf8(bytes@),
{
    String::from_utf8(bytes).ok()
}

/// The pipeline's decision on the outcome of one read from the transfer
/// pipe.
#[derive(Clone, Copy, Debug, PartialEq, Eq, Structural)]
pub enum ReadStep {
    /// Bytes were absorbed; keep reading.
    Extended,
    /// A zero-length read: the stream has ended.
    Finished,
    /// The read failed: the transfer is aborted.
    Failed,
}

/// Absorb the outcome of one fixed-size chunk read from the transfer pipe:
/// a read of `n > 0` bytes appends exactly those bytes, a zero-length read
/// ends the stream with the buffer untouched, and a read error aborts the
/// transfer with the buffer untouched.
pub fn absorb_read(buffer: &mut TransferBuffer, chunk: &[u8], outcome: Result<usize, i32>) -> (r:
    ReadStep)
    requires
        outcome matches Ok(n) ==> n <= chunk@.len(),
    ensures
        (match outcome {
            Ok(n) => if n == 0 {
                r == ReadStep::Finished && final(buffer)@ == old(buffer)@
            } else {
                r == ReadStep::Extended && final(buffer)@ == old(buffer)@ + chunk@.take(n as int)
            },
            Err(_) => r == ReadStep::Failed && final(buffer)@ == old(buffer)@,
        }),
{
    match outcome {
        Ok(n) => if n == 0 {
            ReadStep::Finished
        } else {
            buffer.push_chunk(chunk, n);
            ReadStep::Extended
        },
        Err(_) => ReadStep::Failed,
    }
}

/// The bytes a buffer accumulates after absorbing each chunk of a sequence
/// in order, starting empty.
pub open spec fn absorbed(chunks: Seq<Seq<u8>>) -> Seq<u8>
    decreases chunks.len(),
{
    if chunks.len() == 0 {
        Seq::empty()
    } else {
        absorbed(chunks.drop_last()) + chunks.last()
    }
}

/// Chunk boundaries do not matter: absorbing chunks one at a time yields
/// exactly their concatenation, so any chunking of a payload reassembles
/// the payload byte-identically.
pub proof fn lemma_reassembly_is_concatenation(chunks: Seq<Seq<u8>>)
    ensures
        absorbed(chunks) == chunks.flatten_alt(),
        absorbed(chunks) == chunks.flatten(),
    decreases chunks.len(),
{
    if chunks.len() > 0 {
        lemma_reassembly_is_concatenation(chunks.drop_last());
    }
    chunks.lemma_flatten_and_flatten_alt_are_equivalent();
}

} // verus!
