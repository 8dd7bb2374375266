//! The job envelope: a connection id paired with a payload. Requests carry
//! an operation's byte form; replies carry the text written back to the
//! client. The envelope's bytes are bincode's encoding of `(id, payload)`.

use vstd::prelude::*;
use vstd::bytes::*;
use crate::wire::ByteOperations;

verus! {

/// A unit of work or its result, addressed to one connection.
#[derive(Debug, PartialEq)]
pub struct Job {
    pub id: u32,
    pub payload: Vec<u8>,
}

impl View for Job {
    type V = (u32, Seq<u8>);

    open spec fn view(&self) -> (u32, Seq<u8>) {
        (self.id, self.payload@)
    }
}

/// The envelope bytes of `(id, payload)`: the id in four little-endian
/// bytes, the payload length in eight, then the payload.
pub open spec fn job_wire(id: u32, payload: Seq<u8>) -> Seq<u8> {
    spec_u32_to_le_bytes(id) + spec_u64_to_le_bytes(payload.len() as u64) + payload
}

/// The `(id, payload)` at the start of `b`, if `b` holds a whole envelope
/// there; bytes after it are not read.
pub open spec fn job_of_wire(b: Seq<u8>) -> Option<(u32, Seq<u8>)> {
    if b.len() >= 12 {
        let n = spec_u64_from_le_bytes(b.subrange(4, 12)) as int;
        if n <= b.len() - 12 {
            Some((spec_u32_from_le_bytes(b.subrange(0, 4)), b.subrange(12, 12 + n)))
        } else {
            None
        }
    } else {
        None
    }
}

/// Relies on `bincode::serialize` (1.x defaults: fixed-width little-endian
/// integers, a `u64` length before a sequence) of the pair `(id, payload)`;
/// with no size limit it does not fail for these types.
#[verifier::external_body]
fn bincode_envelope(id: u32, payload: &Vec<u8>) -> (r: Vec<u8>)
    ensures
        r@ == job_wire(id, payload@),
{
    bincode::serialize(&(id, payload)).unwrap_or_default()
}

/// Relies on `bincode::deserialize::<(u32, Vec<u8>)>` (1.x defaults): it
/// reads the id, the `u64` length and that many bytes, fails when the input
/// ends first, and accepts bytes after the envelope.
#[verifier::external_body]
fn bincode_open_envelope(b: &[u8]) -> (r: Option<(u32, Vec<u8>)>)
    ensures
        match r {
            Some((id, p)) => job_of_wire(b@) == Some((id, p@)),
            None => job_of_wire(b@) is None,
        },
{
    bincode::deserialize::<(u32, Vec<u8>)>(b).ok()
}

impl Job {
    /// The envelope bytes of `(id, payload)`.
    pub fn envelope(id: u32, payload: &Vec<u8>) -> (r: Vec<u8>)
        ensures
            r@ == job_wire(id, payload@),
    {
        bincode_envelope(id, payload)
    }
}

impl ByteOperations for Job {
    open spec fn encoding(v: (u32, Seq<u8>)) -> Seq<u8> {
        job_wire(v.0, v.1)
    }

    open spec fn decoding(b: Seq<u8>) -> Option<(u32, Seq<u8>)> {
        job_of_wire(b)
    }

    fn to_bytes(&self) -> (r: Vec<u8>) {
        bincode_envelope(self.id, &self.payload)
    }

    fn from_bytes(bytes: &Vec<u8>) -> (r: Option<Job>) {
        match bincode_open_envelope(bytes.as_slice()) {
            Some((id, payload)) => Some(Job { id, payload }),
            None => None,
        }
    }
}

/// Opening the envelope of `(id, payload)` gives `(id, payload)` back.
pub proof fn lemma_job_round_trip(id: u32, payload: Seq<u8>)
    requires
        payload.len() <= u64::MAX,
    ensures
        job_of_wire(job_wire(id, payload)) == Some((id, payload)),
{
    lemma_auto_spec_u32_to_from_le_bytes();
    lemma_auto_spec_u64_to_from_le_bytes();
    let b = job_wire(id, payload);
    assert(b.subrange(0, 4) =~= spec_u32_to_le_bytes(id));
    assert(b.subrange(4, 12) =~= spec_u64_to_le_bytes(payload.len() as u64));
    assert(b.subrange(12, 12 + payload.len() as int) =~= payload);
}

} // verus!
