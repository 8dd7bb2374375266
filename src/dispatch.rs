//! Routing of jobs between connections and the operation processor.
//!
//! A `ConnectionHandler` holds one connection's state: it turns a decoded
//! operation into a request envelope, keeps at most one request in flight,
//! and accepts only the reply addressed to its own id. `ConnectionIds`
//! hands out those ids. `open_job` is the processor's side: it opens a
//! request envelope into the id and the operation.

use vstd::prelude::*;
use vstd::slice::slice_to_vec;
use vstd::utf8::{decode_utf8, valid_utf8};
use crate::job::{Job, job_wire, job_of_wire, lemma_job_round_trip};
use crate::operation::{Operation, OperationModel};
use crate::text::{chars_of, trim_line_feeds};
use crate::stock::Stock;
use crate::reply::{help_reply, help_text, wrapped_json};
use vstd::utf8::encode_utf8;
use crate::wire::{ByteOperations, operation_wire, operation_of_wire, fits_wire, text_from_utf8};

verus! {

/// The text of one message read from a connection, without its trailing
/// line feeds; `None` when the bytes are not UTF-8.
pub fn frame_line(bytes: &[u8]) -> (r: Option<String>)
    ensures
        match r {
            Some(s) => valid_utf8(bytes@) && s@ == trim_line_feeds(decode_utf8(bytes@)),
            None => !valid_utf8(bytes@),
        },
{
    let s = match text_from_utf8(slice_to_vec(bytes)) {
        Some(s) => s,
        None => return None,
    };
    let cs = chars_of(s.as_str());
    let mut end: usize = cs.len();
    assert(cs@.take(cs@.len() as int) =~= cs@);
    while end > 0 && cs[end - 1] == '\n'
        invariant
            end <= cs@.len(),
            trim_line_feeds(cs@) == trim_line_feeds(cs@.take(end as int)),
        decreases end,
    {
        assert(cs@.take(end as int).drop_last() =~= cs@.take(end - 1));
        end -= 1;
    }
    assert(cs@.take(cs@.len() as int) =~= cs@);
    let line = s.as_str().substring_char(0, end);
    assert(line@ =~= cs@.take(end as int));
    Some(line.to_owned())
}

/// Where a connection is in its request/reply cycle.
#[derive(Clone, Copy, PartialEq, Eq, Debug, Structural)]
pub enum Phase {
    AwaitingLine,
    AwaitingReply,
    Closed,
}

/// The routing state of one accepted connection.
#[derive(Debug)]
pub struct ConnectionHandler {
    pub id: u32,
    pub phase: Phase,
}

/// The text written back to connection `id` for the reply envelope
/// `reply`: its payload and a line feed, if the envelope is addressed to
/// `id`; nothing otherwise.
pub open spec fn reply_for(id: u32, reply: Seq<u8>) -> Option<Seq<u8>> {
    match job_of_wire(reply) {
        Some((to, payload)) => if to == id {
            Some(payload.push(10u8))
        } else {
            None
        },
        None => None,
    }
}

/// The request envelope that connection `id` sends for `op`.
pub fn request_bytes(id: u32, op: &Operation) -> (r: Vec<u8>)
    ensures
        r@ == job_wire(id, operation_wire(op@)),
{
    let payload = op.to_bytes();
    Job::envelope(id, &payload)
}

impl ConnectionHandler {
    /// The handler of a newly accepted connection with id `id`.
    pub fn new(id: u32) -> (r: ConnectionHandler)
        ensures
            r.id == id,
            r.phase == Phase::AwaitingLine,
    {
        ConnectionHandler { id, phase: Phase::AwaitingLine }
    }

    /// Hands over the operation decoded from a line. While no request is in
    /// flight, any operation but `Error` becomes the request envelope to
    /// send, and the handler waits for its reply. `Error` is dropped, and
    /// nothing is sent while a request is in flight or once closed.
    pub fn submit(&mut self, op: &Operation) -> (r: Option<Vec<u8>>)
        ensures
            final(self).id == old(self).id,
            if old(self).phase == Phase::AwaitingLine && !(op@ is Error) {
                &&& r is Some
                &&& r.unwrap()@ == job_wire(old(self).id, operation_wire(op@))
                &&& final(self).phase == Phase::AwaitingReply
            } else {
                r is None && final(self).phase == old(self).phase
            },
    {
        if self.phase != Phase::AwaitingLine || op.is_error() {
            return None;
        }
        let bytes = request_bytes(self.id, op);
        self.phase = Phase::AwaitingReply;
        Some(bytes)
    }

    /// Hands over an envelope from the reply channel. While waiting, an
    /// envelope addressed to this connection yields the text to write back
    /// (its payload and a line feed) and ends the wait; any other envelope
    /// is refused and the wait goes on.
    pub fn accept_reply(&mut self, reply: &Vec<u8>) -> (r: Option<Vec<u8>>)
        ensures
            final(self).id == old(self).id,
            if old(self).phase == Phase::AwaitingReply && reply_for(old(self).id, reply@) is Some {
                &&& r is Some
                &&& r.unwrap()@ == reply_for(old(self).id, reply@).unwrap()
                &&& final(self).phase == Phase::AwaitingLine
            } else {
                r is None && final(self).phase == old(self).phase
            },
    {
        if self.phase != Phase::AwaitingReply {
            return None;
        }
        match Job::from_bytes(reply) {
            Some(job) => {
                if job.id != self.id {
                    return None;
                }
                let mut out = job.payload;
                out.push(10u8);
                self.phase = Phase::AwaitingLine;
                Some(out)
            },
            None => None,
        }
    }

    /// Marks the connection closed (end of stream or an I/O failure).
    pub fn close(&mut self)
        ensures
            final(self).id == old(self).id,
            final(self).phase == Phase::Closed,
    {
        self.phase = Phase::Closed;
    }
}

/// The processor's side: the connection id and the operation of a request
/// envelope, if it is one.
pub fn open_job(bytes: &Vec<u8>) -> (r: Option<(u32, Operation)>)
    ensures
        match r {
            Some((id, op)) => job_of_wire(bytes@) matches Some((i, p)) && i == id
                && operation_of_wire(p) == Some(op@),
            None => !(job_of_wire(bytes@) matches Some((_, p)) && operation_of_wire(p) is Some),
        },
{
    let job = match Job::from_bytes(bytes) {
        Some(j) => j,
        None => return None,
    };
    match Operation::from_bytes(&job.payload) {
        Some(op) => Some((job.id, op)),
        None => None,
    }
}

/// The source of connection ids: each accepted connection gets the next
/// one, and no id is handed out twice.
#[derive(Debug)]
pub struct ConnectionIds {
    /// The id that the next accepted connection gets.
    pub next: u64,
}

/// One allocation: from `before`, handing out `r`, leaving `after`.
pub open spec fn allocation_step(before: ConnectionIds, r: Option<u32>, after: ConnectionIds) -> bool {
    if before.next <= u32::MAX {
        r == Some(before.next as u32) && after.next == before.next + 1
    } else {
        r is None && after.next == before.next
    }
}

impl ConnectionIds {
    /// A source whose first id is 0.
    pub fn new() -> (r: ConnectionIds)
        ensures
            r.next == 0,
    {
        ConnectionIds { next: 0 }
    }

    /// The id of a newly accepted connection: the previous one plus one.
    /// Once every `u32` has been handed out, there is none.
    pub fn allocate(&mut self) -> (r: Option<u32>)
        ensures
            allocation_step(*old(self), r, *final(self)),
    {
        if self.next <= u32::MAX as u64 {
            let id = self.next as u32;
            self.next = self.next + 1;
            Some(id)
        } else {
            None
        }
    }
}

/// Ids are never reused: an id handed out by one allocation differs from
/// the id of any later allocation.
pub proof fn lemma_ids_never_reused(
    s0: ConnectionIds,
    s1: ConnectionIds,
    s2: ConnectionIds,
    s3: ConnectionIds,
    i: u32,
    j: u32,
)
    requires
        allocation_step(s0, Some(i), s1),
        s1.next <= s2.next,
        allocation_step(s2, Some(j), s3),
    ensures
        i != j,
{
}

/// Correlation: the request that connection `a` sends for `op` opens to
/// `a` and `op`, and a reply envelope addressed to `a` is written back by
/// `a`'s handler and refused by the handler of any other connection `b`.
pub proof fn lemma_reply_reaches_only_origin(a: u32, b: u32, op: OperationModel, reply: Seq<u8>)
    requires
        a != b,
        fits_wire(op),
        operation_wire(op).len() <= u64::MAX,
        reply.len() <= u64::MAX,
    ensures
        job_of_wire(job_wire(a, operation_wire(op))) == Some((a, operation_wire(op))),
        operation_of_wire(operation_wire(op)) == Some(op),
        reply_for(a, job_wire(a, reply)) == Some(reply.push(10u8)),
        reply_for(b, job_wire(a, reply)) is None,
{
    lemma_job_round_trip(a, operation_wire(op));
    crate::wire::lemma_operation_round_trip(op);
    lemma_job_round_trip(a, reply);
}

/// What the processor does for one opened job.
#[derive(Debug, PartialEq)]
pub enum Work {
    /// List the stored stocks and reply with them.
    ListStored,
    /// Fetch the instruments offered by the quote service and reply with them.
    ListAvailable,
    /// Store the stock, then reply with the outcome.
    Store(Stock),
    /// Remove the stock with this symbol, then reply with the outcome.
    Remove(String),
    /// Send this reply envelope as it is.
    Reply(Vec<u8>),
    /// Nothing to do and no reply.
    Nothing,
}

/// The work for operation `op` of connection `id`: `help` is answered at
/// once, storage and quote operations go to their collaborator, and
/// `update_prices` and `Error` get no reply.
pub fn plan_job(id: u32, op: Operation) -> (r: Work)
    ensures
        match op@ {
            OperationModel::GetPortfolio => r is ListStored,
            OperationModel::ListAvailable => r is ListAvailable,
            OperationModel::AddStock(st) => r matches Work::Store(s) && s@ == st,
            OperationModel::DeleteStock(sym) => r matches Work::Remove(s) && s@ == sym,
            OperationModel::Help => r matches Work::Reply(b)
                && b@ == job_wire(id, encode_utf8(wrapped_json(help_text()))),
            OperationModel::UpdatePrices => r is Nothing,
            OperationModel::Error => r is Nothing,
        },
{
    match op {
        Operation::GetPortfolio => Work::ListStored,
        Operation::ListAvailable => Work::ListAvailable,
        Operation::AddStock(s) => Work::Store(s),
        Operation::DeleteStock(s) => Work::Remove(s),
        Operation::Help => Work::Reply(help_reply(id)),
        Operation::UpdatePrices => Work::Nothing,
        Operation::Error => Work::Nothing,
    }
}

} // verus!
