//! Verdicts, and the verdict header that carries one to the kernel.
use vstd::prelude::*;
use crate::codec::{be32_bytes, push_be32};

verus! {

/// Bytes of the verdict header: verdict code, then packet id.
pub const VERDICT_HEADER_SIZE: usize = 8;

/// What becomes of a queued packet.
#[derive(Debug, Clone, Copy, PartialEq, Eq, Structural)]
pub enum Verdict {
    /// Let the packet continue through the kernel.
    Accept,
    /// Discard the packet.
    Drop,
    /// Move the packet to the queue with this number.
    Requeue(u16),
}

/// The number the kernel reads as a verdict; a requeue carries its target
/// queue in the upper sixteen bits.
pub open spec fn verdict_code(v: Verdict) -> u32 {
    match v {
        Verdict::Drop => 0,
        Verdict::Accept => 1,
        Verdict::Requeue(target) => (target as int * 65536 + 3) as u32,
    }
}

/// A lightweight handle on one queue, enough to issue verdicts for it.
#[derive(Debug, Clone, Copy, PartialEq, Eq, Structural)]
pub struct QueueHandle {
    pub queue_num: u16,
}

/// One verdict, ready to send: the queue, the packet id it resolves, the
/// verdict number and a mark for the packet.
#[derive(Debug, Clone, Copy, PartialEq, Eq, Structural)]
pub struct VerdictRequest {
    pub queue_num: u16,
    pub packet_id: u32,
    pub code: u32,
    pub mark: u32,
}

impl Verdict {
    /// The number the kernel reads as this verdict.
    pub fn code(&self) -> (r: u32)
        ensures
            r == verdict_code(*self),
    {
        match self {
            Verdict::Drop => 0,
            Verdict::Accept => 1,
            Verdict::Requeue(target) => (*target as u32) * 65536 + 3,
        }
    }

    /// The verdict that the number `code` stands for, if any.
    pub fn from_code(code: u32) -> (r: Option<Verdict>)
        ensures
            match r {
                Some(v) => verdict_code(v) == code,
                None => forall|v: Verdict| verdict_code(v) != code,
            },
    {
        if code == 0 {
            Some(Verdict::Drop)
        } else if code == 1 {
            Some(Verdict::Accept)
        } else if code % 65536 == 3 {
            Some(Verdict::Requeue((code / 65536) as u16))
        } else {
            assert forall|v: Verdict| verdict_code(v) != code by {
                if let Verdict::Requeue(t) = v {
                    assert((t as int * 65536 + 3) % 65536 == 3);
                }
            }
            None
        }
    }
}

/// The request that resolves packet `id` of the queue of `qh` with `verdict`
/// and `mark`.
pub fn verdict_request(qh: QueueHandle, id: u32, verdict: Verdict, mark: u32) -> (r:
    VerdictRequest)
    ensures
        r == (VerdictRequest {
            queue_num: qh.queue_num,
            packet_id: id,
            code: verdict_code(verdict),
            mark,
        }),
{
    VerdictRequest { queue_num: qh.queue_num, packet_id: id, code: verdict.code(), mark }
}

/// The wire bytes of a verdict header.
pub open spec fn verdict_header_bytes(r: VerdictRequest) -> Seq<u8> {
    be32_bytes(r.code) + be32_bytes(r.packet_id)
}

impl VerdictRequest {
    /// The verdict header of this request, as the kernel reads it.
    pub fn header_bytes(&self) -> (r: Vec<u8>)
        ensures
            r@ == verdict_header_bytes(*self),
            r@.len() == VERDICT_HEADER_SIZE,
    {
        let mut out: Vec<u8> = Vec::new();
        push_be32(&mut out, self.code);
        push_be32(&mut out, self.packet_id);
        assert(out@ =~= verdict_header_bytes(*self));
        out
    }
}

} // verus!
