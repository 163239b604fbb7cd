//! The state of one control channel: the protocol family it is bound to, the
//! queues registered on it, and whether its receive loop runs. Each packet
//! event read from the channel goes through `Handle::dispatch`, each handler's
//! answer through `Handle::handler_returned`.
use vstd::prelude::*;
use crate::codec::ParseError;
use crate::frame::{event_queue, decode_event_queue};
use crate::message::{Message, Payload, Header};
use crate::queue::{Queue, QueueError, Brake};
use crate::verdict::QueueHandle;

verus! {

/// The address family whose packets a channel is bound to.
#[derive(Debug, Clone, Copy, PartialEq, Eq, Structural)]
pub enum ProtocolFamily {
    Inet,
    Inet6,
    Bridge,
}

impl ProtocolFamily {
    /// The family's number in the socket API.
    pub fn code(&self) -> (r: u16)
        ensures
            r == (match *self {
                ProtocolFamily::Inet => 2u16,
                ProtocolFamily::Inet6 => 10u16,
                ProtocolFamily::Bridge => 7u16,
            }),
    {
        match self {
            ProtocolFamily::Inet => 2,
            ProtocolFamily::Inet6 => 10,
            ProtocolFamily::Bridge => 7,
        }
    }
}

/// Why a channel operation failed.
#[derive(Debug, Clone, Copy, PartialEq, Eq, Structural)]
pub enum ChannelError {
    /// The kernel refused to bind the family, with this status.
    BindFailed(i32),
    /// The receive loop cannot start on a channel that is not bound.
    NotBound,
}

/// What the receive loop does with one frame.
pub enum Dispatch {
    /// The loop has stopped: no handler is called.
    Stopped,
    /// The frame's envelope could not be read; it is skipped.
    Skip(ParseError),
    /// The frame names a queue that is not registered; it is skipped.
    UnknownQueue(u16),
    /// The handler of the queue is called with this handle and event.
    Deliver(QueueHandle, Result<Message, ParseError>),
}

pub struct Handle {
    pub family: Option<ProtocolFamily>,
    pub queues: Vec<u16>,
    pub running: bool,
}

/// Whether handle `h` hands the event frame `s` to a handler.
pub open spec fn delivers(h: Handle, s: Seq<u8>) -> bool {
    h.running && (event_queue(s) matches Some(q) && h.queues@.contains(q))
}

/// The handle after a handler answered `b`.
pub open spec fn after_handler(h: Handle, b: Brake) -> Handle {
    Handle { running: h.running && b == Brake::Continue, ..h }
}

impl Handle {
    /// Every queue number is registered at most once.
    pub open spec fn wf(&self) -> bool {
        self.queues@.no_duplicates()
    }

    /// An unbound channel with no queues and no receive loop.
    pub fn new() -> (r: Handle)
        ensures
            r.wf(),
            r.family is None,
            r.queues@ == Seq::<u16>::empty(),
            !r.running,
    {
        Handle { family: None, queues: Vec::new(), running: false }
    }

    /// Records the kernel's answer `status` to binding `family`: a negative
    /// status is a refusal.
    pub fn bind(&mut self, family: ProtocolFamily, status: i32) -> (r: Result<(), ChannelError>)
        ensures
            status >= 0 ==> r is Ok && final(self).family == Some(family),
            status < 0 ==> r == Err::<(), ChannelError>(ChannelError::BindFailed(status))
                && final(self).family == old(self).family,
            final(self).queues@ == old(self).queues@,
            final(self).running == old(self).running,
    {
        if status < 0 {
            return Err(ChannelError::BindFailed(status));
        }
        self.family = Some(family);
        Ok(())
    }

    pub fn is_bound(&self) -> (r: bool)
        ensures
            r == self.family is Some,
    {
        self.family.is_some()
    }

    /// Whether queue `number` is registered.
    pub fn has_queue(&self, number: u16) -> (r: bool)
        ensures
            r == self.queues@.contains(number),
    {
        let mut i: usize = 0;
        while i < self.queues.len()
            invariant
                i <= self.queues@.len(),
                forall|j: int| 0 <= j < i ==> self.queues@[j] != number,
            decreases self.queues@.len() - i,
        {
            if self.queues[i] == number {
                return true;
            }
            i = i + 1;
        }
        false
    }

    /// Registers queue `number`, which the kernel accepted where `accepted`.
    pub fn create_queue(&mut self, number: u16, accepted: bool) -> (r: Result<Queue, QueueError>)
        requires
            old(self).wf(),
        ensures
            final(self).wf(),
            final(self).family == old(self).family,
            final(self).running == old(self).running,
            old(self).family is None ==> r == Err::<Queue, QueueError>(QueueError::NotBound),
            old(self).family is Some && (old(self).queues@.contains(number) || !accepted) ==> r
                == Err::<Queue, QueueError>(QueueError::CreateFailed),
            r is Ok <==> (old(self).family is Some && !old(self).queues@.contains(number)
                && accepted),
            r is Ok ==> r == Ok::<Queue, QueueError>(Queue::new_spec(number))
                && final(self).queues@ == old(self).queues@.push(number),
            r is Err ==> final(self).queues@ == old(self).queues@,
    {
        if self.family.is_none() {
            return Err(QueueError::NotBound);
        }
        if self.has_queue(number) || !accepted {
            return Err(QueueError::CreateFailed);
        }
        self.queues.push(number);
        Ok(Queue::new(number))
    }

    /// Deregisters `queue`, whose teardown the kernel answered with `status`:
    /// a queue the kernel could not release stays registered.
    pub fn destroy_queue(&mut self, queue: &Queue, status: i32) -> (r: Result<(), QueueError>)
        requires
            old(self).wf(),
        ensures
            final(self).wf(),
            final(self).family == old(self).family,
            final(self).running == old(self).running,
            status == 0 ==> r is Ok && forall|x: u16|
                final(self).queues@.contains(x) <==> (old(self).queues@.contains(x) && x
                    != queue.number),
            status != 0 ==> r == Err::<(), QueueError>(QueueError::TeardownFailed(status))
                && final(self).queues@ == old(self).queues@,
    {
        if status != 0 {
            return Err(QueueError::TeardownFailed(status));
        }
        let mut i: usize = 0;
        while i < self.queues.len()
            invariant
                i <= self.queues@.len(),
                self.queues@ == old(self).queues@,
                self.family == old(self).family,
                self.running == old(self).running,
                self.wf(),
                status == 0,
                forall|j: int| 0 <= j < i ==> self.queues@[j] != queue.number,
            decreases self.queues@.len() - i,
        {
            if self.queues[i] == queue.number {
                let ghost before = self.queues@;
                self.queues.remove(i);
                proof {
                    lemma_remove_unique(before, i as int);
                }
                return Ok(());
            }
            i = i + 1;
        }
        Ok(())
    }

    /// Starts the receive loop; a channel that is not bound never starts it.
    pub fn start(&mut self) -> (r: Result<(), ChannelError>)
        ensures
            old(self).family is None ==> r == Err::<(), ChannelError>(ChannelError::NotBound)
                && !final(self).running,
            old(self).family is Some ==> r is Ok && final(self).running,
            final(self).family == old(self).family,
            final(self).queues@ == old(self).queues@,
    {
        if self.family.is_none() {
            self.running = false;
            return Err(ChannelError::NotBound);
        }
        self.running = true;
        Ok(())
    }

    /// Decides what becomes of one event frame read from the channel.
    pub fn dispatch(&self, frame: &[u8]) -> (r: Dispatch)
        ensures
            !self.running ==> r is Stopped,
            self.running && event_queue(frame@) is None ==> r == Dispatch::Skip(
                ParseError::MalformedFrame,
            ),
            self.running ==> match event_queue(frame@) {
                Some(q) => !self.queues@.contains(q) ==> r == Dispatch::UnknownQueue(q),
                None => true,
            },
            r is Deliver <==> delivers(*self, frame@),
            r matches Dispatch::Deliver(qh, m) ==> Some(qh.queue_num) == event_queue(frame@)
                && match crate::message::message_of(frame@) {
                Ok((q, h, p)) => m matches Ok(msg) && msg.queue_num == q && msg.header == h
                    && msg.data@ == p,
                Err(e) => m == Err::<Message, ParseError>(e),
            },
    {
        if !self.running {
            return Dispatch::Stopped;
        }
        let q = match decode_event_queue(frame) {
            Some(q) => q,
            None => return Dispatch::Skip(ParseError::MalformedFrame),
        };
        if !self.has_queue(q) {
            return Dispatch::UnknownQueue(q);
        }
        Dispatch::Deliver(QueueHandle { queue_num: q }, Message::new(frame))
    }

    /// Takes a handler's answer: the receive loop stops on `Brake::Brake`.
    pub fn handler_returned(&mut self, b: Brake)
        ensures
            final(self).running == (old(self).running && b == Brake::Continue),
            final(self).family == old(self).family,
            final(self).queues@ == old(self).queues@,
    {
        if b == Brake::Brake {
            self.running = false;
        }
    }
}

/// Removing the one place of a value from a sequence without duplicates
/// leaves exactly the other values, still without duplicates.
proof fn lemma_remove_unique(s: Seq<u16>, i: int)
    requires
        s.no_duplicates(),
        0 <= i < s.len(),
    ensures
        s.remove(i).no_duplicates(),
        forall|x: u16| s.remove(i).contains(x) <==> (s.contains(x) && x != s[i]),
{
    let r = s.remove(i);
    assert forall|a: int, b: int| 0 <= a < r.len() && 0 <= b < r.len() && a != b implies r[a]
        != r[b] by {
        let sa = if a < i { a } else { a + 1 };
        let sb = if b < i { b } else { b + 1 };
        assert(r[a] == s[sa] && r[b] == s[sb]);
    }
    assert forall|x: u16| r.contains(x) <==> (s.contains(x) && x != s[i]) by {
        if r.contains(x) {
            let k = choose|k: int| 0 <= k < r.len() && r[k] == x;
            let sk = if k < i { k } else { k + 1 };
            assert(s[sk] == x && sk != i);
        }
        if s.contains(x) && x != s[i] {
            let k = choose|k: int| 0 <= k < s.len() && s[k] == x;
            if k < i {
                assert(r[k] == x);
            } else {
                assert(r[k - 1] == x);
            }
        }
    }
}

/// Once a handler answers `Brake::Brake`, no further frame reaches a handler,
/// while `Brake::Continue` leaves the loop delivering what it delivered.
pub proof fn lemma_brake_ends_loop(h: Handle, s: Seq<u8>)
    ensures
        !delivers(after_handler(h, Brake::Brake), s),
        delivers(after_handler(h, Brake::Continue), s) == delivers(h, s),
{
}

/// What a typed packet handler receives for one delivered event: the event
/// header and the packet bytes read as a `P`, or nothing where the event or
/// its packet bytes could not be read; the loop then goes on.
pub fn typed_view<P: Payload>(message: &Result<Message, ParseError>) -> (r: Option<(Header, P)>)
    ensures
        match message {
            Ok(m) => if m.data@.len() == P::wire_size() {
                r == Some((m.header, P::parsed(m.data@)))
            } else {
                r is None
            },
            Err(_) => r is None,
        },
{
    match message {
        Ok(m) => match m.payload::<P>() {
            Ok(p) => Some((m.header, p)),
            Err(_) => None,
        },
        Err(_) => None,
    }
}

} // verus!
