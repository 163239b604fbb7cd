//! One queue's configuration: copy mode and maximum length, each changed only
//! when the kernel accepted the change.
use vstd::prelude::*;
use crate::message::Payload;

verus! {

/// Kernel number of copy mode none.
pub const COPY_NONE: u8 = 0;

/// Kernel number of copy mode metadata.
pub const COPY_META: u8 = 1;

/// Kernel number of copy mode packet.
pub const COPY_PACKET: u8 = 2;

/// How much of each packet is copied to user space.
#[derive(Debug, Clone, Copy, PartialEq, Eq, Structural)]
pub enum CopyMode {
    /// Nothing.
    Nothing,
    /// Packet metadata only.
    Metadata,
    /// The first this many bytes of the packet.
    Packet(u16),
}

/// The copy-mode number and byte range that the kernel is sent for a mode.
pub open spec fn mode_params(mode: CopyMode) -> (u8, u32) {
    match mode {
        CopyMode::Nothing => (COPY_NONE, 0),
        CopyMode::Metadata => (COPY_META, 0),
        CopyMode::Packet(n) => (COPY_PACKET, n as u32),
    }
}

impl CopyMode {
    /// The copy-mode number and byte range that the kernel is sent.
    pub fn params(&self) -> (r: (u8, u32))
        ensures
            r == mode_params(*self),
    {
        match self {
            CopyMode::Nothing => (COPY_NONE, 0),
            CopyMode::Metadata => (COPY_META, 0),
            CopyMode::Packet(n) => (COPY_PACKET, *n as u32),
        }
    }

    /// Packet mode that copies exactly as many bytes as a `P` takes.
    pub fn sized<P: Payload>() -> (r: CopyMode)
        requires
            P::wire_size() <= u16::MAX,
        ensures
            r == CopyMode::Packet(P::wire_size() as u16),
    {
        CopyMode::Packet(P::size() as u16)
    }
}

/// What a packet handler tells the receive loop.
#[derive(Debug, Clone, Copy, PartialEq, Eq, Structural)]
pub enum Brake {
    /// Stop the receive loop after this packet.
    Brake,
    /// Go on with the next packet.
    Continue,
}

impl Brake {
    /// The status a queue callback returns to the kernel library.
    pub fn status(&self) -> (r: i32)
        ensures
            r == (if *self == Brake::Brake {
                -1i32
            } else {
                0i32
            }),
    {
        match self {
            Brake::Brake => -1,
            Brake::Continue => 0,
        }
    }
}

/// Why a queue operation failed.
#[derive(Debug, Clone, Copy, PartialEq, Eq, Structural)]
pub enum QueueError {
    /// The handle's channel is not bound to a protocol family.
    NotBound,
    /// The queue number is taken, or the kernel refused the registration.
    CreateFailed,
    /// The kernel refused the copy mode, with this status.
    SetModeFailed(i32),
    /// The kernel refused the maximum length, with this status.
    SetMaxLenFailed(i32),
    /// The kernel could not deregister the queue, with this status.
    TeardownFailed(i32),
}

/// One queue registered with the kernel: its number and its configuration.
#[derive(Debug, Clone, Copy, PartialEq, Eq, Structural)]
pub struct Queue {
    pub number: u16,
    pub mode: CopyMode,
    pub max_length: Option<u32>,
}

impl Queue {
    /// A freshly registered queue, as `new` returns it.
    pub open spec fn new_spec(queue_number: u16) -> Queue {
        Queue { number: queue_number, mode: CopyMode::Nothing, max_length: None }
    }

    /// A freshly registered queue, before any configuration: the kernel's
    /// default is to copy nothing.
    pub fn new(queue_number: u16) -> (r: Queue)
        ensures
            r == (Queue { number: queue_number, mode: CopyMode::Nothing, max_length: None }),
    {
        Queue { number: queue_number, mode: CopyMode::Nothing, max_length: None }
    }

    pub fn number(&self) -> (r: u16)
        ensures
            r == self.number,
    {
        self.number
    }

    /// Records the kernel's answer `status` to setting copy mode `mode`: the
    /// mode is taken only where the status is zero.
    pub fn set_mode(&mut self, mode: CopyMode, status: i32) -> (r: Result<(), QueueError>)
        ensures
            status == 0 ==> r is Ok && *final(self) == (Queue { mode, ..*old(self) }),
            status != 0 ==> r == Err::<(), QueueError>(QueueError::SetModeFailed(status))
                && *final(self) == *old(self),
    {
        if status != 0 {
            return Err(QueueError::SetModeFailed(status));
        }
        self.mode = mode;
        Ok(())
    }

    /// Records the kernel's answer to setting packet mode sized to a `P`.
    pub fn set_mode_sized<P: Payload>(&mut self, status: i32) -> (r: Result<(), QueueError>)
        requires
            P::wire_size() <= u16::MAX,
        ensures
            status == 0 ==> r is Ok && *final(self) == (Queue {
                mode: CopyMode::Packet(P::wire_size() as u16),
                ..*old(self)
            }),
            status != 0 ==> r == Err::<(), QueueError>(QueueError::SetModeFailed(status))
                && *final(self) == *old(self),
    {
        self.set_mode(CopyMode::sized::<P>(), status)
    }

    /// Records the kernel's answer `status` to setting the maximum length:
    /// taken only where the status is zero.
    pub fn set_max_length(&mut self, length: u32, status: i32) -> (r: Result<(), QueueError>)
        ensures
            status == 0 ==> r is Ok && *final(self) == (Queue {
                max_length: Some(length),
                ..*old(self)
            }),
            status != 0 ==> r == Err::<(), QueueError>(QueueError::SetMaxLenFailed(status))
                && *final(self) == *old(self),
    {
        if status != 0 {
            return Err(QueueError::SetMaxLenFailed(status));
        }
        self.max_length = Some(length);
        Ok(())
    }

    /// Whether the packets this queue copies fill a `P` exactly.
    pub fn copies_exactly<P: Payload>(&self) -> (r: bool)
        ensures
            r == (self.mode matches CopyMode::Packet(n) && n == P::wire_size()),
    {
        match self.mode {
            CopyMode::Packet(n) => n as usize == P::size(),
            _ => false,
        }
    }
}

} // verus!
