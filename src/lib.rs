//! User-space side of netfilter's packet queues: reading packet events that
//! the kernel sends, decoding their IPv4 headers, the receive loop's
//! decisions, queue configuration and verdicts, all with proved contracts.
//! The kernel calls themselves are made by the caller, which hands each
//! result to the functions here.
use vstd::prelude::*;

pub mod codec;
pub mod ip;
pub mod frame;
pub mod message;
pub mod verdict;
pub mod queue;
pub mod handle;

verus! {

} // verus!
