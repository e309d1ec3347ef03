//! The client side: one initiation frame at start, then a bridge that
//! alternates between the TUN device and the UDP transport and forwards each
//! packet verbatim to the other side. The I/O is done by the caller; this
//! module decides what follows each attempt.
use vstd::prelude::*;

use crate::protocol::{frame, HandshakeInitiation, MSG_INITIATION};

verus! {

/// The client index sent in the initiation.
pub const CLIENT_INDEX: u32 = 12345;

/// Size of the scratch buffer for one packet in either direction: an MTU of
/// 1500 bytes with room for headers.
pub const SCRATCH_LEN: usize = 2048;

/// The initiation frame that the client sends once before bridging.
pub fn initiation_frame(index: u32, key: [u8; 32]) -> (r: [u8; 37])
    ensures
        r@ == frame(MSG_INITIATION, index, key@),
{
    HandshakeInitiation::new(index, key).to_bytes()
}

/// The side that the bridge reads from next.
#[derive(Clone, Copy, Debug, PartialEq, Eq, Structural)]
pub enum Direction {
    /// Read a packet from the TUN device and send it over UDP.
    TunToUdp,
    /// Receive a datagram over UDP and write it to the TUN device.
    UdpToTun,
}

/// The other direction.
pub open spec fn flip(d: Direction) -> Direction {
    match d {
        Direction::TunToUdp => Direction::UdpToTun,
        Direction::UdpToTun => Direction::TunToUdp,
    }
}

/// What one read attempt on the current side gave.
#[derive(Debug)]
pub enum Outcome {
    /// One whole packet or datagram.
    Packet(Vec<u8>),
    /// Nothing was ready: a would-block or a timeout.
    Idle,
    /// An error that ends the loop.
    Failed,
}

/// What the caller does next.
#[derive(Debug)]
pub enum Action {
    /// Write these bytes, as one packet, to the side opposite the one read.
    Forward(Vec<u8>),
    /// Nothing to write.
    Skip,
    /// Terminate with the error that was met.
    Stop,
}

/// One step of the bridge: after reading in direction `dir` with `outcome`,
/// what to do and which direction to read next. A packet goes on unchanged;
/// nothing ready is no error; any failure stops the bridge.
pub fn bridge_step(dir: Direction, outcome: Outcome) -> (r: (Direction, Action))
    ensures
        r.0 == flip(dir),
        match outcome {
            Outcome::Packet(p) => r.1 matches Action::Forward(q) && q@ == p@,
            Outcome::Idle => r.1 is Skip,
            Outcome::Failed => r.1 is Stop,
        },
{
    let next = match dir {
        Direction::TunToUdp => Direction::UdpToTun,
        Direction::UdpToTun => Direction::TunToUdp,
    };
    let action = match outcome {
        Outcome::Packet(p) => Action::Forward(p),
        Outcome::Idle => Action::Skip,
        Outcome::Failed => Action::Stop,
    };
    (next, action)
}

} // verus!
