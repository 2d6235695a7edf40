//! The transport endpoint, modeled at its interface: an outbound queue the
//! reactor drains towards the wire, an inbound queue the reactor fills from
//! it, and the serial counter that stamps every outbound message.
//!
//! Reading and writing the wire itself — sockets, readiness, byte framing —
//! is the reactor's business and happens outside the engine.

use vstd::prelude::*;

use crate::err::{Error, SendError};
use crate::message::{Message, MessageV};

verus! {

/// Which bus a channel is an endpoint of.
#[derive(Clone, Copy, PartialEq, Eq, Structural)]
pub enum BusType {
    /// The per-login-session bus.
    Session,
    /// The system-wide bus.
    System,
}

/// An endpoint of the bus: message queues plus the outbound serial counter.
pub struct Channel {
    /// Whether the transport can still carry messages out.
    pub connected: bool,
    /// The serial the next outbound message is stamped with; never reused.
    pub next_serial: u32,
    /// Messages handed to the transport, oldest first, awaiting the wire.
    pub outbound: Vec<Message>,
    /// Messages received from the wire, oldest first, awaiting dispatch.
    pub inbound: Vec<Message>,
}

/// Mathematical model of a [`Channel`].
#[verifier::ext_equal]
pub struct ChannelV {
    pub connected: bool,
    pub next_serial: u32,
    pub outbound: Seq<MessageV>,
    pub inbound: Seq<MessageV>,
}

impl View for Channel {
    type V = ChannelV;

    open spec fn view(&self) -> ChannelV {
        ChannelV {
            connected: self.connected,
            next_serial: self.next_serial,
            outbound: self.outbound.deep_view(),
            inbound: self.inbound.deep_view(),
        }
    }
}

/// A fresh channel: connected, counting serials from one, queues empty.
pub open spec fn fresh_channel() -> ChannelV {
    ChannelV {
        connected: true,
        next_serial: 1u32,
        outbound: Seq::<MessageV>::empty(),
        inbound: Seq::<MessageV>::empty(),
    }
}

/// What sending does: a connected channel with serials left stamps the message
/// with the next serial, queues it and returns that serial; otherwise the
/// channel is untouched and the send fails.
pub open spec fn send_spec(c: ChannelV, m: MessageV) -> (ChannelV, Result<u32, SendError>) {
    if c.connected && c.next_serial < u32::MAX {
        (
            ChannelV {
                next_serial: (c.next_serial + 1) as u32,
                outbound: c.outbound.push(MessageV { serial: c.next_serial, ..m }),
                ..c
            },
            Ok(c.next_serial),
        )
    } else {
        (c, Err(SendError))
    }
}

impl Channel {
    /// Opens a fresh in-memory endpoint of the chosen bus.
    ///
    /// Creating the endpoint itself cannot fail; connecting it to a wire is
    /// the reactor's business.
    pub fn get_private(_b: BusType) -> (r: Result<Channel, Error>)
        ensures
            match r {
                Ok(c) => c@ == fresh_channel(),
                Err(_) => false,
            },
    {
        let c = Channel { connected: true, next_serial: 1, outbound: Vec::new(), inbound: Vec::new() };
        proof {
            assert(c@.outbound =~= Seq::<MessageV>::empty());
            assert(c@.inbound =~= Seq::<MessageV>::empty());
        }
        Ok(c)
    }

    /// Hands one message to the transport and returns the serial it was
    /// stamped with, or fails without touching anything.
    pub fn send(&mut self, msg: Message) -> (r: Result<u32, SendError>)
        ensures
            final(self)@ == send_spec(old(self)@, msg@).0,
            r == send_spec(old(self)@, msg@).1,
    {
        if self.connected && self.next_serial < u32::MAX {
            let serial = self.next_serial;
            let mut stamped = msg;
            stamped.serial = serial;
            self.next_serial = serial + 1;
            let ghost prev = self.outbound.deep_view();
            self.outbound.push(stamped);
            proof {
                assert(self.outbound.deep_view() =~= prev.push(
                    MessageV { serial: serial, ..msg@ },
                ));
            }
            Ok(serial)
        } else {
            Err(SendError)
        }
    }

    /// Takes the oldest received message, if one is waiting.
    pub fn pop_message(&mut self) -> (r: Option<Message>)
        ensures
            match r {
                Some(m) => old(self)@.inbound.len() > 0 && m@ == old(self)@.inbound[0]
                    && final(self)@ == (ChannelV {
                    inbound: old(self)@.inbound.drop_first(),
                    ..old(self)@
                }),
                None => old(self)@.inbound.len() == 0 && final(self)@ == old(self)@,
            },
    {
        if self.inbound.len() > 0 {
            let m = self.inbound.remove(0);
            proof {
                assert(self.inbound.deep_view() =~= old(self)@.inbound.drop_first());
            }
            Some(m)
        } else {
            None
        }
    }

    /// Queues one message received from the wire, for the dispatch loop.
    pub fn push_message(&mut self, m: Message)
        ensures
            final(self)@ == (ChannelV { inbound: old(self)@.inbound.push(m@), ..old(self)@ }),
    {
        let ghost prev = self.inbound.deep_view();
        self.inbound.push(m);
        proof {
            assert(self.inbound.deep_view() =~= prev.push(m@));
        }
    }

    /// Takes everything waiting to go out, oldest first, for the wire.
    pub fn take_outbound(&mut self) -> (r: Vec<Message>)
        ensures
            r.deep_view() == old(self)@.outbound,
            final(self)@ == (ChannelV { outbound: Seq::<MessageV>::empty(), ..old(self)@ }),
    {
        let mut taken: Vec<Message> = Vec::new();
        core::mem::swap(&mut taken, &mut self.outbound);
        proof {
            assert(self.outbound.deep_view() =~= Seq::<MessageV>::empty());
        }
        taken
    }

    /// Marks the transport as able, or no longer able, to carry messages out.
    pub fn set_connected(&mut self, connected: bool)
        ensures
            final(self)@ == (ChannelV { connected: connected, ..old(self)@ }),
    {
        self.connected = connected;
    }
}

} // verus!
