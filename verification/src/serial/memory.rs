//! An in-memory port: the full [`SerialPort`] lifecycle with queues in
//! place of a transport. It backs tests and doubles as the reference
//! model of the port state machine.

use vstd::prelude::*;

use std::collections::VecDeque;

use crate::data::{Direction, Message, Timestamp};
use crate::error::Error;
use crate::serial::{PortConfig, PortInfo, SerialPort, SerialPortConfig};
use vstd::string::StringExecFns;

verus! {

/// The three lifecycle states of a port instance.
#[derive(Debug, Clone, Copy, PartialEq, Eq, Structural)]
pub enum PortState {
    /// No transport resource held yet.
    Unopened,
    /// Resource held; read, write and flush are valid.
    Open,
    /// Resource released; terminal for this instance.
    Closed,
}

/// A port whose transport is a pair of in-memory queues: reads pop from
/// `incoming` (an empty queue reads as an empty message stamped with the
/// instance's clock), writes append to `written`.
#[derive(Debug)]
pub struct MemorySerialPort {
    pub state: PortState,
    pub info: PortInfo,
    pub config: PortConfig,
    /// The instance's notion of "now", used to stamp empty reads.
    pub clock: Timestamp,
    /// Messages waiting to be read.
    pub incoming: VecDeque<Message>,
    /// Messages written so far, in order.
    pub written: Vec<Message>,
}

impl MemorySerialPort {
    /// A fresh, unopened port for the described device.
    pub fn new(info: PortInfo, config: PortConfig) -> (r: Self)
        ensures
            r.state == PortState::Unopened,
            r.info == info,
            r.config == config,
            r.clock == (Timestamp(0u64)),
            r.incoming@ == Seq::<Message>::empty(),
            r.written@ == Seq::<Message>::empty(),
    {
        MemorySerialPort {
            state: PortState::Unopened,
            info,
            config,
            clock: Timestamp(0),
            incoming: VecDeque::new(),
            written: Vec::new(),
        }
    }

    /// Advance the instance's clock.
    pub fn set_clock(&mut self, now: Timestamp)
        ensures
            (*final(self)) == (MemorySerialPort { clock: now, ..*old(self) }),
    {
        self.clock = now;
    }

    /// Queue a message for a later read.
    pub fn push_incoming(&mut self, message: Message)
        ensures
            final(self).incoming@ == old(self).incoming@.push(message),
            final(self).state == old(self).state,
            final(self).info == old(self).info,
            final(self).config == old(self).config,
            final(self).clock == old(self).clock,
            final(self).written == old(self).written,
    {
        self.incoming.push_back(message);
    }

    /// The messages written so far, in order.
    pub fn written(&self) -> (r: &Vec<Message>)
        ensures
            r == &self.written,
    {
        &self.written
    }
}

impl PartialEq for MemorySerialPort {
    /// Two ports are equal when they describe the same device with the
    /// same settings, whatever their lifecycle state or queues hold.
    fn eq(&self, other: &Self) -> (r: bool)
        ensures
            r == (self.info@ == other.info@ && self.config == other.config),
    {
        self.info.eq(&other.info) && self.config == other.config
    }
}

impl vstd::std_specs::cmp::PartialEqSpecImpl for MemorySerialPort {
    open spec fn obeys_eq_spec() -> bool {
        true
    }

    open spec fn eq_spec(&self, other: &Self) -> bool {
        self.info@ == other.info@ && self.config == other.config
    }
}

impl SerialPortConfig for MemorySerialPort {
    open spec fn spec_info(&self) -> PortInfo {
        self.info
    }

    open spec fn spec_config(&self) -> PortConfig {
        self.config
    }

    fn with_port(self, port: String) -> (r: Self) {
        let mut r = self;
        r.info.port = port;
        r
    }

    fn with_config(self, config: PortConfig) -> (r: Self) {
        let mut r = self;
        r.config = config;
        r
    }
}

impl SerialPort for MemorySerialPort {
    open spec fn spec_is_open(&self) -> bool {
        self.state == PortState::Open
    }

    fn request_port(info: PortInfo, config: PortConfig) -> (r: Result<Self, Error>)
        ensures
            r matches Ok(p) && p.state == PortState::Unopened && p.info == info && p.config
                == config && p.incoming@.len() == 0 && p.written@.len() == 0,
    {
        Ok(MemorySerialPort::new(info, config))
    }

    /// Opens from the Unopened state (or re-affirms an already-open
    /// port). Closed is terminal for an instance, so opening after a
    /// close is refused with an open error rather than re-acquiring.
    fn open(&mut self) -> (r: Result<(), Error>)
        ensures
            r is Ok <==> old(self).config.valid() && old(self).state != PortState::Closed,
            r is Ok ==> (*final(self)) == (MemorySerialPort { state: PortState::Open, ..*old(self) }),
            r is Err ==> (*final(self)) == (*old(self)),
            old(self).config.valid() && old(self).state == PortState::Closed ==> (r matches Err(e)
                && e is OpenError),
    {
        match self.config.validate() {
            Err(e) => Err(e),
            Ok(()) => {
                if self.state == PortState::Closed {
                    Err(Error::OpenError(String::from_str("Port already closed")))
                } else {
                    self.state = PortState::Open;
                    Ok(())
                }
            },
        }
    }

    fn close(&mut self) -> (r: Result<(), Error>)
        ensures
            (*final(self)) == (MemorySerialPort { state: PortState::Closed, ..*old(self) }),
    {
        self.state = PortState::Closed;
        Ok(())
    }

    fn read(&mut self) -> (r: Result<Message, Error>)
        ensures
            old(self).spec_is_open() ==> r is Ok,
            old(self).spec_is_open() && old(self).incoming@.len() > 0 ==> (r matches Ok(m)
                && m.timestamp == old(self).incoming@[0].timestamp && m.text@ == old(
                self,
            ).incoming@[0].text@ && final(self).incoming@ == old(self).incoming@.drop_first()),
            old(self).spec_is_open() && old(self).incoming@.len() == 0 ==> (r matches Ok(m)
                && m.timestamp == old(self).clock && m.direction == Direction::In && m.text@
                == Seq::<char>::empty() && final(self).incoming@ == old(self).incoming@),
            !old(self).spec_is_open() ==> (*final(self)) == (*old(self)),
            final(self).state == old(self).state,
            final(self).info == old(self).info,
            final(self).config == old(self).config,
            final(self).clock == old(self).clock,
            final(self).written == old(self).written,
    {
        if self.state != PortState::Open {
            return Err(Error::ReadError(String::from_str("Port not open")));
        }
        match self.incoming.pop_front() {
            // Whatever was queued, what arrives through a read is inbound.
            Some(m) => Ok(Message::new(m.timestamp, Direction::In, m.text)),
            None => Ok(Message::new(self.clock, Direction::In, String::new())),
        }
    }

    fn write(&mut self, message: Message) -> (r: Result<(), Error>)
        ensures
            old(self).spec_is_open() ==> (r is Ok && final(self).written@ == old(
                self,
            ).written@.push(message)),
            !old(self).spec_is_open() ==> (*final(self)) == (*old(self)),
            final(self).state == old(self).state,
            final(self).info == old(self).info,
            final(self).config == old(self).config,
            final(self).clock == old(self).clock,
            final(self).incoming == old(self).incoming,
    {
        if self.state != PortState::Open {
            return Err(Error::WriteError(String::from_str("Port not open")));
        }
        self.written.push(message);
        Ok(())
    }

    fn flush(&mut self) -> (r: Result<(), Error>)
        ensures
            r is Ok,
            (*final(self)) == (*old(self)),
    {
        Ok(())
    }

    fn config(&self) -> (r: &PortConfig) {
        &self.config
    }

    fn info(&self) -> (r: &PortInfo) {
        &self.info
    }

    fn is_open(&self) -> (r: bool) {
        self.state == PortState::Open
    }

    fn list_ports() -> (r: Result<Vec<PortInfo>, Error>)
        ensures
            r matches Ok(v) && v@.len() == 0,
    {
        Ok(Vec::new())
    }
}

} // verus!
