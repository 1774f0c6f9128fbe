//! The serial line, as far as it decides: which ports are programmed
//! with what, and what the bytes read from them mean. The kernel around
//! it reads and writes the ports.

use crate::port::{Port, PortAction, PortWriteOnly};
use vstd::prelude::*;

verus! {

/// The byte sent to the line to see whether it comes back.
pub const PROBE: u8 = 0xae;

/// The bit of the status that says the line can take a byte.
pub const TRANSMIT_EMPTY: u8 = 0x20;

/// The bit of the status that says the line holds a byte.
pub const DATA_READY: u8 = 0x01;

/// A serial line behind six ports that follow one another.
pub struct Serial {
    port0: Port<u8>,
    port1: PortWriteOnly<u8>,
    port2: PortWriteOnly<u8>,
    port3: PortWriteOnly<u8>,
    port4: PortWriteOnly<u8>,
    port5: Port<u8>,
    initialized: bool,
}

/// What sets the line at `base` up and probes it: interrupts off, the
/// divisor for 38400 baud, eight bits without parity and one stop bit,
/// the queues on, loopback on, the probe byte sent, and the data port
/// read for what comes back.
pub open spec fn probe_actions(base: u16) -> Seq<PortAction> {
    seq![
        PortAction::Write { port: (base + 1) as u16, value: 0x00 },
        PortAction::Write { port: (base + 3) as u16, value: 0x80 },
        PortAction::Write { port: base, value: 0x03 },
        PortAction::Write { port: (base + 1) as u16, value: 0x00 },
        PortAction::Write { port: (base + 3) as u16, value: 0x03 },
        PortAction::Write { port: (base + 2) as u16, value: 0xc7 },
        PortAction::Write { port: (base + 4) as u16, value: 0x0b },
        PortAction::Write { port: (base + 4) as u16, value: 0x1e },
        PortAction::Write { port: base, value: PROBE },
        PortAction::Read { port: base },
    ]
}

impl Serial {
    /// The first of the line's ports.
    pub closed spec fn base(&self) -> u16 {
        self.port0@
    }

    /// Whether the line answered its probe.
    pub closed spec fn ready(&self) -> bool {
        self.initialized
    }

    /// The ports follow one another from the first.
    pub closed spec fn wf(&self) -> bool {
        &&& self.port0@ + 5 <= u16::MAX
        &&& self.port1@ == self.port0@ + 1
        &&& self.port2@ == self.port0@ + 2
        &&& self.port3@ == self.port0@ + 3
        &&& self.port4@ == self.port0@ + 4
        &&& self.port5@ == self.port0@ + 5
    }

    pub fn new(port: u16) -> (r: Self)
        requires
            port + 5 <= u16::MAX,
        ensures
            r.wf(),
            r.base() == port,
            !r.ready(),
    {
        Self {
            port0: Port::new(port),
            port1: PortWriteOnly::new(port + 1),
            port2: PortWriteOnly::new(port + 2),
            port3: PortWriteOnly::new(port + 3),
            port4: PortWriteOnly::new(port + 4),
            port5: Port::new(port + 5),
            initialized: false,
        }
    }

    /// The first half of setting the line up: what to do to its ports.
    /// The byte that the last action reads goes to `init`.
    pub fn probe(&self) -> (r: [PortAction; 10])
        requires
            self.wf(),
        ensures
            r@ == probe_actions(self.base()),
    {
        let r = [
            self.port1.write(0x00),
            self.port3.write(0x80),
            self.port0.write(0x03),
            self.port1.write(0x00),
            self.port3.write(0x03),
            self.port2.write(0xc7),
            self.port4.write(0x0b),
            self.port4.write(0x1e),
            self.port0.write(PROBE),
            self.port0.read(),
        ];
        assert(r@ =~= probe_actions(self.base()));
        r
    }

    /// The second half: `echoed` is what the probe brought back. The
    /// line is good exactly if it is the probe byte; then the line is
    /// switched to normal operation by the action returned.
    pub fn init(&mut self, echoed: u8) -> (r: Option<PortAction>)
        requires
            old(self).wf(),
        ensures
            final(self).wf(),
            final(self).base() == old(self).base(),
            echoed == PROBE ==> final(self).ready() && r == Some(
                PortAction::Write { port: (old(self).base() + 4) as u16, value: 0x0f },
            ),
            echoed != PROBE ==> final(self).ready() == old(self).ready() && r is None,
    {
        if echoed != PROBE {
            return None;
        }
        self.initialized = true;
        Some(self.port4.write(0x0f))
    }

    /// Whether the line answered its probe.
    pub fn is_initialized(&self) -> (r: bool)
        ensures
            r == self.ready(),
    {
        self.initialized
    }

    /// The action that reads the line's status.
    pub fn status(&self) -> (r: PortAction)
        requires
            self.wf(),
        ensures
            r == (PortAction::Read { port: (self.base() + 5) as u16 }),
    {
        self.port5.read()
    }

    /// Sends `byte` if the line can take it: `status` is the status just
    /// read, and the answer is the write to do, or nothing where the
    /// line is busy and the status is to be read again.
    pub fn write_byte(&self, status: u8, byte: u8) -> (r: Option<PortAction>)
        requires
            self.wf(),
        ensures
            r == if status & TRANSMIT_EMPTY != 0 {
                Some(PortAction::Write { port: self.base(), value: byte })
            } else {
                None
            },
    {
        if status & TRANSMIT_EMPTY == 0 {
            None
        } else {
            Some(self.port0.write(byte))
        }
    }

    /// Takes a byte if the line holds one: `status` is the status just
    /// read, and the answer is the read to do, or nothing.
    pub fn read_byte(&self, status: u8) -> (r: Option<PortAction>)
        requires
            self.wf(),
        ensures
            r == if status & DATA_READY != 0 {
                Some(PortAction::Read { port: self.base() })
            } else {
                None
            },
    {
        if status & DATA_READY == 0 {
            None
        } else {
            Some(self.port0.read())
        }
    }
}

} // verus!
