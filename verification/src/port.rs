//! I/O ports as the library sees them: it never touches a port itself,
//! it says what is to be done to one, and the kernel around it does so.

use core::marker::PhantomData;
use vstd::prelude::*;
use vstd::std_specs::cmp::PartialEqSpecImpl;

verus! {

/// What every kind of access to a port has.
pub trait Access {
    /// The name of the kind of access.
    const DEBUG_NAME: &'static str;
}

/// A maker trait for access types which allow reading port value.
pub trait PortReadAccess: Access {

}

/// A maker trait for access types which allow writing port value.
pub trait PortWriteAccess: Access {

}

/// An access maker type indicating that a port is only allowed to read values.
#[derive(Debug)]
pub struct ReadOnlyAccess(());

impl Access for ReadOnlyAccess {
    const DEBUG_NAME: &'static str = "ReadOnly";
}

impl PortReadAccess for ReadOnlyAccess {

}

/// An access maker type indicating that a port is only allowed to write values.
#[derive(Debug)]
pub struct WriteOnlyAccess(());

impl Access for WriteOnlyAccess {
    const DEBUG_NAME: &'static str = "WriteOnly";
}

impl PortWriteAccess for WriteOnlyAccess {

}

/// An access maker type indicating that a port is only allowed to read or write
/// values.
#[derive(Debug)]
pub struct ReadWriteAccess(());

impl Access for ReadWriteAccess {
    const DEBUG_NAME: &'static str = "ReadWrite";
}

impl PortReadAccess for ReadWriteAccess {

}

impl PortWriteAccess for ReadWriteAccess {

}

/// I/O Port
///
/// The port holds values of type `T` and has the read/write access
/// specified by `A`. It is the port's number and what may be done with
/// it; the instructions that do it are the kernel's.
pub struct PortGeneric<T, A> {
    port: u16,
    phantom: PhantomData<(T, A)>,
}

/// A read-write I/O port.
pub type Port<T> = PortGeneric<T, ReadWriteAccess>;

/// A read-only I/O port.
pub type PortReadOnly<T> = PortGeneric<T, ReadOnlyAccess>;

/// A write-only I/O port.
pub type PortWriteOnly<T> = PortGeneric<T, WriteOnlyAccess>;

impl<T, A> View for PortGeneric<T, A> {
    type V = u16;

    /// The port's number.
    closed spec fn view(&self) -> u16 {
        self.port
    }
}

impl<T, A> PortGeneric<T, A> {
    /// Creates an I/O port with the given port number.
    pub fn new(port: u16) -> (r: Self)
        ensures
            r@ == port,
    {
        Self { port, phantom: PhantomData }
    }

    /// The port's number.
    pub fn number(&self) -> (r: u16)
        ensures
            r == self@,
    {
        self.port
    }
}

impl<A: PortReadAccess> PortGeneric<u8, A> {
    /// Reading from the port.
    pub fn read(&self) -> (r: PortAction)
        ensures
            r == (PortAction::Read { port: self@ }),
    {
        PortAction::Read { port: self.port }
    }
}

impl<A: PortWriteAccess> PortGeneric<u8, A> {
    /// Writing to the port.
    pub fn write(&self, value: u8) -> (r: PortAction)
        ensures
            r == (PortAction::Write { port: self@, value }),
    {
        PortAction::Write { port: self.port, value }
    }
}

impl<A: PortReadAccess + PortWriteAccess> PortGeneric<u8, A> {
    /// Changing some bits of the port and keeping others.
    pub fn modify(&self, keep: u8, set: u8) -> (r: PortAction)
        ensures
            r == (PortAction::Modify { port: self@, keep, set }),
    {
        PortAction::Modify { port: self.port, keep, set }
    }
}

impl<T, A> Clone for PortGeneric<T, A> {
    fn clone(&self) -> (r: Self)
        ensures
            r@ == self@,
    {
        Self { port: self.port, phantom: PhantomData }
    }
}

impl<T, A> PartialEq for PortGeneric<T, A> {
    fn eq(&self, other: &Self) -> (r: bool) {
        self.port == other.port
    }
}

impl<T, A> PartialEqSpecImpl for PortGeneric<T, A> {
    open spec fn obeys_eq_spec() -> bool {
        true
    }

    open spec fn eq_spec(&self, other: &Self) -> bool {
        self@ == other@
    }
}

impl<T, A> Eq for PortGeneric<T, A> {

}

/// One step of programming a device through its I/O ports.
#[derive(Debug, Clone, Copy, PartialEq, Eq, Structural)]
pub enum PortAction {
    /// Read `port` and hand the byte to whoever asked.
    Read { port: u16 },
    /// Write `value` to `port`.
    Write { port: u16, value: u8 },
    /// Read `port`, keep of what was read only the bits of `keep`, set
    /// the bits of `set`, and write the result back to `port`.
    Modify { port: u16, keep: u8, set: u8 },
}

impl PortAction {
    /// The port that the action addresses.
    pub open spec fn target(&self) -> u16 {
        match *self {
            PortAction::Read { port } => port,
            PortAction::Write { port, .. } => port,
            PortAction::Modify { port, .. } => port,
        }
    }

    /// Whether the action reads the port.
    pub open spec fn reads(&self) -> bool {
        *self is Read || *self is Modify
    }

    /// The byte that the action writes to the port, `read` being what the
    /// port held; `None` where it writes nothing.
    pub open spec fn outcome(&self, read: u8) -> Option<u8> {
        match *self {
            PortAction::Read { .. } => None,
            PortAction::Write { value, .. } => Some(value),
            PortAction::Modify { keep, set, .. } => Some((read & keep) | set),
        }
    }

    /// The port that the action addresses.
    pub fn port(&self) -> (r: u16)
        ensures
            r == self.target(),
    {
        match *self {
            PortAction::Read { port } => port,
            PortAction::Write { port, .. } => port,
            PortAction::Modify { port, .. } => port,
        }
    }

    /// Whether the port has to be read for the action.
    pub fn needs_read(&self) -> (r: bool)
        ensures
            r == self.reads(),
    {
        match *self {
            PortAction::Read { .. } => true,
            PortAction::Write { .. } => false,
            PortAction::Modify { .. } => true,
        }
    }

    /// The byte to write to the port, if any, given the byte `read` from
    /// it.
    pub fn value(&self, read: u8) -> (r: Option<u8>)
        ensures
            r == self.outcome(read),
    {
        match *self {
            PortAction::Read { .. } => None,
            PortAction::Write { value, .. } => Some(value),
            PortAction::Modify { keep, set, .. } => Some((read & keep) | set),
        }
    }
}

} // verus!
