//! Access to the PCI configuration space of the controller.
use vstd::prelude::*;

verus! {

/// PCI class code of USB controllers (serial bus controller).
pub const PCI_CLASS: u8 = 0x0C;

/// PCI subclass of USB controllers.
pub const PCI_SUBCLASS: u8 = 0x03;

/// PCI programming interface of EHCI controllers.
pub const PCI_PROG_IF: u8 = 0x20;

/// One access to PCI configuration space: the offset in bytes and the value
/// read or written.
#[derive(Debug, Clone, Copy, PartialEq, Eq, Structural)]
pub enum ConfigAccess {
    ReadU32(u8, u32),
    WriteU8(u8, u8),
    WriteU16(u8, u16),
    WriteU32(u8, u32),
}

/// The read of `value` from the dword at `offset`.
pub open spec fn read_access(offset: u8, value: u32) -> ConfigAccess {
    ConfigAccess::ReadU32(offset, value)
}

/// Reads and writes of the controller's PCI configuration space, supplied by
/// the user of the driver. Offsets are in bytes. Each method makes exactly the
/// one access it names, which its contract records in `accesses`; the
/// driver's contracts about PCI configuration space rest on implementations
/// keeping that promise.
pub trait PciAccess {
    /// The accesses made through this value so far, oldest first.
    spec fn accesses(&self) -> Seq<ConfigAccess>;

    fn read_u32(&mut self, offset: u8) -> (r: u32)
        ensures
            final(self).accesses() == old(self).accesses().push(ConfigAccess::ReadU32(offset, r)),
    ;

    fn write_u8(&mut self, offset: u8, value: u8)
        ensures
            final(self).accesses() == old(self).accesses().push(ConfigAccess::WriteU8(offset, value)),
    ;

    fn write_u16(&mut self, offset: u8, value: u16)
        ensures
            final(self).accesses() == old(self).accesses().push(ConfigAccess::WriteU16(offset, value)),
    ;

    fn write_u32(&mut self, offset: u8, value: u32)
        ensures
            final(self).accesses() == old(self).accesses().push(ConfigAccess::WriteU32(offset, value)),
    ;
}

impl<P: PciAccess> PciAccess for &mut P {
    open spec fn accesses(&self) -> Seq<ConfigAccess> {
        (**self).accesses()
    }

    fn read_u32(&mut self, offset: u8) -> (r: u32) {
        P::read_u32(self, offset)
    }

    fn write_u8(&mut self, offset: u8, value: u8) {
        P::write_u8(self, offset, value)
    }

    fn write_u16(&mut self, offset: u8, value: u16) {
        P::write_u16(self, offset, value)
    }

    fn write_u32(&mut self, offset: u8, value: u32) {
        P::write_u32(self, offset, value)
    }
}

} // verus!
