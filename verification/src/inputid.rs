use crate::attribute_set::EvdevEnum;
use crate::compat::input_id;
use vstd::prelude::*;

verus! {

/// The identity of a device: bus type, vendor, product and version.
#[derive(Copy, Clone, Eq, PartialEq, Structural, Hash, Debug)]
pub struct InputId(pub input_id);

impl From<input_id> for InputId {
    fn from(id: input_id) -> (r: Self)
        ensures
            r.0 == id,
    {
        InputId(id)
    }
}

impl vstd::std_specs::convert::FromSpecImpl<input_id> for InputId {
    open spec fn obeys_from_spec() -> bool {
        true
    }

    open spec fn from_spec(id: input_id) -> InputId {
        InputId(id)
    }
}

impl InputId {
    pub fn bus_type(&self) -> (r: BusType)
        ensures
            r.0 == self.0.bustype,
    {
        BusType(self.0.bustype)
    }

    pub fn vendor(&self) -> (r: u16)
        ensures
            r == self.0.vendor,
    {
        self.0.vendor
    }

    pub fn product(&self) -> (r: u16)
        ensures
            r == self.0.product,
    {
        self.0.product
    }

    pub fn version(&self) -> (r: u16)
        ensures
            r == self.0.version,
    {
        self.0.version
    }

    /// Crate a new InputId, useful for customizing virtual input devices.
    pub fn new(bus_type: BusType, vendor: u16, product: u16, version: u16) -> (r: Self)
        ensures
            r.0 == (input_id { bustype: bus_type.0, vendor, product, version }),
    {
        Self::from(input_id { bustype: bus_type.0, vendor, product, version })
    }
}

/// The bus a device is attached by.
#[derive(Copy, Clone, PartialEq, Eq, Structural, Debug, Hash)]
pub struct BusType(pub u16);

impl BusType {
    pub const BUS_PCI: u16 = 0x01;
    pub const BUS_ISAPNP: u16 = 0x02;
    pub const BUS_USB: u16 = 0x03;
    pub const BUS_HIL: u16 = 0x04;
    pub const BUS_BLUETOOTH: u16 = 0x05;
    pub const BUS_VIRTUAL: u16 = 0x06;
    pub const BUS_ISA: u16 = 0x10;
    pub const BUS_I8042: u16 = 0x11;
    pub const BUS_XTKBD: u16 = 0x12;
    pub const BUS_RS232: u16 = 0x13;
    pub const BUS_GAMEPORT: u16 = 0x14;
    pub const BUS_PARPORT: u16 = 0x15;
    pub const BUS_AMIGA: u16 = 0x16;
    pub const BUS_ADB: u16 = 0x17;
    pub const BUS_I2C: u16 = 0x18;
    pub const BUS_HOST: u16 = 0x19;
    pub const BUS_GSC: u16 = 0x1a;
    pub const BUS_ATARI: u16 = 0x1b;
    pub const BUS_SPI: u16 = 0x1c;
    pub const BUS_RMI: u16 = 0x1d;
    pub const BUS_CEC: u16 = 0x1e;
    pub const BUS_INTEL_ISHTP: u16 = 0x1f;
}

impl EvdevEnum for BusType {
    open spec fn spec_index(self) -> nat {
        self.0 as nat
    }

    open spec fn spec_from_index(i: nat) -> Self {
        BusType(i as u16)
    }

    fn from_index(i: usize) -> (r: Self) {
        BusType(i as u16)
    }

    fn to_index(self) -> (r: usize) {
        self.0 as usize
    }

    proof fn lemma_index_bounded(self) {
    }

    proof fn lemma_from_index(i: nat) {
    }
}

/// The label under which a bus type is shown to people.
pub open spec fn bus_type_label(code: u16) -> Seq<char> {
    if code == BusType::BUS_PCI {
        "PCI"@
    } else if code == BusType::BUS_ISAPNP {
        "ISA Plug 'n Play"@
    } else if code == BusType::BUS_USB {
        "USB"@
    } else if code == BusType::BUS_HIL {
        "HIL"@
    } else if code == BusType::BUS_BLUETOOTH {
        "Bluetooth"@
    } else if code == BusType::BUS_VIRTUAL {
        "Virtual"@
    } else if code == BusType::BUS_ISA {
        "ISA"@
    } else if code == BusType::BUS_I8042 {
        "i8042"@
    } else if code == BusType::BUS_XTKBD {
        "XTKBD"@
    } else if code == BusType::BUS_RS232 {
        "RS232"@
    } else if code == BusType::BUS_GAMEPORT {
        "Gameport"@
    } else if code == BusType::BUS_PARPORT {
        "Parallel Port"@
    } else if code == BusType::BUS_AMIGA {
        "Amiga"@
    } else if code == BusType::BUS_ADB {
        "ADB"@
    } else if code == BusType::BUS_I2C {
        "I2C"@
    } else if code == BusType::BUS_HOST {
        "Host"@
    } else if code == BusType::BUS_GSC {
        "GSC"@
    } else if code == BusType::BUS_ATARI {
        "Atari"@
    } else if code == BusType::BUS_SPI {
        "SPI"@
    } else if code == BusType::BUS_RMI {
        "RMI"@
    } else if code == BusType::BUS_CEC {
        "CEC"@
    } else if code == BusType::BUS_INTEL_ISHTP {
        "Intel ISHTP"@
    } else {
        "Unknown"@
    }
}

impl BusType {
    /// The label under which this bus type is shown to people, "Unknown" for a code the
    /// kernel does not define.
    pub fn label(&self) -> (r: &'static str)
        ensures
            r@ == bus_type_label(self.0),
    {
        let c = self.0;
        if c == BusType::BUS_PCI {
            "PCI"
        } else if c == BusType::BUS_ISAPNP {
            "ISA Plug 'n Play"
        } else if c == BusType::BUS_USB {
            "USB"
        } else if c == BusType::BUS_HIL {
            "HIL"
        } else if c == BusType::BUS_BLUETOOTH {
            "Bluetooth"
        } else if c == BusType::BUS_VIRTUAL {
            "Virtual"
        } else if c == BusType::BUS_ISA {
            "ISA"
        } else if c == BusType::BUS_I8042 {
            "i8042"
        } else if c == BusType::BUS_XTKBD {
            "XTKBD"
        } else if c == BusType::BUS_RS232 {
            "RS232"
        } else if c == BusType::BUS_GAMEPORT {
            "Gameport"
        } else if c == BusType::BUS_PARPORT {
            "Parallel Port"
        } else if c == BusType::BUS_AMIGA {
            "Amiga"
        } else if c == BusType::BUS_ADB {
            "ADB"
        } else if c == BusType::BUS_I2C {
            "I2C"
        } else if c == BusType::BUS_HOST {
            "Host"
        } else if c == BusType::BUS_GSC {
            "GSC"
        } else if c == BusType::BUS_ATARI {
            "Atari"
        } else if c == BusType::BUS_SPI {
            "SPI"
        } else if c == BusType::BUS_RMI {
            "RMI"
        } else if c == BusType::BUS_CEC {
            "CEC"
        } else if c == BusType::BUS_INTEL_ISHTP {
            "Intel ISHTP"
        } else {
            "Unknown"
        }
    }
}

} // verus!
