//! The address-space decoder: every 16-bit address belongs to exactly one
//! named region, and carries an offset within it.

use vstd::prelude::*;
use crate::bus::BusError;

verus! {

/// The regions of the 16-bit address space.
#[derive(Debug, Clone, Copy, PartialEq, Eq, Structural)]
pub enum AddrSpace {
    ROM0,
    ROM1,
    VRAM,
    BG1,
    BG2,
    CRAM,
    RAM0,
    RAM1,
    ECHO,
    OAM,
    UNUSABLE,
    IO,
    ZP,
    INTERRUPT,
}

/// The inclusive bounds of a region.
pub open spec fn spec_region_bounds(region: AddrSpace) -> (u16, u16) {
    match region {
        AddrSpace::ROM0 => (0x0000u16, 0x3FFFu16),
        AddrSpace::ROM1 => (0x4000u16, 0x7FFFu16),
        AddrSpace::VRAM => (0x8000u16, 0x97FFu16),
        AddrSpace::BG1 => (0x9800u16, 0x9BFFu16),
        AddrSpace::BG2 => (0x9C00u16, 0x9FFFu16),
        AddrSpace::CRAM => (0xA000u16, 0xBFFFu16),
        AddrSpace::RAM0 => (0xC000u16, 0xCFFFu16),
        AddrSpace::RAM1 => (0xD000u16, 0xDFFFu16),
        AddrSpace::ECHO => (0xE000u16, 0xFDFFu16),
        AddrSpace::OAM => (0xFE00u16, 0xFE9Fu16),
        AddrSpace::UNUSABLE => (0xFEA0u16, 0xFEFFu16),
        AddrSpace::IO => (0xFF00u16, 0xFF7Fu16),
        AddrSpace::ZP => (0xFF80u16, 0xFFFEu16),
        AddrSpace::INTERRUPT => (0xFFFFu16, 0xFFFFu16),
    }
}

/// The region an address falls in; the regions tile the space, so every
/// address has one.
pub open spec fn spec_region_of(address: u16) -> AddrSpace {
    if address < 0x4000 {
        AddrSpace::ROM0
    } else if address < 0x8000 {
        AddrSpace::ROM1
    } else if address < 0x9800 {
        AddrSpace::VRAM
    } else if address < 0x9C00 {
        AddrSpace::BG1
    } else if address < 0xA000 {
        AddrSpace::BG2
    } else if address < 0xC000 {
        AddrSpace::CRAM
    } else if address < 0xD000 {
        AddrSpace::RAM0
    } else if address < 0xE000 {
        AddrSpace::RAM1
    } else if address < 0xFE00 {
        AddrSpace::ECHO
    } else if address < 0xFEA0 {
        AddrSpace::OAM
    } else if address < 0xFF00 {
        AddrSpace::UNUSABLE
    } else if address < 0xFF80 {
        AddrSpace::IO
    } else if address < 0xFFFF {
        AddrSpace::ZP
    } else {
        AddrSpace::INTERRUPT
    }
}

/// The offset of an address within its region.
pub open spec fn spec_region_offset(address: u16) -> u16 {
    (address - spec_region_bounds(spec_region_of(address)).0) as u16
}

impl AddrSpace {
    /// The inclusive address bounds of this region.
    pub fn get_region(&self) -> (r: (u16, u16))
        ensures
            r == spec_region_bounds(*self),
    {
        match self {
            AddrSpace::ROM0 => (0x0000, 0x3FFF),
            AddrSpace::ROM1 => (0x4000, 0x7FFF),
            AddrSpace::VRAM => (0x8000, 0x97FF),
            AddrSpace::BG1 => (0x9800, 0x9BFF),
            AddrSpace::BG2 => (0x9C00, 0x9FFF),
            AddrSpace::CRAM => (0xA000, 0xBFFF),
            AddrSpace::RAM0 => (0xC000, 0xCFFF),
            AddrSpace::RAM1 => (0xD000, 0xDFFF),
            AddrSpace::ECHO => (0xE000, 0xFDFF),
            AddrSpace::OAM => (0xFE00, 0xFE9F),
            AddrSpace::UNUSABLE => (0xFEA0, 0xFEFF),
            AddrSpace::IO => (0xFF00, 0xFF7F),
            AddrSpace::ZP => (0xFF80, 0xFFFE),
            AddrSpace::INTERRUPT => (0xFFFF, 0xFFFF),
        }
    }

    /// Decodes an address into its region; the regions cover the whole
    /// space, so this never fails.
    pub fn from_address(address: &u16) -> (r: Result<AddrSpace, BusError>)
        ensures
            r == Ok::<AddrSpace, BusError>(spec_region_of(*address)),
    {
        let address = *address;
        let region = if address < 0x4000 {
            AddrSpace::ROM0
        } else if address < 0x8000 {
            AddrSpace::ROM1
        } else if address < 0x9800 {
            AddrSpace::VRAM
        } else if address < 0x9C00 {
            AddrSpace::BG1
        } else if address < 0xA000 {
            AddrSpace::BG2
        } else if address < 0xC000 {
            AddrSpace::CRAM
        } else if address < 0xD000 {
            AddrSpace::RAM0
        } else if address < 0xE000 {
            AddrSpace::RAM1
        } else if address < 0xFE00 {
            AddrSpace::ECHO
        } else if address < 0xFEA0 {
            AddrSpace::OAM
        } else if address < 0xFF00 {
            AddrSpace::UNUSABLE
        } else if address < 0xFF80 {
            AddrSpace::IO
        } else if address < 0xFFFF {
            AddrSpace::ZP
        } else {
            AddrSpace::INTERRUPT
        };
        Ok(region)
    }

    /// The offset of an address within its region.
    pub fn get_region_offset(address: u16) -> (r: Result<u16, BusError>)
        ensures
            r == Ok::<u16, BusError>(spec_region_offset(address)),
    {
        let region = match AddrSpace::from_address(&address) {
            Ok(region) => region,
            Err(e) => return Err(e),
        };
        let (start, _) = region.get_region();
        Ok(address - start)
    }
}

} // verus!
