//! Names for the I/O registers of the `$FF00` page, and the mapping from a
//! page offset to the register it selects.

use vstd::prelude::*;

verus! {

#[derive(Debug, Clone, Copy, PartialEq, Eq, Structural)]
pub enum IoRegions {
    JoyPad,
    SerialTransferData,
    SerialTransferControl,
    DividerRegister,
    TimerCounter,
    TimerModulo,
    TimerControl,
    InterruptFlags,
    SoundMode1Sweep,
    SoundMode1LengthWave,
    SoundMode1Volume,
    SoundMode1PeriodLow,
    SoundMode1PeriodHigh,
    SoundMode2LengthWave,
    SoundMode2Volume,
    SoundMode2PeriodLow,
    SoundMode2PeriodHigh,
    SoundMode3DACEnable,
    SoundMode3Length,
    SoundMode3OutputLevel,
    SoundMode3PeriodLow,
    SoundMode3PeriodHigh,
    SoundMode4LengthTimer,
    SoundMode4Volume,
    SoundMode4FrequencyRandomness,
    SoundMode4Control,
    MasterVolumeControl,
    SoundPanning,
    SoundOnOff,
    LCDControl,
    LCDStatus,
    ViewportY,
    ViewportX,
    LCDYCoordinate,
    LCDYCoordinateCompare,
    DMATransfer,
    BGPaletteData,
    ObjectPalette0Data,
    ObjectPalette1Data,
    WindowYPosition,
    WindowXPositionPlus7,
    SpeedSwitch,
    VRAMBank,
    VRAMSourceHigh,
    VRAMSourceLow,
    VRAMDestinationHigh,
    VRAMDestinationLow,
    VRAMDMA,
    RP,
    BCPS,
    BCPD,
    OCPS,
    OCPD,
    OPRI,
    WRAMBank,
    PCM12,
    PCM34,
    InterruptEnable,
}

/// The register a page offset selects. Offsets that map nothing share the
/// final catch-all register.
pub open spec fn spec_io_region(address: u8) -> IoRegions {
    if address == 0x00 {
        IoRegions::JoyPad
    } else if address == 0x01 {
        IoRegions::SerialTransferData
    } else if address == 0x02 {
        IoRegions::SerialTransferControl
    } else if address == 0x04 {
        IoRegions::DividerRegister
    } else if address == 0x05 {
        IoRegions::TimerCounter
    } else if address == 0x06 {
        IoRegions::TimerModulo
    } else if address == 0x07 {
        IoRegions::TimerControl
    } else if address == 0x0F {
        IoRegions::InterruptFlags
    } else if address == 0x10 {
        IoRegions::SoundMode1Sweep
    } else if address == 0x11 {
        IoRegions::SoundMode1LengthWave
    } else if address == 0x12 {
        IoRegions::SoundMode1Volume
    } else if address == 0x13 {
        IoRegions::SoundMode1PeriodLow
    } else if address == 0x14 {
        IoRegions::SoundMode1PeriodHigh
    } else if address == 0x16 {
        IoRegions::SoundMode2LengthWave
    } else if address == 0x17 {
        IoRegions::SoundMode2Volume
    } else if address == 0x18 {
        IoRegions::SoundMode2PeriodLow
    } else if address == 0x19 {
        IoRegions::SoundMode2PeriodHigh
    } else if address == 0x1A {
        IoRegions::SoundMode3DACEnable
    } else if address == 0x1B {
        IoRegions::SoundMode3Length
    } else if address == 0x1C {
        IoRegions::SoundMode3OutputLevel
    } else if address == 0x1D {
        IoRegions::SoundMode3PeriodLow
    } else if address == 0x1E {
        IoRegions::SoundMode3PeriodHigh
    } else if address == 0x20 {
        IoRegions::SoundMode4LengthTimer
    } else if address == 0x21 {
        IoRegions::SoundMode4Volume
    } else if address == 0x22 {
        IoRegions::SoundMode4FrequencyRandomness
    } else if address == 0x23 {
        IoRegions::SoundMode4Control
    } else if address == 0x24 {
        IoRegions::MasterVolumeControl
    } else if address == 0x25 {
        IoRegions::SoundPanning
    } else if address == 0x26 {
        IoRegions::SoundOnOff
    } else if address == 0x40 {
        IoRegions::LCDControl
    } else if address == 0x41 {
        IoRegions::LCDStatus
    } else if address == 0x42 {
        IoRegions::ViewportY
    } else if address == 0x43 {
        IoRegions::ViewportX
    } else if address == 0x44 {
        IoRegions::LCDYCoordinate
    } else if address == 0x45 {
        IoRegions::LCDYCoordinateCompare
    } else if address == 0x46 {
        IoRegions::DMATransfer
    } else if address == 0x47 {
        IoRegions::BGPaletteData
    } else if address == 0x48 {
        IoRegions::ObjectPalette0Data
    } else if address == 0x49 {
        IoRegions::ObjectPalette1Data
    } else if address == 0x4A {
        IoRegions::WindowYPosition
    } else if address == 0x4B {
        IoRegions::WindowXPositionPlus7
    } else if address == 0x4D {
        IoRegions::SpeedSwitch
    } else if address == 0x4F {
        IoRegions::VRAMBank
    } else if address == 0x51 {
        IoRegions::VRAMSourceHigh
    } else if address == 0x52 {
        IoRegions::VRAMSourceLow
    } else if address == 0x53 {
        IoRegions::VRAMDestinationHigh
    } else if address == 0x54 {
        IoRegions::VRAMDestinationLow
    } else if address == 0x55 {
        IoRegions::VRAMDMA
    } else if 0x56 <= address && address <= 0x67 {
        IoRegions::RP
    } else if address == 0x68 {
        IoRegions::BCPS
    } else if address == 0x69 {
        IoRegions::BCPD
    } else if address == 0x6A {
        IoRegions::OCPS
    } else if address == 0x6B {
        IoRegions::OCPD
    } else if 0x6C <= address && address <= 0x6F {
        IoRegions::OPRI
    } else if 0x70 <= address && address <= 0x75 {
        IoRegions::WRAMBank
    } else if address == 0x76 {
        IoRegions::PCM12
    } else if address == 0x77 {
        IoRegions::PCM34
    } else if address == 0xFF {
        IoRegions::InterruptEnable
    } else {
        IoRegions::PCM34
    }
}

/// Whether the offset selects one of the LCD registers at `$FF40–$FF4B`.
pub open spec fn spec_is_lcd_region(address: u8) -> bool {
    0x40 <= address && address <= 0x4B
}

impl IoRegions {
    pub fn from_u8_address(address: u8) -> (r: Result<IoRegions, crate::io::IoError>)
        ensures
            r == Ok::<IoRegions, crate::io::IoError>(spec_io_region(address)),
    {
        let region = if address == 0x00 {
            IoRegions::JoyPad
        } else if address == 0x01 {
            IoRegions::SerialTransferData
        } else if address == 0x02 {
            IoRegions::SerialTransferControl
        } else if address == 0x04 {
            IoRegions::DividerRegister
        } else if address == 0x05 {
            IoRegions::TimerCounter
        } else if address == 0x06 {
            IoRegions::TimerModulo
        } else if address == 0x07 {
            IoRegions::TimerControl
        } else if address == 0x0F {
            IoRegions::InterruptFlags
        } else if address == 0x10 {
            IoRegions::SoundMode1Sweep
        } else if address == 0x11 {
            IoRegions::SoundMode1LengthWave
        } else if address == 0x12 {
            IoRegions::SoundMode1Volume
        } else if address == 0x13 {
            IoRegions::SoundMode1PeriodLow
        } else if address == 0x14 {
            IoRegions::SoundMode1PeriodHigh
        } else if address == 0x16 {
            IoRegions::SoundMode2LengthWave
        } else if address == 0x17 {
            IoRegions::SoundMode2Volume
        } else if address == 0x18 {
            IoRegions::SoundMode2PeriodLow
        } else if address == 0x19 {
            IoRegions::SoundMode2PeriodHigh
        } else if address == 0x1A {
            IoRegions::SoundMode3DACEnable
        } else if address == 0x1B {
            IoRegions::SoundMode3Length
        } else if address == 0x1C {
            IoRegions::SoundMode3OutputLevel
        } else if address == 0x1D {
            IoRegions::SoundMode3PeriodLow
        } else if address == 0x1E {
            IoRegions::SoundMode3PeriodHigh
        } else if address == 0x20 {
            IoRegions::SoundMode4LengthTimer
        } else if address == 0x21 {
            IoRegions::SoundMode4Volume
        } else if address == 0x22 {
            IoRegions::SoundMode4FrequencyRandomness
        } else if address == 0x23 {
            IoRegions::SoundMode4Control
        } else if address == 0x24 {
            IoRegions::MasterVolumeControl
        } else if address == 0x25 {
            IoRegions::SoundPanning
        } else if address == 0x26 {
            IoRegions::SoundOnOff
        } else if address == 0x40 {
            IoRegions::LCDControl
        } else if address == 0x41 {
            IoRegions::LCDStatus
        } else if address == 0x42 {
            IoRegions::ViewportY
        } else if address == 0x43 {
            IoRegions::ViewportX
        } else if address == 0x44 {
            IoRegions::LCDYCoordinate
        } else if address == 0x45 {
            IoRegions::LCDYCoordinateCompare
        } else if address == 0x46 {
            IoRegions::DMATransfer
        } else if address == 0x47 {
            IoRegions::BGPaletteData
        } else if address == 0x48 {
            IoRegions::ObjectPalette0Data
        } else if address == 0x49 {
            IoRegions::ObjectPalette1Data
        } else if address == 0x4A {
            IoRegions::WindowYPosition
        } else if address == 0x4B {
            IoRegions::WindowXPositionPlus7
        } else if address == 0x4D {
            IoRegions::SpeedSwitch
        } else if address == 0x4F {
            IoRegions::VRAMBank
        } else if address == 0x51 {
            IoRegions::VRAMSourceHigh
        } else if address == 0x52 {
            IoRegions::VRAMSourceLow
        } else if address == 0x53 {
            IoRegions::VRAMDestinationHigh
        } else if address == 0x54 {
            IoRegions::VRAMDestinationLow
        } else if address == 0x55 {
            IoRegions::VRAMDMA
        } else if 0x56 <= address && address <= 0x67 {
            IoRegions::RP
        } else if address == 0x68 {
            IoRegions::BCPS
        } else if address == 0x69 {
            IoRegions::BCPD
        } else if address == 0x6A {
            IoRegions::OCPS
        } else if address == 0x6B {
            IoRegions::OCPD
        } else if 0x6C <= address && address <= 0x6F {
            IoRegions::OPRI
        } else if 0x70 <= address && address <= 0x75 {
            IoRegions::WRAMBank
        } else if address == 0x76 {
            IoRegions::PCM12
        } else if address == 0x77 {
            IoRegions::PCM34
        } else if address == 0xFF {
            IoRegions::InterruptEnable
        } else {
            IoRegions::PCM34
        };
        Ok(region)
    }
}

} // verus!
