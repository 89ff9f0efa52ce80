//! The I/O register file of the `$FF00` page: serial, the timer, the
//! interrupt flags and the LCD registers, addressed by page offset.

use vstd::prelude::*;
use crate::dma::DMA;
use crate::interrupts::IFlagsRegister;
use crate::io_regions::{IoRegions, spec_io_region, spec_is_lcd_region};
use crate::lcd::{
    LCD,
    spec_lcd_offset,
    spec_lcd_read,
    spec_lcd_scalars,
    spec_lcd_write_obj,
    spec_lcd_write_scalars,
    spec_palette,
};
use crate::timer::Timer;

verus! {

#[derive(Debug)]
pub enum IoError {
    InvalidAddress,
}

/// The peripherals the page dispatches to, and the serial port's own state.
/// A write of `$81` to serial control transmits: the data byte is appended
/// to the serial log, as the test programs expect.
pub struct IO {
    pub serial_data: u8,
    pub serial_control: u8,
    pub serial_message: Vec<u8>,
    pub timer: Timer,
    pub lcd: LCD,
}

/// The timer registers after a page write: offset 4 clears the whole
/// divider, 5 to 7 set `TIMA`, `TMA` and `TAC`.
pub open spec fn spec_timer_write(t: Timer, address: u8, data: u8) -> Timer {
    if address == 0x04 {
        Timer { div: 0, ..t }
    } else if address == 0x05 {
        Timer { tima: data, ..t }
    } else if address == 0x06 {
        Timer { tma: data, ..t }
    } else if address == 0x07 {
        Timer { tac: data, ..t }
    } else {
        t
    }
}

/// What a page read returns: serial state, timer registers (the divider
/// reads its high byte), the interrupt flags, the LCD registers; every
/// unmapped offset reads `$FF`.
pub open spec fn spec_io_read(io: IO, iflags: u8, address: u8) -> u8 {
    if address == 0x01 {
        io.serial_data
    } else if address == 0x02 {
        io.serial_control
    } else if address == 0x04 {
        (io.timer.div >> 8) as u8
    } else if address == 0x05 {
        io.timer.tima
    } else if address == 0x06 {
        io.timer.tma
    } else if address == 0x07 {
        io.timer.tac
    } else if address == 0x0F {
        iflags
    } else if spec_is_lcd_region(address) {
        spec_lcd_read(io.lcd.register, spec_lcd_offset(address as u16))
    } else {
        0xFF
    }
}

/// The two LCD states agree on every register and color table.
pub open spec fn spec_lcd_eq(a: LCD, b: LCD) -> bool {
    &&& spec_lcd_scalars(b.register) == spec_lcd_scalars(a.register)
    &&& b.register.obj_palette@ == a.register.obj_palette@
    &&& b.register.bg_colors@ == a.register.bg_colors@
    &&& b.register.sp1_colors@ == a.register.sp1_colors@
    &&& b.register.sp2_colors@ == a.register.sp2_colors@
}

/// How one page write relates the I/O file, the interrupt flags and the DMA
/// controller before and after: exactly the selected register changes, a
/// serial transmit logs its byte, and a DMA-source write arms the controller.
pub open spec fn spec_io_write_rel(
    pre: IO,
    pre_if: u8,
    pre_dma: DMA,
    post: IO,
    post_if: u8,
    post_dma: DMA,
    address: u8,
    data: u8,
) -> bool {
    &&& post.serial_data == if address == 0x01 {
        data
    } else {
        pre.serial_data
    }
    &&& post.serial_control == if address == 0x02 {
        if data == 0x81 {
            0u8
        } else {
            data
        }
    } else {
        pre.serial_control
    }
    &&& post.serial_message@ == if address == 0x02 && data == 0x81 {
        pre.serial_message@.push(pre.serial_data)
    } else {
        pre.serial_message@
    }
    &&& post.timer == spec_timer_write(pre.timer, address, data)
    &&& post_if == if address == 0x0F {
        data
    } else {
        pre_if
    }
    &&& spec_is_lcd_region(address) ==> {
        &&& spec_lcd_scalars(post.lcd.register) == spec_lcd_write_scalars(
            pre.lcd.register,
            spec_lcd_offset(address as u16),
            data,
        )
        &&& post.lcd.register.obj_palette@ == spec_lcd_write_obj(
            pre.lcd.register.obj_palette@,
            spec_lcd_offset(address as u16),
            data,
        )
        &&& post.lcd.register.bg_colors@ == if address == 0x47 {
            spec_palette(data)
        } else {
            pre.lcd.register.bg_colors@
        }
        &&& post.lcd.register.sp1_colors@ == if address == 0x48 {
            spec_palette(data & !0b11)
        } else {
            pre.lcd.register.sp1_colors@
        }
        &&& post.lcd.register.sp2_colors@ == if address == 0x49 {
            spec_palette(data & !0b11)
        } else {
            pre.lcd.register.sp2_colors@
        }
    }
    &&& !spec_is_lcd_region(address) ==> spec_lcd_eq(pre.lcd, post.lcd)
    &&& post_dma == if address == 0x46 {
        DMA { active: true, byte: 0, value: data, start_delay: 1 }
    } else {
        pre_dma
    }
}

impl IO {
    pub open spec fn wf(self) -> bool {
        self.lcd.wf()
    }

    pub fn new() -> (r: IO)
        ensures
            r.wf(),
            r.serial_data == 0,
            r.serial_control == 0,
            r.serial_message@ == Seq::<u8>::empty(),
            r.timer == (Timer { div: 0xAC00, tima: 0, tma: 0, tac: 0 }),
            r.lcd.register.lcdc == 0x91,
            r.lcd.register.lcds == 0x02,
            r.lcd.register.ly == 0,
            r.lcd.register.ly_compare == 0,
    {
        let io = IO {
            serial_data: 0,
            serial_control: 0,
            serial_message: Vec::new(),
            timer: Timer::new(),
            lcd: LCD::new(),
        };
        proof {
            assert(io.serial_message@ =~= Seq::<u8>::empty());
        }
        io
    }

    /// Reads the register the page offset selects.
    pub fn read(&self, address: u8, int_flags: &IFlagsRegister) -> (r: Result<u8, IoError>)
        requires
            self.wf(),
        ensures
            r == Ok::<u8, IoError>(spec_io_read(*self, int_flags.int_flags, address)),
    {
        let io_region = match IoRegions::from_u8_address(address) {
            Ok(region) => region,
            Err(e) => return Err(e),
        };
        match io_region {
            IoRegions::SerialTransferData => Ok(self.serial_data),
            IoRegions::SerialTransferControl => Ok(self.serial_control),
            IoRegions::DividerRegister => Ok((self.timer.get_divider() >> 8) as u8),
            IoRegions::TimerCounter => Ok(self.timer.get_tima()),
            IoRegions::TimerModulo => Ok(self.timer.get_tma()),
            IoRegions::TimerControl => Ok(self.timer.get_tac()),
            IoRegions::InterruptFlags => Ok(int_flags.int_flags),
            IoRegions::LCDControl
            | IoRegions::LCDStatus
            | IoRegions::ViewportY
            | IoRegions::ViewportX
            | IoRegions::LCDYCoordinate
            | IoRegions::LCDYCoordinateCompare
            | IoRegions::DMATransfer
            | IoRegions::BGPaletteData
            | IoRegions::ObjectPalette0Data
            | IoRegions::ObjectPalette1Data
            | IoRegions::WindowYPosition
            | IoRegions::WindowXPositionPlus7 => Ok(self.lcd.lcd_read(address as u16)),
            _ => Ok(0xFF),
        }
    }

    /// Writes the register the page offset selects; writes to unmapped
    /// offsets are dropped. A serial-control write of `$81` logs the data
    /// byte; a DMA-source write arms the OAM-DMA controller.
    pub fn write(&mut self, address: u8, data: u8, int_flags: &mut IFlagsRegister, dma: &mut DMA)
        -> (r: Result<(), IoError>)
        requires
            old(self).wf(),
        ensures
            r is Ok,
            final(self).wf(),
            spec_io_write_rel(
                *old(self),
                old(int_flags).int_flags,
                *old(dma),
                *final(self),
                final(int_flags).int_flags,
                *final(dma),
                address,
                data,
            ),
    {
        let io_region = match IoRegions::from_u8_address(address) {
            Ok(region) => region,
            Err(e) => return Err(e),
        };
        match io_region {
            IoRegions::SerialTransferData => {
                self.serial_data = data;
            },
            IoRegions::SerialTransferControl => {
                self.serial_control = data;
                self.on_serial_update();
            },
            IoRegions::DividerRegister => {
                self.timer.clear_divider();
            },
            IoRegions::TimerCounter => {
                self.timer.set_tima(data);
            },
            IoRegions::TimerModulo => {
                self.timer.set_tma(data);
            },
            IoRegions::TimerControl => {
                self.timer.set_tac(data);
            },
            IoRegions::InterruptFlags => {
                int_flags.int_flags = data;
            },
            IoRegions::LCDControl
            | IoRegions::LCDStatus
            | IoRegions::ViewportY
            | IoRegions::ViewportX
            | IoRegions::LCDYCoordinate
            | IoRegions::LCDYCoordinateCompare
            | IoRegions::DMATransfer
            | IoRegions::BGPaletteData
            | IoRegions::ObjectPalette0Data
            | IoRegions::ObjectPalette1Data
            | IoRegions::WindowYPosition
            | IoRegions::WindowXPositionPlus7 => {
                self.lcd.lcd_write(address as u16, data, dma);
            },
            _ => {},
        }
        Ok(())
    }

    /// A serial-control value of `$81` transmits the data byte: it is
    /// appended to the log and the control register clears.
    pub fn on_serial_update(&mut self)
        ensures
            old(self).serial_control == 0x81 ==> {
                &&& final(self).serial_message@ == old(self).serial_message@.push(
                    old(self).serial_data,
                )
                &&& final(self).serial_control == 0
            },
            old(self).serial_control != 0x81 ==> {
                &&& final(self).serial_message@ == old(self).serial_message@
                &&& final(self).serial_control == old(self).serial_control
            },
            final(self).serial_data == old(self).serial_data,
            final(self).timer == old(self).timer,
            spec_lcd_eq(old(self).lcd, final(self).lcd),
            final(self).wf() == old(self).wf(),
    {
        if self.serial_control == 0x81 {
            self.serial_message.push(self.serial_data);
            self.serial_control = 0x00;
        }
    }
}

} // verus!
