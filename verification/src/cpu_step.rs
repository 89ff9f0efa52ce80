//! The top of the interpreter: dispatch of a decoded instruction to its
//! processor, and the fetch/decode/execute step with interrupt handling.

use vstd::prelude::*;
use crate::bus::{bus_clock_frame_eq, spec_bus_read, spec_bus_read_ok, spec_clock_view, spec_machine_cycles};
use crate::cpu::{CPU, CpuError};
use crate::instructions::InType;

verus! {

impl CPU {
    /// Executes the current instruction by its kind. An instruction kind
    /// outside the executable set is a fatal error.
    pub fn process_instruction(&mut self) -> (r: Result<u32, CpuError>)
        requires
            old(self).wf(),
        ensures
            final(self).wf(),
            old(self).current_instruction.type_ == InType::InNop ==> (r == Ok::<u32, CpuError>(0)
                && *final(self) == *old(self)),
            old(self).current_instruction.type_ == InType::InDi ==> (r == Ok::<u32, CpuError>(0)
                && *final(self) == (CPU { interrupt_master_enable: false, ..*old(self) })),
            old(self).current_instruction.type_ == InType::InEi ==> (r == Ok::<u32, CpuError>(0)
                && *final(self) == (CPU { enable_ime: true, ..*old(self) })),
            old(self).current_instruction.type_ == InType::InHalt ==> (r == Ok::<u32, CpuError>(0)
                && *final(self) == (CPU { halted: true, ..*old(self) })),
            old(self).current_instruction.type_ == InType::InErr || old(
                self,
            ).current_instruction.type_ == InType::InJphl ==> r is Err,
    {
        match self.current_instruction.type_ {
            InType::InNop => Ok(0),
            InType::InLd => self.process_ld(),
            InType::InJp => self.process_jp(),
            InType::InDi => self.process_di(),
            InType::InEi => self.process_ei(),
            InType::InLdh => self.process_ldh(),
            InType::InPush => self.process_push(),
            InType::InPop => self.process_pop(),
            InType::InCall => self.process_call(),
            InType::InJr => self.process_jr(),
            InType::InRet => self.process_ret(),
            InType::InReti => self.process_reti(),
            InType::InRst => self.process_rst(),
            InType::InDec => self.process_dec(),
            InType::InInc => self.process_inc(),
            InType::InAdd => self.process_add(),
            InType::InAdc => self.process_adc(),
            InType::InSub => self.process_sub(),
            InType::InSbc => self.process_sbc(),
            InType::InAnd => self.process_and(),
            InType::InOr => self.process_or(),
            InType::InCp => self.process_cp(),
            InType::InXor => self.process_xor(),
            InType::InCb => self.process_cb(),
            InType::InRlca => self.process_rlca(),
            InType::InRrca => self.process_rrca(),
            InType::InRla => self.process_rla(),
            InType::InRra => self.process_rra(),
            InType::InHalt => self.process_halt(),
            InType::InStop => self.process_stop(),
            InType::InDaa => self.process_dda(),
            InType::InCpl => self.process_cpl(),
            InType::InScf => self.process_scf(),
            InType::InCcf => self.process_ccf(),
            _ => Err(CpuError::InvalidInstruction(self.current_opcode as u32)),
        }
    }

    /// Runs the execute phase of the current instruction.
    pub fn execute(&mut self) -> (r: Result<u32, CpuError>)
        requires
            old(self).wf(),
        ensures
            final(self).wf(),
            old(self).current_instruction.type_ == InType::InNop ==> (r == Ok::<u32, CpuError>(0)
                && *final(self) == *old(self)),
            old(self).current_instruction.type_ == InType::InErr || old(
                self,
            ).current_instruction.type_ == InType::InJphl ==> r is Err,
    {
        self.process_instruction()
    }

    /// One processor step: fetch, decode, gather operands and execute — or,
    /// while halted, one idle machine cycle, waking when an enabled
    /// interrupt is requested. Afterwards, with the master enable up, one
    /// pending interrupt is serviced; an `EI` from the previous instruction
    /// raises the master enable at the step's end.
    #[verifier::rlimit(100)]
    #[verifier::spinoff_prover]
    pub fn step_cpu(&mut self) -> (r: Result<(), CpuError>)
        requires
            old(self).wf(),
        ensures
            final(self).wf(),
            old(self).halted && !old(self).interrupt_master_enable ==> ({
                let v1 = spec_machine_cycles(
                    spec_clock_view(old(self).bus),
                    old(self).bus,
                    1,
                );
                &&& r is Ok
                &&& final(self).registers == old(self).registers
                &&& bus_clock_frame_eq(old(self).bus, final(self).bus)
                &&& spec_clock_view(final(self).bus) == v1
                &&& final(self).halted == !(old(self).bus.ie_register.int_flags & v1.int_flags
                    != 0)
                &&& final(self).interrupt_master_enable == old(self).enable_ime
                &&& final(self).enable_ime == old(self).enable_ime
            }),
            (!old(self).halted && !old(self).interrupt_master_enable && spec_bus_read_ok(
                old(self).bus,
                old(self).registers.pc,
            ) && spec_bus_read(old(self).bus, old(self).registers.pc) == 0x00) ==> ({
                let v1 = spec_machine_cycles(
                    spec_clock_view(old(self).bus),
                    old(self).bus,
                    1,
                );
                &&& r is Ok
                &&& final(self).registers == (crate::cpu::CpuRegisters {
                    pc: ((old(self).registers.pc + 1) % 0x10000) as u16,
                    ..old(self).registers
                })
                &&& !final(self).halted
                &&& bus_clock_frame_eq(old(self).bus, final(self).bus)
                &&& spec_clock_view(final(self).bus) == v1
                &&& final(self).interrupt_master_enable == old(self).enable_ime
                &&& final(self).enable_ime == old(self).enable_ime
            }),
    {
        if !self.halted {
            let r = self.fetch_instruction();
            match r {
                Ok(()) => {},
                Err(e) => return Err(e),
            }
            self.cycle(1);
            let r = self.fetch_data();
            match r {
                Ok(_) => {},
                Err(e) => return Err(e),
            }
            let r = self.execute();
            match r {
                Ok(_) => {},
                Err(e) => return Err(e),
            }
        } else {
            self.cycle(1);
            if self.bus.ie_register.int_flags & self.bus.int_flags.int_flags != 0 {
                self.halted = false;
            }
        }

        if self.interrupt_master_enable {
            let r = self.handler_interrupts();
            match r {
                Ok(()) => {},
                Err(e) => return Err(e),
            }
            self.enable_ime = false;
        }

        if self.enable_ime {
            self.interrupt_master_enable = true;
        }

        Ok(())
    }
}

} // verus!
