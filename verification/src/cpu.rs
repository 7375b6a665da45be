//! Execution engine: the CPU that drives the fetch/decode/execute cycle,
//! owns the register file and the bus, realises branch-delay-slot timing
//! through a pending-fetch slot, and appends a trace entry per executed
//! instruction.
use vstd::prelude::*;

verus! {

use vstd::string::StringExecFns;

use crate::bus::BIOS_SIZE;
use crate::bus::Interconnect;
use crate::bus::spec_load32;
use crate::bus::spec_store32;
use crate::decode::Instruction;
use crate::decode::Opcode;
use crate::decode::SecondaryOpcode;
use crate::decode::spec_immediate;
use crate::decode::spec_instr_index;
use crate::decode::spec_opcode_of_bits;
use crate::decode::spec_primary_bits;
use crate::decode::spec_rd;
use crate::decode::spec_rs;
use crate::decode::spec_rt;
use crate::decode::spec_sa;
use crate::decode::spec_secondary_opcode;
use crate::decode::spec_sign_extend16;
use crate::errors::PsemuCoreError;
use crate::render::dec_string;
use crate::render::hex_string;
use crate::render::spec_dec_digits;
use crate::render::spec_hex;
use crate::render::spec_reg_label;

/// Program-counter value at reset: the base of the boot ROM.
pub const PROGRAM_COUNTER_RESET_VALUE: u32 = 0xbfc0_0000;

/// Sentinel written to every general-purpose register but `$zero` at reset,
/// to surface reads of uninitialized registers.
pub const REGISTER_RESET_SENTINEL: u32 = 0xdead_beef;

/// Index of a general-purpose register, in `[0, 31]`; register 0 always reads
/// as zero and silently discards writes.
#[derive(Clone, Copy, Debug, PartialEq, Eq, Structural)]
pub struct RegisterIndex(pub u32);

impl RegisterIndex {
    /// The register's label, a `$` followed by the index in decimal.
    pub fn label(&self) -> (s: String)
        ensures
            s@ == crate::render::spec_reg_label(self.0),
    {
        crate::render::reg_label_string(self.0)
    }
}

/// An operand-free, human-readable template of an executed operation.
pub struct HumanReadableInstruction(pub String);

/// The same template with actual operand values substituted.
pub struct HumanReadableEvalInstruction(pub String);

/// One entry of the instruction trace: the raw word, the resolved mnemonic,
/// the operation template and its fully evaluated form.
pub struct InstructionForDebugger {
    pub raw: u32,
    pub op: String,
    pub human: HumanReadableInstruction,
    pub eval: HumanReadableEvalInstruction,
}

/// Ghost form of one trace entry: each string as its character sequence.
pub ghost struct TraceEntry {
    pub raw: u32,
    pub op: Seq<char>,
    pub human: Seq<char>,
    pub eval: Seq<char>,
}

impl View for InstructionForDebugger {
    type V = TraceEntry;

    open spec fn view(&self) -> TraceEntry {
        TraceEntry { raw: self.raw, op: self.op@, human: self.human.0@, eval: self.eval.0@ }
    }
}

impl DeepView for InstructionForDebugger {
    type V = TraceEntry;

    open spec fn deep_view(&self) -> TraceEntry {
        self@
    }
}

/// Ghost form of the whole execution-engine state.
pub ghost struct CpuState {
    /// Program counter.
    pub pc: u32,
    /// The word fetched on the previous step, still in flight.
    pub next_instruction: u32,
    /// The 32 general-purpose registers.
    pub regs: Seq<u32>,
    /// The boot-ROM contents behind the bus.
    pub rom: Seq<u8>,
    /// The instruction trace, one entry per executed instruction.
    pub trace: Seq<TraceEntry>,
}

/// The register file after `set(i, v)`: the slot is overwritten, then `$zero`
/// is pinned back to 0, so a write to index 0 is discarded.
pub open spec fn spec_set_reg(regs: Seq<u32>, i: u32, v: u32) -> Seq<u32>
    recommends
        regs.len() == 32,
        i < 32,
{
    regs.update(i as int, v).update(0, 0u32)
}

/// Ghost outcome of executing one instruction word against a register file
/// and a program counter: the state afterwards, the trace entry owed for it,
/// and the result handed to the caller.
pub ghost struct ExecOutcome {
    /// The register file after execution.
    pub regs: Seq<u32>,
    /// The program counter after execution.
    pub pc: u32,
    /// The trace entry appended for the instruction, if it executed.
    pub entry: Option<TraceEntry>,
    /// The result propagated to the step caller.
    pub result: Result<(), PsemuCoreError>,
}

/// Evaluated trace text of LUI.
pub open spec fn spec_lui_eval(rt: u32, imm: u32, val: u32) -> Seq<char> {
    spec_reg_label(rt) + " = ("@ + spec_hex(imm) + " << 16) => "@ + spec_hex(val)
}

/// Evaluated trace text of OR.
pub open spec fn spec_or_eval(rd: u32, rs: u32, rt: u32, get_rs: u32, get_rt: u32, val: u32) -> Seq<
    char,
> {
    spec_reg_label(rd) + " = (get("@ + spec_reg_label(rs) + ") | get("@ + spec_reg_label(rt)
        + ") => ("@ + spec_hex(get_rs) + " | "@ + spec_hex(get_rt) + ") => "@ + spec_hex(val)
}

/// Evaluated trace text of ORI.
pub open spec fn spec_ori_eval(rt: u32, rs: u32, imm: u32, get_rs: u32, val: u32) -> Seq<char> {
    spec_reg_label(rt) + " = (get("@ + spec_reg_label(rs) + ") | "@ + spec_hex(imm) + ") => ("@
        + spec_hex(get_rs) + " | "@ + spec_hex(imm) + ") => "@ + spec_hex(val)
}

/// Evaluated trace text of SW.
pub open spec fn spec_sw_eval(base: u32, offset: u32, get_base: u32, addr: u32, val: u32) -> Seq<
    char,
> {
    "memory[(get("@ + spec_reg_label(base) + ")+"@ + spec_hex(offset) + ") => ("@ + spec_hex(
        get_base,
    ) + "+"@ + spec_hex(offset) + ") => "@ + spec_hex(addr) + "] = "@ + spec_hex(val)
}

/// Evaluated trace text of SLL.
pub open spec fn spec_sll_eval(rd: u32, val: u32, sa: u32) -> Seq<char> {
    spec_reg_label(rd) + " = "@ + spec_hex(val) + " << "@ + spec_dec_digits(sa)
}

/// Evaluated trace text of ADDIU.
pub open spec fn spec_addiu_eval(rt: u32, rs: u32, imm: u32, get_rs: u32) -> Seq<char> {
    spec_reg_label(rt) + " = (get("@ + spec_reg_label(rs) + ") + "@ + spec_hex(imm) + ") => ("@
        + spec_hex(get_rs) + " + "@ + spec_hex(imm) + ")"@
}

/// Evaluated trace text of J.
pub open spec fn spec_jump_eval(pc_4_msb: u32, shifted_index: u32, res: u32) -> Seq<char> {
    "pc = 4MSB(pc) | (instr_index << 2) => "@ + spec_hex(pc_4_msb) + " | "@ + spec_dec_digits(
        shifted_index,
    ) + " => "@ + spec_hex(res)
}

/// LUI: `rt <- immediate << 16`.
pub open spec fn spec_op_lui(regs: Seq<u32>, pc: u32, w: u32) -> ExecOutcome {
    let rt = spec_rt(w);
    let imm = spec_immediate(w);
    let val = imm << 16u32;
    ExecOutcome {
        regs: spec_set_reg(regs, rt, val),
        pc,
        entry: Some(
            TraceEntry {
                raw: w,
                op: "LUI"@,
                human: "rt = imm << 16"@,
                eval: spec_lui_eval(rt, imm, val),
            },
        ),
        result: Ok(()),
    }
}

/// OR: `rd <- get(rs) | get(rt)`.
pub open spec fn spec_op_or(regs: Seq<u32>, pc: u32, w: u32) -> ExecOutcome {
    let rd = spec_rd(w);
    let rs = spec_rs(w);
    let rt = spec_rt(w);
    let get_rs = regs[rs as int];
    let get_rt = regs[rt as int];
    let val = get_rs | get_rt;
    ExecOutcome {
        regs: spec_set_reg(regs, rd, val),
        pc,
        entry: Some(
            TraceEntry {
                raw: w,
                op: "OR"@,
                human: "rd = get(rs) | get(rt)"@,
                eval: spec_or_eval(rd, rs, rt, get_rs, get_rt, val),
            },
        ),
        result: Ok(()),
    }
}

/// ORI: `rt <- get(rs) | immediate`, zero-extended immediate.
pub open spec fn spec_op_ori(regs: Seq<u32>, pc: u32, w: u32) -> ExecOutcome {
    let rt = spec_rt(w);
    let rs = spec_rs(w);
    let imm = spec_immediate(w);
    let get_rs = regs[rs as int];
    let val = get_rs | imm;
    ExecOutcome {
        regs: spec_set_reg(regs, rt, val),
        pc,
        entry: Some(
            TraceEntry {
                raw: w,
                op: "ORI"@,
                human: "rt = get(rs) | immediate"@,
                eval: spec_ori_eval(rt, rs, imm, get_rs, val),
            },
        ),
        result: Ok(()),
    }
}

/// SW: `memory[get(base) + sign_extend(offset)] <- get(rt)`; the store is
/// issued through the bus and a bus fault propagates, with no trace entry.
pub open spec fn spec_op_sw(regs: Seq<u32>, pc: u32, w: u32) -> ExecOutcome {
    let rt = spec_rt(w);
    let base = spec_rs(w);
    let get_base = regs[base as int];
    let offset = spec_sign_extend16(spec_immediate(w));
    let addr = get_base.wrapping_add(offset);
    let val = regs[rt as int];
    match spec_store32(addr, val) {
        Ok(_) => ExecOutcome {
            regs,
            pc,
            entry: Some(
                TraceEntry {
                    raw: w,
                    op: "SW"@,
                    human: "memory[get(base)+offset] = get(rt)"@,
                    eval: spec_sw_eval(base, offset, get_base, addr, val),
                },
            ),
            result: Ok(()),
        },
        Err(e) => ExecOutcome { regs, pc, entry: None, result: Err(e) },
    }
}

/// SLL: `rd <- get(rt) << shift_amount`, zero-fill.
pub open spec fn spec_op_sll(regs: Seq<u32>, pc: u32, w: u32) -> ExecOutcome {
    let rt = spec_rt(w);
    let rd = spec_rd(w);
    let sa = spec_sa(w);
    let val = regs[rt as int] << sa;
    ExecOutcome {
        regs: spec_set_reg(regs, rd, val),
        pc,
        entry: Some(
            TraceEntry {
                raw: w,
                op: "SLL"@,
                human: "rd = get(rt) << sa"@,
                eval: spec_sll_eval(rd, val, sa),
            },
        ),
        result: Ok(()),
    }
}

/// ADDIU: `rt <- get(rs) + sign_extend(immediate)`, 32-bit wrap-around
/// arithmetic that never faults on overflow.
pub open spec fn spec_op_addiu(regs: Seq<u32>, pc: u32, w: u32) -> ExecOutcome {
    let rt = spec_rt(w);
    let rs = spec_rs(w);
    let imm = spec_sign_extend16(spec_immediate(w));
    let get_rs = regs[rs as int];
    let val = get_rs.wrapping_add(imm);
    ExecOutcome {
        regs: spec_set_reg(regs, rt, val),
        pc,
        entry: Some(
            TraceEntry {
                raw: w,
                op: "ADDIU"@,
                human: "rt = get(rs) + imm"@,
                eval: spec_addiu_eval(rt, rs, imm, get_rs),
            },
        ),
        result: Ok(()),
    }
}

/// J: `pc <- (pc & 0xF0000000) | (jump_target_index << 2)`, over the already
/// advanced program counter; the delay-slot instruction in flight still
/// executes before the target takes effect.
pub open spec fn spec_op_jump(regs: Seq<u32>, pc: u32, w: u32) -> ExecOutcome {
    let shifted_index = spec_instr_index(w) << 2u32;
    let pc_4_msb = 0xF000_0000u32 & pc;
    let res = pc_4_msb | shifted_index;
    ExecOutcome {
        regs,
        pc: res,
        entry: Some(
            TraceEntry {
                raw: w,
                op: "J"@,
                human: "pc = 4MSB(pc) | (instr_index << 2)"@,
                eval: spec_jump_eval(pc_4_msb, shifted_index, res),
            },
        ),
        result: Ok(()),
    }
}

/// Dispatch on the secondary opcode, under the extended primary opcode; an
/// unmapped secondary opcode is a fault, not a silent no-op.
pub open spec fn spec_execute_special(regs: Seq<u32>, pc: u32, w: u32) -> ExecOutcome {
    match spec_secondary_opcode(w) {
        None => ExecOutcome {
            regs,
            pc,
            entry: None,
            result: Err(PsemuCoreError::UnknownSecondaryOpInstruction(w)),
        },
        Some(SecondaryOpcode::ShiftLeftLogical) => spec_op_sll(regs, pc, w),
        Some(SecondaryOpcode::Or) => spec_op_or(regs, pc, w),
    }
}

/// Dispatch on the primary opcode; an unmapped primary opcode is a fault.
pub open spec fn spec_execute(regs: Seq<u32>, pc: u32, w: u32) -> ExecOutcome {
    match spec_opcode_of_bits(spec_primary_bits(w)) {
        None => ExecOutcome {
            regs,
            pc,
            entry: None,
            result: Err(PsemuCoreError::UnknownInstruction(w)),
        },
        Some(Opcode::Special) => spec_execute_special(regs, pc, w),
        Some(Opcode::LoadUpperImmediate) => spec_op_lui(regs, pc, w),
        Some(Opcode::OrImmediate) => spec_op_ori(regs, pc, w),
        Some(Opcode::StoreWord) => spec_op_sw(regs, pc, w),
        Some(Opcode::AddImmediateUnsignedWord) => spec_op_addiu(regs, pc, w),
        Some(Opcode::Jump) => spec_op_jump(regs, pc, w),
    }
}

/// One full step of the engine: fetch at `pc` (a fetch fault leaves the state
/// unchanged), queue the fetched word as the next in-flight instruction,
/// advance `pc` by 4, then execute the previously fetched word, which may
/// itself overwrite `pc` (a jump) or fault.
pub open spec fn spec_step(s: CpuState) -> (CpuState, Result<(), PsemuCoreError>) {
    match spec_load32(s.rom, s.pc) {
        Err(e) => (s, Err(e)),
        Ok(fetched) => {
            let o = spec_execute(s.regs, s.pc.wrapping_add(4), s.next_instruction);
            (
                CpuState {
                    pc: o.pc,
                    next_instruction: fetched,
                    regs: o.regs,
                    rom: s.rom,
                    trace: match o.entry {
                        Some(t) => s.trace.push(t),
                        None => s.trace,
                    },
                },
                o.result,
            )
        },
    }
}

/// How an op handler relates the engine state after its run to the state
/// before and its ghost outcome: registers and `pc` as the outcome says,
/// everything else untouched.
pub open spec fn op_applied(pre: CpuState, post: CpuState, o: ExecOutcome) -> bool {
    &&& post.regs == o.regs
    &&& post.pc == o.pc
    &&& post.next_instruction == pre.next_instruction
    &&& post.rom == pre.rom
    &&& post.trace == pre.trace
}

/// Whether an outcome is a successful execution whose trace entry carries
/// exactly the word `w` and the rendered strings `h` and `e`.
pub open spec fn entry_matches(o: ExecOutcome, w: u32, h: Seq<char>, e: Seq<char>) -> bool {
    &&& o.result == Ok::<(), PsemuCoreError>(())
    &&& o.entry matches Some(t) && t.raw == w && t.human == h && t.eval == e
}

/// How `execute_instr` relates the state after its run to the state before:
/// registers and `pc` move as [`spec_execute`] says, the owed trace entry is
/// appended, and the outcome's result is returned.
pub open spec fn execute_applied(
    pre: CpuState,
    post: CpuState,
    w: u32,
    r: Result<(), PsemuCoreError>,
) -> bool {
    let o = spec_execute(pre.regs, pre.pc, w);
    &&& post.regs == o.regs
    &&& post.pc == o.pc
    &&& post.next_instruction == pre.next_instruction
    &&& post.rom == pre.rom
    &&& post.trace == (match o.entry {
        Some(t) => pre.trace.push(t),
        None => pre.trace,
    })
    &&& r == o.result
}

/// How `run_single_cycle` relates the state after a step to the state before:
/// exactly as [`spec_step`] says.
pub open spec fn step_applied(pre: CpuState, post: CpuState, r: Result<(), PsemuCoreError>) -> bool {
    let target = spec_step(pre).0;
    &&& post.pc == target.pc
    &&& post.next_instruction == target.next_instruction
    &&& post.regs == target.regs
    &&& post.rom == target.rom
    &&& post.trace == target.trace
    &&& r == spec_step(pre).1
}

/// The execution engine.
pub struct Cpu {
    /// Program counter; always a multiple of 4 in every state the engine
    /// itself reaches.
    pub pc: u32,
    // Used to simulate the branch-delay slot
    next_instruction: Instruction,
    registers: [u32; 32],
    interconnect: Interconnect,
    /// Append-only trace, consulted by nothing inside the core.
    pub instruction_history: Vec<InstructionForDebugger>,
}

impl View for Cpu {
    type V = CpuState;

    closed spec fn view(&self) -> CpuState {
        CpuState {
            pc: self.pc,
            next_instruction: self.next_instruction.0,
            regs: self.registers@,
            rom: self.interconnect@,
            trace: self.instruction_history.deep_view(),
        }
    }
}

impl Cpu {
    /// Whether the engine is well formed: 32 registers with `$zero` pinned to
    /// 0, over a bus with a full boot-ROM image.
    pub open spec fn wf(&self) -> bool {
        &&& self@.regs.len() == 32
        &&& self@.regs[0] == 0
        &&& self@.rom.len() == BIOS_SIZE
    }

    /// A CPU at reset over the given boot-ROM image: pc at the boot vector, a
    /// no-op in flight, every register but `$zero` at the sentinel, an empty
    /// trace.
    pub fn new(bios_data: Vec<u8>) -> (r: Cpu)
        requires
            bios_data@.len() == BIOS_SIZE,
        ensures
            r.wf(),
            r@.pc == PROGRAM_COUNTER_RESET_VALUE,
            r@.next_instruction == 0,
            r@.regs.len() == 32,
            r@.regs[0] == 0,
            forall|i: int| 1 <= i < 32 ==> r@.regs[i] == REGISTER_RESET_SENTINEL,
            r@.rom == bios_data@,
            r@.trace =~= Seq::<TraceEntry>::empty(),
    {
        let mut registers = [REGISTER_RESET_SENTINEL; 32];
        registers[0] = 0;
        Cpu {
            pc: PROGRAM_COUNTER_RESET_VALUE,
            next_instruction: Instruction(0x00),  // no-op
            registers,
            interconnect: Interconnect::new(bios_data),
            instruction_history: Vec::new(),
        }
    }

    /// A load through the bus, per [`spec_load32`].
    pub fn load32(&self, addr: u32) -> (r: Result<u32, PsemuCoreError>)
        requires
            self.wf(),
        ensures
            r == spec_load32(self@.rom, addr),
    {
        self.interconnect.load32(addr)
    }

    /// A store through the bus, per [`spec_store32`]; no device stores the
    /// value, so the engine state is unchanged.
    pub fn store32(&mut self, addr: u32, val: u32) -> (r: Result<(), PsemuCoreError>)
        ensures
            r == spec_store32(addr, val),
            final(self)@ == old(self)@,
            final(self).wf() == old(self).wf(),
    {
        self.interconnect.store32(addr, val)
    }

    /// The value of one register; register 0 always reads as zero.
    pub fn get_register(&self, register_index: RegisterIndex) -> (r: u32)
        requires
            self.wf(),
            register_index.0 < 32,
        ensures
            r == self@.regs[register_index.0 as int],
            register_index.0 == 0 ==> r == 0,
    {
        self.registers[register_index.0 as usize]
    }

    /// The full register file, for read-only introspection.
    pub fn get_registers(&self) -> (r: &[u32])
        ensures
            r@ == self@.regs,
    {
        self.registers.as_slice()
    }

    /// Writes one register; a write to register 0 is silently discarded, so
    /// `$zero` stays pinned at 0.
    pub fn set_register(&mut self, reg_idx: RegisterIndex, val: u32)
        requires
            old(self).wf(),
            reg_idx.0 < 32,
        ensures
            final(self).wf(),
            final(self)@.regs == spec_set_reg(old(self)@.regs, reg_idx.0, val),
            final(self)@.pc == old(self)@.pc,
            final(self)@.next_instruction == old(self)@.next_instruction,
            final(self)@.rom == old(self)@.rom,
            final(self)@.trace == old(self)@.trace,
    {
        self.registers[reg_idx.0 as usize] = val;
        // Never overwrite $zero
        self.registers[0] = 0;
    }

    /// One atomic step of the fetch/decode/execute cycle: fetch the word at
    /// `pc` and queue it as the next in-flight instruction (a fetch fault
    /// propagates with the state unchanged), advance `pc` by 4, then decode
    /// and execute the word fetched on the previous step, per [`spec_step`].
    pub fn run_single_cycle(&mut self) -> (r: Result<(), PsemuCoreError>)
        requires
            old(self).wf(),
        ensures
            final(self).wf(),
            step_applied(old(self)@, final(self)@, r),
    {
        let pc: u32 = self.pc;
        let instr = self.next_instruction;
        let fetched: u32 = match self.load32(pc) {
            Ok(w) => w,
            Err(e) => {
                return Err(e);
            },
        };
        self.next_instruction = Instruction(fetched);
        self.pc = self.pc.wrapping_add(4);
        self.execute_instr(instr.0)
    }

    /// Decodes and executes one instruction word, per [`spec_execute`]:
    /// dispatch on the primary opcode (and, under the extended opcode, on the
    /// secondary opcode), mutate the register file or `pc`, append one trace
    /// entry on success, and propagate any fault.
    pub fn execute_instr(&mut self, instr_: u32) -> (r: Result<(), PsemuCoreError>)
        requires
            old(self).wf(),
        ensures
            final(self).wf(),
            execute_applied(old(self)@, final(self)@, instr_, r),
    {
        let instr = Instruction(instr_);
        let (op_s, he) = match instr.sop() {
            None => {
                return Err(PsemuCoreError::UnknownInstruction(instr_));
            },
            Some(Opcode::Special) => {
                match self.execute_special_op_instr(instr_) {
                    Some(res) => res,
                    None => {
                        return Err(PsemuCoreError::UnknownSecondaryOpInstruction(instr_));
                    },
                }
            },
            Some(Opcode::LoadUpperImmediate) => (String::from_str("LUI"), self.op_lui(instr)),
            Some(Opcode::OrImmediate) => (String::from_str("ORI"), self.op_ori(instr)),
            Some(Opcode::StoreWord) => {
                match self.op_sw(instr) {
                    Ok(parts) => (String::from_str("SW"), parts),
                    Err(e) => {
                        return Err(e);
                    },
                }
            },
            Some(Opcode::AddImmediateUnsignedWord) => (
                String::from_str("ADDIU"),
                self.op_addiu(instr),
            ),
            Some(Opcode::Jump) => (String::from_str("J"), self.op_jump(instr)),
        };
        let (h, e) = he;
        let entry = InstructionForDebugger { raw: instr_, op: op_s, human: h, eval: e };
        let ghost ge = entry@;
        self.instruction_history.push(entry);
        proof {
            assert(self@.trace =~= old(self)@.trace.push(ge));
        }
        Ok(())
    }

    /// Dispatches an instruction word on its secondary opcode, under the
    /// extended primary opcode, per [`spec_execute_special`]; `None` means
    /// the secondary opcode has no table entry and the state is unchanged.
    pub fn execute_special_op_instr(&mut self, instr_: u32) -> (r: Option<
        (String, (HumanReadableInstruction, HumanReadableEvalInstruction)),
    >)
        requires
            old(self).wf(),
        ensures
            final(self).wf(),
            op_applied(
                old(self)@,
                final(self)@,
                spec_execute_special(old(self)@.regs, old(self)@.pc, instr_),
            ),
            ({
                let o = spec_execute_special(old(self)@.regs, old(self)@.pc, instr_);
                match r {
                    Some((op_s, (h, e))) => {
                        &&& o.result == Ok::<(), PsemuCoreError>(())
                        &&& o.entry matches Some(t) && t.raw == instr_ && t.op == op_s@ && t.human
                            == h.0@ && t.eval == e.0@
                    },
                    None => {
                        &&& o.result == Err::<(), PsemuCoreError>(
                            PsemuCoreError::UnknownSecondaryOpInstruction(instr_),
                        )
                        &&& o.entry is None
                    },
                }
            }),
    {
        let instr = Instruction(instr_);
        match instr.secondary_opcode() {
            Some(SecondaryOpcode::ShiftLeftLogical) => {
                let parts = self.op_sll(instr);
                Some((String::from_str("SLL"), parts))
            },
            Some(SecondaryOpcode::Or) => {
                let parts = self.op_or(instr);
                Some((String::from_str("OR"), parts))
            },
            None => None,
        }
    }

    /// Load Upper Immediate: `rt <- immediate << 16`.
    fn op_lui(&mut self, instr: Instruction) -> (res: (
        HumanReadableInstruction,
        HumanReadableEvalInstruction,
    ))
        requires
            old(self).wf(),
        ensures
            final(self).wf(),
            op_applied(old(self)@, final(self)@, spec_op_lui(old(self)@.regs, old(self)@.pc, instr.0)),
            entry_matches(
                spec_op_lui(old(self)@.regs, old(self)@.pc, instr.0),
                instr.0,
                res.0.0@,
                res.1.0@,
            ),
    {
        let rt = instr.gpr_rt();
        let imm: u32 = instr.immediate();
        let val: u32 = imm << 16u32;
        self.set_register(rt, val);
        let h = HumanReadableInstruction(String::from_str("rt = imm << 16"));
        let mut ev = rt.label();
        ev.append(" = (");
        ev.append(hex_string(imm).as_str());
        ev.append(" << 16) => ");
        ev.append(hex_string(val).as_str());
        proof {
            assert(ev@ =~= spec_lui_eval(rt.0, imm, val));
        }
        (h, HumanReadableEvalInstruction(ev))
    }

    /// Or: `rd <- get(rs) | get(rt)`.
    fn op_or(&mut self, instr: Instruction) -> (res: (
        HumanReadableInstruction,
        HumanReadableEvalInstruction,
    ))
        requires
            old(self).wf(),
        ensures
            final(self).wf(),
            op_applied(old(self)@, final(self)@, spec_op_or(old(self)@.regs, old(self)@.pc, instr.0)),
            entry_matches(
                spec_op_or(old(self)@.regs, old(self)@.pc, instr.0),
                instr.0,
                res.0.0@,
                res.1.0@,
            ),
    {
        let rd = instr.gpr_rd();
        let rs = instr.gpr_rs();
        let rt = instr.gpr_rt();
        let get_rs: u32 = self.get_register(rs);
        let get_rt: u32 = self.get_register(rt);
        let val: u32 = get_rs | get_rt;
        self.set_register(rd, val);
        let h = HumanReadableInstruction(String::from_str("rd = get(rs) | get(rt)"));
        let mut ev = rd.label();
        ev.append(" = (get(");
        ev.append(rs.label().as_str());
        ev.append(") | get(");
        ev.append(rt.label().as_str());
        ev.append(") => (");
        ev.append(hex_string(get_rs).as_str());
        ev.append(" | ");
        ev.append(hex_string(get_rt).as_str());
        ev.append(") => ");
        ev.append(hex_string(val).as_str());
        proof {
            assert(ev@ =~= spec_or_eval(rd.0, rs.0, rt.0, get_rs, get_rt, val));
        }
        (h, HumanReadableEvalInstruction(ev))
    }

    /// Or Immediate: `rt <- get(rs) | immediate`.
    fn op_ori(&mut self, instr: Instruction) -> (res: (
        HumanReadableInstruction,
        HumanReadableEvalInstruction,
    ))
        requires
            old(self).wf(),
        ensures
            final(self).wf(),
            op_applied(
                old(self)@,
                final(self)@,
                spec_op_ori(old(self)@.regs, old(self)@.pc, instr.0),
            ),
            entry_matches(
                spec_op_ori(old(self)@.regs, old(self)@.pc, instr.0),
                instr.0,
                res.0.0@,
                res.1.0@,
            ),
    {
        let rt = instr.gpr_rt();
        let rs = instr.gpr_rs();
        let imm: u32 = instr.immediate();
        let get_rs: u32 = self.get_register(rs);
        let val: u32 = get_rs | imm;
        self.set_register(rt, val);
        let h = HumanReadableInstruction(String::from_str("rt = get(rs) | immediate"));
        let mut ev = rt.label();
        ev.append(" = (get(");
        ev.append(rs.label().as_str());
        ev.append(") | ");
        ev.append(hex_string(imm).as_str());
        ev.append(") => (");
        ev.append(hex_string(get_rs).as_str());
        ev.append(" | ");
        ev.append(hex_string(imm).as_str());
        ev.append(") => ");
        ev.append(hex_string(val).as_str());
        proof {
            assert(ev@ =~= spec_ori_eval(rt.0, rs.0, imm, get_rs, val));
        }
        (h, HumanReadableEvalInstruction(ev))
    }

    /// Store Word: `memory[get(base) + sign_extend(offset)] <- get(rt)`; a
    /// bus fault propagates and no trace entry is owed for it.
    fn op_sw(&mut self, instr: Instruction) -> (res: Result<
        (HumanReadableInstruction, HumanReadableEvalInstruction),
        PsemuCoreError,
    >)
        requires
            old(self).wf(),
        ensures
            final(self).wf(),
            op_applied(old(self)@, final(self)@, spec_op_sw(old(self)@.regs, old(self)@.pc, instr.0)),
            ({
                let o = spec_op_sw(old(self)@.regs, old(self)@.pc, instr.0);
                match res {
                    Ok((h, e)) => entry_matches(o, instr.0, h.0@, e.0@),
                    Err(err) => o.result == Err::<(), PsemuCoreError>(err) && o.entry is None,
                }
            }),
    {
        let rt = instr.gpr_rt();
        let base: u32 = instr.base();
        let get_base: u32 = self.get_register(RegisterIndex(base));
        let offset: u32 = instr.offset_sign_extended();

        let addr: u32 = get_base.wrapping_add(offset);
        let val: u32 = self.get_register(rt);
        match self.store32(addr, val) {
            Ok(_) => {},
            Err(err) => {
                return Err(err);
            },
        }
        let h = HumanReadableInstruction(String::from_str("memory[get(base)+offset] = get(rt)"));
        let mut ev = String::from_str("memory[(get(");
        ev.append(crate::render::reg_label_string(base).as_str());
        ev.append(")+");
        ev.append(hex_string(offset).as_str());
        ev.append(") => (");
        ev.append(hex_string(get_base).as_str());
        ev.append("+");
        ev.append(hex_string(offset).as_str());
        ev.append(") => ");
        ev.append(hex_string(addr).as_str());
        ev.append("] = ");
        ev.append(hex_string(val).as_str());
        proof {
            assert(ev@ =~= spec_sw_eval(base, offset, get_base, addr, val));
        }
        Ok((h, HumanReadableEvalInstruction(ev)))
    }

    /// Shift Left Logical: `rd <- get(rt) << shift_amount`, zero-fill.
    fn op_sll(&mut self, instr: Instruction) -> (res: (
        HumanReadableInstruction,
        HumanReadableEvalInstruction,
    ))
        requires
            old(self).wf(),
        ensures
            final(self).wf(),
            op_applied(
                old(self)@,
                final(self)@,
                spec_op_sll(old(self)@.regs, old(self)@.pc, instr.0),
            ),
            entry_matches(
                spec_op_sll(old(self)@.regs, old(self)@.pc, instr.0),
                instr.0,
                res.0.0@,
                res.1.0@,
            ),
    {
        let rt = instr.gpr_rt();
        let rd = instr.gpr_rd();
        let sa: u32 = instr.sa();

        let val: u32 = self.get_register(rt) << sa;

        self.set_register(rd, val);
        let h = HumanReadableInstruction(String::from_str("rd = get(rt) << sa"));
        let mut ev = rd.label();
        ev.append(" = ");
        ev.append(hex_string(val).as_str());
        ev.append(" << ");
        ev.append(dec_string(sa).as_str());
        proof {
            assert(ev@ =~= spec_sll_eval(rd.0, val, sa));
        }
        (h, HumanReadableEvalInstruction(ev))
    }

    /// Add Immediate Unsigned Word: `rt <- get(rs) + sign_extend(immediate)`.
    ///
    /// The "unsigned" in the name is the ISA's documented misnomer: this is
    /// 32-bit modulo arithmetic that never faults on overflow.
    fn op_addiu(&mut self, instr: Instruction) -> (res: (
        HumanReadableInstruction,
        HumanReadableEvalInstruction,
    ))
        requires
            old(self).wf(),
        ensures
            final(self).wf(),
            op_applied(
                old(self)@,
                final(self)@,
                spec_op_addiu(old(self)@.regs, old(self)@.pc, instr.0),
            ),
            entry_matches(
                spec_op_addiu(old(self)@.regs, old(self)@.pc, instr.0),
                instr.0,
                res.0.0@,
                res.1.0@,
            ),
    {
        let rt = instr.gpr_rt();
        let rs = instr.gpr_rs();
        let imm: u32 = instr.immediate_sign_extended();

        let get_rs: u32 = self.get_register(rs);
        let val: u32 = get_rs.wrapping_add(imm);
        self.set_register(rt, val);
        let h = HumanReadableInstruction(String::from_str("rt = get(rs) + imm"));
        let mut ev = rt.label();
        ev.append(" = (get(");
        ev.append(rs.label().as_str());
        ev.append(") + ");
        ev.append(hex_string(imm).as_str());
        ev.append(") => (");
        ev.append(hex_string(get_rs).as_str());
        ev.append(" + ");
        ev.append(hex_string(imm).as_str());
        ev.append(")");
        proof {
            assert(ev@ =~= spec_addiu_eval(rt.0, rs.0, imm, get_rs));
        }
        (h, HumanReadableEvalInstruction(ev))
    }

    /// Jump: `pc <- (pc & 0xF0000000) | (jump_target_index << 2)`, over the
    /// already advanced `pc`; the delay-slot instruction already in flight
    /// still executes before the target takes effect.
    fn op_jump(&mut self, instr: Instruction) -> (res: (
        HumanReadableInstruction,
        HumanReadableEvalInstruction,
    ))
        requires
            old(self).wf(),
        ensures
            final(self).wf(),
            op_applied(
                old(self)@,
                final(self)@,
                spec_op_jump(old(self)@.regs, old(self)@.pc, instr.0),
            ),
            entry_matches(
                spec_op_jump(old(self)@.regs, old(self)@.pc, instr.0),
                instr.0,
                res.0.0@,
                res.1.0@,
            ),
    {
        let instr_index: u32 = instr.instr_index();
        let instr_index: u32 = instr_index << 2u32;
        let pc_4_msb: u32 = 0xF000_0000 & self.pc;
        let res_pc: u32 = pc_4_msb | instr_index;
        self.pc = res_pc;
        let h = HumanReadableInstruction(String::from_str("pc = 4MSB(pc) | (instr_index << 2)"));
        let mut ev = String::from_str("pc = 4MSB(pc) | (instr_index << 2) => ");
        ev.append(hex_string(pc_4_msb).as_str());
        ev.append(" | ");
        ev.append(dec_string(instr_index).as_str());
        ev.append(" => ");
        ev.append(hex_string(res_pc).as_str());
        proof {
            assert(ev@ =~= spec_jump_eval(pc_4_msb, instr_index, res_pc));
        }
        (h, HumanReadableEvalInstruction(ev))
    }
}

/// Writing any register other than `$zero` and reading it back yields exactly
/// the written value.
pub proof fn lemma_register_write_read(regs: Seq<u32>, i: u32, v: u32)
    requires
        regs.len() == 32,
        0 < i < 32,
    ensures
        spec_set_reg(regs, i, v)[i as int] == v,
{
}

/// A write to register 0 is discarded: `$zero` reads as zero afterwards,
/// whatever was written, and every write keeps it at zero.
pub proof fn lemma_register_zero_pinned(regs: Seq<u32>, i: u32, v: u32)
    requires
        regs.len() == 32,
        i < 32,
    ensures
        spec_set_reg(regs, i, v)[0] == 0,
{
}

/// A register write touches no other register slot.
pub proof fn lemma_register_write_frames(regs: Seq<u32>, i: u32, v: u32, j: u32)
    requires
        regs.len() == 32,
        i < 32,
        j < 32,
        j != i,
        j != 0,
    ensures
        spec_set_reg(regs, i, v)[j as int] == regs[j as int],
{
}

/// Executing the word `0x3C011234` — LUI with `rt = 1` and immediate
/// `0x1234` — from any register state sets register 1 to `0x12340000` and
/// leaves every other register, register 0 included, unchanged.
pub proof fn lemma_lui_example_execution(regs: Seq<u32>, pc: u32)
    requires
        regs.len() == 32,
        regs[0] == 0,
    ensures
        spec_execute(regs, pc, 0x3C01_1234).result == Ok::<(), PsemuCoreError>(()),
        spec_execute(regs, pc, 0x3C01_1234).pc == pc,
        spec_execute(regs, pc, 0x3C01_1234).regs.len() == 32,
        spec_execute(regs, pc, 0x3C01_1234).regs[1] == 0x1234_0000,
        forall|j: int|
            0 <= j < 32 && j != 1 ==> spec_execute(regs, pc, 0x3C01_1234).regs[j] == regs[j],
{
    assert(0x3C01_1234u32 >> 26u32 == 0b0000_1111) by (bit_vector);
    assert(0b0001_1111u32 & (0x3C01_1234u32 >> 16u32) == 1) by (bit_vector);
    assert(0xFFFFu32 & 0x3C01_1234u32 == 0x1234) by (bit_vector);
    assert(0x1234u32 << 16u32 == 0x1234_0000) by (bit_vector);
}

/// The program counter seen two steps after a state whose `pc` sits at the
/// boot vector and whose boot ROM holds, at that vector, a J instruction with
/// target index `t`: the jump target `0xb0000000 | (t << 2)` — the in-flight
/// instruction and the delay-slot instruction are both given their cycle
/// before the target takes effect.
pub proof fn lemma_jump_delay_slot(s: CpuState, t: u32)
    requires
        s.regs.len() == 32,
        s.regs[0] == 0,
        s.rom.len() == BIOS_SIZE,
        s.pc == 0xbfc0_0000,
        t < 0x0400_0000,
        crate::bus::spec_word_at(s.rom, 0) == 0x0800_0000u32 | t,
        spec_execute(s.regs, 0xbfc0_0004, s.next_instruction).result == Ok::<(), PsemuCoreError>(()),
        spec_execute(s.regs, 0xbfc0_0004, s.next_instruction).pc == 0xbfc0_0004,
    ensures
        spec_step(spec_step(s).0).0.pc == 0xb000_0000u32 | (t << 2u32),
        spec_step(s).1 == Ok::<(), PsemuCoreError>(()),
        spec_step(spec_step(s).0).1 == Ok::<(), PsemuCoreError>(()),
{
    let w: u32 = 0x0800_0000u32 | t;
    assert(spec_load32(s.rom, s.pc) == Ok::<u32, PsemuCoreError>(w));
    let s1 = spec_step(s).0;
    assert(s1.pc == 0xbfc0_0004 && s1.next_instruction == w && s1.rom == s.rom);
    assert(spec_load32(s1.rom, s1.pc) is Ok);
    assert((0x0800_0000u32 | t) >> 26u32 == 0b0000_0010) by (bit_vector)
        requires
            t < 0x0400_0000u32,
    ;
    assert(0x03FF_FFFFu32 & (0x0800_0000u32 | t) == t) by (bit_vector)
        requires
            t < 0x0400_0000u32,
    ;
    assert(0xF000_0000u32 & 0xbfc0_0008u32 == 0xb000_0000) by (bit_vector);
}

/// Every step of the engine keeps the state invariants: 32 registers with
/// `$zero` pinned at zero, and a program counter that stays a multiple of 4.
pub proof fn lemma_step_preserves_invariants(s: CpuState)
    requires
        s.regs.len() == 32,
        s.regs[0] == 0,
        s.pc % 4 == 0,
    ensures
        spec_step(s).0.regs.len() == 32,
        spec_step(s).0.regs[0] == 0,
        spec_step(s).0.pc % 4 == 0,
        spec_step(s).0.rom == s.rom,
{
    if spec_load32(s.rom, s.pc) is Ok {
        let pc1 = s.pc.wrapping_add(4);
        assert(pc1 % 4 == 0);
        let w = s.next_instruction;
        crate::decode::lemma_field_bounds(w);
        lemma_jump_target_aligned(pc1, spec_instr_index(w));
    }
}

/// A jump target is always word-aligned: the masked upper bits keep their
/// low two bits clear and the shifted index contributes none.
proof fn lemma_jump_target_aligned(p: u32, i: u32)
    ensures
        ((0xF000_0000u32 & p) | (i << 2u32)) % 4 == 0,
{
    assert(((0xF000_0000u32 & p) | (i << 2u32)) % 4 == 0) by (bit_vector);
}

} // verus!

