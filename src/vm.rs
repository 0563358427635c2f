//! The machine: its state, the memory-mapped register bridge, the
//! single-step execution engine, and the timer and interrupt hooks.

use rand::Rng;
use vstd::prelude::*;
use crate::isa::{
    arith, arith_value, compare, compare_holds, is_arith, is_compare, Instruction, VmError,
    INPUT_NONE, INPUT_REGISTER, MEMORY_SIZE, OUTPUT_REGISTER, RANDOM_REGISTER,
    SAFE_TO_DRAW_FLAG, TIMER_REGISTER, VBLANK_FLAG, VRAM_SIZE, VRAM_START,
};

verus! {

/// The abstract state of a machine.
pub struct VmState {
    pub memory: Seq<u8>,
    pub stack: Seq<i32>,
    pub program: Seq<Instruction>,
    pub pc: usize,
    pub call_stack: Seq<usize>,
    pub halted: bool,
    pub timer: u64,
    pub screen_dirty: bool,
    pub input_state: u8,
    /// Bytes written to the output register, oldest first.
    pub output: Seq<u8>,
}

pub open spec fn in_vram(addr: int) -> bool {
    VRAM_START <= addr < VRAM_START + VRAM_SIZE
}

/// What a read of `addr` yields.
pub open spec fn read_spec(s: VmState, addr: usize) -> u8 {
    if addr == INPUT_REGISTER {
        s.input_state
    } else if addr == TIMER_REGISTER {
        s.timer as u8
    } else {
        s.memory[addr as int]
    }
}

/// The state after a write of `value` to `addr`.
pub open spec fn write_spec(s: VmState, addr: usize, value: u8) -> VmState {
    if addr == OUTPUT_REGISTER {
        VmState { output: s.output.push(value), ..s }
    } else if in_vram(addr as int) {
        VmState { memory: s.memory.update(addr as int, value), screen_dirty: true, ..s }
    } else {
        VmState { memory: s.memory.update(addr as int, value), ..s }
    }
}

/// Memory with the whole of video memory zeroed.
pub open spec fn cleared_vram(m: Seq<u8>) -> Seq<u8> {
    Seq::new(m.len(), |i: int| if in_vram(i) { 0u8 } else { m[i] })
}

/// The memory has the size of the address space, and every program index
/// fits a `usize`.
pub open spec fn state_wf(s: VmState) -> bool {
    s.memory.len() == MEMORY_SIZE && s.program.len() <= usize::MAX
}

/// Whether a step from `s` would execute an instruction.
pub open spec fn runnable(s: VmState) -> bool {
    !s.halted && s.pc < s.program.len()
}

/// The instruction at the program counter.
pub open spec fn current(s: VmState) -> Instruction {
    s.program[s.pc as int]
}

/// The outcome of a fault: the machine halts, nothing else changes.
pub open spec fn fault(s: VmState, e: VmError) -> (VmState, Result<(), VmError>) {
    (VmState { halted: true, ..s }, Err(e))
}

/// Moves to the next instruction.
pub open spec fn advance(s: VmState) -> VmState {
    VmState { pc: (s.pc + 1) as usize, ..s }
}

/// The stack after a two-operand instruction pushed `r`.
pub open spec fn replace_top_two(st: Seq<i32>, r: i32) -> Seq<i32> {
    st.drop_last().drop_last().push(r)
}

/// Executes `i` at `s` (which is runnable); `drawn` is the number a
/// `RandomNum` instruction draws.
pub open spec fn execute(s: VmState, i: Instruction, drawn: i32) -> (VmState, Result<(), VmError>) {
    let n = s.stack.len();
    let ok = Ok::<(), VmError>(());
    match i {
        Instruction::Nop => (advance(s), ok),
        Instruction::Push(v) => (advance(VmState { stack: s.stack.push(v), ..s }), ok),
        Instruction::Pop => if n == 0 {
            (advance(s), ok)
        } else {
            (advance(VmState { stack: s.stack.drop_last(), ..s }), ok)
        },
        Instruction::Dup => if n == 0 {
            (advance(s), ok)
        } else {
            (advance(VmState { stack: s.stack.push(s.stack.last()), ..s }), ok)
        },
        Instruction::Swap => if n < 2 {
            (advance(s), ok)
        } else {
            let st = s.stack.update(n - 1, s.stack[n - 2]).update(n - 2, s.stack[n - 1]);
            (advance(VmState { stack: st, ..s }), ok)
        },
        Instruction::Not => if n == 0 {
            (advance(s), ok)
        } else {
            (advance(VmState { stack: s.stack.drop_last().push(!s.stack.last()), ..s }), ok)
        },
        Instruction::Jump(addr) => if addr >= s.program.len() {
            fault(s, VmError::InvalidAddress)
        } else {
            (VmState { pc: addr, ..s }, ok)
        },
        Instruction::JumpIf(addr) => if n == 0 {
            (advance(s), ok)
        } else if s.stack.last() == 0 {
            (advance(VmState { stack: s.stack.drop_last(), ..s }), ok)
        } else if addr >= s.program.len() {
            fault(s, VmError::InvalidAddress)
        } else {
            (VmState { stack: s.stack.drop_last(), pc: addr, ..s }, ok)
        },
        Instruction::Call(addr) => if addr >= s.program.len() {
            fault(s, VmError::InvalidAddress)
        } else {
            (VmState { call_stack: s.call_stack.push((s.pc + 1) as usize), pc: addr, ..s }, ok)
        },
        Instruction::Ret => if s.call_stack.len() == 0 {
            (advance(s), ok)
        } else {
            (VmState { call_stack: s.call_stack.drop_last(), pc: s.call_stack.last(), ..s }, ok)
        },
        Instruction::Load(addr) => if addr >= MEMORY_SIZE {
            fault(s, VmError::InvalidAddress)
        } else {
            (advance(VmState { stack: s.stack.push(read_spec(s, addr) as i32), ..s }), ok)
        },
        Instruction::Store(addr) => if addr >= MEMORY_SIZE {
            fault(s, VmError::InvalidAddress)
        } else if n == 0 {
            (advance(s), ok)
        } else {
            let t = VmState { stack: s.stack.drop_last(), ..s };
            (advance(write_spec(t, addr, s.stack.last() as u8)), ok)
        },
        Instruction::LoadImmediate(addr, v) => if addr >= MEMORY_SIZE {
            fault(s, VmError::InvalidAddress)
        } else {
            (advance(write_spec(s, addr, v as u8)), ok)
        },
        Instruction::RandomNum(min, max) => if min > max {
            fault(s, VmError::EmptyRange)
        } else {
            (advance(write_spec(s, RANDOM_REGISTER, drawn as u8)), ok)
        },
        Instruction::Sleep(ms) => (advance(VmState { timer: ms, ..s }), ok),
        Instruction::ClearScreen => (
            advance(VmState { memory: cleared_vram(s.memory), screen_dirty: true, ..s }),
            ok,
        ),
        Instruction::Halt => (VmState { halted: true, ..s }, ok),
        _ => if is_compare(i) {
            if n < 2 {
                (advance(s), ok)
            } else {
                let v: i32 = if compare_holds(i, s.stack[n - 2], s.stack[n - 1]) { 1 } else { 0 };
                (advance(VmState { stack: replace_top_two(s.stack, v), ..s }), ok)
            }
        } else if n < 2 {
            (advance(s), ok)
        } else {
            match arith_value(i, s.stack[n - 2], s.stack[n - 1]) {
                Some(r) => (advance(VmState { stack: replace_top_two(s.stack, r), ..s }), ok),
                None => fault(s, VmError::DivisionByZero),
            }
        },
    }
}

/// One single step: a no-op when halted or past the end of the program,
/// else the execution of the current instruction.
pub open spec fn step(s: VmState, drawn: i32) -> (VmState, Result<(), VmError>) {
    if !runnable(s) {
        (s, Ok(()))
    } else {
        execute(s, current(s), drawn)
    }
}

/// Whether `drawn` is a number that the current instruction may draw.
pub open spec fn draw_allowed(s: VmState, drawn: i32) -> bool {
    runnable(s) ==> match current(s) {
        Instruction::RandomNum(min, max) => min <= max ==> min <= drawn <= max,
        _ => true,
    }
}

/// The machine.
pub struct VM {
    memory: Vec<u8>,
    stack: Vec<i32>,
    program: Vec<Instruction>,
    pc: usize,
    call_stack: Vec<usize>,
    halted: bool,
    timer: u64,
    screen_dirty: bool,
    input_state: u8,
    output: Vec<u8>,
}

impl View for VM {
    type V = VmState;

    closed spec fn view(&self) -> VmState {
        VmState {
            memory: self.memory@,
            stack: self.stack@,
            program: self.program@,
            pc: self.pc,
            call_stack: self.call_stack@,
            halted: self.halted,
            timer: self.timer,
            screen_dirty: self.screen_dirty,
            input_state: self.input_state,
            output: self.output@,
        }
    }
}

/// Relies on rand's `thread_rng().gen_range(min..=max)`: a number in the
/// inclusive range, which must not be empty.
#[verifier::external_body]
fn random_in_range(min: i32, max: i32) -> (r: i32)
    requires
        min <= max,
    ensures
        min <= r <= max,
{
    rand::thread_rng().gen_range(min..=max)
}

} // verus!

verus! {

/// The timer after `delta` milliseconds: saturating subtraction.
pub open spec fn timer_after(timer: u64, delta: u64) -> u64 {
    if timer > delta { (timer - delta) as u64 } else { 0 }
}

/// The state after a vertical-blank interrupt.
pub open spec fn vblank_spec(s: VmState) -> VmState {
    let m1 = s.memory.update(INPUT_REGISTER as int, s.input_state).update(VBLANK_FLAG as int, 1u8);
    VmState {
        timer: if s.timer > 0 { (s.timer - 1) as u64 } else { 0 },
        memory: if s.screen_dirty { m1.update(SAFE_TO_DRAW_FLAG as int, 1u8) } else { m1 },
        screen_dirty: false,
        ..s
    }
}

impl VM {
    pub open spec fn wf(&self) -> bool {
        state_wf(self@)
    }

    /// A machine with zeroed memory, empty stacks, no program, a zero timer,
    /// no input, and a clean screen.
    pub fn new() -> (r: Self)
        ensures
            r.wf(),
            r@.memory == Seq::new(MEMORY_SIZE as nat, |i: int| 0u8),
            r@.stack.len() == 0,
            r@.program.len() == 0,
            r@.pc == 0,
            r@.call_stack.len() == 0,
            !r@.halted,
            r@.timer == 0,
            !r@.screen_dirty,
            r@.input_state == INPUT_NONE,
            r@.output.len() == 0,
    {
        let memory: Vec<u8> = vec![0u8; MEMORY_SIZE];
        let r = VM {
            memory,
            stack: Vec::new(),
            program: Vec::new(),
            pc: 0,
            call_stack: Vec::new(),
            halted: false,
            timer: 0,
            screen_dirty: false,
            input_state: INPUT_NONE,
            output: Vec::new(),
        };
        assert(r@.memory =~= Seq::new(MEMORY_SIZE as nat, |i: int| 0u8));
        r
    }

    /// Installs a program and restarts it from its first instruction.
    pub fn load_program(&mut self, program: Vec<Instruction>)
        requires
            old(self).wf(),
        ensures
            final(self).wf(),
            final(self)@ == (VmState { program: program@, pc: 0, halted: false, ..old(self)@ }),
    {
        // The call brings in that the length fits a usize.
        let _ = program.len();
        self.program = program;
        self.pc = 0;
        self.halted = false;
    }

    /// Copies a BIOS image to the start of memory and resets the program
    /// counter; an image larger than memory is refused and nothing changes.
    pub fn load_bios(&mut self, bios: &[u8]) -> (r: Result<(), VmError>)
        requires
            old(self).wf(),
        ensures
            final(self).wf(),
            r is Ok <==> bios@.len() <= MEMORY_SIZE,
            r is Err ==> r == Err::<(), VmError>(VmError::BiosTooLarge) && final(self)@ == old(self)@,
            r is Ok ==> final(self)@ == (VmState {
                memory: bios@ + old(self)@.memory.subrange(bios@.len() as int, MEMORY_SIZE as int),
                pc: 0,
                ..old(self)@
            }),
    {
        if bios.len() > MEMORY_SIZE {
            return Err(VmError::BiosTooLarge);
        }
        let mut k: usize = 0;
        while k < bios.len()
            invariant
                k <= bios@.len() <= MEMORY_SIZE,
                self@.memory.len() == MEMORY_SIZE,
                forall|j: int| 0 <= j < k ==> self@.memory[j] == bios@[j],
                forall|j: int| k <= j < MEMORY_SIZE ==> self@.memory[j] == old(self)@.memory[j],
                self@ == (VmState { memory: self@.memory, ..old(self)@ }),
            decreases bios@.len() - k,
        {
            self.memory.set(k, bios[k]);
            k = k + 1;
        }
        self.pc = 0;
        assert(self@.memory =~= bios@ + old(self)@.memory.subrange(bios@.len() as int, MEMORY_SIZE as int));
        Ok(())
    }

    /// Reads `addr` through the register bridge.
    pub fn read_memory(&self, addr: usize) -> (r: u8)
        requires
            self.wf(),
            addr < MEMORY_SIZE,
        ensures
            r == read_spec(self@, addr),
    {
        if addr == INPUT_REGISTER {
            self.input_state
        } else if addr == TIMER_REGISTER {
            self.timer as u8
        } else {
            self.memory[addr]
        }
    }

    /// Writes `value` to `addr` through the register bridge.
    pub fn write_memory(&mut self, addr: usize, value: u8)
        requires
            old(self).wf(),
            addr < MEMORY_SIZE,
        ensures
            final(self).wf(),
            final(self)@ == write_spec(old(self)@, addr, value),
    {
        if addr == OUTPUT_REGISTER {
            self.output.push(value);
        } else if VRAM_START <= addr && addr < VRAM_START + VRAM_SIZE {
            self.memory.set(addr, value);
            self.screen_dirty = true;
        } else {
            self.memory.set(addr, value);
        }
    }

    fn clear_screen(&mut self)
        requires
            old(self).wf(),
        ensures
            final(self)@ == (VmState {
                memory: cleared_vram(old(self)@.memory),
                screen_dirty: true,
                ..old(self)@
            }),
    {
        let mut a: usize = VRAM_START;
        while a < VRAM_START + VRAM_SIZE
            invariant
                VRAM_START <= a <= VRAM_START + VRAM_SIZE,
                self@.memory.len() == MEMORY_SIZE,
                forall|j: int|
                    0 <= j < MEMORY_SIZE ==> self@.memory[j] == (if VRAM_START <= j < a {
                        0u8
                    } else {
                        old(self)@.memory[j]
                    }),
                self@ == (VmState { memory: self@.memory, ..old(self)@ }),
            decreases VRAM_START + VRAM_SIZE - a,
        {
            self.memory.set(a, 0);
            a = a + 1;
        }
        self.screen_dirty = true;
        assert(self@.memory =~= cleared_vram(old(self)@.memory));
    }

    /// Pops `b` then `a` and pushes `a op b`; with fewer than two operands
    /// nothing changes; a division by zero changes nothing and is reported.
    fn binary_op(&mut self, i: Instruction) -> (r: Result<(), VmError>)
        requires
            is_arith(i),
        ensures
            old(self)@.stack.len() < 2 ==> final(self)@ == old(self)@ && r is Ok,
            old(self)@.stack.len() >= 2 ==> {
                let n = old(self)@.stack.len();
                match arith_value(i, old(self)@.stack[n - 2], old(self)@.stack[n - 1]) {
                    Some(v) => r is Ok && final(self)@ == (VmState {
                        stack: replace_top_two(old(self)@.stack, v),
                        ..old(self)@
                    }),
                    None => r == Err::<(), VmError>(VmError::DivisionByZero)
                        && final(self)@ == old(self)@,
                }
            },
    {
        let n = self.stack.len();
        if n < 2 {
            return Ok(());
        }
        match arith(i, self.stack[n - 2], self.stack[n - 1]) {
            Some(v) => {
                self.stack.pop();
                self.stack.pop();
                self.stack.push(v);
                Ok(())
            },
            None => Err(VmError::DivisionByZero),
        }
    }

    /// Pops `b` then `a` and pushes 1 if `a op b` holds, else 0; with fewer
    /// than two operands nothing changes.
    fn compare_op(&mut self, i: Instruction)
        requires
            is_compare(i),
        ensures
            old(self)@.stack.len() < 2 ==> final(self)@ == old(self)@,
            old(self)@.stack.len() >= 2 ==> {
                let n = old(self)@.stack.len();
                let v: i32 = if compare_holds(i, old(self)@.stack[n - 2], old(self)@.stack[n - 1]) {
                    1
                } else {
                    0
                };
                final(self)@ == (VmState { stack: replace_top_two(old(self)@.stack, v), ..old(self)@ })
            },
    {
        let n = self.stack.len();
        if n < 2 {
            return;
        }
        let holds = compare(i, self.stack[n - 2], self.stack[n - 1]);
        self.stack.pop();
        self.stack.pop();
        self.stack.push(if holds { 1 } else { 0 });
    }

    fn fault(&mut self, e: VmError) -> (r: Result<(), VmError>)
        ensures
            (final(self)@, r) == fault(old(self)@, e),
    {
        self.halted = true;
        Err(e)
    }
}

} // verus!

verus! {

impl VM {
    /// Executes one instruction, with `drawn` as the number that a
    /// `RandomNum` instruction writes; see `step`.
    pub fn run_cycle_with(&mut self, drawn: i32) -> (r: Result<(), VmError>)
        requires
            old(self).wf(),
        ensures
            final(self).wf(),
            (final(self)@, r) == step(old(self)@, drawn),
    {
        if self.halted || self.pc >= self.program.len() {
            return Ok(());
        }
        let i = self.program[self.pc];
        let n = self.stack.len();
        match i {
            Instruction::Nop => {},
            Instruction::Push(v) => {
                self.stack.push(v);
            },
            Instruction::Pop => {
                if n > 0 {
                    self.stack.pop();
                }
            },
            Instruction::Dup => {
                if n > 0 {
                    let v = self.stack[n - 1];
                    self.stack.push(v);
                }
            },
            Instruction::Swap => {
                if n >= 2 {
                    let x = self.stack[n - 1];
                    let y = self.stack[n - 2];
                    self.stack.set(n - 1, y);
                    self.stack.set(n - 2, x);
                }
            },
            Instruction::Add | Instruction::Sub | Instruction::Mul | Instruction::Div
            | Instruction::Mod | Instruction::And | Instruction::Or | Instruction::Xor => {
                if let Err(e) = self.binary_op(i) {
                    return self.fault(e);
                }
            },
            Instruction::Not => {
                if n > 0 {
                    let v = self.stack[n - 1];
                    self.stack.pop();
                    self.stack.push(!v);
                }
            },
            Instruction::Eq | Instruction::Ne | Instruction::Lt | Instruction::Gt
            | Instruction::Lte | Instruction::Gte => {
                self.compare_op(i);
            },
            Instruction::Jump(addr) => {
                if addr >= self.program.len() {
                    return self.fault(VmError::InvalidAddress);
                }
                self.pc = addr;
                return Ok(());
            },
            Instruction::JumpIf(addr) => {
                if n > 0 {
                    if self.stack[n - 1] != 0 {
                        if addr >= self.program.len() {
                            return self.fault(VmError::InvalidAddress);
                        }
                        self.stack.pop();
                        self.pc = addr;
                        return Ok(());
                    }
                    self.stack.pop();
                }
            },
            Instruction::Call(addr) => {
                if addr >= self.program.len() {
                    return self.fault(VmError::InvalidAddress);
                }
                self.call_stack.push(self.pc + 1);
                self.pc = addr;
                return Ok(());
            },
            Instruction::Ret => {
                if let Some(addr) = self.call_stack.pop() {
                    self.pc = addr;
                    return Ok(());
                }
            },
            Instruction::Load(addr) => {
                if addr >= MEMORY_SIZE {
                    return self.fault(VmError::InvalidAddress);
                }
                let v = self.read_memory(addr);
                self.stack.push(v as i32);
            },
            Instruction::Store(addr) => {
                if addr >= MEMORY_SIZE {
                    return self.fault(VmError::InvalidAddress);
                }
                if let Some(v) = self.stack.pop() {
                    self.write_memory(addr, v as u8);
                }
            },
            Instruction::LoadImmediate(addr, v) => {
                if addr >= MEMORY_SIZE {
                    return self.fault(VmError::InvalidAddress);
                }
                self.write_memory(addr, v as u8);
            },
            Instruction::RandomNum(min, max) => {
                if min > max {
                    return self.fault(VmError::EmptyRange);
                }
                self.write_memory(RANDOM_REGISTER, drawn as u8);
            },
            Instruction::Sleep(ms) => {
                self.timer = ms;
            },
            Instruction::ClearScreen => {
                self.clear_screen();
            },
            Instruction::Halt => {
                self.halted = true;
                return Ok(());
            },
        }
        self.pc = self.pc + 1;
        Ok(())
    }

    /// Executes one instruction, drawing the number for `RandomNum`
    /// uniformly from its inclusive range.
    pub fn run_cycle(&mut self) -> (r: Result<(), VmError>)
        requires
            old(self).wf(),
        ensures
            final(self).wf(),
            exists|d: i32| draw_allowed(old(self)@, d) && (final(self)@, r) == step(old(self)@, d),
    {
        let mut drawn: i32 = 0;
        if !self.halted && self.pc < self.program.len() {
            if let Instruction::RandomNum(min, max) = self.program[self.pc] {
                if min <= max {
                    drawn = random_in_range(min, max);
                }
            }
        }
        let r = self.run_cycle_with(drawn);
        assert(draw_allowed(old(self)@, drawn));
        r
    }

    /// Lets `delta_ms` milliseconds of wall-clock time pass.
    pub fn update_timer(&mut self, delta_ms: u64)
        ensures
            final(self)@ == (VmState { timer: timer_after(old(self)@.timer, delta_ms), ..old(self)@ }),
    {
        self.timer = self.timer.saturating_sub(delta_ms);
    }

    /// Records the most recently pressed input code.
    pub fn set_input(&mut self, input: u8)
        ensures
            final(self)@ == (VmState { input_state: input, ..old(self)@ }),
    {
        self.input_state = input;
    }

    /// The most recently pressed input code.
    pub fn check_input(&self) -> (r: u8)
        ensures
            r == self@.input_state,
    {
        self.input_state
    }

    /// The vertical-blank interrupt: ticks the timer down by one, mirrors
    /// the input code into its register, raises the vertical-blank flag,
    /// raises the safe-to-draw flag if the screen was dirty, and then marks
    /// the screen clean.
    pub fn vblank_interrupt(&mut self)
        requires
            old(self).wf(),
        ensures
            final(self).wf(),
            final(self)@ == vblank_spec(old(self)@),
    {
        if self.timer > 0 {
            self.timer = self.timer - 1;
        }
        self.memory.set(INPUT_REGISTER, self.input_state);
        self.memory.set(VBLANK_FLAG, 1);
        if self.screen_dirty {
            self.memory.set(SAFE_TO_DRAW_FLAG, 1);
        }
        self.screen_dirty = false;
    }

    /// The whole address space, as stored.
    pub fn memory(&self) -> (r: &[u8])
        ensures
            r@ == self@.memory,
    {
        self.memory.as_slice()
    }

    /// The operand stack, bottom first.
    pub fn stack(&self) -> (r: &[i32])
        ensures
            r@ == self@.stack,
    {
        self.stack.as_slice()
    }

    /// Index of the next instruction.
    pub fn pc(&self) -> (r: usize)
        ensures
            r == self@.pc,
    {
        self.pc
    }

    /// The timer, in milliseconds.
    pub fn timer(&self) -> (r: u64)
        ensures
            r == self@.timer,
    {
        self.timer
    }

    /// Whether the machine has stopped, by `Halt` or by a fault.
    pub fn is_halted(&self) -> (r: bool)
        ensures
            r == self@.halted,
    {
        self.halted
    }

    /// Whether video memory was written since the screen was last marked clean.
    pub fn is_screen_dirty(&self) -> (r: bool)
        ensures
            r == self@.screen_dirty,
    {
        self.screen_dirty
    }

    /// Marks the screen clean, as a renderer does once it has drawn it.
    pub fn clear_screen_dirty(&mut self)
        ensures
            final(self)@ == (VmState { screen_dirty: false, ..old(self)@ }),
    {
        self.screen_dirty = false;
    }

    /// Hands out the bytes written to the output register since the last
    /// call, oldest first, and forgets them.
    pub fn take_output(&mut self) -> (r: Vec<u8>)
        ensures
            r@ == old(self)@.output,
            final(self)@ == (VmState { output: Seq::empty(), ..old(self)@ }),
    {
        let mut out: Vec<u8> = Vec::new();
        std::mem::swap(&mut out, &mut self.output);
        out
    }
}

} // verus!
