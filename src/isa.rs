//! The instruction set and the fixed layout of the address space.

use vstd::prelude::*;

verus! {

/// Size of the flat, byte-addressable memory.
pub const MEMORY_SIZE: usize = 65536;

/// First address of video memory.
pub const VRAM_START: usize = 0xF000;

/// Bytes of video memory: a 40 x 25 grid of cells.
pub const VRAM_SIZE: usize = 1000;

/// Read: the current input code.
pub const INPUT_REGISTER: usize = 0xFFF0;

/// Write: emits the byte to the output sink.
pub const OUTPUT_REGISTER: usize = 0xFFF1;

/// Holds the last generated random byte.
pub const RANDOM_REGISTER: usize = 0xFFF2;

/// Read: the low byte of the timer.
pub const TIMER_REGISTER: usize = 0xFFF3;

/// Set to 1 by every vertical-blank interrupt.
pub const VBLANK_FLAG: usize = 0xFFF4;

/// Set to 1 by a vertical-blank interrupt when the screen was dirty.
pub const SAFE_TO_DRAW_FLAG: usize = 0xFFF5;

pub const INPUT_UP: u8 = 10;

pub const INPUT_DOWN: u8 = 20;

pub const INPUT_LEFT: u8 = 30;

pub const INPUT_RIGHT: u8 = 40;

pub const INPUT_START: u8 = 50;

pub const INPUT_SELECT: u8 = 60;

pub const INPUT_A: u8 = 70;

pub const INPUT_B: u8 = 80;

pub const INPUT_NONE: u8 = 0;

/// One operation of the stack machine. Addresses are absolute: program
/// indices for control flow, memory addresses for memory access.
#[derive(Clone, Copy, Debug, PartialEq, Eq, Structural)]
pub enum Instruction {
    Nop,
    Push(i32),
    Pop,
    Dup,
    Swap,
    Add,
    Sub,
    Mul,
    Div,
    Mod,
    And,
    Or,
    Xor,
    Not,
    Eq,
    Ne,
    Lt,
    Gt,
    Lte,
    Gte,
    Jump(usize),
    JumpIf(usize),
    Call(usize),
    Ret,
    Load(usize),
    Store(usize),
    LoadImmediate(usize, i32),
    RandomNum(i32, i32),
    Sleep(u64),
    ClearScreen,
    Halt,
}

/// A fault that stops the machine.
#[derive(Clone, Copy, Debug, PartialEq, Eq, Structural)]
pub enum VmError {
    /// Division or remainder by zero.
    DivisionByZero,
    /// A jump or call target outside the program, or a memory address
    /// outside the address space.
    InvalidAddress,
    /// A random number was asked for from an empty range.
    EmptyRange,
    /// A BIOS image larger than memory.
    BiosTooLarge,
}

/// Reduces an integer to 32-bit two's complement (wraparound).
pub open spec fn wrap32(x: int) -> i32 {
    let m = x % 0x1_0000_0000;
    if m > i32::MAX {
        (m - 0x1_0000_0000) as i32
    } else {
        m as i32
    }
}

pub open spec fn abs(x: int) -> int {
    if x < 0 { -x } else { x }
}

/// Division rounding toward zero.
pub open spec fn trunc_div(a: int, b: int) -> int {
    let q = abs(a) / abs(b);
    if (a < 0) != (b < 0) { -q } else { q }
}

/// Remainder of division rounding toward zero: it has the sign of `a`.
pub open spec fn trunc_rem(a: int, b: int) -> int {
    let r = abs(a) % abs(b);
    if a < 0 { -r } else { r }
}

pub open spec fn is_arith(i: Instruction) -> bool {
    match i {
        Instruction::Add | Instruction::Sub | Instruction::Mul | Instruction::Div
        | Instruction::Mod | Instruction::And | Instruction::Or | Instruction::Xor => true,
        _ => false,
    }
}

pub open spec fn is_compare(i: Instruction) -> bool {
    match i {
        Instruction::Eq | Instruction::Ne | Instruction::Lt | Instruction::Gt
        | Instruction::Lte | Instruction::Gte => true,
        _ => false,
    }
}

/// `a op b` for an arithmetic instruction, wrapping on overflow; `None` for
/// a division or remainder by zero.
pub open spec fn arith_value(i: Instruction, a: i32, b: i32) -> Option<i32> {
    match i {
        Instruction::Add => Some(wrap32(a + b)),
        Instruction::Sub => Some(wrap32(a - b)),
        Instruction::Mul => Some(wrap32(a * b)),
        Instruction::Div => if b == 0 { None } else { Some(wrap32(trunc_div(a as int, b as int))) },
        Instruction::Mod => if b == 0 { None } else { Some(wrap32(trunc_rem(a as int, b as int))) },
        Instruction::And => Some(a & b),
        Instruction::Or => Some(a | b),
        _ => Some(a ^ b),
    }
}

/// `a op b` for a comparison instruction.
pub open spec fn compare_holds(i: Instruction, a: i32, b: i32) -> bool {
    match i {
        Instruction::Eq => a == b,
        Instruction::Ne => a != b,
        Instruction::Lt => a < b,
        Instruction::Gt => a > b,
        Instruction::Lte => a <= b,
        _ => a >= b,
    }
}

proof fn lemma_wrap_small(x: int)
    requires
        i32::MIN <= x <= i32::MAX,
    ensures
        wrap32(x) == x,
{
}

/// Computes `a op b` for an arithmetic instruction.
pub fn arith(i: Instruction, a: i32, b: i32) -> (r: Option<i32>)
    requires
        is_arith(i),
    ensures
        r == arith_value(i, a, b),
{
    match i {
        Instruction::Add => {
            let r = a.wrapping_add(b);
            assert(r == wrap32(a + b));
            Some(r)
        },
        Instruction::Sub => {
            let r = a.wrapping_sub(b);
            assert(r == wrap32(a - b));
            Some(r)
        },
        Instruction::Mul => Some(a.wrapping_mul(b)),
        Instruction::Div => {
            if b == 0 {
                None
            } else {
                match a.checked_div(b) {
                    Some(q) => {
                        proof {
                            lemma_wrap_small(trunc_div(a as int, b as int));
                        }
                        Some(q)
                    },
                    None => {
                        assert(a == i32::MIN && b == -1) by (nonlinear_arith)
                            requires
                                b != 0,
                                trunc_div(a as int, b as int) < i32::MIN || trunc_div(a as int, b as int) > i32::MAX,
                        ;
                        Some(i32::MIN)
                    },
                }
            }
        },
        Instruction::Mod => {
            if b == 0 {
                None
            } else if a == i32::MIN && b == -1 {
                Some(0)
            } else {
                match a.checked_rem(b) {
                    Some(m) => {
                        proof {
                            lemma_wrap_small(trunc_rem(a as int, b as int));
                        }
                        Some(m)
                    },
                    None => Some(0),
                }
            }
        },
        Instruction::And => Some(a & b),
        Instruction::Or => Some(a | b),
        _ => Some(a ^ b),
    }
}

/// Decides a comparison instruction.
pub fn compare(i: Instruction, a: i32, b: i32) -> (r: bool)
    requires
        is_compare(i),
    ensures
        r == compare_holds(i, a, b),
{
    match i {
        Instruction::Eq => a == b,
        Instruction::Ne => a != b,
        Instruction::Lt => a < b,
        Instruction::Gt => a > b,
        Instruction::Lte => a <= b,
        _ => a >= b,
    }
}

} // verus!
