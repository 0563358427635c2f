use fantasy_console::input::{keycode_to_vm_input, Key};
use fantasy_console::isa::{
    arith, compare, Instruction, VmError, INPUT_A, INPUT_NONE, INPUT_REGISTER, INPUT_START,
    INPUT_UP, MEMORY_SIZE, OUTPUT_REGISTER, RANDOM_REGISTER, SAFE_TO_DRAW_FLAG, TIMER_REGISTER,
    VBLANK_FLAG, VRAM_SIZE, VRAM_START,
};
use fantasy_console::renderer::{CellRect, Renderer};
use fantasy_console::vm::VM;

fn run(program: Vec<Instruction>, steps: usize) -> VM {
    let mut vm = VM::new();
    vm.load_program(program);
    for _ in 0..steps {
        vm.run_cycle().unwrap();
    }
    vm
}

fn binary(op: Instruction, a: i32, b: i32) -> (VM, Result<(), VmError>) {
    let mut vm = VM::new();
    vm.load_program(vec![Instruction::Push(a), Instruction::Push(b), op]);
    vm.run_cycle().unwrap();
    vm.run_cycle().unwrap();
    let r = vm.run_cycle();
    (vm, r)
}

#[test]
fn scenario_vram_write_then_halt() {
    let vm = run(vec![Instruction::LoadImmediate(0xF000, 72), Instruction::Halt], 2);
    assert_eq!(vm.memory()[0xF000], 72);
    assert!(vm.is_screen_dirty());
    assert!(vm.is_halted());
}

#[test]
fn scenario_add_and_store() {
    let vm = run(
        vec![Instruction::Push(3), Instruction::Push(4), Instruction::Add, Instruction::Store(0x100)],
        4,
    );
    assert_eq!(vm.memory()[0x100], 7);
    assert!(vm.stack().is_empty());
}

#[test]
fn scenario_call_and_return() {
    let mut vm = VM::new();
    vm.load_program(vec![
        Instruction::Call(2),
        Instruction::Halt,
        Instruction::LoadImmediate(0x200, 1),
        Instruction::Ret,
    ]);
    let mut steps = 0;
    while !vm.is_halted() && steps < 100 {
        vm.run_cycle().unwrap();
        steps += 1;
    }
    assert!(vm.is_halted());
    assert_eq!(vm.memory()[0x200], 1);
    assert_eq!(vm.pc(), 1);
    assert_eq!(steps, 4);
}

#[test]
fn scenario_vblank_sets_flag_and_cleans_screen() {
    let mut vm = VM::new();
    vm.vblank_interrupt();
    assert_eq!(vm.memory()[VBLANK_FLAG], 1);
    assert!(!vm.is_screen_dirty());

    let mut vm = VM::new();
    vm.write_memory(VRAM_START + 5, 9);
    assert!(vm.is_screen_dirty());
    vm.vblank_interrupt();
    assert_eq!(vm.memory()[VBLANK_FLAG], 1);
    assert_eq!(vm.memory()[SAFE_TO_DRAW_FLAG], 1);
    assert!(!vm.is_screen_dirty());
}

#[test]
fn vblank_without_dirty_screen_leaves_safe_flag() {
    let mut vm = VM::new();
    vm.vblank_interrupt();
    assert_eq!(vm.memory()[SAFE_TO_DRAW_FLAG], 0);
}

#[test]
fn vblank_mirrors_input_and_ticks_timer() {
    let mut vm = VM::new();
    vm.load_program(vec![Instruction::Sleep(3)]);
    vm.run_cycle().unwrap();
    vm.set_input(INPUT_UP);
    vm.vblank_interrupt();
    assert_eq!(vm.memory()[INPUT_REGISTER], INPUT_UP);
    assert_eq!(vm.timer(), 2);
    vm.vblank_interrupt();
    vm.vblank_interrupt();
    vm.vblank_interrupt();
    assert_eq!(vm.timer(), 0);
}

#[test]
fn arithmetic_wraps_around() {
    assert_eq!(binary(Instruction::Add, i32::MAX, 1).0.stack(), &[i32::MIN]);
    assert_eq!(binary(Instruction::Sub, i32::MIN, 1).0.stack(), &[i32::MAX]);
    assert_eq!(binary(Instruction::Mul, 0x10000, 0x10000).0.stack(), &[0]);
    assert_eq!(binary(Instruction::Mul, 6, -7).0.stack(), &[-42]);
    assert_eq!(binary(Instruction::Div, i32::MIN, -1).0.stack(), &[i32::MIN]);
    assert_eq!(binary(Instruction::Mod, i32::MIN, -1).0.stack(), &[0]);
}

#[test]
fn division_rounds_toward_zero() {
    assert_eq!(binary(Instruction::Div, -7, 2).0.stack(), &[-3]);
    assert_eq!(binary(Instruction::Mod, -7, 2).0.stack(), &[-1]);
    assert_eq!(binary(Instruction::Mod, 7, -2).0.stack(), &[1]);
    assert_eq!(arith(Instruction::Div, 9, 3), Some(3));
}

#[test]
fn bitwise_ops() {
    assert_eq!(binary(Instruction::And, 12, 10).0.stack(), &[8]);
    assert_eq!(binary(Instruction::Or, 12, 10).0.stack(), &[14]);
    assert_eq!(binary(Instruction::Xor, 12, 10).0.stack(), &[6]);
    let vm = run(vec![Instruction::Push(0), Instruction::Not], 2);
    assert_eq!(vm.stack(), &[-1]);
}

#[test]
fn division_by_zero_halts_with_error() {
    let (vm, r) = binary(Instruction::Div, 5, 0);
    assert_eq!(r, Err(VmError::DivisionByZero));
    assert!(vm.is_halted());
    assert_eq!(vm.stack(), &[5, 0]);
    let (vm, r) = binary(Instruction::Mod, 5, 0);
    assert_eq!(r, Err(VmError::DivisionByZero));
    assert!(vm.is_halted());
}

#[test]
fn comparisons_yield_zero_or_one() {
    let cases = [
        (Instruction::Eq, 3, 3, 1),
        (Instruction::Eq, 3, 4, 0),
        (Instruction::Ne, 3, 4, 1),
        (Instruction::Lt, 3, 4, 1),
        (Instruction::Lt, 4, 3, 0),
        (Instruction::Gt, 4, 3, 1),
        (Instruction::Lte, 3, 3, 1),
        (Instruction::Gte, 2, 3, 0),
    ];
    for (op, a, b, want) in cases {
        let (vm, r) = binary(op, a, b);
        assert_eq!(r, Ok(()));
        assert_eq!(vm.stack(), &[want]);
    }
    assert!(compare(Instruction::Gte, -1, -1));
}

#[test]
fn underflow_is_a_silent_noop() {
    for op in [Instruction::Add, Instruction::Div, Instruction::Lt] {
        let mut vm = VM::new();
        vm.load_program(vec![Instruction::Push(1), op, Instruction::Halt]);
        vm.run_cycle().unwrap();
        assert_eq!(vm.run_cycle(), Ok(()));
        assert_eq!(vm.stack(), &[1]);
        assert!(!vm.is_halted());
        assert_eq!(vm.pc(), 2);
    }
}

#[test]
fn stack_manipulation() {
    let vm = run(vec![Instruction::Push(1), Instruction::Push(2), Instruction::Swap], 3);
    assert_eq!(vm.stack(), &[2, 1]);
    let vm = run(vec![Instruction::Push(5), Instruction::Dup], 2);
    assert_eq!(vm.stack(), &[5, 5]);
    let vm = run(vec![Instruction::Dup, Instruction::Swap, Instruction::Pop, Instruction::Nop], 4);
    assert!(vm.stack().is_empty());
    assert_eq!(vm.pc(), 4);
}

#[test]
fn halt_makes_further_steps_noops() {
    let mut vm = run(vec![Instruction::Push(1), Instruction::Halt, Instruction::Push(2)], 2);
    assert!(vm.is_halted());
    let mem = vm.memory().to_vec();
    for _ in 0..5 {
        assert_eq!(vm.run_cycle(), Ok(()));
    }
    assert_eq!(vm.pc(), 1);
    assert_eq!(vm.stack(), &[1]);
    assert_eq!(vm.memory(), &mem[..]);
}

#[test]
fn running_past_the_end_idles() {
    let mut vm = run(vec![Instruction::Push(1)], 1);
    assert_eq!(vm.pc(), 1);
    assert_eq!(vm.run_cycle(), Ok(()));
    assert_eq!(vm.pc(), 1);
    assert!(!vm.is_halted());
}

#[test]
fn jumps() {
    let vm = run(vec![Instruction::Jump(2), Instruction::Push(1), Instruction::Push(2)], 2);
    assert_eq!(vm.stack(), &[2]);
    let vm = run(
        vec![Instruction::Push(1), Instruction::JumpIf(3), Instruction::Push(7), Instruction::Push(9)],
        3,
    );
    assert_eq!(vm.stack(), &[9]);
    let vm = run(
        vec![Instruction::Push(0), Instruction::JumpIf(3), Instruction::Push(7), Instruction::Push(9)],
        3,
    );
    assert_eq!(vm.stack(), &[7]);
    let vm = run(vec![Instruction::JumpIf(0), Instruction::Push(4)], 2);
    assert_eq!(vm.stack(), &[4]);
}

#[test]
fn return_with_empty_call_stack_falls_through() {
    let vm = run(vec![Instruction::Ret, Instruction::Push(8)], 2);
    assert_eq!(vm.stack(), &[8]);
    assert_eq!(vm.pc(), 2);
}

#[test]
fn invalid_addresses_halt_with_error() {
    for program in [
        vec![Instruction::Jump(5)],
        vec![Instruction::Call(1)],
        vec![Instruction::Load(MEMORY_SIZE)],
        vec![Instruction::Push(1), Instruction::Store(MEMORY_SIZE + 3)],
        vec![Instruction::LoadImmediate(usize::MAX, 1)],
    ] {
        let n = program.len();
        let mut vm = VM::new();
        vm.load_program(program);
        for _ in 1..n {
            vm.run_cycle().unwrap();
        }
        assert_eq!(vm.run_cycle(), Err(VmError::InvalidAddress));
        assert!(vm.is_halted());
    }
}

#[test]
fn random_number_is_in_range() {
    for _ in 0..200 {
        let vm = run(vec![Instruction::RandomNum(65, 90)], 1);
        let v = vm.memory()[RANDOM_REGISTER];
        assert!((65..=90).contains(&v));
    }
    let vm = run(vec![Instruction::RandomNum(-3, -3)], 1);
    assert_eq!(vm.memory()[RANDOM_REGISTER], (-3i32) as u8);
}

#[test]
fn random_number_from_empty_range_is_an_error() {
    let mut vm = VM::new();
    vm.load_program(vec![Instruction::RandomNum(5, 4)]);
    assert_eq!(vm.run_cycle(), Err(VmError::EmptyRange));
    assert!(vm.is_halted());
}

#[test]
fn given_draw_is_written_to_random_register() {
    let mut vm = VM::new();
    vm.load_program(vec![Instruction::RandomNum(0, 1000), Instruction::Load(RANDOM_REGISTER)]);
    vm.run_cycle_with(300).unwrap();
    vm.run_cycle_with(0).unwrap();
    assert_eq!(vm.stack(), &[44]);
}

#[test]
fn memory_mapped_registers() {
    let mut vm = VM::new();
    vm.set_input(INPUT_START);
    assert_eq!(vm.check_input(), INPUT_START);
    assert_eq!(vm.read_memory(INPUT_REGISTER), INPUT_START);
    vm.load_program(vec![Instruction::Sleep(0x1234), Instruction::Load(TIMER_REGISTER)]);
    vm.run_cycle().unwrap();
    vm.run_cycle().unwrap();
    assert_eq!(vm.stack(), &[0x34]);
    vm.write_memory(OUTPUT_REGISTER, b'H');
    vm.write_memory(OUTPUT_REGISTER, b'i');
    assert_eq!(vm.memory()[OUTPUT_REGISTER], 0);
    assert!(!vm.is_screen_dirty());
    assert_eq!(vm.take_output(), b"Hi".to_vec());
    assert!(vm.take_output().is_empty());
    vm.write_memory(0x10, 3);
    assert_eq!(vm.read_memory(0x10), 3);
    assert!(!vm.is_screen_dirty());
}

#[test]
fn every_vram_write_dirties_screen() {
    for addr in [VRAM_START, VRAM_START + 500, VRAM_START + VRAM_SIZE - 1] {
        let mut vm = VM::new();
        assert!(!vm.is_screen_dirty());
        vm.write_memory(addr, 0);
        assert!(vm.is_screen_dirty());
        vm.clear_screen_dirty();
        assert!(!vm.is_screen_dirty());
    }
    let mut vm = VM::new();
    vm.write_memory(VRAM_START + VRAM_SIZE, 1);
    assert!(!vm.is_screen_dirty());
}

#[test]
fn store_through_stack_and_clear_screen() {
    let mut vm = run(
        vec![
            Instruction::LoadImmediate(VRAM_START, 1),
            Instruction::LoadImmediate(VRAM_START + VRAM_SIZE - 1, 2),
            Instruction::LoadImmediate(VRAM_START + VRAM_SIZE, 3),
            Instruction::Push(0x1FF),
            Instruction::Store(0x20),
        ],
        5,
    );
    assert_eq!(vm.memory()[0x20], 0xFF);
    vm.clear_screen_dirty();
    vm.load_program(vec![Instruction::ClearScreen]);
    vm.run_cycle().unwrap();
    assert!(vm.memory()[VRAM_START..VRAM_START + VRAM_SIZE].iter().all(|&b| b == 0));
    assert_eq!(vm.memory()[VRAM_START + VRAM_SIZE], 3);
    assert!(vm.is_screen_dirty());
}

#[test]
fn timer_saturates_at_zero() {
    let mut vm = VM::new();
    vm.load_program(vec![Instruction::Sleep(10)]);
    vm.run_cycle().unwrap();
    vm.update_timer(4);
    assert_eq!(vm.timer(), 6);
    vm.update_timer(100);
    assert_eq!(vm.timer(), 0);
    vm.update_timer(1);
    assert_eq!(vm.timer(), 0);
    vm.vblank_interrupt();
    assert_eq!(vm.timer(), 0);
}

#[test]
fn new_machine_is_blank() {
    let vm = VM::new();
    assert_eq!(vm.memory().len(), MEMORY_SIZE);
    assert!(vm.memory().iter().all(|&b| b == 0));
    assert_eq!(vm.check_input(), INPUT_NONE);
    assert!(!vm.is_halted());
    assert_eq!(vm.timer(), 0);
}

#[test]
fn load_program_resets_pc_and_halt() {
    let mut vm = run(vec![Instruction::Halt], 1);
    assert!(vm.is_halted());
    vm.load_program(vec![Instruction::Push(2)]);
    assert!(!vm.is_halted());
    assert_eq!(vm.pc(), 0);
    vm.run_cycle().unwrap();
    assert_eq!(vm.stack(), &[2]);
}

#[test]
fn bios_is_copied_to_low_memory() {
    let mut vm = VM::new();
    vm.write_memory(5, 77);
    assert_eq!(vm.load_bios(&[1, 2, 3]), Ok(()));
    assert_eq!(&vm.memory()[..3], &[1, 2, 3]);
    assert_eq!(vm.memory()[5], 77);
    assert_eq!(vm.pc(), 0);
    assert_eq!(vm.load_bios(&vec![9u8; MEMORY_SIZE]), Ok(()));
    assert_eq!(vm.memory()[MEMORY_SIZE - 1], 9);
}

#[test]
fn oversized_bios_is_refused() {
    let mut vm = VM::new();
    assert_eq!(vm.load_bios(&vec![9u8; MEMORY_SIZE + 1]), Err(VmError::BiosTooLarge));
    assert!(vm.memory().iter().all(|&b| b == 0));
}

#[test]
fn keys_map_to_input_codes() {
    assert_eq!(keycode_to_vm_input(Key::Up), INPUT_UP);
    assert_eq!(keycode_to_vm_input(Key::Return), INPUT_START);
    assert_eq!(keycode_to_vm_input(Key::A), INPUT_A);
    assert_eq!(keycode_to_vm_input(Key::Other), INPUT_NONE);
}

#[test]
fn renderer_lays_out_a_grid() {
    let r = Renderer::new();
    let c = r.cell(41, 0);
    assert_eq!(c.base, CellRect { x: 20, y: 24, w: 20, h: 24 });
    assert_eq!(c.inner, None);
    let c = r.cell(999, 72);
    assert_eq!(c.base, CellRect { x: 780, y: 576, w: 20, h: 24 });
    assert_eq!(c.inner, Some(CellRect { x: 782, y: 578, w: 16, h: 20 }));
    let cells = r.layout(&[0, 5]);
    assert_eq!(cells.len(), 2);
    assert_eq!(cells[1].inner, Some(CellRect { x: 22, y: 2, w: 16, h: 20 }));
}
