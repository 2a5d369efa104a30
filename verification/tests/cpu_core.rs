use nesemu::nes::bus::Bus;
use nesemu::nes::cartridge::Cartridge;
use nesemu::nes::cartridge::Mirroring;
use nesemu::nes::cpu::instructions::AddressingMode;
use nesemu::nes::cpu::instructions::Instruction;
use nesemu::nes::cpu::instructions::InstructionVariant;
use nesemu::nes::cpu::Cpu;
use nesemu::nes::cpu::Fault;
use nesemu::nes::ppu::Ppu;

fn machine(program: &[u8], at: u16) -> Cpu {
    let cartridge = Cartridge {
        prg_rom: vec![0; 0x4000],
        chr_rom: Vec::new(),
        mirroring: Mirroring::Horizontal,
        has_prg_ram: false,
        has_trainer: false,
        has_four_screen: false,
        mapper: 0,
    };
    let mut cpu = Cpu::new(Bus::new(cartridge, Ppu::new()));
    for (i, byte) in program.iter().enumerate() {
        cpu.bus.write_u8(at.wrapping_add(i as u16), *byte);
    }
    cpu.set_pc(at);
    cpu
}

fn step(cpu: &mut Cpu) -> String {
    assert!(cpu.can_execute());
    cpu.execute()
}

#[test]
fn power_on_state() {
    let cpu = machine(&[], 0x8000);
    assert_eq!(cpu.regs.sp, 0xFD);
    assert_eq!(cpu.regs.acc, 0);
    assert_eq!(cpu.regs.idx_x, 0);
    assert_eq!(cpu.regs.idx_y, 0);
    assert_eq!(cpu.regs.status.bits(), 0x24);
    assert_eq!(cpu.cycles, 7);
    assert_eq!(cpu.bus.get_ppu_tick(), (0, 21));
    assert_eq!(cpu.regs.pc, 0x8000);
}

#[test]
fn push_then_pop_returns_the_byte() {
    let mut cpu = machine(&[], 0x8000);
    for value in [0x00u8, 0x01, 0x7F, 0x80, 0xFF] {
        let sp = cpu.regs.sp;
        cpu.stack_push_u8(value);
        assert_eq!(cpu.regs.sp, sp.wrapping_sub(1));
        assert_eq!(cpu.stack_pop_u8(), value);
        assert_eq!(cpu.regs.sp, sp);
    }
}

#[test]
fn the_stack_lives_in_page_one() {
    let mut cpu = machine(&[], 0x8000);
    cpu.stack_push_u8(0xAB);
    assert_eq!(cpu.bus.peek_u8(0x01FD), 0xAB);
    assert_eq!(cpu.regs.sp, 0xFC);
    cpu.stack_push_u8(0xCD);
    assert_eq!(cpu.bus.peek_u8(0x01FC), 0xCD);
    assert_eq!(cpu.regs.sp, 0xFB);
}

#[test]
fn the_stack_pointer_wraps_inside_page_one() {
    let mut cpu = machine(&[], 0x8000);
    cpu.regs.sp = 0x00;
    cpu.stack_push_u8(0x11);
    assert_eq!(cpu.regs.sp, 0xFF);
    assert_eq!(cpu.bus.peek_u8(0x0100), 0x11);
    cpu.stack_push_u8(0x22);
    assert_eq!(cpu.bus.peek_u8(0x01FF), 0x22);
    assert_eq!(cpu.bus.peek_u8(0x0200), 0x00);
    assert_eq!(cpu.stack_pop_u8(), 0x22);
    assert_eq!(cpu.stack_pop_u8(), 0x11);
    assert_eq!(cpu.regs.sp, 0x00);
}

#[test]
fn words_are_pushed_high_byte_first() {
    let mut cpu = machine(&[], 0x8000);
    cpu.stack_push_u16(0x1234);
    assert_eq!(cpu.regs.sp, 0xFB);
    assert_eq!(cpu.bus.peek_u8(0x01FD), 0x12);
    assert_eq!(cpu.bus.peek_u8(0x01FC), 0x34);
    assert_eq!(cpu.stack_pop_u16(), 0x1234);
    assert_eq!(cpu.regs.sp, 0xFD);
    for value in [0x0000u16, 0x00FF, 0xFF00, 0xFFFF, 0xC5F5] {
        cpu.stack_push_u16(value);
        assert_eq!(cpu.stack_pop_u16(), value);
    }
}

#[test]
fn modes_without_an_address() {
    let cpu = machine(&[0x10, 0x20], 0x8000);
    assert_eq!(cpu.resolve_adressing(AddressingMode::Implied), (0xFFFF, false));
    assert_eq!(cpu.resolve_adressing(AddressingMode::Accumulator), (0xFFFF, false));
    assert_eq!(cpu.resolve_adressing(AddressingMode::Immediate), (0x8000, false));
    assert_eq!(cpu.resolve_adressing(AddressingMode::Relative), (0x8000, false));
}

#[test]
fn zero_page_modes() {
    let mut cpu = machine(&[0xFF], 0x8000);
    cpu.regs.idx_x = 0x01;
    cpu.regs.idx_y = 0x02;
    assert_eq!(cpu.resolve_adressing(AddressingMode::ZeroPage), (0x00FF, false));
    // Indexing wraps inside page zero.
    assert_eq!(cpu.resolve_adressing(AddressingMode::ZeroPageX), (0x0000, false));
    assert_eq!(cpu.resolve_adressing(AddressingMode::ZeroPageY), (0x0001, false));
    let mut cpu = machine(&[0x10], 0x8000);
    cpu.regs.idx_x = 0x05;
    cpu.regs.idx_y = 0xEF;
    assert_eq!(cpu.resolve_adressing(AddressingMode::ZeroPageX), (0x0015, false));
    assert_eq!(cpu.resolve_adressing(AddressingMode::ZeroPageY), (0x00FF, false));
}

#[test]
fn absolute_modes_and_their_page_crossings() {
    let mut cpu = machine(&[0xF0, 0x12], 0x8000);
    cpu.regs.idx_x = 0x0F;
    cpu.regs.idx_y = 0x10;
    assert_eq!(cpu.resolve_adressing(AddressingMode::Absolute), (0x12F0, false));
    assert_eq!(cpu.resolve_adressing(AddressingMode::AbsoluteX), (0x12FF, false));
    assert_eq!(cpu.resolve_adressing(AddressingMode::AbsoluteY), (0x1300, true));
    let mut cpu = machine(&[0xFF, 0xFF], 0x8000);
    cpu.regs.idx_x = 0x02;
    // The sum wraps at sixteen bits.
    assert_eq!(cpu.resolve_adressing(AddressingMode::AbsoluteX), (0x0001, true));
    assert_eq!(cpu.resolve_adressing(AddressingMode::AbsoluteY), (0xFFFF, false));
}

#[test]
fn indexed_indirect_mode() {
    let mut cpu = machine(&[0x20], 0x8000);
    cpu.regs.idx_x = 0x04;
    cpu.bus.write_u8(0x0024, 0x74);
    cpu.bus.write_u8(0x0025, 0x20);
    assert_eq!(cpu.resolve_adressing(AddressingMode::IndirectX), (0x2074, false));
    // The pointer wraps inside page zero, and so does the fetch of its high byte.
    let mut cpu = machine(&[0xFE], 0x8000);
    cpu.regs.idx_x = 0x01;
    cpu.bus.write_u8(0x00FF, 0x34);
    cpu.bus.write_u8(0x0000, 0x12);
    cpu.bus.write_u8(0x0100, 0x99);
    assert_eq!(cpu.resolve_adressing(AddressingMode::IndirectX), (0x1234, false));
    cpu.regs.idx_x = 0x03;
    cpu.bus.write_u8(0x0001, 0x56);
    cpu.bus.write_u8(0x0002, 0x78);
    assert_eq!(cpu.resolve_adressing(AddressingMode::IndirectX), (0x7856, false));
}

#[test]
fn indirect_indexed_mode() {
    let mut cpu = machine(&[0x86], 0x8000);
    cpu.regs.idx_y = 0x10;
    cpu.bus.write_u8(0x0086, 0x28);
    cpu.bus.write_u8(0x0087, 0x40);
    assert_eq!(cpu.resolve_adressing(AddressingMode::IndirectY), (0x4038, false));
    cpu.regs.idx_y = 0xD8;
    assert_eq!(cpu.resolve_adressing(AddressingMode::IndirectY), (0x4100, true));
    // The pointer at $FF takes its high byte from $00.
    let mut cpu = machine(&[0xFF], 0x8000);
    cpu.regs.idx_y = 0x01;
    cpu.bus.write_u8(0x00FF, 0xFF);
    cpu.bus.write_u8(0x0000, 0x02);
    cpu.bus.write_u8(0x0100, 0x77);
    assert_eq!(cpu.resolve_adressing(AddressingMode::IndirectY), (0x0300, true));
}

#[test]
fn indirect_mode_and_its_page_boundary() {
    let mut cpu = machine(&[0x20, 0x01], 0x8000);
    cpu.bus.write_u8(0x0120, 0xFC);
    cpu.bus.write_u8(0x0121, 0xBA);
    assert_eq!(cpu.resolve_adressing(AddressingMode::Indirect), (0xBAFC, false));
    let mut cpu = machine(&[0xFF, 0x02], 0x8000);
    cpu.bus.write_u8(0x02FF, 0x80);
    cpu.bus.write_u8(0x0200, 0x50);
    cpu.bus.write_u8(0x0300, 0x60);
    assert_eq!(cpu.resolve_adressing(AddressingMode::Indirect), (0x5080, false));
}

#[test]
fn resolving_at_another_place() {
    let mut cpu = machine(&[0xEA, 0x34, 0x12], 0x8000);
    cpu.regs.idx_x = 1;
    assert_eq!(cpu.resolve_at(0x8001, AddressingMode::Absolute), (0x1234, false));
    assert_eq!(cpu.resolve_at(0x8001, AddressingMode::AbsoluteX), (0x1235, false));
    assert_eq!(cpu.resolve_at(0x8001, AddressingMode::Immediate), (0x8001, false));
    assert_eq!(cpu.regs.pc, 0x8000);
}

#[test]
fn page_crossings() {
    assert!(!Cpu::is_page_cross(0x1200, 0x12FF));
    assert!(Cpu::is_page_cross(0x12FF, 0x1300));
    assert!(Cpu::is_page_cross(0x0000, 0xFFFF));
    assert!(!Cpu::is_page_cross(0x80F2, 0x80F2));
}

#[test]
fn tick_moves_counter_and_beam() {
    let mut cpu = machine(&[], 0x8000);
    cpu.tick(3);
    assert_eq!(cpu.cycles, 10);
    assert_eq!(cpu.bus.get_ppu_tick(), (0, 30));
    cpu.tick(0);
    assert_eq!(cpu.cycles, 10);
    cpu.tick(255);
    assert_eq!(cpu.cycles, 265);
    // 30 + 765 = 795 = 2 * 341 + 113.
    assert_eq!(cpu.bus.get_ppu_tick(), (2, 113));
}

#[test]
fn store_starts_a_sprite_transfer_at_4014() {
    let mut cpu = machine(&[], 0x8000);
    for i in 0..=255u16 {
        cpu.bus.write_u8(0x0200 + i, i as u8);
    }
    cpu.store(0x0010, 0x55);
    assert_eq!(cpu.cycles, 7);
    assert_eq!(cpu.bus.peek_u8(0x0010), 0x55);
    cpu.store(0x4014, 0x02);
    assert_eq!(cpu.cycles, 7 + 513);
    for i in 0..=255u8 {
        assert_eq!(cpu.bus.ppu.oam_byte(i), i);
    }
    // 21 + 3 * 513 = 1560 = 4 * 341 + 196.
    assert_eq!(cpu.bus.get_ppu_tick(), (4, 196));
}

#[test]
fn sta_to_4014_costs_the_transfer() {
    let mut cpu = machine(&[0xA9, 0x02, 0x8D, 0x14, 0x40], 0x8000);
    cpu.bus.write_u8(0x0203, 0x99);
    step(&mut cpu);
    step(&mut cpu);
    assert_eq!(cpu.cycles, 7 + 2 + 4 + 513);
    assert_eq!(cpu.bus.ppu.oam_byte(3), 0x99);
    assert_eq!(cpu.regs.pc, 0x8005);
}

#[test]
fn execute_moves_past_the_instruction() {
    let mut cpu = machine(&[0xEA, 0xA9, 0x10, 0xAD, 0x00, 0x02], 0x8000);
    step(&mut cpu);
    assert_eq!(cpu.regs.pc, 0x8001);
    assert_eq!(cpu.cycles, 9);
    step(&mut cpu);
    assert_eq!(cpu.regs.pc, 0x8003);
    assert_eq!(cpu.cycles, 11);
    assert_eq!(cpu.regs.acc, 0x10);
    step(&mut cpu);
    assert_eq!(cpu.regs.pc, 0x8006);
    assert_eq!(cpu.cycles, 15);
    assert_eq!(cpu.regs.acc, 0x00);
    assert_eq!(cpu.bus.get_ppu_tick(), (0, 45));
}

#[test]
fn the_program_counter_wraps() {
    let mut cpu = machine(&[0xEA], 0xFFFF);
    step(&mut cpu);
    assert_eq!(cpu.regs.pc, 0x0000);
    let mut cpu = machine(&[0xA9, 0x33], 0xFFFF);
    cpu.bus.write_u8(0x0000, 0x33);
    step(&mut cpu);
    assert_eq!(cpu.regs.acc, 0x33);
    assert_eq!(cpu.regs.pc, 0x0001);
}

#[test]
fn the_cycle_counter_never_goes_back() {
    let program = [
        0xA2, 0x05, // LDX #5
        0xCA, // DEX
        0xD0, 0xFD, // BNE -3
        0x20, 0x10, 0x80, // JSR $8010
        0x4C, 0x00, 0x80, // JMP $8000
    ];
    let mut cpu = machine(&program, 0x8000);
    cpu.bus.write_u8(0x8010, 0x60);
    let mut before = cpu.cycles;
    for _ in 0..200 {
        step(&mut cpu);
        assert!(cpu.cycles >= before + 2);
        before = cpu.cycles;
        assert!(cpu.bus.get_ppu_tick().0 <= 261);
        assert!(cpu.bus.get_ppu_tick().1 <= 340);
    }
}

#[test]
fn unknown_opcodes_cannot_be_executed() {
    for opcode in [0x02u8, 0x12, 0x8B, 0xF2] {
        let cpu = machine(&[opcode], 0x8000);
        assert!(!cpu.can_execute());
    }
    let cpu = machine(&[0xEA], 0x8000);
    assert!(cpu.can_execute());
}

#[test]
fn registers_that_cannot_be_read_stop_execution() {
    // LDA $2000 reads the control register, which is write-only.
    assert!(!machine(&[0xAD, 0x00, 0x20], 0x8000).can_execute());
    // LDA $2002 reads the status register.
    assert!(machine(&[0xAD, 0x02, 0x20], 0x8000).can_execute());
    // LDA $4014 reads the transfer register.
    assert!(!machine(&[0xAD, 0x14, 0x40], 0x8000).can_execute());
    // STA $2002 writes the status register, which is read-only.
    assert!(!machine(&[0x8D, 0x02, 0x20], 0x8000).can_execute());
    // STA $2000 writes the control register.
    assert!(machine(&[0x8D, 0x00, 0x20], 0x8000).can_execute());
    // INC $2007 reads and writes the data register; INC $2006 cannot read.
    assert!(machine(&[0xEE, 0x07, 0x20], 0x8000).can_execute());
    assert!(!machine(&[0xEE, 0x06, 0x20], 0x8000).can_execute());
    // INC $2002 can read but not write.
    assert!(!machine(&[0xEE, 0x02, 0x20], 0x8000).can_execute());
    // ASL A touches no memory.
    assert!(machine(&[0x0A], 0x8000).can_execute());
    // An indexed store that lands on the status register: $1FFF + 3 = $2002.
    let mut cpu = machine(&[0x9D, 0xFF, 0x1F], 0x8000);
    cpu.regs.idx_x = 3;
    assert!(!cpu.can_execute());
    cpu.regs.idx_x = 4;
    assert!(cpu.can_execute());
    // JMP and NOP make no access to their effective address.
    assert!(machine(&[0x4C, 0x00, 0x20], 0x8000).can_execute());
    assert!(machine(&[0x0C, 0x00, 0x20], 0x8000).can_execute());
}

#[test]
fn a_full_cycle_counter_stops_execution() {
    let mut cpu = machine(&[0xEA], 0x8000);
    cpu.cycles = Cpu::CYCLE_LIMIT;
    assert!(cpu.can_execute());
    cpu.cycles = Cpu::CYCLE_LIMIT + 1;
    assert!(!cpu.can_execute());
    cpu.cycles = u64::MAX;
    assert!(!cpu.can_execute());
}

#[test]
fn can_execute_changes_nothing() {
    let mut cpu = machine(&[0xAD, 0x07, 0x20], 0x8000);
    cpu.bus.read_u8(0x2002);
    cpu.bus.write_u8(0x2006, 0x20);
    cpu.bus.write_u8(0x2006, 0x00);
    cpu.bus.write_u8(0x2007, 0x42);
    cpu.bus.read_u8(0x2002);
    cpu.bus.write_u8(0x2006, 0x20);
    cpu.bus.write_u8(0x2006, 0x00);
    assert!(cpu.can_execute());
    assert!(cpu.can_execute());
    // The first read of the data register returns the stale latch.
    step(&mut cpu);
    assert_eq!(cpu.regs.acc, 0x00);
    cpu.set_pc(0x8000);
    step(&mut cpu);
    assert_eq!(cpu.regs.acc, 0x42);
}

#[test]
fn emulate_runs_a_given_instruction() {
    let mut cpu = machine(&[0x00, 0x44], 0x8000);
    let lda = Instruction {
        variant: InstructionVariant::LDA,
        mode: AddressingMode::Immediate,
        length: 2,
        cycles: 2,
    };
    cpu.emulate(&lda);
    assert_eq!(cpu.regs.acc, 0x44);
    assert_eq!(cpu.regs.pc, 0x8002);
    assert_eq!(cpu.cycles, 9);
}

#[test]
fn set_pc_sets_the_program_counter() {
    let mut cpu = machine(&[], 0x8000);
    cpu.set_pc(0xC000);
    assert_eq!(cpu.regs.pc, 0xC000);
    assert_eq!(cpu.regs.sp, 0xFD);
}

#[test]
fn faults_name_what_stops_the_machine() {
    let cpu = machine(&[0xEA], 0x8000);
    assert_eq!(cpu.fault(), None);

    let cpu = machine(&[0x02], 0x8123);
    assert_eq!(cpu.fault(), Some(Fault::UnknownOpcode { opcode: 0x02, pc: 0x8123 }));
    assert_eq!(cpu.fault().unwrap().message(), "Unknown opcode 02 at 8123");

    let cpu = machine(&[0xAD, 0x00, 0x20], 0x8000);
    assert_eq!(cpu.fault(), Some(Fault::InvalidRegisterAccess { address: 0x2000, pc: 0x8000 }));
    assert_eq!(cpu.fault().unwrap().message(), "Invalid access to register 2000 at 8000");

    let mut cpu = machine(&[0x9D, 0xFF, 0x1F], 0xC0DE);
    cpu.regs.idx_x = 3;
    assert_eq!(cpu.fault(), Some(Fault::InvalidRegisterAccess { address: 0x2002, pc: 0xC0DE }));

    let mut cpu = machine(&[0xEA], 0x8000);
    cpu.cycles = Cpu::CYCLE_LIMIT + 1;
    assert_eq!(cpu.fault(), Some(Fault::CycleCounterFull { pc: 0x8000 }));
    assert_eq!(cpu.fault().unwrap().message(), "Cycle counter is full at 8000");

    // The unknown opcode is reported before the full counter.
    let mut cpu = machine(&[0x02], 0x8000);
    cpu.cycles = u64::MAX;
    assert_eq!(cpu.fault(), Some(Fault::UnknownOpcode { opcode: 0x02, pc: 0x8000 }));
}

#[test]
fn fault_and_can_execute_agree() {
    for opcode in 0..=255u8 {
        for operand in [0x00u8, 0x02, 0x14] {
            for high in [0x02u8, 0x20, 0x40] {
                let cpu = machine(&[opcode, operand, high], 0x8000);
                assert_eq!(cpu.fault().is_none(), cpu.can_execute());
            }
        }
    }
}
