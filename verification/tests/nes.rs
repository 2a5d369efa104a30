use nesemu::nes::cartridge::RomLoadError;
use nesemu::nes::Nes;

/// An image with one bank of program memory, which shows at $C000, and the
/// bytes of `patches` in it.
fn image(patches: &[(u16, &[u8])]) -> Vec<u8> {
    let mut raw = vec![0x4E, 0x45, 0x53, 0x1A, 0x01, 0x01, 0x00, 0x00];
    raw.extend_from_slice(&[0; 8]);
    let mut prg = vec![0x02u8; 0x4000];
    for (address, bytes) in patches {
        let offset = (*address as usize) - 0xC000;
        prg[offset..offset + bytes.len()].copy_from_slice(bytes);
    }
    raw.extend_from_slice(&prg);
    raw.extend((0..0x2000u32).map(|i| (i % 256) as u8));
    raw
}

fn expect(disassembly: &str, registers: &str) -> String {
    format!("{:<48}{}", disassembly, registers)
}

#[test]
fn a_console_comes_up_in_its_power_on_state() {
    let nes = Nes::new(&image(&[(0xC000, &[0xEA])])).unwrap();
    assert_eq!(nes.cpu.regs.pc, 0x0000);
    assert_eq!(nes.cpu.regs.sp, 0xFD);
    assert_eq!(nes.cpu.regs.status.bits(), 0x24);
    assert_eq!(nes.cpu.cycles, 7);
    assert_eq!(nes.cpu.bus.get_ppu_tick(), (0, 21));
    assert_eq!(nes.cpu.bus.peek_u8(0xC000), 0xEA);
    assert_eq!(nes.cpu.bus.peek_u8(0x8000), 0xEA);
    assert_eq!(nes.cpu.bus.peek_u8(0xC001), 0x02);
    assert_eq!(nes.cpu.bus.ppu.vram_byte(0x0005), 0x05);
    assert_eq!(nes.cpu.bus.rom.mapper, 0);
}

#[test]
fn a_bad_image_gives_no_console() {
    assert_eq!(Nes::new(&[]).err(), Some(RomLoadError::BadSignature));
    let mut raw = image(&[]);
    raw[7] = 0x0C;
    assert_eq!(Nes::new(&raw).err(), Some(RomLoadError::UnsupportedNes2));
    raw[7] = 0x10;
    assert_eq!(Nes::new(&raw).err(), Some(RomLoadError::UnsupportedMapper));
    raw[7] = 0x00;
    raw.truncate(1000);
    assert_eq!(Nes::new(&raw).err(), Some(RomLoadError::Truncated));
}

#[test]
fn run_traces_the_opening_of_the_processor_test() {
    let raw = image(&[
        (0xC000, &[0x4C, 0xF5, 0xC5]),
        (0xC5F5, &[0xA2, 0x00, 0x86, 0x00, 0x86, 0x10, 0x86, 0x11, 0x20, 0x2D, 0xC7]),
        (0xC72D, &[0xEA, 0x38, 0xB0, 0x04]),
        (0xC735, &[0xEA, 0x18, 0xB0, 0x03, 0x90, 0x0A]),
        (0xC745, &[0xEA]),
    ]);
    let mut nes = Nes::new(&raw).unwrap();
    let lines = nes.run(14);
    let expected = [
        expect("C000  4C F5 C5  JMP $C5F5", "A:00 X:00 Y:00 P:24 SP:FD PPU:  0, 21 CYC:7"),
        expect("C5F5  A2 00     LDX #$00", "A:00 X:00 Y:00 P:24 SP:FD PPU:  0, 30 CYC:10"),
        expect("C5F7  86 00     STX $00 = 00", "A:00 X:00 Y:00 P:26 SP:FD PPU:  0, 36 CYC:12"),
        expect("C5F9  86 10     STX $10 = 00", "A:00 X:00 Y:00 P:26 SP:FD PPU:  0, 45 CYC:15"),
        expect("C5FB  86 11     STX $11 = 00", "A:00 X:00 Y:00 P:26 SP:FD PPU:  0, 54 CYC:18"),
        expect("C5FD  20 2D C7  JSR $C72D", "A:00 X:00 Y:00 P:26 SP:FD PPU:  0, 63 CYC:21"),
        expect("C72D  EA        NOP", "A:00 X:00 Y:00 P:26 SP:FB PPU:  0, 81 CYC:27"),
        expect("C72E  38        SEC", "A:00 X:00 Y:00 P:26 SP:FB PPU:  0, 87 CYC:29"),
        expect("C72F  B0 04     BCS $C735", "A:00 X:00 Y:00 P:27 SP:FB PPU:  0, 93 CYC:31"),
        expect("C735  EA        NOP", "A:00 X:00 Y:00 P:27 SP:FB PPU:  0,102 CYC:34"),
        expect("C736  18        CLC", "A:00 X:00 Y:00 P:27 SP:FB PPU:  0,108 CYC:36"),
        expect("C737  B0 03     BCS $C73C", "A:00 X:00 Y:00 P:26 SP:FB PPU:  0,114 CYC:38"),
        expect("C739  90 0A     BCC $C745", "A:00 X:00 Y:00 P:26 SP:FB PPU:  0,120 CYC:40"),
        expect("C745  EA        NOP", "A:00 X:00 Y:00 P:26 SP:FB PPU:  0,129 CYC:43"),
    ];
    assert_eq!(lines.len(), expected.len());
    for (got, want) in lines.iter().zip(expected.iter()) {
        assert_eq!(got, want);
    }
    assert_eq!(nes.cpu.regs.pc, 0xC746);
    assert_eq!(nes.cpu.cycles, 45);
}

#[test]
fn run_stops_at_a_byte_that_is_no_opcode() {
    let raw = image(&[(0xC000, &[0xA9, 0x01, 0xAA, 0x02])]);
    let mut nes = Nes::new(&raw).unwrap();
    let lines = nes.run(100);
    assert_eq!(lines.len(), 2);
    assert_eq!(nes.cpu.regs.pc, 0xC003);
    assert_eq!(nes.cpu.regs.idx_x, 0x01);
    assert!(!nes.cpu.can_execute());
    assert_eq!(nes.cpu.cycles, 11);
}

#[test]
fn run_stops_before_a_register_that_cannot_be_read() {
    let raw = image(&[(0xC000, &[0xEA, 0xAD, 0x00, 0x20])]);
    let mut nes = Nes::new(&raw).unwrap();
    let lines = nes.run(100);
    assert_eq!(lines.len(), 1);
    assert_eq!(nes.cpu.regs.pc, 0xC001);
}

#[test]
fn run_takes_no_more_steps_than_asked() {
    let raw = image(&[(0xC000, &[0x4C, 0x00, 0xC0])]);
    let mut nes = Nes::new(&raw).unwrap();
    assert_eq!(nes.run(0).len(), 0);
    assert_eq!(nes.cpu.regs.pc, 0xC000);
    assert_eq!(nes.cpu.cycles, 7);
    let lines = nes.run(5);
    assert_eq!(lines.len(), 5);
    assert_eq!(nes.cpu.cycles, 7 + 15);
    assert_eq!(nes.cpu.regs.pc, 0xC000);
}

#[test]
fn the_same_console_gives_the_same_trace() {
    let raw = image(&[
        (0xC000, &[0xA2, 0x05, 0xCA, 0xD0, 0xFD, 0x20, 0x10, 0xC0, 0x4C, 0x00, 0xC0]),
        (0xC010, &[0xE6, 0x10, 0x60]),
    ]);
    let mut first = Nes::new(&raw).unwrap();
    let mut second = Nes::new(&raw).unwrap();
    let lines = first.run(500);
    assert_eq!(lines.len(), 500);
    assert_eq!(lines, second.run(500));
    assert_eq!(first.cpu.cycles, second.cpu.cycles);
    assert_eq!(first.cpu.regs, second.cpu.regs);
    let mut before = 0u64;
    for text in lines.iter() {
        let cycles: u64 = text.rsplit("CYC:").next().unwrap().parse().unwrap();
        assert!(cycles > before);
        before = cycles;
    }
}
