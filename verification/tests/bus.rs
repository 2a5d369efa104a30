use nesemu::nes::bus::to_signed;
use nesemu::nes::bus::Bus;
use nesemu::nes::cartridge::Cartridge;
use nesemu::nes::cartridge::Mirroring;
use nesemu::nes::ppu::Ppu;

fn cartridge(prg_rom: Vec<u8>, chr_rom: Vec<u8>) -> Cartridge {
    Cartridge {
        prg_rom,
        chr_rom,
        mirroring: Mirroring::Horizontal,
        has_prg_ram: false,
        has_trainer: false,
        has_four_screen: false,
        mapper: 0,
    }
}

fn bus_with(prg_rom: Vec<u8>) -> Bus {
    Bus::new(cartridge(prg_rom, Vec::new()), Ppu::new())
}

fn one_bank() -> Vec<u8> {
    (0..0x4000u32).map(|i| (i % 253) as u8).collect()
}

#[test]
fn internal_memory_repeats_every_2_kib() {
    let mut bus = bus_with(one_bank());
    bus.write_u8(0x0001, 0xAA);
    assert_eq!(bus.read_u8(0x0001), 0xAA);
    assert_eq!(bus.read_u8(0x0801), 0xAA);
    assert_eq!(bus.read_u8(0x1001), 0xAA);
    assert_eq!(bus.read_u8(0x1801), 0xAA);
    bus.write_u8(0x1FFF, 0xBB);
    assert_eq!(bus.read_u8(0x07FF), 0xBB);
    assert_eq!(bus.peek_u8(0x0FFF), 0xBB);
    assert_eq!(bus.read_u8(0x0000), 0x00);
}

#[test]
fn a_single_program_bank_shows_in_both_halves() {
    let mut bus = bus_with(one_bank());
    assert_eq!(bus.read_u8(0x8000), 0);
    assert_eq!(bus.read_u8(0x8005), 5);
    assert_eq!(bus.read_u8(0xC005), 5);
    assert_eq!(bus.read_u8(0xBFFF), (0x3FFF % 253) as u8);
    assert_eq!(bus.read_u8(0xFFFF), (0x3FFF % 253) as u8);
    assert_eq!(bus.read_u8(0x7FFF), 0);
}

#[test]
fn two_program_banks_follow_each_other() {
    let prg: Vec<u8> = (0..0x8000u32).map(|i| if i < 0x4000 { 0x11 } else { 0x22 }).collect();
    let mut bus = bus_with(prg);
    assert_eq!(bus.read_u8(0x8000), 0x11);
    assert_eq!(bus.read_u8(0xBFFF), 0x11);
    assert_eq!(bus.read_u8(0xC000), 0x22);
    assert_eq!(bus.read_u8(0xFFFF), 0x22);
}

#[test]
fn odd_amounts_of_program_memory() {
    let mut empty = bus_with(Vec::new());
    assert_eq!(empty.read_u8(0x8000), 0);
    assert_eq!(empty.read_u8(0xFFFF), 0);

    let mut short = bus_with(vec![0x5A; 0x10]);
    assert_eq!(short.read_u8(0x800F), 0x5A);
    assert_eq!(short.read_u8(0x8010), 0x00);
    assert_eq!(short.read_u8(0xC00F), 0x5A);
    assert_eq!(short.read_u8(0xC010), 0x00);

    let three: Vec<u8> = (0..0xC000u32).map(|i| (i / 0x4000) as u8 + 1).collect();
    let mut long = bus_with(three);
    assert_eq!(long.read_u8(0x8000), 1);
    assert_eq!(long.read_u8(0xC000), 2);
    assert_eq!(long.read_u8(0xFFFF), 2);
}

#[test]
fn character_memory_goes_to_the_pattern_tables() {
    let chr: Vec<u8> = (0..0x2000u32).map(|i| (i % 7) as u8 + 1).collect();
    let bus = Bus::new(cartridge(one_bank(), chr), Ppu::new());
    assert_eq!(bus.ppu.vram_byte(0), 1);
    assert_eq!(bus.ppu.vram_byte(6), 7);
    assert_eq!(bus.ppu.vram_byte(7), 1);
    assert_eq!(bus.rom.prg_rom.len(), 0x4000);
    assert_eq!(bus.rom.chr_rom.len(), 0x2000);
}

#[test]
fn cartridge_space_is_plain_memory() {
    let mut bus = bus_with(one_bank());
    bus.write_u8(0x6000, 0x12);
    assert_eq!(bus.read_u8(0x6000), 0x12);
    bus.write_u8(0x4020, 0x34);
    assert_eq!(bus.read_u8(0x4020), 0x34);
    bus.write_u8(0x8000, 0x56);
    assert_eq!(bus.read_u8(0x8000), 0x56);
    assert_eq!(bus.read_u8(0xC000), 0x00);
}

#[test]
fn sound_and_input_registers_read_zero_and_drop_writes() {
    let mut bus = bus_with(one_bank());
    for address in [0x4000u16, 0x4013, 0x4015, 0x4016, 0x4017, 0x4018, 0x401F] {
        assert!(Bus::is_readable(address));
        assert!(Bus::is_writable(address));
        bus.write_u8(address, 0xFF);
        assert_eq!(bus.read_u8(address), 0x00);
        assert_eq!(bus.peek_u8(address), 0x00);
    }
}

#[test]
fn which_registers_can_be_read_and_written() {
    for base in [0x2000u16, 0x2008, 0x3FF8] {
        assert!(!Bus::is_readable(base));
        assert!(!Bus::is_readable(base + 1));
        assert!(Bus::is_readable(base + 2));
        assert!(!Bus::is_readable(base + 3));
        assert!(Bus::is_readable(base + 4));
        assert!(!Bus::is_readable(base + 5));
        assert!(!Bus::is_readable(base + 6));
        assert!(Bus::is_readable(base + 7));
        for idx in 0..8u16 {
            assert_eq!(Bus::is_writable(base + idx), idx != 2);
        }
    }
    assert!(!Bus::is_readable(0x4014));
    assert!(Bus::is_writable(0x4014));
    assert!(Bus::is_readable(0x0000));
    assert!(Bus::is_readable(0x1FFF));
    assert!(Bus::is_readable(0x4020));
    assert!(Bus::is_readable(0xFFFF));
    assert!(Bus::is_writable(0xFFFF));
}

#[test]
fn picture_registers_repeat_every_8_bytes() {
    let mut bus = bus_with(one_bank());
    // Sprite address through a mirror of $2003, sprite data through one of $2004.
    bus.write_u8(0x3FFB, 0x05);
    bus.write_u8(0x200C, 0x77);
    assert_eq!(bus.ppu.oam_byte(0x05), 0x77);
    bus.write_u8(0x2003, 0x05);
    assert_eq!(bus.read_u8(0x2004), 0x77);
    assert_eq!(bus.read_u8(0x3FFC), 0x77);
    assert_eq!(bus.peek_u8(0x2FFC), 0x77);
}

#[test]
fn video_memory_through_the_data_register() {
    let mut bus = bus_with(one_bank());
    bus.read_u8(0x2002);
    bus.write_u8(0x2006, 0x23);
    bus.write_u8(0x2006, 0x45);
    bus.write_u8(0x2007, 0x9A);
    bus.write_u8(0x2007, 0x9B);
    assert_eq!(bus.ppu.vram_byte(0x2345), 0x9A);
    assert_eq!(bus.ppu.vram_byte(0x2346), 0x9B);

    bus.read_u8(0x2002);
    bus.write_u8(0x2006, 0x23);
    bus.write_u8(0x2006, 0x45);
    assert_eq!(bus.read_u8(0x2007), 0x00);
    assert_eq!(bus.read_u8(0x2007), 0x9A);
    assert_eq!(bus.read_u8(0x2007), 0x9B);
}

#[test]
fn peek_leaves_the_bus_as_it_is() {
    let mut bus = bus_with(one_bank());
    bus.read_u8(0x2002);
    bus.write_u8(0x2006, 0x20);
    bus.write_u8(0x2006, 0x00);
    bus.write_u8(0x2007, 0x42);
    bus.read_u8(0x2002);
    bus.write_u8(0x2006, 0x20);
    bus.write_u8(0x2006, 0x00);
    assert_eq!(bus.read_u8(0x2007), 0x00);
    // The latch holds 0x42 now; peeking shows it again and again.
    assert_eq!(bus.peek_u8(0x2007), 0x42);
    assert_eq!(bus.peek_u8(0x2007), 0x42);
    assert_eq!(bus.read_u8(0x2007), 0x42);
    // Registers that cannot be read show 0 to an observer.
    assert_eq!(bus.peek_u8(0x2000), 0x00);
    assert_eq!(bus.peek_u8(0x2006), 0x00);
    assert_eq!(bus.peek_u8(0x4014), 0x00);
}

#[test]
fn control_and_mask_writes_reach_the_picture_processor() {
    let mut bus = bus_with(one_bank());
    bus.write_u8(0x2000, 0b0000_0100);
    bus.write_u8(0x2001, 0b0001_1000);
    bus.read_u8(0x2002);
    bus.write_u8(0x2006, 0x20);
    bus.write_u8(0x2006, 0x00);
    bus.write_u8(0x2007, 0x01);
    bus.write_u8(0x2007, 0x02);
    assert_eq!(bus.ppu.vram_byte(0x2000), 0x01);
    assert_eq!(bus.ppu.vram_byte(0x2020), 0x02);
}

#[test]
fn sprite_transfer_copies_a_page_in_order() {
    let mut bus = bus_with(one_bank());
    for i in 0..=255u16 {
        bus.write_u8(0x0200 + i, i as u8);
    }
    bus.write_u8(0x2003, 0x00);
    bus.write_u8(0x4014, 0x02);
    for i in 0..=255u8 {
        assert_eq!(bus.ppu.oam_byte(i), i);
    }
}

#[test]
fn sprite_transfer_reads_through_the_memory_map() {
    let mut bus = bus_with(one_bank());
    for i in 0..=255u16 {
        bus.write_u8(0x0300 + i, (i as u8) ^ 0x5A);
    }
    // Page $0B is a mirror of page $03.
    bus.write_u8(0x2003, 0x80);
    bus.write_u8(0x4014, 0x0B);
    for i in 0..=255u8 {
        assert_eq!(bus.ppu.oam_byte(i.wrapping_add(0x80)), i ^ 0x5A);
    }
    // Program memory can be the source too.
    bus.write_u8(0x2003, 0x00);
    bus.write_u8(0x4014, 0x80);
    for i in 0..=255u8 {
        assert_eq!(bus.ppu.oam_byte(i), (i as u32 % 253) as u8);
    }
}

#[test]
fn words_are_little_endian() {
    let mut bus = bus_with(one_bank());
    bus.write_u8(0x0010, 0x34);
    bus.write_u8(0x0011, 0x12);
    assert_eq!(bus.read_u16(0x0010), 0x1234);
    assert_eq!(bus.peek_u16(0x0010), 0x1234);
    assert_eq!(bus.peek_u16(0x0810), 0x1234);
    // The word at the last address takes its high byte from address 0.
    bus.write_u8(0xFFFF, 0xCD);
    bus.write_u8(0x0000, 0xAB);
    assert_eq!(bus.read_u16(0xFFFF), 0xABCD);
    assert_eq!(bus.peek_u16(0xFFFF), 0xABCD);
}

#[test]
fn signed_reads() {
    let mut bus = bus_with(one_bank());
    bus.write_u8(0x0000, 0x7F);
    bus.write_u8(0x0001, 0x80);
    bus.write_u8(0x0002, 0xFF);
    bus.write_u8(0x0003, 0x20);
    assert_eq!(bus.read_i8(0x0000), 127);
    assert_eq!(bus.read_i8(0x0001), -128);
    assert_eq!(bus.read_i8(0x0002), -1);
    assert_eq!(bus.read_i8(0x0003), 32);
    assert_eq!(to_signed(0x00), 0);
    assert_eq!(to_signed(0xFE), -2);
}

#[test]
fn beam_position_through_the_bus() {
    let mut bus = bus_with(one_bank());
    assert_eq!(bus.get_ppu_tick(), (0, 21));
    bus.ppu_tick(9);
    assert_eq!(bus.get_ppu_tick(), (0, 30));
    for _ in 0..2 {
        bus.ppu_tick(200);
    }
    assert_eq!(bus.get_ppu_tick(), (1, 89));
}

#[test]
fn register_handlers_by_index() {
    let mut bus = bus_with(one_bank());
    bus.handle_ppu_write(3, 0x10);
    bus.handle_ppu_write(4, 0xEE);
    bus.handle_ppu_write(3, 0x10);
    assert_eq!(bus.handle_ppu_read(4), 0xEE);
    assert_eq!(bus.handle_ppu_read(2), 0x00);
    bus.handle_ppu_write(6, 0x21);
    bus.handle_ppu_write(6, 0x00);
    bus.handle_ppu_write(7, 0x3C);
    assert_eq!(bus.ppu.vram_byte(0x2100), 0x3C);
    bus.handle_ppu_write(5, 0x01);
    bus.handle_ppu_write(5, 0x02);
    bus.handle_ppu_write(6, 0x21);
    bus.handle_ppu_write(6, 0x00);
    assert_eq!(bus.handle_ppu_read(7), 0x00);
    assert_eq!(bus.handle_ppu_read(7), 0x3C);
    bus.handle_oam_dma(0x00);
    assert_eq!(bus.ppu.oam_byte(0x10), 0x00);
}
