use nesemu::nes::ppu::addr_reg::AddressRegister;
use nesemu::nes::ppu::addr_reg::AddressState;
use nesemu::nes::ppu::ctrl_reg::ControlRegister;
use nesemu::nes::ppu::ctrl_reg::PpuSelect;
use nesemu::nes::ppu::ctrl_reg::SpriteSize;
use nesemu::nes::ppu::ctrl_reg::VramIncrement;
use nesemu::nes::ppu::mask_reg::MaskRegister;
use nesemu::nes::ppu::Ppu;

fn point_at(ppu: &mut Ppu, addr: u16) {
    ppu.status();
    ppu.addr((addr >> 8) as u8);
    ppu.addr(addr as u8);
}

#[test]
fn beam_starts_on_dot_21_of_scanline_0() {
    let ppu = Ppu::new();
    assert_eq!(ppu.get_scanlines(), 0);
    assert_eq!(ppu.get_cycles(), 21);
}

#[test]
fn tick_moves_the_dot() {
    let mut ppu = Ppu::new();
    ppu.tick(9);
    assert_eq!((ppu.get_scanlines(), ppu.get_cycles()), (0, 30));
    ppu.tick(0);
    assert_eq!((ppu.get_scanlines(), ppu.get_cycles()), (0, 30));
    ppu.tick(255);
    assert_eq!((ppu.get_scanlines(), ppu.get_cycles()), (0, 285));
}

#[test]
fn dot_wraps_at_341_into_the_next_scanline() {
    let mut ppu = Ppu::new();
    ppu.tick(255);
    ppu.tick(64);
    assert_eq!((ppu.get_scanlines(), ppu.get_cycles()), (0, 340));
    ppu.tick(1);
    assert_eq!((ppu.get_scanlines(), ppu.get_cycles()), (1, 0));
    ppu.tick(255);
    ppu.tick(255);
    assert_eq!((ppu.get_scanlines(), ppu.get_cycles()), (2, 169));
}

#[test]
fn scanline_wraps_at_262() {
    let mut ppu = Ppu::new();
    // 261 scanlines of 341 dots, from dot 21 to dot 21.
    for _ in 0..261 {
        ppu.tick(200);
        ppu.tick(141);
    }
    assert_eq!((ppu.get_scanlines(), ppu.get_cycles()), (261, 21));
    ppu.tick(255);
    ppu.tick(64);
    assert_eq!((ppu.get_scanlines(), ppu.get_cycles()), (261, 340));
    ppu.tick(3);
    assert_eq!((ppu.get_scanlines(), ppu.get_cycles()), (0, 2));
}

#[test]
fn beam_stays_in_the_frame() {
    let mut ppu = Ppu::new();
    for step in 0..20000u32 {
        ppu.tick((step % 256) as u8);
        assert!(ppu.get_cycles() <= 340);
        assert!(ppu.get_scanlines() <= 261);
    }
}

#[test]
fn address_is_written_high_byte_first() {
    let mut reg = AddressRegister::default();
    reg.write_byte(0x21);
    reg.write_byte(0x08);
    assert_eq!(reg.get(), 0x2108);
    reg.write_byte(0x3F);
    assert_eq!(reg.get(), 0x3F08);
    reg.write_byte(0x10);
    assert_eq!(reg.get(), 0x3F10);
}

#[test]
fn address_round_trip_for_every_byte_pair() {
    for high in 0..=255u8 {
        for low in [0u8, 1, 0x7F, 0x80, 0xFF] {
            let mut reg = AddressRegister::default();
            reg.write_byte(high);
            reg.write_byte(low);
            assert_eq!(reg.get(), ((high as u16) << 8) | low as u16);
            assert!(reg.is_waiting_for_upper());
        }
    }
}

#[test]
fn address_latch_flips_and_resets() {
    let mut reg = AddressRegister::default();
    assert_eq!(reg.state, AddressState::WaitingForUpperByte);
    assert!(reg.is_waiting_for_upper());
    reg.write_byte(0x12);
    assert_eq!(reg.state, AddressState::WaitingForLowerByte);
    reg.reset_latch();
    assert!(reg.is_waiting_for_upper());
    assert_eq!(reg.get(), 0x1200);
    reg.flip_latch();
    assert!(!reg.is_waiting_for_upper());
    reg.flip_latch();
    assert!(reg.is_waiting_for_upper());
    assert_eq!(reg.get(), 0x1200);
}

#[test]
fn increment_adds_and_mirrors_down() {
    let mut reg = AddressRegister::default();
    reg.write_byte(0x20);
    reg.write_byte(0xFF);
    reg.increment(1);
    assert_eq!(reg.get(), 0x2100);
    reg.increment(32);
    assert_eq!(reg.get(), 0x2120);

    let mut top = AddressRegister::default();
    top.write_byte(0x3F);
    top.write_byte(0xFF);
    top.increment(1);
    assert_eq!(top.get(), 0x0000);

    let mut high = AddressRegister::default();
    high.write_byte(0xFF);
    high.write_byte(0xF0);
    high.increment(32);
    // 0xFFF0 + 32 wraps to 0x0010.
    assert_eq!(high.get(), 0x0010);

    let mut mid = AddressRegister::default();
    mid.write_byte(0x7F);
    mid.write_byte(0xFF);
    mid.increment(1);
    // 0x8000 mirrored into 14 bits.
    assert_eq!(mid.get(), 0x0000);
    assert!(mid.is_waiting_for_upper());
}

#[test]
fn control_register_decodes_each_field() {
    let mut reg = ControlRegister::default();
    assert_eq!(reg.nametable_addr, 0x2000);
    assert_eq!(reg.get_vram_increment(), 1);

    reg.update(0b0000_0011);
    assert_eq!(reg.nametable_addr, 0x2C00);
    reg.update(0b0000_0001);
    assert_eq!(reg.nametable_addr, 0x2400);
    reg.update(0b0000_0010);
    assert_eq!(reg.nametable_addr, 0x2800);

    reg.update(0b0000_0100);
    assert_eq!(reg.nametable_addr, 0x2000);
    assert_eq!(reg.vram_increment, VramIncrement::Add32);
    assert_eq!(reg.get_vram_increment(), 32);
    assert_eq!(reg.sprite_pattern_addr, 0);

    reg.update(0b0000_1000);
    assert_eq!(reg.vram_increment, VramIncrement::Add1);
    assert_eq!(reg.sprite_pattern_addr, 0x1000);
    assert_eq!(reg.background_pattern_addr, 0);

    reg.update(0b0001_0000);
    assert_eq!(reg.sprite_pattern_addr, 0);
    assert_eq!(reg.background_pattern_addr, 0x1000);
    assert_eq!(reg.sprite_size, SpriteSize::Size8x8);

    reg.update(0b0010_0000);
    assert_eq!(reg.sprite_size, SpriteSize::Size8x16);
    assert_eq!(reg.ppu_select, PpuSelect::ReadBackdrop);

    reg.update(0b0100_0000);
    assert_eq!(reg.ppu_select, PpuSelect::OutputColor);
    assert!(!reg.generate_nmi);

    reg.update(0b1000_0000);
    assert!(reg.generate_nmi);
    assert_eq!(reg.ppu_select, PpuSelect::ReadBackdrop);

    reg.update(0);
    assert_eq!(reg, ControlRegister::default());
}

#[test]
fn mask_register_decodes_each_bit() {
    let mut reg = MaskRegister::default();
    reg.update(0b0000_0001);
    assert!(reg.greyscale && !reg.show_leftmost_background);
    reg.update(0b0000_0010);
    assert!(reg.show_leftmost_background && !reg.greyscale);
    reg.update(0b0000_0100);
    assert!(reg.show_leftmost_sprites && !reg.show_leftmost_background);
    reg.update(0b0000_1000);
    assert!(reg.show_background && !reg.show_leftmost_sprites);
    reg.update(0b0001_0000);
    assert!(reg.show_sprites && !reg.show_background);
    reg.update(0b0010_0000);
    assert!(reg.emphasize_red && !reg.show_sprites);
    reg.update(0b0100_0000);
    assert!(reg.emphasize_green && !reg.emphasize_red);
    reg.update(0b1000_0000);
    assert!(reg.emphasize_blue && !reg.emphasize_green);
    reg.update(0);
    assert_eq!(reg, MaskRegister::default());
}

#[test]
fn data_register_reads_are_delayed_by_one() {
    let mut ppu = Ppu::new();
    point_at(&mut ppu, 0x2000);
    ppu.data_write(0x11);
    ppu.data_write(0x22);
    ppu.data_write(0x33);
    assert_eq!(ppu.vram_byte(0x2000), 0x11);
    assert_eq!(ppu.vram_byte(0x2001), 0x22);
    assert_eq!(ppu.vram_byte(0x2002), 0x33);

    point_at(&mut ppu, 0x2000);
    assert_eq!(ppu.peek_data(), 0x00);
    assert_eq!(ppu.data_read(), 0x00);
    assert_eq!(ppu.peek_data(), 0x11);
    assert_eq!(ppu.data_read(), 0x11);
    assert_eq!(ppu.data_read(), 0x22);
    assert_eq!(ppu.data_read(), 0x33);
}

#[test]
fn palette_reads_are_immediate() {
    let mut ppu = Ppu::new();
    point_at(&mut ppu, 0x3F00);
    ppu.data_write(0x2A);
    point_at(&mut ppu, 0x3EFF);
    ppu.data_write(0x17);
    point_at(&mut ppu, 0x3F00);
    assert_eq!(ppu.peek_data(), 0x2A);
    assert_eq!(ppu.data_read(), 0x2A);
    point_at(&mut ppu, 0x3EFF);
    // Below the palette the read returns what the read before latched.
    assert_eq!(ppu.data_read(), 0x2A);
    // The address has moved into the palette, which is read at once.
    assert_eq!(ppu.data_read(), 0x2A);
    point_at(&mut ppu, 0x2000);
    // The palette read latched its own byte.
    assert_eq!(ppu.data_read(), 0x2A);
    point_at(&mut ppu, 0x3EFF);
    ppu.data_read();
    point_at(&mut ppu, 0x2000);
    assert_eq!(ppu.data_read(), 0x17);
}

#[test]
fn data_register_steps_by_32_when_control_says_so() {
    let mut ppu = Ppu::new();
    ppu.ctrl(0b0000_0100);
    point_at(&mut ppu, 0x2000);
    ppu.data_write(0xA1);
    ppu.data_write(0xA2);
    assert_eq!(ppu.vram_byte(0x2000), 0xA1);
    assert_eq!(ppu.vram_byte(0x2020), 0xA2);
    assert_eq!(ppu.vram_byte(0x2001), 0x00);
}

#[test]
fn data_register_reaches_video_memory_through_its_mirror() {
    let mut ppu = Ppu::new();
    point_at(&mut ppu, 0x6005);
    ppu.data_write(0x5C);
    assert_eq!(ppu.vram_byte(0x2005), 0x5C);
    assert_eq!(ppu.vram_byte(0x6005), 0x5C);
}

#[test]
fn status_read_resets_the_address_latch() {
    let mut ppu = Ppu::new();
    ppu.addr(0x12);
    assert_eq!(ppu.status(), 0x00);
    ppu.addr(0x21);
    ppu.addr(0x34);
    ppu.data_write(0x77);
    assert_eq!(ppu.vram_byte(0x2134), 0x77);
    assert_eq!(ppu.peek_status(), 0x00);
}

#[test]
fn scroll_shares_the_latch_with_the_address() {
    let mut ppu = Ppu::new();
    ppu.status();
    ppu.scroll(0x10);
    // The latch is at the lower byte now.
    ppu.addr(0x34);
    ppu.addr(0x21);
    ppu.addr(0x07);
    ppu.data_write(0x99);
    assert_eq!(ppu.vram_byte(0x2107), 0x99);
}

#[test]
fn sprite_data_register() {
    let mut ppu = Ppu::new();
    ppu.oam_addr(0xFE);
    ppu.oam_data_write(0x01);
    ppu.oam_data_write(0x02);
    ppu.oam_data_write(0x03);
    assert_eq!(ppu.oam_byte(0xFE), 0x01);
    assert_eq!(ppu.oam_byte(0xFF), 0x02);
    assert_eq!(ppu.oam_byte(0x00), 0x03);
    // The address has wrapped to 1.
    assert_eq!(ppu.oam_data_read(), 0x00);
    ppu.oam_addr(0xFF);
    assert_eq!(ppu.oam_data_read(), 0x02);
    assert_eq!(ppu.oam_data_read(), 0x02);
}

#[test]
fn sprite_transfer_starts_at_the_sprite_address() {
    let mut data = [0u8; 256];
    for (i, byte) in data.iter_mut().enumerate() {
        *byte = i as u8;
    }
    let mut ppu = Ppu::new();
    ppu.oam_dma(&data);
    for i in 0..=255u8 {
        assert_eq!(ppu.oam_byte(i), i);
    }

    let mut shifted = Ppu::new();
    shifted.oam_addr(0x10);
    shifted.oam_dma(&data);
    for i in 0..=255u8 {
        assert_eq!(shifted.oam_byte(i.wrapping_add(0x10)), i);
    }
    assert_eq!(shifted.oam_data_read(), 0);
}

#[test]
fn pattern_tables_take_character_memory() {
    let chr: Vec<u8> = (0..0x2000u32).map(|i| (i % 251) as u8 + 1).collect();
    let mut ppu = Ppu::new();
    ppu.load_chr(&chr);
    assert_eq!(ppu.vram_byte(0x0000), 1);
    assert_eq!(ppu.vram_byte(0x0001), 2);
    assert_eq!(ppu.vram_byte(0x1FFF), (0x1FFF % 251) as u8 + 1);
    assert_eq!(ppu.vram_byte(0x2000), 0);

    let long: Vec<u8> = vec![0xAB; 0x4000];
    let mut ppu = Ppu::new();
    ppu.load_chr(&long);
    assert_eq!(ppu.vram_byte(0x1FFF), 0xAB);
    assert_eq!(ppu.vram_byte(0x2000), 0x00);

    let short: Vec<u8> = vec![0xCD; 3];
    let mut ppu = Ppu::new();
    ppu.load_chr(&short);
    assert_eq!(ppu.vram_byte(0x0002), 0xCD);
    assert_eq!(ppu.vram_byte(0x0003), 0x00);
}
