use nesemu::nes::cpu::registers::ProcessorStatus;
use nesemu::nes::cpu::registers::Registers;

#[test]
fn power_on_registers() {
    let regs = Registers::default();
    assert_eq!(regs.pc, 0);
    assert_eq!(regs.sp, 0xFD);
    assert_eq!(regs.acc, 0);
    assert_eq!(regs.idx_x, 0);
    assert_eq!(regs.idx_y, 0);
    assert_eq!(regs.status.bits(), 0x24);
    assert!(regs.status.contains(ProcessorStatus::INTERRUPT_DISABLE));
    assert!(regs.status.contains(ProcessorStatus::BREAK_CMD2));
    assert!(!regs.status.contains(ProcessorStatus::CARRY_FLAG));
}

#[test]
fn flag_masks_are_the_eight_bits() {
    assert_eq!(ProcessorStatus::CARRY_FLAG, 0x01);
    assert_eq!(ProcessorStatus::ZERO_FLAG, 0x02);
    assert_eq!(ProcessorStatus::INTERRUPT_DISABLE, 0x04);
    assert_eq!(ProcessorStatus::DECIMAL_MODE, 0x08);
    assert_eq!(ProcessorStatus::BREAK_CMD, 0x10);
    assert_eq!(ProcessorStatus::BREAK_CMD2, 0x20);
    assert_eq!(ProcessorStatus::OVERFLOW_FLAG, 0x40);
    assert_eq!(ProcessorStatus::NEGATIVE_FLAG, 0x80);
}

#[test]
fn set_switches_one_flag_and_keeps_the_others() {
    let flags = [0x01u8, 0x02, 0x04, 0x08, 0x10, 0x20, 0x40, 0x80];
    for start in [0x00u8, 0x24, 0xA5, 0xFF] {
        for flag in flags {
            for on in [false, true] {
                let mut status = ProcessorStatus::from_bits(start);
                status.set(flag, on);
                assert_eq!(status.contains(flag), on);
                for other in flags {
                    if other != flag {
                        assert_eq!(
                            status.contains(other),
                            ProcessorStatus::from_bits(start).contains(other)
                        );
                    }
                }
            }
        }
    }
}

#[test]
fn from_bits_keeps_every_bit() {
    for bits in 0..=255u8 {
        assert_eq!(ProcessorStatus::from_bits(bits).bits(), bits);
    }
}

#[test]
fn contains_asks_for_every_flag_of_the_mask() {
    let status = ProcessorStatus::from_bits(0x81);
    assert!(status.contains(0x81));
    assert!(status.contains(0x80));
    assert!(!status.contains(0x83));
    assert!(status.contains(0x00));
}

#[test]
fn carry_and_overflow_follow_the_argument() {
    let mut status = ProcessorStatus::from_bits(0x00);
    status.set_carry_flag(true).set_overflow_flag(true);
    assert_eq!(status.bits(), 0x41);
    status.set_carry_flag(false);
    assert_eq!(status.bits(), 0x40);
    status.set_overflow_flag(false);
    assert_eq!(status.bits(), 0x00);
}

#[test]
fn zero_flag_is_set_for_zero_alone() {
    let mut status = ProcessorStatus::from_bits(0x00);
    status.set_zero_flag(0);
    assert_eq!(status.bits(), 0x02);
    status.set_zero_flag(1);
    assert_eq!(status.bits(), 0x00);
    status.set_zero_flag(0x80);
    assert_eq!(status.bits(), 0x00);
}

#[test]
fn negative_flag_is_bit_seven_of_the_result() {
    let mut status = ProcessorStatus::from_bits(0x00);
    status.set_negative_flag(0x80);
    assert_eq!(status.bits(), 0x80);
    status.set_negative_flag(0x7F);
    assert_eq!(status.bits(), 0x00);
    status.set_negative_flag(0xFF);
    assert_eq!(status.bits(), 0x80);
}

#[test]
fn setters_chain() {
    let mut status = ProcessorStatus::from_bits(0x24);
    status
        .set_carry_flag(true)
        .set_zero_flag(0)
        .set_overflow_flag(true)
        .set_negative_flag(0x90);
    assert_eq!(status.bits(), 0x24 | 0x01 | 0x02 | 0x40 | 0x80);
}
