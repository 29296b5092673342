use emulator::memory::Memory;
use emulator::state::{address_after, address_before, pair_decremented, pair_incremented, Cpu, Psw};

fn cpu_with_a(a: u8) -> Cpu {
    let mut cpu = Cpu::new(0);
    cpu.psw.a = a;
    cpu
}

#[test]
fn new_cpu_is_cleared() {
    let cpu = Cpu::new(0x100);
    assert_eq!(cpu.pc, 0x100);
    assert_eq!(cpu.sp, 0);
    assert_eq!(cpu.psw, Psw::default());
    assert_eq!((cpu.b, cpu.c, cpu.d, cpu.e, cpu.h, cpu.l), (0, 0, 0, 0, 0, 0));
    assert!(!cpu.enable_interrupts);
    assert_eq!(Cpu::default(), Cpu::new(0));
}

#[test]
fn flag_bits_convert() {
    assert_eq!(Psw::to_u8(true), 1);
    assert_eq!(Psw::to_u8(false), 0);
    assert!(Psw::to_bool(0x80));
    assert!(Psw::to_bool(1));
    assert!(!Psw::to_bool(0));
}

#[test]
fn psw_value_packs_accumulator_and_flags() {
    let mut psw = Psw::default();
    assert_eq!(psw.value(), 0x0002);
    psw.a = 0xab;
    psw.sign = true;
    psw.carry = true;
    assert_eq!(psw.value(), 0xab83);
    psw.zero = true;
    psw.auxiliary_carry = true;
    psw.parity = true;
    assert_eq!(psw.value(), 0xabd7);
}

#[test]
fn set_flags_reads_the_five_flag_bits() {
    let mut psw = Psw::default();
    psw.a = 0x42;
    psw.set_flags(0xff);
    assert!(psw.sign && psw.zero && psw.auxiliary_carry && psw.parity && psw.carry);
    assert_eq!(psw.a, 0x42);
    psw.set_flags(0x2a);
    assert!(!psw.sign && !psw.zero && !psw.auxiliary_carry && !psw.parity && !psw.carry);
    psw.set_flags(0x44);
    assert!(!psw.sign && psw.zero && !psw.auxiliary_carry && psw.parity && !psw.carry);
}

#[test]
fn flags_survive_pack_and_unpack() {
    for bits in 0..32u8 {
        let mut psw = Psw::default();
        psw.sign = bits & 1 != 0;
        psw.zero = bits & 2 != 0;
        psw.auxiliary_carry = bits & 4 != 0;
        psw.parity = bits & 8 != 0;
        psw.carry = bits & 16 != 0;
        let mut other = Psw::default();
        other.set_flags((psw.value() & 0xff) as u8);
        assert_eq!(other, psw);
    }
}

#[test]
fn m_is_h_high_l_low() {
    let mut cpu = Cpu::new(0);
    cpu.h = 0x24;
    cpu.l = 0x01;
    assert_eq!(cpu.m(), 0x2401);
    cpu.h = 0xff;
    cpu.l = 0xff;
    assert_eq!(cpu.m(), 0xffff);
}

#[test]
fn add_without_carry() {
    let mut cpu = cpu_with_a(0x12);
    cpu.add(0x34, 0);
    assert_eq!(cpu.psw.a, 0x46);
    assert!(!cpu.psw.zero && !cpu.psw.sign && !cpu.psw.carry && !cpu.psw.auxiliary_carry);
    // 0x46 = 0100 0110 has three bits set
    assert!(!cpu.psw.parity);
}

#[test]
fn add_wraps_and_carries() {
    let mut cpu = cpu_with_a(0xff);
    cpu.add(0x01, 0);
    assert_eq!(cpu.psw.a, 0x00);
    assert!(cpu.psw.zero && cpu.psw.carry && cpu.psw.auxiliary_carry && cpu.psw.parity);
    assert!(!cpu.psw.sign);

    let mut cpu = cpu_with_a(0xff);
    cpu.add(0xff, 1);
    assert_eq!(cpu.psw.a, 0xff);
    assert!(cpu.psw.carry && cpu.psw.sign && cpu.psw.parity && !cpu.psw.zero);
}

#[test]
fn add_sets_sign_from_bit_seven() {
    let mut cpu = cpu_with_a(0x7f);
    cpu.add(0x00, 1);
    assert_eq!(cpu.psw.a, 0x80);
    assert!(cpu.psw.sign && !cpu.psw.carry && !cpu.psw.zero && !cpu.psw.parity);
}

#[test]
fn add_flags_hold_for_every_input() {
    for a in 0..=255u16 {
        for b in 0..=255u16 {
            for carry in 0..=1u16 {
                let mut cpu = cpu_with_a(a as u8);
                cpu.add(b as u8, carry);
                let sum = a + b + carry;
                let low = (sum % 256) as u8;
                assert_eq!(cpu.psw.a, low);
                assert_eq!(cpu.psw.zero, low == 0);
                assert_eq!(cpu.psw.sign, low & 0x80 != 0);
                assert_eq!(cpu.psw.parity, low.count_ones() % 2 == 0);
                assert_eq!(cpu.psw.carry, sum > 255);
                assert_eq!(cpu.psw.auxiliary_carry, (a & 0x0f) + (b & 0x0f) + carry > 0x0f);
            }
        }
    }
}

#[test]
fn sub_flags_hold_for_every_input() {
    for a in 0..=255i16 {
        for b in 0..=255i16 {
            for borrow in 0..=1i16 {
                let mut cpu = cpu_with_a(a as u8);
                cpu.sub(b as u8, borrow as u16);
                let difference = a - b - borrow;
                let low = difference.rem_euclid(256) as u8;
                assert_eq!(cpu.psw.a, low);
                assert_eq!(cpu.psw.zero, low == 0);
                assert_eq!(cpu.psw.sign, low & 0x80 != 0);
                assert_eq!(cpu.psw.parity, low.count_ones() % 2 == 0);
                assert_eq!(cpu.psw.carry, difference < 0);
                assert_eq!(cpu.psw.auxiliary_carry, (a & 0x0f) - (b & 0x0f) - borrow < 0);
            }
        }
    }
}

#[test]
fn sub_borrows() {
    let mut cpu = cpu_with_a(0x10);
    cpu.sub(0x20, 0);
    assert_eq!(cpu.psw.a, 0xf0);
    assert!(cpu.psw.carry && cpu.psw.sign && !cpu.psw.zero && cpu.psw.parity);

    let mut cpu = cpu_with_a(0x10);
    cpu.sub(0x0f, 1);
    assert_eq!(cpu.psw.a, 0x00);
    assert!(cpu.psw.zero && !cpu.psw.carry && !cpu.psw.sign);
}

#[test]
fn cmp_leaves_the_accumulator() {
    let mut cpu = cpu_with_a(0x42);
    cpu.cmp(0x42);
    assert_eq!(cpu.psw.a, 0x42);
    assert!(cpu.psw.zero && !cpu.psw.carry);
    cpu.cmp(0x43);
    assert_eq!(cpu.psw.a, 0x42);
    assert!(!cpu.psw.zero && cpu.psw.carry && cpu.psw.sign);
    cpu.cmp(0x41);
    assert!(!cpu.psw.zero && !cpu.psw.carry && !cpu.psw.sign);
}

#[test]
fn inr_wraps_to_zero() {
    let mut cpu = Cpu::new(0);
    cpu.psw.carry = true;
    assert_eq!(cpu.inr(0xff), 0x00);
    assert!(cpu.psw.zero && !cpu.psw.sign && cpu.psw.parity);
    assert!(cpu.psw.carry);
    assert!(cpu.psw.auxiliary_carry);
}

#[test]
fn inr_leaves_the_carry_alone() {
    let mut cpu = Cpu::new(0);
    assert_eq!(cpu.inr(0x7f), 0x80);
    assert!(cpu.psw.sign && !cpu.psw.zero && !cpu.psw.carry && !cpu.psw.parity);
    cpu.psw.carry = true;
    cpu.psw.auxiliary_carry = true;
    assert_eq!(cpu.inr(0x02), 0x03);
    assert!(cpu.psw.carry && cpu.psw.parity && !cpu.psw.sign && !cpu.psw.auxiliary_carry);
}

#[test]
fn dec_below_zero_sets_both_carries() {
    let mut cpu = Cpu::new(0);
    assert_eq!(cpu.dec(0x00), 0xff);
    assert!(cpu.psw.carry && cpu.psw.auxiliary_carry);
    assert!(cpu.psw.sign && !cpu.psw.zero && cpu.psw.parity);
}

#[test]
fn dec_leaves_the_carry_alone() {
    let mut cpu = Cpu::new(0);
    assert_eq!(cpu.dec(0x01), 0x00);
    assert!(cpu.psw.zero && !cpu.psw.carry && !cpu.psw.auxiliary_carry && cpu.psw.parity);
    cpu.psw.carry = true;
    cpu.psw.auxiliary_carry = true;
    assert_eq!(cpu.dec(0x80), 0x7f);
    assert!(cpu.psw.carry && cpu.psw.auxiliary_carry && !cpu.psw.sign && !cpu.psw.parity);
    assert_eq!(cpu.dec(0x7f), 0x7e);
    assert!(cpu.psw.carry && !cpu.psw.auxiliary_carry);
}

#[test]
fn logic_operations_clear_the_carry() {
    let mut cpu = cpu_with_a(0xf0);
    cpu.psw.carry = true;
    assert_eq!(cpu.and(0x3c), 0x30);
    assert!(!cpu.psw.carry && !cpu.psw.zero && !cpu.psw.sign && cpu.psw.parity);
    assert_eq!(cpu.psw.a, 0xf0);

    cpu.psw.carry = true;
    assert_eq!(cpu.or(0x0f), 0xff);
    assert!(!cpu.psw.carry && cpu.psw.sign && cpu.psw.parity);

    cpu.psw.carry = true;
    assert_eq!(cpu.xra(0xf0), 0x00);
    assert!(!cpu.psw.carry && cpu.psw.zero && cpu.psw.parity && !cpu.psw.sign);
}

#[test]
fn set_arithmetic_flags_looks_at_the_whole_value() {
    let mut cpu = Cpu::new(0);
    cpu.set_arithmetic_flags(0x100);
    assert!(cpu.psw.zero && cpu.psw.carry && !cpu.psw.auxiliary_carry && !cpu.psw.sign);
    cpu.psw.auxiliary_carry = true;
    cpu.set_arithmetic_flags(-1);
    assert!(!cpu.psw.zero && cpu.psw.carry && cpu.psw.sign && cpu.psw.parity);
    cpu.set_arithmetic_flags(0x7f);
    assert!(!cpu.psw.zero && !cpu.psw.carry && !cpu.psw.sign && !cpu.psw.parity);
    // the auxiliary carry is not a matter of the result alone
    assert!(cpu.psw.auxiliary_carry);
}

#[test]
fn set_logic_flags_forces_the_carry_off() {
    let mut cpu = Cpu::new(0);
    cpu.psw.carry = true;
    cpu.psw.auxiliary_carry = true;
    cpu.set_logic_flags(0x1ff);
    assert!(!cpu.psw.carry && cpu.psw.auxiliary_carry);
    assert!(cpu.psw.sign && cpu.psw.parity && !cpu.psw.zero);
    cpu.set_logic_flags(0x100);
    assert!(cpu.psw.zero && !cpu.psw.carry);
}

#[test]
fn add_hl_touches_only_the_carry() {
    let mut cpu = Cpu::new(0);
    cpu.h = 0x12;
    cpu.l = 0x34;
    cpu.psw.zero = true;
    cpu.add_hl(0xcd, 0xab);
    assert_eq!((cpu.h, cpu.l), (0xbe, 0x01));
    assert!(!cpu.psw.carry && cpu.psw.zero);

    cpu.h = 0xff;
    cpu.l = 0xff;
    cpu.add_hl(0x02, 0x00);
    assert_eq!((cpu.h, cpu.l), (0x00, 0x01));
    assert!(cpu.psw.carry);
}

#[test]
fn jump_if_flag_jumps_only_on_the_flag() {
    let mut cpu = Cpu::new(0x10);
    assert!(!cpu.jump_if_flag(0x1234, false));
    assert_eq!(cpu.pc, 0x10);
    assert!(cpu.jump_if_flag(0x1234, true));
    assert_eq!(cpu.pc, 0x1234);
}

#[test]
fn call_pushes_the_return_address() {
    let mut memory = Memory::new();
    let mut cpu = Cpu::new(0x1234);
    cpu.sp = 0x2400;
    cpu.call(&mut memory, 0x0abc);
    assert_eq!(cpu.pc, 0x0abc);
    assert_eq!(cpu.sp, 0x23fe);
    assert_eq!(memory.read(0x23ff), 0x12);
    assert_eq!(memory.read(0x23fe), 0x37);
}

#[test]
fn call_then_ret_comes_back() {
    let mut memory = Memory::new();
    let mut cpu = Cpu::new(0x01fd);
    cpu.sp = 0x3000;
    cpu.call(&mut memory, 0x4000);
    assert_eq!(cpu.sp, 0x2ffe);
    assert!(cpu.ret(&memory, true));
    assert_eq!(cpu.pc, 0x0200);
    assert_eq!(cpu.sp, 0x3000);
}

#[test]
fn ret_does_nothing_without_the_flag() {
    let memory = Memory::new();
    let mut cpu = Cpu::new(0x0100);
    cpu.sp = 0x3000;
    let before = cpu;
    assert!(!cpu.ret(&memory, false));
    assert_eq!(cpu, before);
}

#[test]
fn stack_goes_round_the_address_space() {
    let mut memory = Memory::new();
    let mut cpu = Cpu::new(0xfffe);
    cpu.sp = 0x0001;
    cpu.call(&mut memory, 0x0010);
    assert_eq!(cpu.sp, 0xffff);
    // the return address 0x10001 is cut down to 0x0001
    assert_eq!(memory.read(0x0000), 0x00);
    assert_eq!(memory.read(0xffff), 0x01);
    assert!(cpu.ret(&memory, true));
    assert_eq!(cpu.pc, 0x0001);
    assert_eq!(cpu.sp, 0x0001);
}

#[test]
fn rotates_move_one_bit() {
    let mut cpu = cpu_with_a(0x81);
    cpu.rlc();
    assert_eq!(cpu.psw.a, 0x03);
    assert!(cpu.psw.carry);

    let mut cpu = cpu_with_a(0x81);
    cpu.rrc();
    assert_eq!(cpu.psw.a, 0xc0);
    assert!(cpu.psw.carry);

    let mut cpu = cpu_with_a(0x81);
    cpu.ral();
    assert_eq!(cpu.psw.a, 0x02);
    assert!(cpu.psw.carry);
    cpu.ral();
    assert_eq!(cpu.psw.a, 0x05);
    assert!(!cpu.psw.carry);

    let mut cpu = cpu_with_a(0x81);
    cpu.rar();
    assert_eq!(cpu.psw.a, 0x40);
    assert!(cpu.psw.carry);
    cpu.rar();
    assert_eq!(cpu.psw.a, 0xa0);
    assert!(!cpu.psw.carry);
}

#[test]
fn daa_corrects_both_digits() {
    // 0x9b: low digit above nine, then high digit above nine
    let mut cpu = cpu_with_a(0x9b);
    cpu.daa();
    assert_eq!(cpu.psw.a, 0x01);
    assert!(cpu.psw.carry && cpu.psw.auxiliary_carry);

    // 0x38 + 0x45 = 0x7d -> 83
    let mut cpu = cpu_with_a(0x7d);
    cpu.daa();
    assert_eq!(cpu.psw.a, 0x83);
    assert!(!cpu.psw.carry && cpu.psw.sign);

    // a valid decimal number stays
    let mut cpu = cpu_with_a(0x42);
    cpu.daa();
    assert_eq!(cpu.psw.a, 0x42);
    assert!(!cpu.psw.carry);
}

#[test]
fn daa_takes_the_incoming_carries() {
    let mut cpu = cpu_with_a(0x12);
    cpu.psw.auxiliary_carry = true;
    cpu.daa();
    assert_eq!(cpu.psw.a, 0x18);

    let mut cpu = cpu_with_a(0x12);
    cpu.psw.carry = true;
    cpu.daa();
    assert_eq!(cpu.psw.a, 0x72);
    assert!(!cpu.psw.carry);
}

#[test]
fn daa_matches_the_correction_by_hand() {
    for a in 0..=0xffu16 {
        for flags in 0..4u8 {
            let auxiliary_carry = flags & 1 != 0;
            let carry = flags & 2 != 0;
            let mut cpu = cpu_with_a(a as u8);
            cpu.psw.auxiliary_carry = auxiliary_carry;
            cpu.psw.carry = carry;
            cpu.daa();
            let mut expected = a;
            if a & 0x0f > 9 || auxiliary_carry {
                expected += 6;
            }
            if (expected >> 4) & 0x0f > 9 || carry {
                expected += 0x60;
            }
            assert_eq!(cpu.psw.a, (expected & 0xff) as u8);
            assert_eq!(cpu.psw.carry, expected > 0xff);
            assert_eq!(cpu.psw.auxiliary_carry, a & 0x0f > 9);
        }
    }
}

#[test]
fn daa_carries_out_of_the_accumulator() {
    let mut cpu = cpu_with_a(0xfa);
    cpu.daa();
    assert_eq!(cpu.psw.a, 0x00);
    assert!(cpu.psw.carry && cpu.psw.zero && cpu.psw.auxiliary_carry);
}

#[test]
fn decimal_digits_add_up() {
    // 8 + 8 = 16: the carry out of the low digit reaches the adjust
    let mut cpu = cpu_with_a(0x08);
    cpu.add(0x08, 0);
    assert_eq!(cpu.psw.a, 0x10);
    assert!(cpu.psw.auxiliary_carry && !cpu.psw.carry);
    cpu.daa();
    assert_eq!(cpu.psw.a, 0x16);
    for a in 0..=9u8 {
        for b in 0..=9u8 {
            for carry in 0..=1u8 {
                let mut cpu = cpu_with_a(a);
                cpu.add(b, carry as u16);
                cpu.daa();
                let sum = a + b + carry;
                assert_eq!(cpu.psw.a, (sum / 10) * 16 + sum % 10);
            }
        }
    }
    // 38 + 45 = 83
    let mut cpu = cpu_with_a(0x38);
    cpu.add(0x45, 0);
    cpu.daa();
    assert_eq!(cpu.psw.a, 0x83);
    // 19 + 28 = 47
    let mut cpu = cpu_with_a(0x19);
    cpu.add(0x28, 0);
    assert_eq!(cpu.psw.a, 0x41);
    assert!(cpu.psw.auxiliary_carry);
    cpu.daa();
    assert_eq!(cpu.psw.a, 0x47);
}

#[test]
fn auxiliary_carry_is_the_carry_out_of_bit_three() {
    let mut cpu = cpu_with_a(0x0f);
    cpu.add(0x01, 0);
    assert!(cpu.psw.auxiliary_carry && !cpu.psw.carry);
    cpu.add(0xf0, 0);
    assert_eq!(cpu.psw.a, 0x00);
    assert!(!cpu.psw.auxiliary_carry && cpu.psw.carry);
    let mut cpu = cpu_with_a(0x0e);
    cpu.add(0x01, 1);
    assert!(cpu.psw.auxiliary_carry);
    // a borrow into the low digit
    let mut cpu = cpu_with_a(0x10);
    cpu.sub(0x01, 0);
    assert_eq!(cpu.psw.a, 0x0f);
    assert!(cpu.psw.auxiliary_carry && !cpu.psw.carry);
    cpu.sub(0x0f, 0);
    assert!(!cpu.psw.auxiliary_carry && cpu.psw.zero);
    let mut cpu = cpu_with_a(0x21);
    cpu.sub(0x01, 1);
    assert_eq!(cpu.psw.a, 0x1f);
    assert!(cpu.psw.auxiliary_carry);
    let mut cpu = cpu_with_a(0x42);
    cpu.cmp(0x13);
    assert!(cpu.psw.auxiliary_carry && !cpu.psw.carry);
    cpu.cmp(0x51);
    assert!(!cpu.psw.auxiliary_carry && cpu.psw.carry);
    // a logic operation leaves it as it is
    assert_eq!(cpu.and(0x0f), 0x02);
    assert!(!cpu.psw.auxiliary_carry);
    cpu.psw.auxiliary_carry = true;
    assert_eq!(cpu.or(0x0f), 0x4f);
    assert_eq!(cpu.xra(0x42), 0x00);
    assert!(cpu.psw.auxiliary_carry && !cpu.psw.carry);
}

#[test]
fn call_from_pushes_the_address_behind_the_instruction() {
    let mut memory = Memory::new();
    let mut cpu = Cpu::new(0x1234);
    cpu.sp = 0x2400;
    cpu.call_from(&mut memory, 0x0008, 1);
    assert_eq!((cpu.pc, cpu.sp), (0x0008, 0x23fe));
    assert_eq!(memory.read(0x23ff), 0x12);
    assert_eq!(memory.read(0x23fe), 0x35);
    cpu.call_from(&mut memory, 0x0010, 0);
    assert_eq!((cpu.pc, cpu.sp), (0x0010, 0x23fc));
    assert_eq!(memory.read(0x23fd), 0x00);
    assert_eq!(memory.read(0x23fc), 0x08);
}

#[test]
fn sp_bytes_split_the_stack_pointer() {
    let mut cpu = Cpu::new(0);
    cpu.sp = 0x23fe;
    assert_eq!(cpu.sp_bytes(), (0xfe, 0x23));
}

#[test]
fn addresses_go_round() {
    assert_eq!(address_after(0xffff, 1), 0x0000);
    assert_eq!(address_after(0xfffe, 3), 0x0001);
    assert_eq!(address_after(0x1000, 2), 0x1002);
    assert_eq!(address_before(0x0000, 1), 0xffff);
    assert_eq!(address_before(0x0001, 2), 0xffff);
    assert_eq!(address_before(0x1000, 2), 0x0ffe);
}

#[test]
fn pairs_count_up_and_down() {
    assert_eq!(pair_incremented(0x12, 0xff), (0x13, 0x00));
    assert_eq!(pair_incremented(0xff, 0xff), (0x00, 0x00));
    assert_eq!(pair_incremented(0x12, 0x34), (0x12, 0x35));
    assert_eq!(pair_decremented(0x12, 0x00), (0x11, 0xff));
    assert_eq!(pair_decremented(0x00, 0x00), (0xff, 0xff));
    assert_eq!(pair_decremented(0x12, 0x34), (0x12, 0x33));
}
