use cpu_tester::suite::instruction_sets::{
    test_add, test_and, test_cmp, test_div, test_flags, test_movs, test_mul, test_or, test_shl,
    test_sub, test_test, test_xor,
};
use cpu_tester::suite::reference::{
    bit_and, bit_or, bit_xor, carry_flag_set, difference, high_word, low_word, product,
    quotient_and_remainder, shift_left, sum, zero_flag_set, CARRY_FLAG, ZERO_FLAG,
};

#[test]
fn sum_of_the_add_operands() {
    assert_eq!(sum(10, 20), 30);
    assert!(test_add(10, 20, 30));
    assert!(!test_add(10, 20, 31));
    assert!(!test_add(10, 20, 10));
}

#[test]
fn sum_wraps_around_at_32_bits() {
    assert_eq!(sum(u32::MAX, 1), 0);
    assert_eq!(sum(0xFFFF_FFFF, 0xFFFF_FFFF), 0xFFFF_FFFE);
    assert_eq!(sum(0x8000_0000, 0x8000_0000), 0);
    assert!(test_add(u32::MAX, 2, 1));
}

#[test]
fn difference_of_the_sub_operands() {
    assert_eq!(difference(30, 20), 10);
    assert!(test_sub(30, 20, 10));
    assert!(!test_sub(30, 20, 50));
}

#[test]
fn difference_wraps_around_below_zero() {
    assert_eq!(difference(0, 1), u32::MAX);
    assert_eq!(difference(20, 30), 0xFFFF_FFF6);
    assert!(test_sub(0, 1, 0xFFFF_FFFF));
}

#[test]
fn mul_probe_product_and_words() {
    let expected = product(100, 200);
    assert_eq!(expected, 20000);
    assert_eq!(low_word(expected), 20000);
    assert_eq!(high_word(expected), 0);
    assert!(test_mul(100, 200, 20000, 0));
    assert!(!test_mul(100, 200, 20000, 1));
    assert!(!test_mul(100, 200, 20001, 0));
}

#[test]
fn product_fills_the_high_word() {
    let expected = product(0xFFFF_FFFF, 0xFFFF_FFFF);
    assert_eq!(expected, 0xFFFF_FFFE_0000_0001);
    assert_eq!(low_word(expected), 1);
    assert_eq!(high_word(expected), 0xFFFF_FFFE);
    assert!(test_mul(0xFFFF_FFFF, 0xFFFF_FFFF, 1, 0xFFFF_FFFE));
    assert_eq!(product(0x1_0000, 0x1_0000), 0x1_0000_0000);
    assert!(test_mul(0x1_0000, 0x1_0000, 0, 1));
}

#[test]
fn div_probe_quotient_and_remainder() {
    assert_eq!(quotient_and_remainder(100, 3), Some((33, 1)));
    assert!(test_div(100, 3, 33, 1));
    assert!(!test_div(100, 3, 33, 0));
    assert!(!test_div(100, 3, 34, 1));
    assert_eq!(quotient_and_remainder(7, 9), Some((0, 7)));
    assert_eq!(quotient_and_remainder(u32::MAX, 1), Some((u32::MAX, 0)));
}

#[test]
fn division_by_zero_has_no_reference() {
    assert_eq!(quotient_and_remainder(100, 0), None);
    assert!(!test_div(100, 0, 0, 0));
    assert!(!test_div(100, 0, 33, 1));
    assert!(!test_div(0, 0, 0, 0));
}

#[test]
fn logic_probes_on_the_catalogue_operands() {
    assert_eq!(bit_and(0xFF00, 0x0FF0), 0x0F00);
    assert_eq!(bit_or(0xFF00, 0x0FF0), 0xFFF0);
    assert_eq!(bit_xor(0xFF00, 0x0FF0), 0xF0F0);
    assert!(test_and(0xFF00, 0x0FF0, 0x0F00));
    assert!(!test_and(0xFF00, 0x0FF0, 0xFFF0));
    assert!(test_or(0xFF00, 0x0FF0, 0xFFF0));
    assert!(!test_or(0xFF00, 0x0FF0, 0x0F00));
    assert!(test_xor(0xFF00, 0x0FF0, 0xF0F0));
    assert!(!test_xor(0xFF00, 0x0FF0, 0xFFF0));
}

#[test]
fn shl_probe_shifts_by_the_count() {
    assert_eq!(shift_left(0x1, 4), 0x10);
    assert!(test_shl(0x1, 4, 0x10));
    assert!(!test_shl(0x1, 4, 0x8));
    assert_eq!(shift_left(0x8000_0001, 1), 2);
    assert_eq!(shift_left(0xFFFF_FFFF, 31), 0x8000_0000);
    assert_eq!(shift_left(5, 0), 5);
}

#[test]
fn shift_count_uses_its_low_five_bits() {
    assert_eq!(shift_left(1, 32), 1);
    assert_eq!(shift_left(1, 36), 0x10);
    assert_eq!(shift_left(3, 255), 0x8000_0000);
    assert!(test_shl(1, 33, 2));
}

#[test]
fn flag_bits_are_read_from_the_flags_word() {
    assert_eq!(ZERO_FLAG, 0x40);
    assert_eq!(CARRY_FLAG, 0x1);
    assert!(zero_flag_set(0x40));
    assert!(zero_flag_set(0x246));
    assert!(!zero_flag_set(0x202));
    assert!(!zero_flag_set(0));
    assert!(carry_flag_set(0x1));
    assert!(carry_flag_set(0x203));
    assert!(!carry_flag_set(0x202));
    assert!(!carry_flag_set(0x40));
    assert!(zero_flag_set(u64::MAX));
    assert!(carry_flag_set(u64::MAX));
}

#[test]
fn cmp_probe_equal_operands_set_the_zero_flag() {
    assert!(test_cmp(20, 20, 0x246));
    assert!(test_cmp(20, 20, ZERO_FLAG));
    assert!(!test_cmp(20, 20, 0x202));
    assert!(!test_cmp(20, 20, 0));
}

#[test]
fn cmp_probe_unequal_operands_clear_the_zero_flag() {
    assert!(test_cmp(20, 21, 0x202));
    assert!(test_cmp(20, 21, 0));
    assert!(!test_cmp(20, 21, 0x246));
    assert!(!test_cmp(20, 21, ZERO_FLAG));
}

#[test]
fn test_probe_shared_bits_clear_the_zero_flag() {
    assert_eq!(bit_and(0xFF00, 0x0F00), 0x0F00);
    assert!(test_test(0xFF00, 0x0F00, 0x202));
    assert!(test_test(0xFF00, 0x0F00, 0));
    assert!(!test_test(0xFF00, 0x0F00, 0x246));
    assert!(!test_test(0xFF00, 0x0F00, ZERO_FLAG));
}

#[test]
fn test_probe_disjoint_operands_set_the_zero_flag() {
    assert!(test_test(0xFF00, 0x00FF, ZERO_FLAG));
    assert!(!test_test(0xFF00, 0x00FF, 0));
    assert!(test_test(0, 0, 0x246));
}

#[test]
fn movs_probe_destination_equals_source() {
    let source = [1u8, 2, 3, 4];
    assert!(test_movs(&source, &[1, 2, 3, 4]));
    assert!(!test_movs(&source, &[0, 0, 0, 0]));
    assert!(!test_movs(&source, &[1, 2, 3, 0]));
    assert!(!test_movs(&source, &[0, 2, 3, 4]));
    assert!(!test_movs(&source, &[4, 3, 2, 1]));
}

#[test]
fn flags_probe_carry_set_then_clear() {
    assert!(test_flags(0x203, 0x202));
    assert!(test_flags(1, 0));
    assert!(!test_flags(0x202, 0x202));
    assert!(!test_flags(0x203, 0x203));
    assert!(!test_flags(0x202, 0x203));
}
