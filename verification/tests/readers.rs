//! Cursor-primitive tests: little-endian readings and the arithmetic
//! helpers.

use film_detect::bytes::{
    div_trunc_i32, narrow_i8, read_i32, read_u32, slurp_i32, slurp_string, slurp_u16,
    slurp_u32,
};

#[test]
fn slurp_string_reads_and_advances() {
    let data = b"FUJIFILMxy".to_vec();
    let mut offset = 0usize;
    let s = slurp_string(&data, &mut offset, 8);
    assert_eq!(s, b"FUJIFILM");
    assert_eq!(offset, 8);
}

#[test]
fn slurp_u16_is_little_endian() {
    let data = vec![0x34, 0x12, 0xff];
    let mut offset = 0usize;
    assert_eq!(slurp_u16(&data, &mut offset), 0x1234);
    assert_eq!(offset, 2);
}

#[test]
fn slurp_u32_is_little_endian() {
    let data = vec![0x78, 0x56, 0x34, 0x12];
    let mut offset = 0usize;
    assert_eq!(slurp_u32(&data, &mut offset), 0x1234_5678);
    assert_eq!(offset, 4);
}

#[test]
fn read_u32_leaves_the_cursor_alone() {
    let data = vec![0x00, 0xff, 0xff, 0xff, 0xff, 0x00];
    assert_eq!(read_u32(&data, 1), 0xffff_ffff);
}

#[test]
fn signed_readings_are_twos_complement() {
    let data = (-2i32).to_le_bytes().to_vec();
    assert_eq!(read_i32(&data, 0), -2);
    let mut offset = 0usize;
    assert_eq!(slurp_i32(&data, &mut offset), -2);
    assert_eq!(offset, 4);

    let data = 2_000_000_000i32.to_le_bytes().to_vec();
    assert_eq!(read_i32(&data, 0), 2_000_000_000);
}

#[test]
fn division_truncates_toward_zero() {
    assert_eq!(div_trunc_i32(1999, 1000), 1);
    assert_eq!(div_trunc_i32(-1999, 1000), -1);
    assert_eq!(div_trunc_i32(-5000, 1000), -5);
    assert_eq!(div_trunc_i32(39, 20), 1);
    assert_eq!(div_trunc_i32(-39, 20), -1);
    assert_eq!(div_trunc_i32(i32::MIN, 1000), i32::MIN / 1000);
}

#[test]
fn narrowing_keeps_the_low_byte() {
    assert_eq!(narrow_i8(0), 0);
    assert_eq!(narrow_i8(127), 127);
    assert_eq!(narrow_i8(-128), -128);
    assert_eq!(narrow_i8(300), 300i32 as i8);
    assert_eq!(narrow_i8(-300), -300i32 as i8);
    assert_eq!(narrow_i8(i32::MIN), 0);
    assert_eq!(narrow_i8(i32::MAX), -1);
}
