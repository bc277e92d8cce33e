use ctru_rs::result_code::{r_description, r_level, r_module, r_summary};

const SAMPLE: i32 = 0xD8E007EE_u32 as i32;

#[test]
fn sample_failure_code_is_negative() {
    assert_eq!(SAMPLE, -656406546);
}

#[test]
fn sample_failure_code_decodes_by_the_layout() {
    assert_eq!(r_description(SAMPLE), 0x3EE);
    assert_eq!(r_description(SAMPLE), 1006);
    assert_eq!(r_module(SAMPLE), 1);
    assert_eq!(r_summary(SAMPLE), 7);
    assert_eq!(r_level(SAMPLE), 0x1B);
    assert_eq!(r_level(SAMPLE), 27);
}

#[test]
fn fields_put_together_decode_to_themselves() {
    let code = ((27_u32 << 27) | (56 << 21) | (31 << 10) | 494) as i32;
    assert_eq!(code, 0xDF007DEE_u32 as i32);
    assert_eq!(r_description(code), 494);
    assert_eq!(r_module(code), 31);
    assert_eq!(r_summary(code), 56);
    assert_eq!(r_level(code), 27);
}

#[test]
fn zero_has_empty_fields() {
    assert_eq!(r_description(0), 0);
    assert_eq!(r_module(0), 0);
    assert_eq!(r_summary(0), 0);
    assert_eq!(r_level(0), 0);
}

#[test]
fn minus_one_has_full_fields() {
    assert_eq!(r_description(-1), 0x3FF);
    assert_eq!(r_module(-1), 0xFF);
    assert_eq!(r_summary(-1), 0x3F);
    assert_eq!(r_level(-1), 0x1F);
}

#[test]
fn extremes_decode() {
    assert_eq!(r_level(i32::MIN), 0x10);
    assert_eq!(r_summary(i32::MIN), 0);
    assert_eq!(r_module(i32::MIN), 0);
    assert_eq!(r_description(i32::MIN), 0);
    assert_eq!(r_level(i32::MAX), 0x0F);
    assert_eq!(r_summary(i32::MAX), 0x3F);
    assert_eq!(r_module(i32::MAX), 0xFF);
    assert_eq!(r_description(i32::MAX), 0x3FF);
}

#[test]
fn each_field_reads_its_own_bits_only() {
    assert_eq!(r_description(0x3FF), 0x3FF);
    assert_eq!(r_module(0x3FF), 0);
    assert_eq!(r_description(0x400), 0);
    assert_eq!(r_module(0x400), 1);
    assert_eq!(r_module(0xFF << 10), 0xFF);
    assert_eq!(r_summary(0xFF << 10), 0);
    // bits 18 to 20 belong to no field
    assert_eq!(r_module(0x7 << 18), 0);
    assert_eq!(r_summary(0x7 << 18), 0);
    assert_eq!(r_summary(1 << 21), 1);
    assert_eq!(r_summary(0x3F << 21), 0x3F);
    assert_eq!(r_level(0x3F << 21), 0);
    assert_eq!(r_level(1 << 27), 1);
}

#[test]
fn fields_agree_with_the_bits_of_the_unsigned_code() {
    let codes = [0, 1, -1, 5, -5, SAMPLE, i32::MIN, i32::MAX, 0x1234_5678, -0x1234_5678];
    for code in codes {
        let bits = code as u32;
        assert_eq!(r_description(code) as u32, bits % 0x400);
        assert_eq!(r_module(code) as u32, (bits / 0x400) % 0x100);
        assert_eq!(r_summary(code) as u32, (bits / 0x20_0000) % 0x40);
        assert_eq!(r_level(code) as u32, bits / 0x800_0000);
        assert_eq!(code < 0, r_level(code) >= 0x10);
    }
}
