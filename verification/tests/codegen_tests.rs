use exact::codegen::{board_feature, render_main_rs, render_manifest, replace_all, IoSpec, ScalarSpec};
use exact::proto::Board;

#[test]
fn scalar_types_and_sizes() {
    assert_eq!(ScalarSpec::U8.rust_type(), "u8");
    assert_eq!(ScalarSpec::I16Be.rust_type(), "i16");
    assert_eq!(ScalarSpec::U64Le.rust_type(), "u64");
    assert_eq!(ScalarSpec::U8.size(), 1);
    assert_eq!(ScalarSpec::I32Le.size(), 4);
    assert_eq!(ScalarSpec::U64Be.size(), 8);
    assert_eq!(ScalarSpec::U16Be.size_text(), "2");
}

#[test]
fn decode_and_encode_expressions() {
    assert_eq!(ScalarSpec::U8.decode_expr("b"), "b[0]");
    assert_eq!(ScalarSpec::I8.decode_expr("b"), "b[0] as i8");
    assert_eq!(ScalarSpec::U32Le.decode_expr("b"), "u32::from_le_bytes(b)");
    assert_eq!(ScalarSpec::I64Be.decode_expr("b"), "i64::from_be_bytes(b)");
    assert_eq!(ScalarSpec::I8.encode_expr("v"), "[v as u8]");
    assert_eq!(ScalarSpec::U16Le.encode_expr("v"), "v.to_le_bytes()");
    assert_eq!(ScalarSpec::I32Be.encode_expr("v"), "v.to_be_bytes()");
}

#[test]
fn main_rs_wraps_user_source() {
    let spec = IoSpec { input: ScalarSpec::U32Le, output: ScalarSpec::U64Le };
    let src = "fn solve(n: u32) -> u64 { n as u64 }";
    let out = render_main_rs(src, &spec);
    let expected = format!(
        r#"#![no_std]
#![no_main]

extern crate userlib;

// === User source (verbatim) ============================================

{src}

// === Generated entry glue ==============================================

fn __exact_main() {{
    let mut __exact_input_buf = [0u8; 4];
    let __exact_n = userlib::read(&mut __exact_input_buf);
    if __exact_n < 4 {{
        // Malformed input: too few bytes from the host. Sentinel exit
        // code distinguishes this from a clean run.
        userlib::exit(0xDEAD_BEEF);
    }}
    let __exact_input: u32 = u32::from_le_bytes(__exact_input_buf);
    let __exact_output: u64 = solve(__exact_input);
    let __exact_out_bytes = __exact_output.to_le_bytes();
    userlib::write(&__exact_out_bytes);
}}

userlib::entry!(__exact_main);
"#
    );
    assert_eq!(out, expected);
}

#[test]
fn board_features() {
    assert_eq!(board_feature(Board::Lm3s6965evb), Ok("lm3s6965evb"));
    assert_eq!(board_feature(Board::Lpc1768), Ok("lpc1768"));
    assert!(board_feature(Board::Stm32f429zi).is_err());
}

#[test]
fn replacement_matches_std() {
    for (s, p, w) in [
        ("a__X__b__X__", "__X__", "yz"),
        ("aaaa", "aa", "b"),
        ("nothing here", "zz", "q"),
        ("", "x", "y"),
        ("ééxé", "x", "ü"),
    ] {
        assert_eq!(replace_all(s, p, w), s.replace(p, w));
    }
    assert_eq!(
        render_manifest("userlib = { path = \"__USERLIB_PATH__\" }", "/opt/userlib"),
        "userlib = { path = \"/opt/userlib\" }"
    );
}
