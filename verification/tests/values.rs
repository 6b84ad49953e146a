use ida_cli::bytes::{
    bytes_to_ascii, hex_encode, parse_hex_bytes, reversed, trim_bytes_be, trim_bytes_le, word_bytes,
};
use ida_cli::errors::ToolErrorOf;
use ida_cli::framing::{
    drain_stderr_chunk, read_line_step, too_long_message, LineState, STDERR_LINE_LIMIT_BYTES,
};
use ida_cli::json::{Json, JsonObject, Num};
use ida_cli::numbers::{
    decimal_text, digits_text, hex_text, parse_addr, parse_digits, push_padded, read_any_radix,
    signed_text,
};
use ida_cli::output::{
    apply_line_offset, apply_max_lines, decompile_reply, disasm_reply, disasm_window,
};
use ida_cli::text::{
    ascii_lowercase, contains, join, lines, same, split, trim,
};
use ida_cli::values::{
    cap_count, optional_count, optional_flags, optional_ordinal, optional_secs, parse_address,
    texts_from_text, value_to_addresses, value_to_bytes, value_to_exactly_one_address,
    value_to_single_address, value_to_strings,
};

fn texts(items: &[&str]) -> Vec<String> {
    items.iter().map(|s| s.to_string()).collect()
}

/// Reads one line of at most `max` bytes, a few bytes at a time.
fn read_line(data: &mut &[u8], out: &mut Vec<u8>, max: usize, step: usize) -> Result<usize, String> {
    out.clear();
    loop {
        if data.is_empty() {
            return Ok(out.len());
        }
        let chunk = &data[..step.min(data.len())];
        let r = read_line_step(out, chunk, max);
        *data = &data[r.consumed..];
        match r.state {
            LineState::More => {}
            LineState::Done => return Ok(out.len()),
            LineState::TooLong => return Err(too_long_message(max)),
        }
    }
}

#[test]
fn read_line_capped_reads_multiple_lines() {
    for step in [1, 3, 8, 64] {
        let mut data: &[u8] = b"first\nsecond\npartial";
        let mut out = Vec::new();
        assert_eq!(read_line(&mut data, &mut out, 1024, step), Ok(5));
        assert_eq!(out.as_slice(), b"first");
        assert_eq!(read_line(&mut data, &mut out, 1024, step), Ok(6));
        assert_eq!(out.as_slice(), b"second");
        assert_eq!(read_line(&mut data, &mut out, 1024, step), Ok(7));
        assert_eq!(out.as_slice(), b"partial");
        assert_eq!(read_line(&mut data, &mut out, 1024, step), Ok(0));
    }
}

#[test]
fn read_line_capped_rejects_overlong_line() {
    for step in [1, 3, 8, 64] {
        let mut data: &[u8] = b"0123456789abcdef\n";
        let mut out = Vec::new();
        assert!(read_line(&mut data, &mut out, 8, step).is_err());
    }
    let mut data: &[u8] = b"01234567\n";
    let mut out = Vec::new();
    assert_eq!(read_line(&mut data, &mut out, 8, 64), Ok(8));
}

#[test]
fn error_output_is_cut_into_lines() {
    let mut pending = b"ab".to_vec();
    let d = drain_stderr_chunk(&mut pending, b"c\n\nde");
    assert_eq!(d.lines, vec![b"abc".to_vec(), b"".to_vec()]);
    assert_eq!(d.cut, None);
    assert_eq!(pending, b"de".to_vec());
    let long = vec![b'x'; STDERR_LINE_LIMIT_BYTES + 5];
    let d = drain_stderr_chunk(&mut pending, &long);
    assert!(d.lines.is_empty());
    assert!(d.cut.is_some());
    assert!(pending.is_empty());
}

#[test]
fn numbers_are_written_and_read() {
    assert_eq!(decimal_text(0), "0");
    assert_eq!(decimal_text(u64::MAX), u64::MAX.to_string());
    assert_eq!(hex_text(0), "0x0");
    assert_eq!(hex_text(0xdead_beef), "0xdeadbeef");
    assert_eq!(digits_text(10, 2), "1010");
    assert_eq!(signed_text(i64::MIN), i64::MIN.to_string());
    let mut out = String::new();
    push_padded(&mut out, 7, 10, 3);
    push_padded(&mut out, 12345, 10, 3);
    assert_eq!(out, "00712345");
    for s in ["", "+", "+5", "5", "007", "18446744073709551615", "18446744073709551616", "-1", "ff", "a_b"] {
        assert_eq!(parse_digits(s, 10), s.parse::<u64>().ok(), "{s:?}");
        assert_eq!(parse_digits(s, 16), u64::from_str_radix(s, 16).ok(), "{s:?}");
    }
    assert_eq!(parse_addr(" 0x1F "), Ok(31));
    assert_eq!(parse_addr("0X1f"), Ok(31));
    assert_eq!(parse_addr("31"), Ok(31));
    assert_eq!(parse_addr("zz"), Err("Invalid address: zz".to_string()));
    assert_eq!(read_any_radix("0b1_01"), Ok(5));
    assert_eq!(read_any_radix("0o17"), Ok(15));
    assert_eq!(read_any_radix(" 1_000 "), Ok(1000));
    assert!(read_any_radix("0xzz").is_err());
}

#[test]
fn texts_are_cut_and_joined() {
    for s in ["", "  a b \t", "\u{a0}x\u{3000}", "a\r\nb\n", "\n", "a\n\nb", "é"] {
        assert_eq!(trim(s), s.trim(), "{s:?}");
        assert_eq!(lines(s), s.lines().map(|l| l.to_string()).collect::<Vec<_>>(), "{s:?}");
        assert_eq!(
            split(s, 'a'),
            s.split('a').map(|l| l.to_string()).collect::<Vec<_>>(),
            "{s:?}"
        );
        assert_eq!(join(&split(s, 'a'), "a"), s);
    }
    assert_eq!(ascii_lowercase("AbÉ"), "AbÉ".to_ascii_lowercase());
    assert!(contains("hello", "ll"));
    assert!(contains("hello", ""));
    assert!(!contains("hello", "lo!"));
    assert!(same("a", "a") && !same("a", "b"));
}

#[test]
fn bytes_are_written_and_read() {
    assert_eq!(hex_encode(&vec![0, 255, 16]), "00ff10");
    assert_eq!(parse_hex_bytes("00 ff 10"), Ok(vec![0, 255, 16]));
    assert!(parse_hex_bytes("0").is_err());
    assert!(parse_hex_bytes("zz").is_err());
    assert!(parse_hex_bytes("é").is_err());
    assert_eq!(word_bytes(0x0102), vec![2, 1, 0, 0, 0, 0, 0, 0]);
    assert_eq!(trim_bytes_le(&word_bytes(0x0102)), vec![2, 1]);
    assert_eq!(trim_bytes_be(&reversed(&word_bytes(0x0102))), vec![1, 2]);
    assert_eq!(trim_bytes_le(&word_bytes(0)), vec![0]);
    assert_eq!(bytes_to_ascii(&vec![b'A', 0, b'z']), "A.z");
}

#[test]
fn arguments_stand_for_texts() {
    assert_eq!(value_to_strings(&Json::text(" a , b,, ")).unwrap(), texts(&["a", "b"]));
    assert_eq!(value_to_strings(&Json::text("one")).unwrap(), texts(&["one"]));
    assert_eq!(value_to_strings(&Json::text("[1, \"a\", -2, 1.5]")).unwrap(), texts(&["1", "a", "-2", "1.5"]));
    assert_eq!(value_to_strings(&Json::text("[x")).unwrap(), texts(&["[x"]));
    assert!(matches!(
        value_to_strings(&Json::text("[null]")),
        Err(ToolErrorOf::IdaError(m)) if m == "expected string or number"
    ));
    assert!(matches!(
        value_to_strings(&Json::text("  ")),
        Err(ToolErrorOf::IdaError(m)) if m == "empty string"
    ));
    assert_eq!(value_to_strings(&Json::number(7)).unwrap(), texts(&["7"]));
    assert_eq!(
        value_to_strings(&Json::Array(vec![Json::number(7), Json::text(" x ")])).unwrap(),
        texts(&["7", " x "])
    );
    assert!(value_to_strings(&Json::Array(vec![Json::Null])).is_err());
    assert!(matches!(
        value_to_strings(&Json::Null),
        Err(ToolErrorOf::IdaError(m)) if m == "expected string, number, or array"
    ));
    assert_eq!(
        texts_from_text("[9]", Some(Json::Array(vec![Json::number(9)]))).unwrap(),
        texts(&["9"])
    );
}

#[test]
fn arguments_stand_for_addresses_and_bytes() {
    assert_eq!(value_to_addresses(&Json::text("0x10, 17")).unwrap(), vec![16, 17]);
    assert!(matches!(
        value_to_addresses(&Json::text("0x10, zz")),
        Err(ToolErrorOf::InvalidAddress(m)) if m == "zz"
    ));
    assert_eq!(value_to_single_address(&Json::text("0x10, 17")).unwrap(), 16);
    assert!(value_to_exactly_one_address(&Json::text("0x10, 17"), "address").is_err());
    assert_eq!(parse_address("0b11").unwrap(), 3);
    assert_eq!(value_to_bytes(&Json::text("de ad")).unwrap(), vec![0xde, 0xad]);
    assert_eq!(
        value_to_bytes(&Json::Array(vec![Json::number(1), Json::number(255)])).unwrap(),
        vec![1, 255]
    );
    assert!(value_to_bytes(&Json::Array(vec![Json::number(256)])).is_err());
    assert!(value_to_bytes(&Json::Null).is_err());
}

#[test]
fn wire_numbers_are_checked() {
    assert_eq!(optional_count(None, "limit").unwrap(), None);
    assert_eq!(optional_count(Some(5), "limit").unwrap(), Some(5));
    assert!(matches!(
        optional_count(Some(-1), "limit"),
        Err(ToolErrorOf::InvalidParams(m)) if m.contains("limit")
    ));
    assert!(optional_secs(Some(-1), "timeout_secs").is_err());
    assert!(optional_ordinal(Some(1 << 32), "ordinal").is_err());
    assert_eq!(optional_ordinal(Some((1 << 32) - 1), "ordinal").unwrap(), Some(u32::MAX));
    assert!(optional_flags(Some(1 << 31), "flags").is_err());
    assert_eq!(cap_count(None, 7, 15), 7);
    assert_eq!(cap_count(Some(99), 7, 15), 15);
}

#[test]
fn output_is_cut_by_lines() {
    assert_eq!(apply_line_offset("a\nb\nc", 1), "b\nc");
    assert_eq!(apply_line_offset("a\nb", 9), "");
    assert_eq!(apply_max_lines("a\nb", 0), "a\nb");
    assert_eq!(
        apply_max_lines("a\nb\nc", 1),
        "a\n// ... (2 lines truncated, use --max-lines 0 for full output)"
    );
    assert_eq!(disasm_window(20, 5), 25);
    assert_eq!(disasm_reply("a\nb", 1).get("disasm"), Some(&Json::text("b")));
    assert_eq!(
        decompile_reply("a\nb", 1).str_field("pseudocode").map(|s| s.as_str()),
        Some("a\n// ... (1 lines truncated, use --max-lines 0 for full output)")
    );
}

#[test]
fn the_later_of_two_fields_counts() {
    let mut o = JsonObject::new();
    o.put("k", Json::number(1));
    o.put("k", Json::number(2));
    o.put("b", Json::Null);
    assert_eq!(o.get("k"), Some(&Json::number(2)));
    assert_eq!(o.names(), texts(&["b", "k"]));
    o.take_away("k");
    assert!(!o.has("k"));
    assert_eq!(Num::Negative(-3).text(), "-3");
    assert_eq!(Json::signed(-3).as_i64(), Some(-3));
    assert_eq!(Json::signed(3).as_u64(), Some(3));
    assert_eq!(Json::number(u64::MAX).as_i64(), None);
}
