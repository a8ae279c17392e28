use tbc_wdb_parser::clamp::{i16_clamp_from_i32, min_u32, u16_clamp_from_i32, u8_clamp_from_i32};
use tbc_wdb_parser::reader::{read_cstring_utf8_lossy, read_f32_bits_le, read_i32_le, read_u32_le};
use tbc_wdb_parser::text::{
    byte_list_to_string, greet, int_to_string, join_strings, sql_escape_str, truncate_chars,
    uint_to_string,
};

#[test]
fn read_u32_le_reads_little_endian_and_advances() {
    let data = [0x78u8, 0x56, 0x34, 0x12, 0xff, 0xff, 0xff, 0xff];
    let mut pos = 0usize;
    assert_eq!(read_u32_le(&data, &mut pos), Ok(0x1234_5678));
    assert_eq!(pos, 4);
    assert_eq!(read_u32_le(&data, &mut pos), Ok(u32::MAX));
    assert_eq!(pos, 8);
}

#[test]
fn read_u32_le_past_end_is_an_error_and_keeps_the_cursor() {
    let data = [1u8, 2, 3, 4, 5, 6];
    let mut pos = 3usize;
    assert_eq!(read_u32_le(&data, &mut pos), Err("unexpected EOF while reading u32".to_string()));
    assert_eq!(pos, 3);
    let mut far = 100usize;
    assert!(read_u32_le(&data, &mut far).is_err());
    assert_eq!(far, 100);
}

#[test]
fn read_i32_le_is_twos_complement() {
    let data = [0xfeu8, 0xff, 0xff, 0xff, 0x05, 0, 0, 0];
    let mut pos = 0usize;
    assert_eq!(read_i32_le(&data, &mut pos), Ok(-2));
    assert_eq!(read_i32_le(&data, &mut pos), Ok(5));
    assert_eq!(read_i32_le(&data, &mut pos), Err("unexpected EOF while reading u32".to_string()));
}

#[test]
fn read_f32_bits_le_gives_the_bit_pattern() {
    let bytes = 1.5f32.to_le_bytes();
    let mut pos = 0usize;
    assert_eq!(read_f32_bits_le(&bytes, &mut pos), Ok(1.5f32.to_bits()));
    assert_eq!(pos, 4);
    assert_eq!(read_f32_bits_le(&bytes, &mut pos), Err("unexpected EOF while reading f32".to_string()));
    assert_eq!(pos, 4);
}

#[test]
fn read_cstring_reads_up_to_the_nul() {
    let data = b"Sword\0Shield\0";
    let mut pos = 0usize;
    assert_eq!(read_cstring_utf8_lossy(data, &mut pos), Ok("Sword".to_string()));
    assert_eq!(pos, 6);
    assert_eq!(read_cstring_utf8_lossy(data, &mut pos), Ok("Shield".to_string()));
    assert_eq!(pos, 13);
}

#[test]
fn read_cstring_empty_string() {
    let data = [0u8, 65];
    let mut pos = 0usize;
    assert_eq!(read_cstring_utf8_lossy(&data, &mut pos), Ok(String::new()));
    assert_eq!(pos, 1);
}

#[test]
fn read_cstring_decodes_utf8_and_replaces_invalid_bytes() {
    let data = [0xc3u8, 0xa9, 0xff, b'a', 0];
    let mut pos = 0usize;
    assert_eq!(read_cstring_utf8_lossy(&data, &mut pos), Ok("\u{e9}\u{fffd}a".to_string()));
    assert_eq!(pos, 5);
}

#[test]
fn read_cstring_unterminated_moves_to_the_end() {
    let data = b"abc";
    let mut pos = 1usize;
    assert_eq!(read_cstring_utf8_lossy(data, &mut pos), Err("unterminated C-string".to_string()));
    assert_eq!(pos, 3);
    let mut beyond = 7usize;
    assert!(read_cstring_utf8_lossy(data, &mut beyond).is_err());
    assert_eq!(beyond, 7);
}

#[test]
fn decimal_rendering_matches_to_string() {
    for n in [0u64, 7, 10, 99, 100, 4294967295, u64::MAX] {
        assert_eq!(uint_to_string(n), n.to_string());
    }
    for v in [0i64, -1, 42, -32768, i64::MIN, i64::MAX] {
        assert_eq!(int_to_string(v), v.to_string());
    }
}

#[test]
fn join_strings_matches_std_join() {
    let parts = vec!["a".to_string(), "bc".to_string(), "".to_string(), "d".to_string()];
    assert_eq!(join_strings(&parts, ", "), parts.join(", "));
    assert_eq!(join_strings(&Vec::new(), ", "), "");
    assert_eq!(join_strings(&vec!["x".to_string()], ", "), "x");
}

#[test]
fn byte_list_like_debug() {
    let sig = [66u8, 68, 73, 88];
    assert_eq!(byte_list_to_string(&sig), format!("{:?}", &sig[..]));
    assert_eq!(byte_list_to_string(&[]), "[]");
}

#[test]
fn sql_escape_doubles_quotes_and_backslashes() {
    assert_eq!(sql_escape_str("Arcanite Reaper"), "Arcanite Reaper");
    assert_eq!(sql_escape_str("Kel'Thuzad's"), "Kel''Thuzad''s");
    assert_eq!(sql_escape_str("a\\b"), "a\\\\b");
    assert_eq!(sql_escape_str("line1\r\nline2"), "line1\\r\\nline2");
    assert_eq!(sql_escape_str(""), "");
    assert_eq!(sql_escape_str("\u{e9}t\u{e9}"), "\u{e9}t\u{e9}");
}

#[test]
fn sql_escape_leaves_no_line_breaks() {
    let escaped = sql_escape_str("x\ny\rz'\\");
    assert!(!escaped.contains('\n'));
    assert!(!escaped.contains('\r'));
    assert_eq!(escaped, "x\\ny\\rz''\\\\");
}

#[test]
fn truncate_chars_counts_characters() {
    assert_eq!(truncate_chars("hello", 3), "hel");
    assert_eq!(truncate_chars("hello", 5), "hello");
    assert_eq!(truncate_chars("hello", 9), "hello");
    assert_eq!(truncate_chars("h\u{e9}llo", 2), "h\u{e9}");
    assert_eq!(truncate_chars("abc", 0), "");
    let long: String = std::iter::repeat('x').take(300).collect();
    assert_eq!(truncate_chars(&long, 255).chars().count(), 255);
}

#[test]
fn greet_says_hello() {
    assert_eq!(greet("Thrall"), "Hello, Thrall! You've been greeted from Rust!");
}

#[test]
fn u8_clamp_edges() {
    assert_eq!(u8_clamp_from_i32(i32::MIN), 0);
    assert_eq!(u8_clamp_from_i32(-1), 0);
    assert_eq!(u8_clamp_from_i32(0), 0);
    assert_eq!(u8_clamp_from_i32(17), 17);
    assert_eq!(u8_clamp_from_i32(254), 254);
    assert_eq!(u8_clamp_from_i32(255), 255);
    assert_eq!(u8_clamp_from_i32(256), 255);
    assert_eq!(u8_clamp_from_i32(i32::MAX), 255);
}

#[test]
fn u16_clamp_edges() {
    assert_eq!(u16_clamp_from_i32(-5), 0);
    assert_eq!(u16_clamp_from_i32(1234), 1234);
    assert_eq!(u16_clamp_from_i32(65535), 65535);
    assert_eq!(u16_clamp_from_i32(70000), 65535);
}

#[test]
fn i16_clamp_edges() {
    assert_eq!(i16_clamp_from_i32(-40000), -32768);
    assert_eq!(i16_clamp_from_i32(-32768), -32768);
    assert_eq!(i16_clamp_from_i32(-3), -3);
    assert_eq!(i16_clamp_from_i32(32767), 32767);
    assert_eq!(i16_clamp_from_i32(40000), 32767);
}

#[test]
fn min_u32_picks_smaller() {
    assert_eq!(min_u32(3, 9), 3);
    assert_eq!(min_u32(300, 255), 255);
    assert_eq!(min_u32(5, 5), 5);
}

/// How MySQL reads the body of a single-quoted literal.
fn mysql_unescape(t: &str) -> String {
    let chars: Vec<char> = t.chars().collect();
    let mut out = String::new();
    let mut i = 0;
    while i < chars.len() {
        if chars[i] == '\'' && i + 1 < chars.len() && chars[i + 1] == '\'' {
            out.push('\'');
            i += 2;
        } else if chars[i] == '\\' && i + 1 < chars.len() {
            out.push(match chars[i + 1] {
                'r' => '\r',
                'n' => '\n',
                c => c,
            });
            i += 2;
        } else {
            out.push(chars[i]);
            i += 1;
        }
    }
    out
}

#[test]
fn sql_escape_reads_back_as_the_original() {
    for s in ["", "plain", "it's", "''", "\\", "\\'", "a\\nb", "x\r\ny", "\\\\r", "end\\", "\u{e9}'\u{e9}"] {
        assert_eq!(mysql_unescape(&sql_escape_str(s)), s);
    }
}
