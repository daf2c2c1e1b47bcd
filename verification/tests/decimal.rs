use evm_bench::decimal::{parse_decimal, parse_u32, parse_u8};

#[test]
fn parse_u8_reads_plain_numbers() {
    assert_eq!(parse_u8("0"), Some(0));
    assert_eq!(parse_u8("1"), Some(1));
    assert_eq!(parse_u8("10"), Some(10));
    assert_eq!(parse_u8("255"), Some(255));
}

#[test]
fn parse_u8_refuses_what_does_not_fit() {
    assert_eq!(parse_u8("256"), None);
    assert_eq!(parse_u8("260"), None);
    assert_eq!(parse_u8("300"), None);
    assert_eq!(parse_u8("1000"), None);
    assert_eq!(parse_u8("99999999999999999999999999999999999999"), None);
}

#[test]
fn parse_u8_allows_a_plus_sign_and_leading_zeros() {
    assert_eq!(parse_u8("+7"), Some(7));
    assert_eq!(parse_u8("+255"), Some(255));
    assert_eq!(parse_u8("007"), Some(7));
    assert_eq!(parse_u8("+000"), Some(0));
    assert_eq!(parse_u8("0000000000000000000000000000000000000255"), Some(255));
}

#[test]
fn parse_u8_refuses_malformed_text() {
    for text in [
        "", "+", "-", "-1", "-0", "++1", "+-1", "1+", " 1", "1 ", "1_0", "0x10", "1.0", "1e2",
        "one", "\u{661}", "１", "12a", "a12", "2 5", "+ 5",
    ] {
        assert_eq!(parse_u8(text), None, "text {text:?}");
    }
}

#[test]
fn parse_u8_refuses_overflow_followed_by_rubbish() {
    assert_eq!(parse_u8("999x"), None);
    assert_eq!(parse_u8("25x"), None);
}

#[test]
fn parse_u8_agrees_with_the_standard_library() {
    for n in 0..2000u32 {
        for text in [format!("{n}"), format!("+{n}"), format!("0{n}"), format!("{n}0")] {
            assert_eq!(parse_u8(&text), text.parse::<u8>().ok(), "text {text:?}");
        }
    }
    for text in ["", "+", "-", "-5", "+-5", " 5", "5 ", "٥", "0255", "0256", "+0", "-0", "\0"] {
        assert_eq!(parse_u8(text), text.parse::<u8>().ok(), "text {text:?}");
    }
}

#[test]
fn parse_u32_reads_up_to_its_maximum() {
    assert_eq!(parse_u32("0"), Some(0));
    assert_eq!(parse_u32("1000"), Some(1000));
    assert_eq!(parse_u32("4294967295"), Some(u32::MAX));
    assert_eq!(parse_u32("4294967296"), None);
    assert_eq!(parse_u32("4294967300"), None);
    assert_eq!(parse_u32("42949672950"), None);
    assert_eq!(parse_u32("18446744073709551616"), None);
    assert_eq!(parse_u32("+0004294967295"), Some(u32::MAX));
}

#[test]
fn parse_u32_agrees_with_the_standard_library() {
    for text in [
        "", "+", "-1", "12", "+12", "4294967294", "4294967295", "4294967296", "4294967305",
        "9999999999", "99999999999999999999", "00000000000000000000001", "1 ", "1\n", "0x1",
    ] {
        assert_eq!(parse_u32(text), text.parse::<u32>().ok(), "text {text:?}");
    }
}

#[test]
fn parse_decimal_respects_the_given_maximum() {
    assert_eq!(parse_decimal(b"0", 0), Some(0));
    assert_eq!(parse_decimal(b"1", 0), None);
    assert_eq!(parse_decimal(b"9", 9), Some(9));
    assert_eq!(parse_decimal(b"10", 9), None);
    assert_eq!(parse_decimal(b"18446744073709551615", u64::MAX), Some(u64::MAX));
    assert_eq!(parse_decimal(b"18446744073709551616", u64::MAX), None);
    assert_eq!(parse_decimal(b"184467440737095516150", u64::MAX), None);
    assert_eq!(parse_decimal(b"+42", 100), Some(42));
    assert_eq!(parse_decimal(b"", 100), None);
}

#[test]
fn parse_u8_agrees_with_the_standard_library_on_sampled_texts() {
    let alphabet = [b'0', b'1', b'2', b'5', b'6', b'9', b'+', b'-', b' ', b'a'];
    let mut state: u64 = 0x9e37_79b9_7f4a_7c15;
    for _ in 0..20000 {
        let mut text = String::new();
        state = state.wrapping_mul(6364136223846793005).wrapping_add(1442695040888963407);
        let len = (state >> 60) as usize % 6;
        for _ in 0..len {
            state = state.wrapping_mul(6364136223846793005).wrapping_add(1442695040888963407);
            text.push(alphabet[(state >> 33) as usize % alphabet.len()] as char);
        }
        assert_eq!(parse_u8(&text), text.parse::<u8>().ok(), "text {text:?}");
        assert_eq!(parse_u32(&text), text.parse::<u32>().ok(), "text {text:?}");
    }
}
