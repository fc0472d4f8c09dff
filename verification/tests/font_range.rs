use character_twister::config::{default_config, Configuration, FONT_SIZE_FLOOR};
use character_twister::range::{apply_font_range, parse_font_range, RangeError};

#[test]
fn range_in_order() {
    assert_eq!(parse_font_range("12:14"), Ok((12, 14)));
}

#[test]
fn range_out_of_order_is_normalised() {
    assert_eq!(parse_font_range("14:12"), Ok((12, 14)));
}

#[test]
fn range_below_floor_is_rejected() {
    assert_eq!(parse_font_range("3:20"), Err(RangeError::BelowFloor));
    assert_eq!(parse_font_range("20:3"), Err(RangeError::BelowFloor));
    assert_eq!(parse_font_range("0:0"), Err(RangeError::BelowFloor));
    assert_eq!(parse_font_range("-5:20"), Err(RangeError::BelowFloor));
    assert_eq!(parse_font_range("-128:127"), Err(RangeError::BelowFloor));
}

#[test]
fn range_with_a_word_is_rejected() {
    assert_eq!(parse_font_range("abc:12"), Err(RangeError::NotAnInteger));
    assert_eq!(parse_font_range("12:abc"), Err(RangeError::NotAnInteger));
}

#[test]
fn range_of_one_token_is_rejected() {
    assert_eq!(parse_font_range("12"), Err(RangeError::MissingColon));
    assert_eq!(parse_font_range(""), Err(RangeError::MissingColon));
    assert_eq!(parse_font_range("abc"), Err(RangeError::MissingColon));
}

#[test]
fn range_of_three_tokens_is_rejected() {
    assert_eq!(parse_font_range("1:2:3"), Err(RangeError::ExtraColon));
    assert_eq!(parse_font_range("12::14"), Err(RangeError::ExtraColon));
    assert_eq!(parse_font_range("::"), Err(RangeError::ExtraColon));
    assert_eq!(parse_font_range("8:9:10:11"), Err(RangeError::ExtraColon));
    assert_eq!(parse_font_range("a:b:c"), Err(RangeError::ExtraColon));
}

#[test]
fn range_at_the_floor_is_accepted() {
    assert_eq!(FONT_SIZE_FLOOR, 4);
    assert_eq!(parse_font_range("4:4"), Ok((4, 4)));
    assert_eq!(parse_font_range("4:127"), Ok((4, 127)));
    assert_eq!(parse_font_range("127:4"), Ok((4, 127)));
    assert_eq!(parse_font_range("3:4"), Err(RangeError::BelowFloor));
    assert_eq!(parse_font_range("4:3"), Err(RangeError::BelowFloor));
}

#[test]
fn range_with_empty_side_is_rejected() {
    assert_eq!(parse_font_range(":"), Err(RangeError::NotAnInteger));
    assert_eq!(parse_font_range("12:"), Err(RangeError::NotAnInteger));
    assert_eq!(parse_font_range(":14"), Err(RangeError::NotAnInteger));
}

#[test]
fn range_values_must_fit_eight_bits() {
    assert_eq!(parse_font_range("128:5"), Err(RangeError::NotAnInteger));
    assert_eq!(parse_font_range("5:128"), Err(RangeError::NotAnInteger));
    assert_eq!(parse_font_range("5:1000000000000000000000000"), Err(RangeError::NotAnInteger));
    assert_eq!(parse_font_range("-129:5"), Err(RangeError::NotAnInteger));
    assert_eq!(parse_font_range("5:127"), Ok((5, 127)));
}

#[test]
fn range_values_may_carry_a_sign_and_zeros() {
    assert_eq!(parse_font_range("+12:14"), Ok((12, 14)));
    assert_eq!(parse_font_range("12:+14"), Ok((12, 14)));
    assert_eq!(parse_font_range("0012:000000000000000000014"), Ok((12, 14)));
    assert_eq!(parse_font_range("+:14"), Err(RangeError::NotAnInteger));
    assert_eq!(parse_font_range("-:14"), Err(RangeError::NotAnInteger));
    assert_eq!(parse_font_range("++12:14"), Err(RangeError::NotAnInteger));
    assert_eq!(parse_font_range("1+2:14"), Err(RangeError::NotAnInteger));
    assert_eq!(parse_font_range("-0:14"), Err(RangeError::BelowFloor));
}

#[test]
fn range_values_take_no_blanks_or_other_digits() {
    assert_eq!(parse_font_range(" 12:14"), Err(RangeError::NotAnInteger));
    assert_eq!(parse_font_range("12 :14"), Err(RangeError::NotAnInteger));
    assert_eq!(parse_font_range("12: 14"), Err(RangeError::NotAnInteger));
    assert_eq!(parse_font_range("12:14\n"), Err(RangeError::NotAnInteger));
    assert_eq!(parse_font_range("1_2:14"), Err(RangeError::NotAnInteger));
    assert_eq!(parse_font_range("12.0:14"), Err(RangeError::NotAnInteger));
    assert_eq!(parse_font_range("0x10:14"), Err(RangeError::NotAnInteger));
    assert_eq!(parse_font_range("１２:14"), Err(RangeError::NotAnInteger));
    assert_eq!(parse_font_range("é:12"), Err(RangeError::NotAnInteger));
    assert_eq!(parse_font_range("12：14"), Err(RangeError::MissingColon));
}

#[test]
fn tokens_are_read_as_the_standard_library_reads_them() {
    let mut tokens: Vec<String> = Vec::new();
    for n in -300..300 {
        tokens.push(format!("{}", n));
        tokens.push(format!("+{}", n));
        tokens.push(format!("0{}", n));
        tokens.push(format!("{}0", n));
        tokens.push(format!("{} ", n));
    }
    for t in ["", "+", "-", "--1", "+-1", "1-", "a", "1a", "a1", "٣", "12e1", "0", "00", "-00", "+0127", "-0128", "0129"] {
        tokens.push(t.to_string());
    }
    for token in tokens {
        let expected = match token.parse::<i8>() {
            Ok(v) if v < 4 => Err(RangeError::BelowFloor),
            Ok(v) => Ok((v.min(100), v.max(100))),
            Err(_) => Err(RangeError::NotAnInteger),
        };
        assert_eq!(parse_font_range(&format!("{}:100", token)), expected, "{:?}", token);
        assert_eq!(parse_font_range(&format!("100:{}", token)), expected, "{:?}", token);
    }
}

#[test]
fn exchanging_the_sides_changes_nothing() {
    let sides = ["12", "14", "3", "4", "127", "128", "abc", "", "+7", "-7", " 9"];
    for left in sides {
        for right in sides {
            assert_eq!(
                parse_font_range(&format!("{}:{}", left, right)),
                parse_font_range(&format!("{}:{}", right, left)),
                "{:?} {:?}",
                left,
                right
            );
        }
    }
}

#[test]
fn every_pair_of_sizes_is_normalised() {
    for a in 4..=127i8 {
        for b in 4..=127i8 {
            let (low, high) = parse_font_range(&format!("{}:{}", a, b)).unwrap();
            assert_eq!((low, high), (a.min(b), a.max(b)));
            assert!(FONT_SIZE_FLOOR <= low && low <= high);
        }
    }
}

#[test]
fn accepted_range_replaces_the_sizes() {
    let mut config = default_config();
    assert_eq!(apply_font_range(&mut config, "14:12"), Ok(()));
    assert_eq!(
        config,
        Configuration {
            input_path: "./".to_string(),
            font_size_min: 12,
            font_size_max: 14,
            font_name: "FreeMono".to_string(),
        }
    );
}

#[test]
fn rejected_range_leaves_the_sizes() {
    let prior = Configuration {
        input_path: "scans".to_string(),
        font_size_min: 11,
        font_size_max: 19,
        font_name: "SomeFont".to_string(),
    };
    for (text, reason) in [
        ("3:20", RangeError::BelowFloor),
        ("abc:12", RangeError::NotAnInteger),
        ("12", RangeError::MissingColon),
        ("1:2:3", RangeError::ExtraColon),
    ] {
        let mut config = prior.clone();
        assert_eq!(apply_font_range(&mut config, text), Err(reason), "{:?}", text);
        assert_eq!(config, prior, "{:?}", text);
    }
}
