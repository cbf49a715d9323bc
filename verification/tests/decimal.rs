use moodlight::decimal::parse_channel;

fn std_reading(text: &str) -> Option<i32> {
    text.parse::<i32>().ok()
}

#[test]
fn plain_numbers_are_read() {
    assert_eq!(parse_channel("0"), Some(0));
    assert_eq!(parse_channel("7"), Some(7));
    assert_eq!(parse_channel("10"), Some(10));
    assert_eq!(parse_channel("255"), Some(255));
    assert_eq!(parse_channel("39"), Some(39));
    assert_eq!(parse_channel("1000000"), Some(1_000_000));
}

#[test]
fn signs_are_read() {
    assert_eq!(parse_channel("+5"), Some(5));
    assert_eq!(parse_channel("-5"), Some(-5));
    assert_eq!(parse_channel("-0"), Some(0));
    assert_eq!(parse_channel("+0"), Some(0));
    assert_eq!(parse_channel("-255"), Some(-255));
}

#[test]
fn leading_zeros_are_read() {
    assert_eq!(parse_channel("007"), Some(7));
    assert_eq!(parse_channel("-007"), Some(-7));
    assert_eq!(parse_channel("0000000000000000000001"), Some(1));
    assert_eq!(parse_channel("00000000002147483647"), Some(i32::MAX));
}

#[test]
fn the_ends_of_the_range_are_read() {
    assert_eq!(parse_channel("2147483647"), Some(i32::MAX));
    assert_eq!(parse_channel("+2147483647"), Some(i32::MAX));
    assert_eq!(parse_channel("-2147483648"), Some(i32::MIN));
    assert_eq!(parse_channel("-2147483647"), Some(-2147483647));
}

#[test]
fn numbers_beyond_the_range_are_refused() {
    assert_eq!(parse_channel("2147483648"), None);
    assert_eq!(parse_channel("+2147483648"), None);
    assert_eq!(parse_channel("-2147483649"), None);
    assert_eq!(parse_channel("4294967296"), None);
    assert_eq!(parse_channel("99999999999999999999"), None);
    assert_eq!(parse_channel("-99999999999999999999"), None);
    assert_eq!(parse_channel("9223372036854775808"), None);
    assert_eq!(parse_channel("21474836470"), None);
}

#[test]
fn text_without_digits_is_refused() {
    assert_eq!(parse_channel(""), None);
    assert_eq!(parse_channel("+"), None);
    assert_eq!(parse_channel("-"), None);
    assert_eq!(parse_channel("abc"), None);
    assert_eq!(parse_channel("red"), None);
    assert_eq!(parse_channel("--"), None);
    assert_eq!(parse_channel("+-"), None);
}

#[test]
fn text_around_a_number_is_refused() {
    assert_eq!(parse_channel(" 5"), None);
    assert_eq!(parse_channel("5 "), None);
    assert_eq!(parse_channel("5\n"), None);
    assert_eq!(parse_channel("1_000"), None);
    assert_eq!(parse_channel("1,000"), None);
    assert_eq!(parse_channel("1.5"), None);
    assert_eq!(parse_channel("1e3"), None);
    assert_eq!(parse_channel("0x10"), None);
    assert_eq!(parse_channel("12a"), None);
    assert_eq!(parse_channel("a12"), None);
    assert_eq!(parse_channel("--5"), None);
    assert_eq!(parse_channel("+-5"), None);
    assert_eq!(parse_channel("5-"), None);
    assert_eq!(parse_channel("5+5"), None);
    assert_eq!(parse_channel("99999999999x"), None);
}

#[test]
fn digits_of_other_scripts_are_refused() {
    assert_eq!(parse_channel("\u{ff15}"), None);
    assert_eq!(parse_channel("\u{661}\u{662}"), None);
    assert_eq!(parse_channel("1\u{e9}"), None);
    assert_eq!(parse_channel("\u{e9}1"), None);
    assert_eq!(parse_channel("-\u{2212}5"), None);
    assert_eq!(parse_channel("\u{2212}5"), None);
    assert_eq!(parse_channel("5\u{1f600}"), None);
}

#[test]
fn the_neighbours_of_the_digits_are_refused() {
    assert_eq!(parse_channel("/"), None);
    assert_eq!(parse_channel(":"), None);
    assert_eq!(parse_channel("1/"), None);
    assert_eq!(parse_channel("1:"), None);
    assert_eq!(parse_channel(","), None);
    assert_eq!(parse_channel("."), None);
}

#[test]
fn every_number_written_out_is_read_back() {
    let samples: [i32; 16] = [
        0,
        1,
        -1,
        9,
        10,
        -10,
        39,
        103,
        245,
        255,
        256,
        -32768,
        65535,
        1_000_000_007,
        i32::MAX,
        i32::MIN,
    ];
    for n in samples {
        assert_eq!(parse_channel(&n.to_string()), Some(n));
    }
    let mut n: i64 = i32::MIN as i64;
    while n <= i32::MAX as i64 {
        assert_eq!(parse_channel(&n.to_string()), Some(n as i32));
        n += 9_999_991;
    }
    for n in -1000..=1000 {
        assert_eq!(parse_channel(&n.to_string()), Some(n));
    }
}

#[test]
fn reading_agrees_with_the_standard_library() {
    let texts = [
        "", "+", "-", "0", "-0", "+0", "00", "5", "+5", "-5", "++5", " 5", "5 ", "12", "1 2", "1_2",
        "255", "256", "0255", "2147483647", "2147483648", "-2147483648", "-2147483649",
        "+2147483647", "+2147483648", "3000000000", "12345678901234567890", "1.0", "1e1", "0x1f",
        "\u{661}\u{662}\u{663}", "\u{ff15}", "a", "-a", "1a", "a1", "99999999999x", "x99999999999", "+-1", "-+1", "\t1",
        "1\0", "\0",
    ];
    for text in texts {
        assert_eq!(parse_channel(text), std_reading(text), "reading {:?}", text);
    }
}

#[test]
fn reading_in_every_length_agrees_with_the_standard_library() {
    let alphabet = ['0', '1', '9', '+', '-', 'a', ' '];
    let mut texts: Vec<String> = vec![String::new()];
    let mut round = 0;
    while round < 4 {
        let mut longer: Vec<String> = Vec::new();
        for text in &texts {
            for c in alphabet {
                let mut next = text.clone();
                next.push(c);
                longer.push(next);
            }
        }
        for text in &longer {
            assert_eq!(parse_channel(text), std_reading(text), "reading {:?}", text);
        }
        texts = longer;
        round += 1;
    }
}
