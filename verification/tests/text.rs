use arrakis::text::{
    char_to_digit, digit_to_char, find_char, from_chars, i64_to_decimal, join_with, parse_u32,
    replace, split_on, str_eq, text_less, to_chars, u32_to_decimal, u64_to_decimal,
};

fn strings(items: &[&str]) -> Vec<String> {
    items.iter().map(|s| s.to_string()).collect()
}

#[test]
fn split_keeps_empty_pieces() {
    assert_eq!(split_on("a,b,,c", ','), strings(&["a", "b", "", "c"]));
    assert_eq!(split_on("", ','), strings(&[""]));
    assert_eq!(split_on(",", ','), strings(&["", ""]));
    assert_eq!(split_on("abc", ','), strings(&["abc"]));
    assert_eq!(split_on("a,", ','), strings(&["a", ""]));
    assert_eq!(split_on("é,ü", ','), strings(&["é", "ü"]));
}

#[test]
fn split_agrees_with_std() {
    for text in ["", "a", "a&b", "&&", "x=1&y=2&", "&x"] {
        let expected: Vec<String> = text.split('&').map(|s| s.to_string()).collect();
        assert_eq!(split_on(text, '&'), expected);
    }
}

#[test]
fn join_puts_the_separator_between() {
    assert_eq!(join_with(&strings(&["a", "b", "c"]), ", "), "a, b, c");
    assert_eq!(join_with(&strings(&["a"]), ", "), "a");
    assert_eq!(join_with(&strings(&[]), ", "), "");
    assert_eq!(join_with(&strings(&["", ""]), "-"), "-");
}

#[test]
fn replace_changes_every_occurrence() {
    assert_eq!(replace("a*b*", '*', '%'), "a%b%");
    assert_eq!(replace("", '*', '%'), "");
    assert_eq!(replace("abc", '*', '%'), "abc");
    assert_eq!(replace("***", '*', '%'), "%%%");
}

#[test]
fn chars_go_there_and_back() {
    let v = to_chars("héllo");
    assert_eq!(v, vec!['h', 'é', 'l', 'l', 'o']);
    assert_eq!(from_chars(&v, 0, 5), "héllo");
    assert_eq!(from_chars(&v, 1, 3), "él");
    assert_eq!(from_chars(&v, 2, 2), "");
}

#[test]
fn find_gives_the_first_position() {
    let v = to_chars("a.b.c");
    assert_eq!(find_char(&v, 0, '.'), 1);
    assert_eq!(find_char(&v, 2, '.'), 3);
    assert_eq!(find_char(&v, 4, '.'), 5);
    assert_eq!(find_char(&v, 5, '.'), 5);
    assert_eq!(find_char(&v, 0, 'x'), 5);
}

#[test]
fn equality_is_by_text() {
    assert!(str_eq("abc", "abc"));
    assert!(!str_eq("abc", "abd"));
    assert!(!str_eq("abc", "ab"));
    assert!(str_eq("", ""));
}

#[test]
fn order_is_that_of_std() {
    let samples = ["", "a", "ab", "b", "B", "aa", "é", "z", "limit", "select", "~", "日本"];
    for a in samples {
        for b in samples {
            assert_eq!(text_less(a, b), a < b, "{:?} < {:?}", a, b);
        }
    }
}

#[test]
fn digits_are_characters() {
    assert_eq!(digit_to_char(0), '0');
    assert_eq!(digit_to_char(9), '9');
    assert_eq!(char_to_digit('7'), Some(7));
    assert_eq!(char_to_digit('a'), None);
    assert_eq!(char_to_digit('٣'), None);
}

#[test]
fn unsigned_numbers_are_written_in_decimal() {
    assert_eq!(u64_to_decimal(0), "0");
    assert_eq!(u64_to_decimal(7), "7");
    assert_eq!(u64_to_decimal(10), "10");
    assert_eq!(u64_to_decimal(1234567890), "1234567890");
    assert_eq!(u64_to_decimal(u64::MAX), "18446744073709551615");
    assert_eq!(u32_to_decimal(u32::MAX), "4294967295");
    assert_eq!(u32_to_decimal(0), "0");
}

#[test]
fn signed_numbers_are_written_in_decimal() {
    assert_eq!(i64_to_decimal(0), "0");
    assert_eq!(i64_to_decimal(-1), "-1");
    assert_eq!(i64_to_decimal(42), "42");
    assert_eq!(i64_to_decimal(-9000), "-9000");
    assert_eq!(i64_to_decimal(i64::MAX), "9223372036854775807");
    assert_eq!(i64_to_decimal(i64::MIN), "-9223372036854775808");
}

#[test]
fn numbers_are_read_as_std_reads_them() {
    let samples = [
        "0", "7", "007", "+7", "+", "", "-1", "-0", "4294967295", "4294967296", "42949672950",
        "99999999999999999999999", "1 ", " 1", "1_000", "0x10", "1.0", "++1", "+-1", "٣", "12a",
    ];
    for text in samples {
        assert_eq!(parse_u32(text), text.parse::<u32>().ok(), "{:?}", text);
    }
}
