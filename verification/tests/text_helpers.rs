use panopticon_m365::text::{
    ascending_strings, contains_str, copy_chars, count_char, decimal, digits, join2, join3,
    only_alphanumeric_or, split_nonempty, str_before, str_eq, trim, trim_leading,
};

const SAMPLES: &[&str] = &[
    "",
    "/",
    "//",
    "a",
    "/a",
    "a/",
    "//a//b///c/",
    "/subscriptions/s/resourceGroups/g",
    "no slashes at all",
    "  padded  ",
    "\t\n tabs and lines \r\n",
    "\u{2003}em space\u{2003}",
    "\u{a0}no-break space\u{a0}",
    "\u{200b}zero width is no white space\u{200b}",
    "ünïcödé/päth/",
    "日本語/テキスト//",
    "----",
    "a-b-c-d-e",
];

#[test]
fn characters_are_copied_in_order() {
    for s in SAMPLES {
        assert_eq!(copy_chars(s), s.chars().collect::<Vec<char>>());
    }
}

#[test]
fn equality_is_that_of_the_characters() {
    for a in SAMPLES {
        for b in SAMPLES {
            assert_eq!(str_eq(a, b), a == b);
        }
    }
}

#[test]
fn joining_puts_texts_in_a_row() {
    assert_eq!(join2("ab", "cd"), "abcd");
    assert_eq!(join2("", ""), "");
    assert_eq!(join3("a", "", "ü"), "aü");
    assert_eq!(join3("x/", "y", "/z"), "x/y/z");
}

#[test]
fn leading_separators_go_and_all_else_stays() {
    assert_eq!(trim_leading("///a/b/", '/'), "a/b/");
    assert_eq!(trim_leading("a/b", '/'), "a/b");
    assert_eq!(trim_leading("////", '/'), "");
    assert_eq!(trim_leading("", '/'), "");
    for s in SAMPLES {
        assert_eq!(trim_leading(s, '/'), s.trim_start_matches('/'));
        assert_eq!(trim_leading(s, '-'), s.trim_start_matches('-'));
    }
}

#[test]
fn white_space_goes_from_both_ends() {
    assert_eq!(trim("  a b  "), "a b");
    assert_eq!(trim("\u{2003}x\u{2003}"), "x");
    assert_eq!(trim("\u{200b}x\u{200b}"), "\u{200b}x\u{200b}");
    assert_eq!(trim("   "), "");
    assert_eq!(trim(""), "");
    for s in SAMPLES {
        assert_eq!(trim(s), s.trim());
    }
}

#[test]
fn pieces_between_separators_without_the_empty_ones() {
    assert_eq!(split_nonempty("//a//b///c/", '/'), vec!["a", "b", "c"]);
    assert_eq!(split_nonempty("", '/'), Vec::<String>::new());
    assert_eq!(split_nonempty("////", '/'), Vec::<String>::new());
    assert_eq!(split_nonempty("abc", '/'), vec!["abc"]);
    for s in SAMPLES {
        let expected: Vec<String> =
            s.split('/').filter(|p| !p.is_empty()).map(|p| p.to_string()).collect();
        assert_eq!(split_nonempty(s, '/'), expected);
    }
}

#[test]
fn occurrences_are_counted() {
    assert_eq!(count_char("a-b-c-d-e", '-'), 4);
    assert_eq!(count_char("", '-'), 0);
    assert_eq!(count_char("----", '-'), 4);
    for s in SAMPLES {
        assert_eq!(count_char(s, '/'), s.matches('/').count());
    }
}

#[test]
fn a_text_is_found_where_it_occurs() {
    assert!(contains_str("/subscriptions/abc", "/subscriptions/"));
    assert!(contains_str("x/subscriptions/", "/subscriptions/"));
    assert!(!contains_str("/subscription/abc", "/subscriptions/"));
    assert!(!contains_str("", "/subscriptions/"));
    assert!(contains_str("abc", ""));
    assert!(contains_str("", ""));
    assert!(contains_str("aab", "ab"));
    for hay in SAMPLES {
        for needle in SAMPLES {
            assert_eq!(contains_str(hay, needle), hay.contains(needle));
        }
    }
}

#[test]
fn letters_digits_and_the_named_others() {
    assert!(only_alphanumeric_or("abcXYZ019", ""));
    assert!(only_alphanumeric_or("", ""));
    assert!(only_alphanumeric_or("é٣本", ""));
    assert!(!only_alphanumeric_or("a b", ""));
    assert!(!only_alphanumeric_or("a_b", ""));
    assert!(only_alphanumeric_or("a_b", "_"));
    assert!(only_alphanumeric_or("my-group_(1).x", "_().-"));
    assert!(!only_alphanumeric_or("my group", "_().-"));
    for s in SAMPLES {
        let expected = s.chars().all(|c| c.is_alphanumeric() || "_().-".contains(c));
        assert_eq!(only_alphanumeric_or(s, "_().-"), expected);
    }
}

#[test]
fn numbers_are_written_in_decimal() {
    assert_eq!(decimal(0), "0");
    assert_eq!(decimal(7), "7");
    assert_eq!(decimal(10), "10");
    assert_eq!(decimal(-1), "-1");
    assert_eq!(decimal(1234567890), "1234567890");
    assert_eq!(decimal(i64::MAX), "9223372036854775807");
    assert_eq!(decimal(i64::MIN), "-9223372036854775808");
    assert_eq!(digits(u64::MAX), "18446744073709551615");
    for n in [-1000i64, -999, -101, -100, -99, -11, -10, -9, 9, 11, 99, 100, 101, 999, 1000, 1001] {
        assert_eq!(decimal(n), n.to_string());
    }
}

#[test]
fn the_order_of_a_dictionary_is_that_of_the_strings() {
    for a in SAMPLES {
        for b in SAMPLES {
            assert_eq!(str_before(a, b), a < b, "{a:?} {b:?}");
        }
    }
    assert!(str_before("", "a"));
    assert!(!str_before("a", ""));
    assert!(!str_before("a", "a"));
    assert!(str_before("a", "ab"));
    assert!(str_before("Z", "a"));
    assert!(str_before("z", "é"));
}

#[test]
fn strings_are_put_in_order_each_once() {
    let given: Vec<String> = SAMPLES.iter().chain(SAMPLES.iter()).map(|s| s.to_string()).collect();
    let mut expected = given.clone();
    expected.sort();
    expected.dedup();
    assert_eq!(ascending_strings(given), expected);
    assert_eq!(ascending_strings(vec![]), Vec::<String>::new());
}
