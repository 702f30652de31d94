use zk_fuzz_lab::ordered::{insert_sorted, sorted_union};
use zk_fuzz_lab::text::{
    chars_of, decimal_string, is_whitespace, push_decimal, repeat_char, replace_char, same_text,
    split_on, string_of, trimmed,
};

#[test]
fn decimal_numerals() {
    assert_eq!(decimal_string(0), "0");
    assert_eq!(decimal_string(7), "7");
    assert_eq!(decimal_string(10), "10");
    assert_eq!(decimal_string(4294967295), "4294967295");
    assert_eq!(decimal_string(u128::MAX), "340282366920938463463374607431768211455");
}

#[test]
fn decimal_is_appended() {
    let mut s = String::from("n=");
    push_decimal(&mut s, 1000);
    assert_eq!(s, "n=1000");
}

#[test]
fn decimal_agrees_with_the_standard_library() {
    for n in [1u128, 9, 11, 99, 100, 101, 12345678901234567890, 1 << 100] {
        assert_eq!(decimal_string(n), n.to_string());
    }
}

#[test]
fn text_equality() {
    assert!(same_text("fib", "fib"));
    assert!(!same_text("fib", "fib "));
    assert!(same_text("", ""));
    assert!(!same_text("a", ""));
}

#[test]
fn characters_and_back() {
    let chars = chars_of("a\u{1F980}b");
    assert_eq!(chars, vec!['a', '\u{1F980}', 'b']);
    assert_eq!(string_of(&chars, 0, 3), "a\u{1F980}b");
    assert_eq!(string_of(&chars, 1, 2), "\u{1F980}");
    assert_eq!(string_of(&chars, 2, 2), "");
}

#[test]
fn repeated_characters() {
    assert_eq!(repeat_char('a', 0), "");
    assert_eq!(repeat_char('a', 5), "aaaaa");
    assert_eq!(repeat_char('a', 1000), "a".repeat(1000));
}

#[test]
fn trimming_agrees_with_the_standard_library() {
    for s in [
        "",
        " ",
        "fib",
        "  fib",
        "fib  ",
        " \t\n fib \r\n",
        " io echo ",
        "\u{A0}x\u{3000}",
        "\u{2003}y\u{205F}",
        "\u{85}z\u{1680}",
        "\u{200B}kept\u{200B}",
        "\u{B}\u{C}w",
    ] {
        assert_eq!(trimmed(s), s.trim());
    }
}

#[test]
fn white_space_agrees_with_the_standard_library() {
    let mut c = 0u32;
    while c <= 0x3100 {
        if let Some(ch) = char::from_u32(c) {
            assert_eq!(is_whitespace(ch), ch.is_whitespace());
        }
        c += 1;
    }
}

#[test]
fn replacing_characters() {
    assert_eq!(replace_char("simple_struct", '_', '-'), "simple-struct");
    assert_eq!(replace_char("fib", '_', '-'), "fib");
    assert_eq!(replace_char("__", '_', '-'), "--");
    assert_eq!(replace_char("", '_', '-'), "");
}

#[test]
fn splitting_agrees_with_the_standard_library() {
    for s in ["", "fib", "fib,io_echo", "a,,b", ",", ",a,", "fib, arithmetic ,x"] {
        let expected: Vec<String> = s.split(',').map(|p| p.to_string()).collect();
        assert_eq!(split_on(s, ','), expected);
    }
}

#[test]
fn sorted_union_sorts_and_drops_duplicates() {
    assert_eq!(sorted_union(&vec![]), vec![]);
    assert_eq!(sorted_union(&vec![5, 1, 5, 3, 1, 0, u32::MAX]), vec![0, 1, 3, 5, u32::MAX]);
    assert_eq!(sorted_union(&vec![2, 2, 2]), vec![2]);
}

#[test]
fn insert_keeps_order() {
    let mut v = vec![1, 4, 9];
    insert_sorted(&mut v, 5);
    assert_eq!(v, vec![1, 4, 5, 9]);
    insert_sorted(&mut v, 4);
    assert_eq!(v, vec![1, 4, 5, 9]);
    insert_sorted(&mut v, 0);
    assert_eq!(v, vec![0, 1, 4, 5, 9]);
    insert_sorted(&mut v, 10);
    assert_eq!(v, vec![0, 1, 4, 5, 9, 10]);
}
