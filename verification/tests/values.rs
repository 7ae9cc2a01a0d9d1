//! Texts, numbers, paths, patterns and documents.

use lunaris_compositor::config::value::{
    get_array, get_bool, get_float, get_integer, get_str, get_table, parse_document, TomlValue,
};
use lunaris_compositor::geometry::{saturating_add, saturating_sub, Point, Size};
use lunaris_compositor::number::Float64;
use lunaris_compositor::order::{comes_before, order_by, Key};
use lunaris_compositor::path::join_paths;
use lunaris_compositor::pattern::{Pattern, PatternSet};
use lunaris_compositor::text::{
    decimal_text, eq_ignore_ascii_case, is_white_space, is_word, join, split_str, strip_char,
    strip_prefix, trim_str,
};

#[test]
fn white_space_is_that_of_unicode() {
    for n in 0..=0x10FFFFu32 {
        if let Some(c) = char::from_u32(n) {
            assert_eq!(is_white_space(c), c.is_whitespace(), "{n:x}");
        }
    }
}

#[test]
fn words_are_found_in_any_case() {
    for n in 0..=0x10FFFFu32 {
        if let Some(c) = char::from_u32(n) {
            let s = c.to_string();
            let lower = s.to_lowercase();
            for word in ["a", "k", "s", "z", "0", "_"] {
                assert_eq!(is_word(&s, word), lower == word, "{n:x}");
            }
        }
    }
    assert!(is_word("BackSpace", "backspace"));
    assert!(!is_word("BackSpac", "backspace"));
}

#[test]
fn texts_are_split_joined_and_trimmed() {
    let parts = |s: &str| split_str(s, '+');
    assert_eq!(parts("a+b++"), vec!["a", "b", "", ""]);
    assert_eq!(parts(""), vec![""]);
    assert_eq!(join(&vec!["a".into(), "".into(), "b".into()], ","), "a,,b");
    assert_eq!(join(&vec![], ","), "");
    for s in ["", " a ", "\u{a0}x\u{2003}y\u{85}", "   ", "é\t"] {
        assert_eq!(trim_str(s), s.trim());
    }
    assert_eq!(strip_prefix("KEYMAP=x", "KEYMAP="), Some("x".into()));
    assert_eq!(strip_prefix("KEY", "KEYMAP="), None);
    assert_eq!(strip_char("\"\"a\"b\"", '"'), "a\"b");
    assert_eq!(strip_char("\"\"", '"'), "");
    assert!(eq_ignore_ascii_case("aBé", "AbÉ") == "aBé".eq_ignore_ascii_case("AbÉ"));
    assert!(eq_ignore_ascii_case("F4", "f4"));
    for n in [0, 7, 10, 409, u128::MAX] {
        assert_eq!(decimal_text(n), n.to_string());
    }
}

#[test]
fn texts_have_an_order() {
    let texts = ["", "a", "ab", "b", "z", "é", "\u{ffff}", "\u{10000}"];
    for a in texts {
        for b in texts {
            assert_eq!(comes_before(a, b), a < b, "{a:?} {b:?}");
        }
    }
}

#[test]
fn keys_are_sorted() {
    let key = |first: &str, second: &str, third: &str| Key {
        first: first.into(),
        second: second.into(),
        third: third.into(),
    };
    let keys = vec![key("b", "", ""), key("a", "y", "z"), key("a", "y", "b"), key("a", "x", "z")];
    assert_eq!(order_by(&keys), vec![3, 2, 1, 0]);
    assert!(keys[3].is_less(&keys[2]));
    assert!(!keys[0].is_less(&keys[0]));
}

fn number(v: f64) -> Float64 {
    Float64 { bits: v.to_bits() }
}

#[test]
fn numbers_compare_as_the_machine_does() {
    let values = [
        f64::NEG_INFINITY,
        f64::MIN,
        -1.5,
        -f64::MIN_POSITIVE,
        -5e-324,
        -0.0,
        0.0,
        5e-324,
        0.1,
        1.0,
        3.0,
        f64::MAX,
        f64::INFINITY,
        f64::NAN,
        -f64::NAN,
    ];
    for a in values {
        for b in values {
            assert_eq!(number(a).is_less(&number(b)), a < b, "{a} {b}");
            assert_eq!(number(a).is_at_most(&number(b)), a <= b, "{a} {b}");
            assert_eq!(number(a).equals(&number(b)), a == b, "{a} {b}");
        }
        let clamped = number(a).clamp(number(0.1), number(3.0));
        assert_eq!(clamped.bits, a.clamp(0.1, 3.0).to_bits());
    }
}

#[test]
fn paths_are_joined_as_on_unix() {
    for (base, rest) in [
        ("/a", "b"),
        ("/a/", "b"),
        ("", "b"),
        ("a", "/b"),
        ("/", "b/c"),
        ("/a", ""),
        ("a/b", "../c"),
    ] {
        let expected = std::path::Path::new(base).join(rest);
        assert_eq!(join_paths(base, rest), expected.to_str().unwrap(), "{base} {rest}");
    }
}

#[test]
fn patterns_match_somewhere() {
    let p = Pattern::new("fire(fox|bird)$").unwrap();
    assert!(p.is_match("org.mozilla.firefox"));
    assert!(!p.is_match("firefox-esr"));
    assert!(Pattern::new("(").is_none());
    let set = PatternSet::new(vec!["^a".into(), "b".into(), "^c".into()]).unwrap();
    assert_eq!(set.matches("abc"), vec![true, true, false]);
    assert!(PatternSet::new(vec!["a".into(), "(".into()]).is_none());
    assert!(PatternSet::new(vec![]).unwrap().matches("x").is_empty());
}

#[test]
fn documents_hold_values() {
    let document = parse_document(
        "text = \"t\"\nint = -3\nfloat = 2.5\nflag = true\nday = 1979-05-27\nlist = [1, \"x\"]\n\
         [table]\ninner = \"i\"\n",
    )
    .unwrap();
    assert_eq!(get_str(&document, "text"), Some("t"));
    assert_eq!(get_str(&document, "int"), None);
    assert_eq!(get_integer(&document, "int"), Some(-3));
    assert_eq!(get_float(&document, "float"), Some(number(2.5)));
    assert_eq!(get_float(&document, "int"), None);
    assert_eq!(get_bool(&document, "flag"), Some(true));
    let list = get_array(&document, "list").unwrap();
    assert!(matches!(list[0], TomlValue::Integer(1)));
    assert_eq!(list[1].as_str(), Some("x"));
    assert_eq!(get_str(get_table(&document, "table").unwrap(), "inner"), Some("i"));
    assert!(get_table(&document, "missing").is_none());
    assert!(parse_document("a = = b").is_none());
    assert!(parse_document("").unwrap().is_empty());
}

#[test]
fn coordinates_saturate() {
    assert_eq!(saturating_add(i32::MAX, 1), i32::MAX);
    assert_eq!(saturating_sub(i32::MIN, 1), i32::MIN);
    let p = Point { x: 5, y: i32::MAX };
    assert_eq!(p.offset_by(Point { x: -7, y: 1 }), Point { x: -2, y: i32::MAX });
    assert_eq!(p.relative_to(Point { x: 1, y: 1 }), Point { x: 4, y: i32::MAX - 1 });
    let s = Size { w: 3, h: 9 };
    assert_eq!(s.max_of(Size { w: 4, h: 1 }), Size { w: 4, h: 9 });
    assert_eq!(s.grow(Size { w: 0, h: 24 }), Size { w: 3, h: 33 });
}
