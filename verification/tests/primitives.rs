use harness_capture::json::RAW_KEY;
use harness_capture::session::epoch_ms;
use harness_capture::text::{
    after_prefix, decimal_text, first_visible, is_white_space, join_texts, joined, lines_of,
    path_of, same_text, signed_text, trimmed, without_trailing_slashes,
};
use harness_capture::{Json, SessionContext};

#[test]
fn white_space_is_that_of_char() {
    for n in 0..=0x10ffffu32 {
        if let Some(c) = char::from_u32(n) {
            assert_eq!(is_white_space(c), c.is_whitespace(), "{n:x}");
        }
    }
}

#[test]
fn trimming_is_that_of_str() {
    for s in ["", " ", "a", " a ", "\u{3000}é\u{85}\n", "\u{feff} x", "\t\r\n"] {
        assert_eq!(trimmed(s), s.trim());
        assert_eq!(first_visible(s), s.trim_start().chars().next());
        assert_eq!(without_trailing_slashes(s), s.trim_end_matches('/'));
    }
    assert_eq!(without_trailing_slashes("a//b//"), "a//b");
    assert_eq!(without_trailing_slashes("////"), "");
}

#[test]
fn lines_are_those_of_str() {
    for s in ["", "\n", "a", "a\n", "a\nb", "a\r\nb\r", "\r\n\r\n", "\n\na\r\r\n", "a\r", "é\nü"] {
        assert_eq!(lines_of(s), s.lines().collect::<Vec<_>>(), "{s:?}");
    }
}

#[test]
fn decimals_are_those_of_display() {
    for n in [0, 1, 9, 10, 99, 100, 65535, u64::MAX - 1, u64::MAX] {
        assert_eq!(decimal_text(n), n.to_string());
    }
    for i in [0, 1, -1, 10, -10, i64::MAX, i64::MIN, i64::MIN + 1] {
        assert_eq!(signed_text(i), i.to_string());
    }
}

#[test]
fn text_pieces() {
    assert!(same_text("é", "é"));
    assert!(!same_text("a", "ab"));
    assert!(!same_text("a", "b"));
    assert_eq!(after_prefix("data: x", "data: ").unwrap(), "x");
    assert_eq!(after_prefix("data:", "data: "), None);
    assert_eq!(joined("a", "é"), "aé");
    assert_eq!(path_of("/a", "b"), "/a/b");
    assert_eq!(path_of("/a/", "b"), "/a/b");
    assert_eq!(path_of("", "b"), "b");
    let parts = vec!["a".to_string(), String::new(), "b".to_string()];
    assert_eq!(join_texts(&parts, ", "), "a, , b");
    assert_eq!(join_texts(&Vec::new(), ", "), "");
}

#[test]
fn time_and_numbers() {
    assert_eq!(epoch_ms(None), 0);
    assert_eq!(epoch_ms(Some(1_700_000_000_000)), 1_700_000_000_000);
    assert_eq!(epoch_ms(Some(1u128 << 63)), i64::MIN);
    assert_eq!(epoch_ms(Some((1u128 << 64) + 5)), 5);
    let mut ctx = SessionContext::new("s", "h");
    assert_eq!((ctx.session(), ctx.harness()), ("s", "h"));
    assert_eq!((ctx.session_id.as_str(), ctx.harness_type.as_str()), ("s", "h"));
    assert_eq!((ctx.next_seq(), ctx.next_seq(), ctx.next_seq()), (0, 1, 2));
    let a = ctx.now_ms();
    let b = ctx.now_ms();
    assert!(1_600_000_000_000 < a && a <= b);
}

#[test]
fn documents_read_and_write() {
    let text = "{\"a\":[1,-2,18446744073709551615,-9223372036854775808,true,null,\"\\u0001é\"],\"b\":{}}";
    let j = Json::parse(text.as_bytes()).unwrap();
    assert_eq!(j.to_text().unwrap(), text);
    assert_eq!(Json::parse(j.to_text().unwrap().as_bytes()).unwrap(), j);
    assert_eq!(Json::from_value(j.to_value()), j);
    assert_eq!(j.clone(), j);
    assert_eq!(j.get("a").unwrap().as_array().unwrap().len(), 7);
    assert!(j.get("b").unwrap().get("c").is_none());
    assert!(j.get("c").is_none());
    assert!(Json::parse(b"").is_none());
    assert!(Json::parse(b"\"\xff\"").is_none());
    assert!(Json::parse(b"1 2").is_none());
    assert!(Json::parse(b"nul").is_none());
}

#[test]
fn nesting_has_a_limit() {
    let nested = |n: usize| format!("{}{}", "[".repeat(n), "]".repeat(n));
    let deepest = Json::parse(nested(127).as_bytes()).unwrap();
    assert_eq!(deepest.to_text().unwrap(), nested(127));
    assert!(Json::parse(nested(128).as_bytes()).is_none());
    let deeper = Json::Array(vec![deepest]);
    assert!(Json::parse(deeper.to_text().unwrap().as_bytes()).is_none());
}

#[test]
fn numbers_of_documents() {
    let n = |t: &str| Json::parse(t.as_bytes()).unwrap();
    assert_eq!(n("7").as_u64(), Some(7));
    assert_eq!(n("7").as_i64(), Some(7));
    assert_eq!(n("-7").as_u64(), None);
    assert_eq!(n("-7").as_i64(), Some(-7));
    assert_eq!(n("18446744073709551615").as_i64(), None);
    assert_eq!(n("18446744073709551615").as_u64(), Some(u64::MAX));
    assert_eq!(n("1.0").as_u64(), None);
    assert_eq!(n("1e2").as_i64(), None);
    assert_eq!(n("1.5").to_text().unwrap(), "1.5");
    assert_eq!(n("100000000000000000000"), n("1e20"));
    assert_eq!(Json::Signed(5), Json::Unsigned(5));
    assert_ne!(Json::Signed(-5), Json::Unsigned(5));
    assert_eq!(Json::Float("0.10".to_string()), n("0.1"));
    assert_eq!(Json::Float("none".to_string()).to_text().unwrap(), "0.0");
    assert_ne!(n("1.0"), n("1"));
    assert_eq!(n("0.0"), n("-0.0"));
    assert_ne!(n("0.5"), n("-0.5"));
}

#[test]
fn order_of_members_does_not_matter() {
    let a = Json::parse(b"{\"x\":1,\"y\":[{}]}").unwrap();
    let b = Json::parse(b"{\"y\":[{}],\"x\":2,\"x\":1}").unwrap();
    assert_eq!(a, b);
    assert_ne!(a, Json::parse(b"{\"x\":1}").unwrap());
    let doubled = Json::Object(vec![
        ("k".to_string(), Json::Null),
        ("k".to_string(), Json::Bool(true)),
    ]);
    assert_eq!(doubled.get("k"), Some(&Json::Bool(true)));
    assert_eq!(doubled.to_text().unwrap(), "{\"k\":true}");
}

#[test]
fn reserved_key_does_not_read_back() {
    let marked = |value: Json| Json::Object(vec![(RAW_KEY.to_string(), value)]);
    let one = marked(Json::Str("1".to_string()));
    assert_eq!(Json::parse(one.to_text().unwrap().as_bytes()), Some(Json::Unsigned(1)));
    let other = marked(Json::Null);
    assert_eq!(Json::parse(other.to_text().unwrap().as_bytes()), None);
}
