use port_forwarder::strmap::StringMap;
use port_forwarder::text::{decimal, eq_ignore_ascii_case, str_eq};

#[test]
fn str_eq_compares_characters() {
    assert!(str_eq("", ""));
    assert!(str_eq("host:1", "host:1"));
    assert!(!str_eq("host:1", "host:2"));
    assert!(!str_eq("host", "host:"));
    assert!(!str_eq("Host", "host"));
    assert!(str_eq("größe", "größe"));
}

#[test]
fn eq_ignore_ascii_case_folds_ascii_letters_only() {
    assert!(eq_ignore_ascii_case("Example.TEST", "example.test"));
    assert!(eq_ignore_ascii_case("AZaz09", "azAZ09"));
    assert!(!eq_ignore_ascii_case("example.test", "example.tes"));
    assert!(!eq_ignore_ascii_case("Ä", "ä"));
    assert!(!eq_ignore_ascii_case("@", "`"));
    assert!(!eq_ignore_ascii_case("[", "{"));
}

#[test]
fn decimal_writes_numerals() {
    assert_eq!(decimal(0), "0");
    assert_eq!(decimal(7), "7");
    assert_eq!(decimal(10), "10");
    assert_eq!(decimal(443), "443");
    assert_eq!(decimal(65535), "65535");
    assert_eq!(decimal(1234567890), "1234567890");
    assert_eq!(decimal(usize::MAX), usize::MAX.to_string());
}

#[test]
fn string_map_binds_and_rebinds() {
    let mut m: StringMap<u32> = StringMap::new();
    assert_eq!(m.len(), 0);
    assert!(!m.contains_key("a"));
    m.insert("a".to_string(), 1);
    m.insert("b".to_string(), 2);
    m.insert("a".to_string(), 3);
    assert_eq!(m.len(), 2);
    assert_eq!(m.get("a"), Some(&3));
    assert_eq!(m.get("b"), Some(&2));
    assert_eq!(m.get("c"), None);
    assert_eq!(m.index_of("a"), Some(0));
    assert_eq!(m.index_of("b"), Some(1));
    assert_eq!(m.index_of("c"), None);
    assert_eq!(m.key_at(1), "b");
    assert_eq!(*m.value_at(0), 3);
}

#[test]
fn string_map_removes_and_keeps_order() {
    let mut m: StringMap<u32> = StringMap::new();
    m.insert("a".to_string(), 1);
    m.insert("b".to_string(), 2);
    m.insert("c".to_string(), 3);
    assert!(m.remove("b"));
    assert!(!m.remove("b"));
    assert_eq!(m.len(), 2);
    assert_eq!(m.key_at(0), "a");
    assert_eq!(m.key_at(1), "c");
    assert_eq!(m.get("c"), Some(&3));
    m.clear();
    assert_eq!(m.len(), 0);
    assert_eq!(m.get("a"), None);
}

#[test]
fn string_map_swaps_a_value_in_place() {
    let mut m: StringMap<String> = StringMap::new();
    m.insert("k".to_string(), "old".to_string());
    m.insert("l".to_string(), "other".to_string());
    let mut v = "new".to_string();
    m.swap_value_at(0, &mut v);
    assert_eq!(v, "old");
    assert_eq!(m.get("k"), Some(&"new".to_string()));
    assert_eq!(m.get("l"), Some(&"other".to_string()));
    assert_eq!(m.key_at(0), "k");
}

#[test]
fn string_map_keys_are_case_sensitive() {
    let mut m: StringMap<u8> = StringMap::new();
    m.insert("Host".to_string(), 1);
    m.insert("host".to_string(), 2);
    assert_eq!(m.len(), 2);
    assert_eq!(m.get("Host"), Some(&1));
    assert_eq!(m.get("host"), Some(&2));
}

#[test]
fn case_folding_touches_only_a_to_z() {
    for code in 0u32..0x3000 {
        let c = match char::from_u32(code) {
            Some(c) => c,
            None => panic!("not a character"),
        };
        let folded = if ('A'..='Z').contains(&c) { char::from_u32(code + 32).unwrap() } else { c };
        assert!(eq_ignore_ascii_case(&c.to_string(), &folded.to_string()));
        if !c.is_ascii_alphabetic() {
            for other in ['a', 'Z', '0', '\u{e4}'] {
                assert_eq!(eq_ignore_ascii_case(&c.to_string(), &other.to_string()), c == other);
            }
        }
    }
}
