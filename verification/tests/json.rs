use mcp_sdk::json::{key_of_double, text_of_double, Json, JsonNumber};
use mcp_sdk::schema;
use mcp_sdk::string_map::StringMap;
use mcp_sdk::types::LoggingLevel;
use mcp_sdk::wire::Wire;

fn json(text: &str) -> Json {
    Json::parse(text).unwrap()
}

#[test]
fn a_text_is_read_and_printed() {
    let read = json(" {\"b\" : [1, -2, 2.50, true, null], \"a\": {\"x\": \"q\\u0041\\n\"} } ");
    assert_eq!(read.to_text(), r#"{"b":[1,-2,2.5,true,null],"a":{"x":"qA\n"}}"#);
    assert_eq!(json(&read.to_text()), read);
    assert_eq!(read.get("a").unwrap().get("x").unwrap().as_str(), Some("qA\n"));
}

#[test]
fn the_last_of_two_members_counts() {
    let read = json(r#"{"a": 1, "b": 2, "a": 3}"#);
    assert_eq!(read.get("a").unwrap().as_i64(), Some(3));
    assert_eq!(read.to_text(), r#"{"a":3,"b":2}"#);
}

#[test]
fn a_fault_is_told_with_its_place() {
    let told = Json::parse("not json").unwrap_err();
    assert_eq!(told, "expected ident at line 1 column 2");
    assert_eq!(Json::parse("").unwrap_err(), "EOF while parsing a value at line 1 column 0");
    let deep = format!("{}{}", "[".repeat(128), "]".repeat(128));
    assert_eq!(Json::parse(&deep).unwrap_err(), "recursion limit exceeded at line 1 column 128");
    let less = format!("{}{}", "[".repeat(127), "]".repeat(127));
    assert_eq!(json(&less).to_text(), less);
}

#[test]
fn numbers_keep_their_kind() {
    assert_eq!(json("18446744073709551615").as_u64(), Some(u64::MAX));
    assert_eq!(json("18446744073709551615").as_i64(), None);
    assert_eq!(json("-9223372036854775808").as_i64(), Some(i64::MIN));
    assert_eq!(json("1.0"), Json::Number(JsonNumber::Float(1.0f64.to_bits())));
    assert!(!json("1").same(&json("1.0")));
    assert!(json(r#"{"a": 1, "b": [2]}"#).same(&json(r#"{"b": [2], "a": 1}"#)));
    assert!(!json("[1, 2]").same(&json("[2, 1]")));
}

#[test]
fn whole_numbers_become_doubles() {
    assert_eq!(JsonNumber::PosInt(3).to_double(), 3.0f64.to_bits());
    assert_eq!(JsonNumber::NegInt(-7).to_double(), (-7.0f64).to_bits());
    let big = u64::MAX;
    assert_eq!(JsonNumber::PosInt(big).to_double(), (big as f64).to_bits());
    // Between two doubles the nearer one counts, and in the middle the even one.
    let two = 1u64 << 53;
    for (u, bits) in [
        (0, 0),
        (1, 0x3ff0_0000_0000_0000),
        (two - 1, 0x433f_ffff_ffff_ffff),
        (two + 1, 0x4340_0000_0000_0000),
        (two + 2, 0x4340_0000_0000_0001),
        (two + 3, 0x4340_0000_0000_0002),
        (u64::MAX, 0x43f0_0000_0000_0000),
    ] {
        assert_eq!(JsonNumber::PosInt(u).to_double(), bits);
    }
    assert_eq!(JsonNumber::NegInt(i64::MIN).to_double(), 0xc3e0_0000_0000_0000);
    assert_eq!(JsonNumber::NegInt(-(two as i64) - 1).to_double(), 0xc340_0000_0000_0000);
    assert_eq!(text_of_double(1.5f64.to_bits()), "1.5");
    assert_eq!(text_of_double(3.0f64.to_bits()), "3");
    assert_eq!(text_of_double((-0.25f64).to_bits()), "-0.25");
}

#[test]
fn doubles_are_told_apart_by_their_keys() {
    let rising = [-1.0e300, -2.5, -1.0, -0.5, 0.0, 1.0e-300, 0.5, 1.0, 1.5, 1.0e300];
    for (i, a) in rising.iter().enumerate() {
        for (j, b) in rising.iter().enumerate() {
            let (x, y) = (key_of_double(f64::to_bits(*a)), key_of_double(f64::to_bits(*b)));
            assert_eq!(x < y, i < j);
        }
    }
    assert_eq!(key_of_double((-0.0f64).to_bits()), key_of_double(0.0f64.to_bits()));
}

#[test]
fn bounds_are_told_as_doubles() {
    let told = schema::validate(&json(r#"{"minimum": 1.5}"#), &json("1")).unwrap_err();
    assert!(told.ends_with("1 is below minimum 1.5"), "{told}");
    let told = schema::validate(&json(r#"{"maximum": 2}"#), &json("2.25")).unwrap_err();
    assert!(told.ends_with("2.25 exceeds maximum 2"), "{told}");
    assert!(schema::validate(&json(r#"{"maximum": 2}"#), &json("2.0")).is_ok());
    assert!(schema::validate(&json(r#"{"exclusiveMaximum": 2}"#), &json("2.0")).is_err());
}

#[test]
fn levels_are_texts() {
    assert_eq!(LoggingLevel::Warning.to_json(), json(r#""warning""#));
    assert_eq!(LoggingLevel::from_json(&json(r#""alert""#)).ok(), Some(LoggingLevel::Alert));
    assert!(LoggingLevel::from_json(&json(r#""loud""#)).is_err());
    assert!(LoggingLevel::from_json(&json("3")).is_err());
}

#[test]
fn a_map_is_in_the_order_of_its_keys() {
    let mut map: StringMap<u32> = StringMap::new();
    assert!(map.is_empty());
    for (i, k) in ["m", "a", "z", "mm"].iter().enumerate() {
        assert_eq!(map.insert(k.to_string(), i as u32), None);
    }
    assert_eq!(map.insert("a".to_string(), 9), Some(1));
    let keys: Vec<&str> = (0..map.len()).map(|i| map.key_at(i)).collect();
    assert_eq!(keys, vec!["a", "m", "mm", "z"]);
    assert_eq!(map.get("a"), Some(&9));
    assert_eq!(map.remove("mm"), Some(3));
    assert_eq!(map.remove("mm"), None);
    assert!(!map.contains_key("mm"));
    assert_eq!(map.len(), 3);
    map.clear();
    assert_eq!(map.get("a"), None);
}
