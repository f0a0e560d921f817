use qiwi::json::Json;
use qiwi::json::json_to_string;
use qiwi::json::parse_json;
use qiwi::models::QiwiCurrency;
use qiwi::models::QiwiUser;
use qiwi::text::parse_u64_str;
use qiwi::text::u64_to_dec;
use qiwi::check_number;

#[test]
fn u64_rendering() {
    assert_eq!(u64_to_dec(0), "0");
    assert_eq!(u64_to_dec(7), "7");
    assert_eq!(u64_to_dec(1050), "1050");
    assert_eq!(u64_to_dec(u64::MAX), "18446744073709551615");
}

#[test]
fn u64_reading() {
    assert_eq!(parse_u64_str("0"), Some(0));
    assert_eq!(parse_u64_str("1050"), Some(1050));
    assert_eq!(parse_u64_str("18446744073709551615"), Some(u64::MAX));
    assert_eq!(parse_u64_str("18446744073709551616"), None);
    assert_eq!(parse_u64_str(""), None);
    assert_eq!(parse_u64_str("12a"), None);
    assert_eq!(parse_u64_str("-3"), None);
}

#[test]
fn number_check() {
    assert!(check_number("10.5"));
    assert!(check_number("-3e2"));
    assert!(check_number("0"));
    assert!(!check_number(""));
    assert!(!check_number("-"));
    assert!(!check_number("abc"));
    assert!(!check_number("1 2"));
    assert!(check_number("-0.5e+10"));
    assert!(!check_number("1.2.3"));
    assert!(!check_number("01"));
    assert!(!check_number("1."));
    assert!(!check_number("1e"));
}

#[test]
fn account_identifier() {
    let u = QiwiUser::new(7, 9991234567).unwrap();
    assert_eq!(u.account_id(), "79991234567");
    assert!(QiwiUser::new(0, 9991234567).is_none());
    assert!(QiwiUser::new(1000, 9991234567).is_none());
    assert!(QiwiUser::new(7, 0).is_none());
}

#[test]
fn currency_text_is_three_digits() {
    assert_eq!(QiwiCurrency::rub().currency_text(), "643");
    assert_eq!(QiwiCurrency(36).currency_text(), "036");
    assert_eq!(QiwiCurrency(8).currency_text(), "008");
}

#[test]
fn parser_reads_scalars() {
    assert_eq!(parse_json("null"), Some(Json::Null));
    assert_eq!(parse_json(" true "), Some(Json::Bool(true)));
    assert_eq!(parse_json("false"), Some(Json::Bool(false)));
    assert_eq!(parse_json("10.5"), Some(Json::Num("10.5".to_string())));
    assert_eq!(parse_json("-3e2"), Some(Json::Num("-3e2".to_string())));
    assert_eq!(parse_json("\"hi\""), Some(Json::Str("hi".to_string())));
    assert_eq!(parse_json("\"a\\nb\\\"c\""), Some(Json::Str("a\nb\"c".to_string())));
}

#[test]
fn parser_reads_structures() {
    let v = parse_json("{\"a\": [1, \"x\", {}], \"b\": null}").unwrap();
    match v {
        Json::Obj(fs) => {
            assert_eq!(fs.len(), 2);
            assert_eq!(fs[0].0, "a");
            match &fs[0].1 {
                Json::Arr(es) => {
                    assert_eq!(es.len(), 3);
                    assert_eq!(es[0], Json::Num("1".to_string()));
                    assert_eq!(es[1], Json::Str("x".to_string()));
                    assert_eq!(es[2], Json::Obj(vec![]));
                },
                other => panic!("not an array: {:?}", other),
            }
            assert_eq!(fs[1].0, "b");
            assert_eq!(fs[1].1, Json::Null);
        },
        other => panic!("not an object: {:?}", other),
    }
}

#[test]
fn parser_decodes_unicode_escapes() {
    assert_eq!(parse_json("\"\\u0416\""), Some(Json::Str("\u{416}".to_string())));
    assert_eq!(parse_json("\"\\u0041b\""), Some(Json::Str("Ab".to_string())));
    assert_eq!(
        parse_json("\"\\uD83D\\uDE00\""),
        Some(Json::Str("\u{1F600}".to_string()))
    );
    assert_eq!(parse_json("\"\\uD800\""), None);
    assert_eq!(parse_json("\"\\uDC00\\uDC00\""), None);
    assert_eq!(parse_json("\"\\u12G4\""), None);
}

#[test]
fn parser_numbers_follow_json_grammar() {
    assert_eq!(parse_json("0.5"), Some(Json::Num("0.5".to_string())));
    assert_eq!(parse_json("-0.5e+10"), Some(Json::Num("-0.5e+10".to_string())));
    assert_eq!(parse_json("1.2.3"), None);
    assert_eq!(parse_json("01"), None);
    assert_eq!(parse_json("1."), None);
    assert_eq!(parse_json("1e"), None);
    assert_eq!(parse_json("+1"), None);
}

#[test]
fn parser_refuses_malformed_text() {
    assert_eq!(parse_json(""), None);
    assert_eq!(parse_json("{"), None);
    assert_eq!(parse_json("tru"), None);
    assert_eq!(parse_json("[1,]"), None);
    assert_eq!(parse_json("{\"a\":1,}"), None);
    assert_eq!(parse_json("1 2"), None);
    assert_eq!(parse_json("\"unterminated"), None);
    assert_eq!(parse_json("-"), None);
}

#[test]
fn serializer_writes_exact_text() {
    let v = Json::Obj(vec![
        ("a".to_string(), Json::Num("10.5".to_string())),
        ("b".to_string(), Json::Str("x\"y".to_string())),
        ("c".to_string(), Json::Arr(vec![Json::Null, Json::Bool(false)])),
    ]);
    assert_eq!(json_to_string(&v), "{\"a\":10.5,\"b\":\"x\\\"y\",\"c\":[null,false]}");
}

#[test]
fn serializer_round_trips_through_parser() {
    let v = Json::Obj(vec![
        ("account".to_string(), Json::Str("79991234567".to_string())),
        ("sum".to_string(), Json::Obj(vec![
            ("amount".to_string(), Json::Num("10.5".to_string())),
            ("currency".to_string(), Json::Str("643".to_string())),
        ])),
    ]);
    let text = json_to_string(&v);
    assert_eq!(parse_json(&text), Some(v));
}
