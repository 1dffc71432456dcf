use thumbor::{parse_kv_pair, KvError};

#[test]
fn parses_simple_pair() {
    let kv = parse_kv_pair("name=value").unwrap();
    assert_eq!(kv.k, "name");
    assert_eq!(kv.v, "value");
}

#[test]
fn value_stops_at_second_separator() {
    let kv = parse_kv_pair("a=b=c").unwrap();
    assert_eq!(kv.k, "a");
    assert_eq!(kv.v, "b");
}

#[test]
fn empty_key_and_value_are_allowed() {
    let kv = parse_kv_pair("=v").unwrap();
    assert_eq!(kv.k, "");
    assert_eq!(kv.v, "v");
    let kv = parse_kv_pair("k=").unwrap();
    assert_eq!(kv.k, "k");
    assert_eq!(kv.v, "");
}

#[test]
fn missing_separator_is_rejected() {
    let err = parse_kv_pair("no separator").unwrap_err();
    assert_eq!(err, KvError::MissingSeparator);
}
