use imgchat::tree::Json;

#[test]
fn object_lookup_finds_the_key_and_skips_others() {
    let doc = Json::Obj(vec![
        (String::from("a"), Json::UInt(1)),
        (String::from("ignored"), Json::Bool(true)),
        (String::from("b"), Json::Null),
    ]);
    assert_eq!(doc.get("a"), Some(&Json::UInt(1)));
    assert_eq!(doc.get("b"), Some(&Json::Null));
    assert_eq!(doc.get("c"), None);
}

#[test]
fn lookup_on_a_non_object_finds_nothing() {
    assert_eq!(Json::Null.get("a"), None);
    assert_eq!(Json::Arr(vec![Json::UInt(1)]).get("a"), None);
}
