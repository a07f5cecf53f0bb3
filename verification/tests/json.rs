use jsentinel::json::{json_opt_str, json_str, member, members_insert_exec, JsonNumber, JsonValue};

#[test]
fn setting_a_member_replaces_the_first_and_keeps_the_rest() {
    let mut members = vec![
        member("pid", JsonValue::Number(JsonNumber::PosInt(1))),
        member("name", json_str("a.exe")),
    ];
    members_insert_exec(&mut members, "pid".to_string(), JsonValue::Number(JsonNumber::PosInt(2)));
    members_insert_exec(&mut members, "flag".to_string(), JsonValue::Bool(true));
    let object = JsonValue::Object(members);

    assert_eq!(object.get("pid").and_then(|v| v.as_u64()), Some(2));
    assert_eq!(object.get("name").and_then(|v| v.as_str()), Some("a.exe"));
    assert_eq!(object.get("flag").and_then(|v| v.as_bool()), Some(true));
    assert!(object.get("missing").is_none());
    if let JsonValue::Object(m) = &object {
        assert_eq!(m.len(), 3);
        assert_eq!(m[0].key, "pid");
    }
}

#[test]
fn lookups_on_non_objects_find_nothing() {
    assert!(json_str("x").get("x").is_none());
    assert_eq!(JsonValue::Number(JsonNumber::NegInt(-1)).as_u64(), None);
    assert_eq!(json_opt_str(&None), JsonValue::Null);
    assert_eq!(json_opt_str(&Some("v".to_string())), json_str("v"));
    assert!(matches!(JsonValue::empty_object(), JsonValue::Object(m) if m.is_empty()));
}

#[test]
fn a_copy_holds_the_same_data() {
    let value = JsonValue::Object(vec![
        member("list", JsonValue::Array(vec![json_str("a"), JsonValue::Null])),
        member("n", JsonValue::Number(JsonNumber::PosInt(3))),
    ]);
    let copy = value.clone();
    assert_eq!(copy, value);
    assert_eq!(jsentinel::json::clone_json(&value), value);
}
