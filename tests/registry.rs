use dimension_registry::catalog::DimensionCatalog;
use dimension_registry::model::{
    CreateReq, Dimension, InputFault, PersistFault, RegistryError, Timestamp,
};
use dimension_registry::registry::{
    check_candidate, decide_candidate, finish_upsert, normalize_function_name, prepare_candidate,
};
use dimension_registry::schema::JsonKind;
use dimension_registry::tagging::{is_mandatory, tag_all};
use serde_json::Value;

const META: &str = r#"{
    "type": "object",
    "properties": {
        "type": { "enum": ["string", "integer", "number", "boolean", "array", "object"] }
    },
    "required": ["type"]
}"#;

fn json(text: &str) -> Value {
    serde_json::from_str(text).unwrap()
}

fn meta_schema() -> jsonschema::JSONSchema {
    jsonschema::JSONSchema::compile(&json(META)).unwrap()
}

fn names(list: &[&str]) -> Vec<String> {
    list.iter().map(|s| s.to_string()).collect()
}

fn req(name: &str, priority: i32, schema: &str, function_name: Option<JsonKind>) -> CreateReq {
    CreateReq {
        dimension: name.to_string(),
        priority,
        schema: json(schema),
        function_name,
    }
}

fn at(micros: i64) -> Timestamp {
    Timestamp { micros }
}

#[test]
fn meta_schema_violation_is_refused_without_write() {
    let mut cat = DimensionCatalog::new(meta_schema(), vec![]);
    let r = cat.create(req("region", 1, r#"{"minimum": 1}"#, None), &"a@x".to_string(), at(1), &vec![]);
    match r {
        Err(RegistryError::InvalidInput(InputFault::SchemaViolation(v))) => assert!(!v.is_empty()),
        other => panic!("unexpected {:?}", other),
    }
    assert!(cat.list().is_empty());
}

#[test]
fn uncompilable_schema_is_refused_without_write() {
    let mut cat = DimensionCatalog::new(meta_schema(), vec![]);
    let r = cat.create(
        req("region", 1, r#"{"type": "string", "minLength": -1}"#, None),
        &"a@x".to_string(),
        at(1),
        &vec![],
    );
    assert!(matches!(r, Err(RegistryError::InvalidInput(InputFault::SchemaCompile(_)))));
    assert!(cat.list().is_empty());
}

#[test]
fn null_or_absent_function_name_is_none() {
    let mut cat = DimensionCatalog::new(meta_schema(), vec![]);
    let actor = "a@x".to_string();
    let r = cat.create(req("a", 1, r#"{"type": "string"}"#, Some(JsonKind::Null)), &actor, at(1), &vec![]);
    assert_eq!(r.unwrap().dimension.function_name, None);
    let r = cat.create(req("b", 1, r#"{"type": "string"}"#, None), &actor, at(2), &vec![]);
    assert_eq!(r.unwrap().dimension.function_name, None);
    assert_eq!(cat.list().len(), 2);
}

#[test]
fn number_or_object_function_name_is_refused_without_write() {
    let mut cat = DimensionCatalog::new(meta_schema(), vec![]);
    let actor = "a@x".to_string();
    for bad in [JsonKind::Number, JsonKind::Object, JsonKind::Bool(false), JsonKind::Array] {
        let r = cat.create(req("a", 1, r#"{"type": "string"}"#, Some(bad)), &actor, at(1), &vec![]);
        assert_eq!(r, Err(RegistryError::InvalidInput(InputFault::FunctionNameType)));
    }
    assert!(cat.list().is_empty());
}

#[test]
fn string_function_name_is_kept() {
    let mut cat = DimensionCatalog::new(meta_schema(), names(&["check_region"]));
    let r = cat.create(
        req("region", 3, r#"{"type": "string"}"#, Some(JsonKind::Text("check_region".to_string()))),
        &"a@x".to_string(),
        at(5),
        &vec![],
    );
    let d = r.unwrap().dimension;
    assert_eq!(d.function_name, Some("check_region".to_string()));
    assert_eq!(d.priority, 3);
    assert_eq!(d.created_by, "a@x");
    assert_eq!(d.created_at, at(5));
    assert_eq!(d.last_modified_at, at(5));
}

#[test]
fn second_write_replaces_but_keeps_creation_audit() {
    let mut cat = DimensionCatalog::new(meta_schema(), vec![]);
    let first = cat.create(req("region", 1, r#"{"type": "string"}"#, None), &"first@x".to_string(), at(10), &vec![]);
    assert!(first.is_ok());
    let second = cat.create(req("region", 7, r#"{"type": "integer"}"#, None), &"second@x".to_string(), at(20), &vec![]);
    let d = second.unwrap().dimension;
    let all = cat.list();
    assert_eq!(all.len(), 1);
    assert_eq!(all[0], d);
    assert_eq!(d.priority, 7);
    assert_eq!(d.schema, json(r#"{"type": "integer"}"#));
    assert_eq!(d.created_by, "first@x");
    assert_eq!(d.created_at, at(10));
    assert_eq!(d.last_modified_by, "second@x");
    assert_eq!(d.last_modified_at, at(20));
}

#[test]
fn mandatory_flag_follows_tenant_set() {
    let mut cat = DimensionCatalog::new(meta_schema(), vec![]);
    let actor = "a@x".to_string();
    let set = names(&["region", "tier"]);
    let r = cat.create(req("region", 1, r#"{"type": "string"}"#, None), &actor, at(1), &set);
    assert!(r.unwrap().mandatory);
    let r = cat.create(req("color", 2, r#"{"type": "string"}"#, None), &actor, at(2), &set);
    assert!(!r.unwrap().mandatory);
    let listed = cat.list_with_mandatory(&set);
    assert_eq!(listed.len(), 2);
    assert_eq!(listed[0].dimension.dimension, "region");
    assert!(listed[0].mandatory);
    assert_eq!(listed[1].dimension.dimension, "color");
    assert!(!listed[1].mandatory);
}

#[test]
fn missing_function_is_input_error() {
    let mut cat = DimensionCatalog::new(meta_schema(), names(&["known"]));
    let r = cat.create(
        req("region", 1, r#"{"type": "string"}"#, Some(JsonKind::Text("does_not_exist".to_string()))),
        &"a@x".to_string(),
        at(1),
        &vec![],
    );
    assert_eq!(r, Err(RegistryError::InvalidInput(InputFault::MissingFunction("does_not_exist".to_string()))));
    assert!(cat.list().is_empty());
}

fn record(name: &str, priority: i32, schema: &str, by: &str, t: i64) -> Dimension {
    Dimension {
        dimension: name.to_string(),
        priority,
        schema: json(schema),
        function_name: None,
        created_by: by.to_string(),
        created_at: at(t),
        last_modified_by: by.to_string(),
        last_modified_at: at(t),
    }
}

#[test]
fn racing_writes_leave_one_whole_input() {
    let d1 = record("region", 1, r#"{"type": "string"}"#, "one@x", 1);
    let d2 = record("region", 2, r#"{"type": "integer"}"#, "two@x", 2);
    for (a, b) in [(d1.clone(), d2.clone()), (d2.clone(), d1.clone())] {
        let mut cat = DimensionCatalog::new(meta_schema(), vec![]);
        cat.upsert(a.clone()).unwrap();
        assert_eq!(cat.list().len(), 1);
        cat.upsert(b.clone()).unwrap();
        let all = cat.list();
        assert_eq!(all.len(), 1);
        assert_eq!(all[0].priority, b.priority);
        assert_eq!(all[0].schema, b.schema);
        assert_eq!(all[0].last_modified_by, b.last_modified_by);
        assert_eq!(all[0].created_by, a.created_by);
    }
}

#[test]
fn upsert_of_unknown_function_is_refused() {
    let mut cat = DimensionCatalog::new(meta_schema(), vec![]);
    let mut d = record("region", 1, r#"{"type": "string"}"#, "a@x", 1);
    d.function_name = Some("f".to_string());
    assert_eq!(cat.upsert(d), Err(PersistFault::ForeignKeyViolation));
    assert!(cat.list().is_empty());
}

#[test]
fn finish_translates_storage_faults() {
    let f = Some("fn_a".to_string());
    assert_eq!(
        finish_upsert(Err(PersistFault::ForeignKeyViolation), &f, &vec![]),
        Err(RegistryError::InvalidInput(InputFault::MissingFunction("fn_a".to_string())))
    );
    assert_eq!(
        finish_upsert(Err(PersistFault::ForeignKeyViolation), &None, &vec![]),
        Err(RegistryError::InvalidInput(InputFault::MissingFunction(String::new())))
    );
    assert_eq!(finish_upsert(Err(PersistFault::Other), &f, &vec![]), Err(RegistryError::Unexpected));
    let d = record("tier", 1, r#"{"type": "string"}"#, "a@x", 1);
    let r = finish_upsert(Ok(d.clone()), &None, &names(&["tier"])).unwrap();
    assert_eq!(r.dimension, d);
    assert!(r.mandatory);
}

#[test]
fn normalization_of_each_json_kind() {
    assert_eq!(normalize_function_name(None), Ok(None));
    assert_eq!(normalize_function_name(Some(JsonKind::Null)), Ok(None));
    assert_eq!(normalize_function_name(Some(JsonKind::Text("f".to_string()))), Ok(Some("f".to_string())));
    for k in [JsonKind::Bool(true), JsonKind::Number, JsonKind::Array, JsonKind::Object] {
        assert_eq!(normalize_function_name(Some(k)), Err(RegistryError::InvalidInput(InputFault::FunctionNameType)));
    }
}

#[test]
fn decision_checks_meta_schema_before_compilation() {
    let c = CreateReq {
        dimension: "region".to_string(),
        priority: 1,
        schema: json(r#"{"type": "string"}"#),
        function_name: Some(JsonKind::Number),
    };
    let r = decide_candidate(Err(vec!["bad".to_string()]), Err("nope".to_string()), c, "a@x".to_string(), at(1));
    assert_eq!(r, Err(RegistryError::InvalidInput(InputFault::SchemaViolation(vec!["bad".to_string()]))));
    let c = CreateReq {
        dimension: "region".to_string(),
        priority: 4,
        schema: json(r#"{"type": "string"}"#),
        function_name: None,
    };
    let r = decide_candidate(Ok(()), Ok(()), c, "a@x".to_string(), at(9)).unwrap();
    assert_eq!(r, Dimension { priority: 4, ..record("region", 0, r#"{"type": "string"}"#, "a@x", 9) });
}

#[test]
fn prepare_uses_current_time() {
    let r = prepare_candidate(&meta_schema(), req("region", 1, r#"{"type": "string"}"#, None), &"a@x".to_string()).unwrap();
    assert!(r.created_at.micros > 1_600_000_000_000_000);
    assert_eq!(r.created_at, r.last_modified_at);
}

#[test]
fn tagging_marks_members_only() {
    let set = names(&["region", "tier"]);
    assert!(is_mandatory(&set, &"tier".to_string()));
    assert!(!is_mandatory(&set, &"color".to_string()));
    assert!(!is_mandatory(&vec![], &"tier".to_string()));
    let recs = vec![record("region", 1, "{}", "a", 1), record("color", 2, "{}", "a", 1)];
    let tagged = tag_all(&recs, &set);
    assert_eq!(tagged.iter().map(|t| t.mandatory).collect::<Vec<_>>(), vec![true, false]);
}

#[test]
fn gates_come_before_function_name() {
    let actor = "a@x".to_string();
    let r = check_candidate(&meta_schema(), req("a", 1, r#"{"minimum": 1}"#, Some(JsonKind::Number)), &actor, at(1));
    assert!(matches!(r, Err(RegistryError::InvalidInput(InputFault::SchemaViolation(_)))));
    let r = check_candidate(
        &meta_schema(),
        req("a", 1, r#"{"type": "string", "minLength": -1}"#, Some(JsonKind::Object)),
        &actor,
        at(1),
    );
    assert!(matches!(r, Err(RegistryError::InvalidInput(InputFault::SchemaCompile(_)))));
}

#[test]
fn null_and_absent_function_name_give_same_record() {
    let actor = "a@x".to_string();
    let a = check_candidate(&meta_schema(), req("a", 1, r#"{"type": "string"}"#, None), &actor, at(3));
    let b = check_candidate(&meta_schema(), req("a", 1, r#"{"type": "string"}"#, Some(JsonKind::Null)), &actor, at(3));
    assert!(a.is_ok());
    assert_eq!(a, b);
}
