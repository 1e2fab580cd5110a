use sb_itchy::arena::UidMap;
use sb_itchy::build_context::SymbolTable;
use sb_itchy::data::ListBuilder;
use sb_itchy::data::VariableBuilder;
use sb_itchy::opcode::PenExtensionOpCode;
use sb_itchy::opcode::PrimaryOpCode;
use sb_itchy::uid::Uid;
use sb_itchy::uid::UidSource;
use sb_itchy::value::Value;
use sb_itchy::value::ValueWithBool;

fn uid(text: &str) -> Uid {
    Uid::new(text.to_string())
}

#[test]
fn source_counts_in_decimal() {
    let mut ids = UidSource::new();
    let mut seen: Vec<String> = Vec::new();
    for _ in 0..1001 {
        seen.push(ids.generate().into_inner());
    }
    assert_eq!(seen[0], "0");
    assert_eq!(seen[9], "9");
    assert_eq!(seen[10], "10");
    assert_eq!(seen[99], "99");
    assert_eq!(seen[100], "100");
    assert_eq!(seen[109], "109");
    assert_eq!(seen[110], "110");
    assert_eq!(seen[999], "999");
    assert_eq!(seen[1000], "1000");
    for (n, text) in seen.iter().enumerate() {
        assert_eq!(*text, n.to_string());
    }
}

#[test]
fn identifiers_compare_by_their_text() {
    assert_eq!(uid("a"), uid("a"));
    assert_ne!(uid("a"), uid("b"));
    assert_eq!(uid("a").clone().into_inner(), "a");
}

#[test]
fn value_that_is_put_under_an_identifier_replaces_the_old_one() {
    let mut map: UidMap<Value> = UidMap::new();
    assert!(map.is_empty());
    assert!(map.get(&uid("a")).is_none());
    map.insert(uid("a"), Value::Text("one".to_string()));
    map.insert(uid("b"), Value::Text("two".to_string()));
    map.insert(uid("a"), Value::Text("three".to_string()));
    assert_eq!(map.len(), 2);
    assert_eq!(map.get(&uid("a")), Some(&Value::Text("three".to_string())));
    assert_eq!(map.get(&uid("b")), Some(&Value::Text("two".to_string())));
    assert!(map.contains_key(&uid("b")));
    assert!(!map.contains_key(&uid("c")));
    let (key, value) = map.entry(1);
    assert_eq!(*key, uid("b"));
    assert_eq!(*value, Value::Text("two".to_string()));
    let copy = map.clone();
    assert_eq!(copy, map);
    assert_eq!(
        map.into_entries(),
        vec![
            (uid("a"), Value::Text("three".to_string())),
            (uid("b"), Value::Text("two".to_string())),
        ]
    );
}

#[test]
fn symbol_table_resolves_names() {
    let mut table = SymbolTable::new();
    table.insert("score".to_string(), uid("X"));
    table.insert("lives".to_string(), uid("Y"));
    table.insert("score".to_string(), uid("Z"));
    assert_eq!(table.get("score"), Some(uid("Z")));
    assert_eq!(table.get("lives"), Some(uid("Y")));
    assert_eq!(table.get("missing"), None);
    assert_eq!(table.resolve("lives"), uid("Y"));
    assert_eq!(table.resolve("missing"), uid("__unknown__"));
}

#[test]
fn operation_names_are_spelled_as_in_the_document() {
    assert_eq!(PrimaryOpCode::motion_movesteps.to_string(), "motion_movesteps");
    assert_eq!(PrimaryOpCode::control_forever.as_str(), "control_forever");
    assert_eq!(PrimaryOpCode::sound_volume.as_str(), "sound_volume");
    assert_eq!(PrimaryOpCode::procedures_call.to_string(), "procedures_call");
    assert_eq!(PenExtensionOpCode::pen_penDown.to_string(), "pen_penDown");
    assert_eq!(PenExtensionOpCode::pen_changePenHueBy.as_str(), "pen_changePenHueBy");
}

#[test]
fn variable_and_list_builders() {
    let mut ids = UidSource::new();
    let mut builder = VariableBuilder::new(ValueWithBool::Text("hi".to_string()));
    assert!(!builder.is_cloud_variable);
    builder.set_value(ValueWithBool::Bool(true)).set_cloud_variable(false);
    let (variable, id) = builder.build("greeting".to_string(), &mut ids);
    assert_eq!(variable.name, "greeting");
    assert_eq!(variable.value, ValueWithBool::Bool(true));
    assert!(!variable.is_cloud_variable);
    assert_eq!(id, uid("0"));
    let cloud = VariableBuilder::new_cloud_variable(ValueWithBool::Number(
        rs_sb3::value::Number::Int(3),
    ));
    assert!(cloud.is_cloud_variable);
    let (list, id) = ListBuilder::new(vec![ValueWithBool::Text("a".to_string())])
        .build("letters".to_string(), &mut ids);
    assert_eq!(list.name, "letters");
    assert_eq!(list.values, vec![ValueWithBool::Text("a".to_string())]);
    assert_eq!(id, uid("1"));
}
