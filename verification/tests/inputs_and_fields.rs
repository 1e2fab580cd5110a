use sb_itchy::arena::BlockMap;
use sb_itchy::arena::CommentMap;
use sb_itchy::block::BlockFieldBuilder;
use sb_itchy::block::BlockInputBuilder;
use sb_itchy::block::BlockNormalBuilder;
use sb_itchy::block::FieldKind;
use sb_itchy::block::StackOrValue;
use sb_itchy::build_context::ProcRegistry;
use sb_itchy::build_context::SymbolTable;
use sb_itchy::build_context::TargetContext;
use sb_itchy::document::BlockField;
use sb_itchy::document::BlockInputValue;
use sb_itchy::document::ShadowInputType;
use sb_itchy::document::UidOrValue;
use sb_itchy::stack::StackBuilder;
use sb_itchy::uid::Uid;
use sb_itchy::uid::UidSource;
use sb_itchy::value::Value;

fn number_text(value: &str) -> BlockInputValue {
    BlockInputValue::Number { value: Value::Text(value.to_string()) }
}

#[test]
fn field_of_a_known_global_variable_gets_its_identifier() {
    let mut vars = SymbolTable::new();
    vars.insert("score".to_string(), Uid::new("X".to_string()));
    let empty = SymbolTable::new();
    let registry = ProcRegistry::new();
    let ctx = TargetContext {
        global_vars: &vars,
        global_lists: &empty,
        this_sprite_vars: &empty,
        this_sprite_lists: &empty,
        all_broadcasts: &empty,
        custom_blocks: &registry,
    };
    let field =
        BlockFieldBuilder::new_with_kind("score".to_string(), FieldKind::GlobalVariable).build(&ctx);
    assert_eq!(
        field,
        BlockField::WithId {
            value: Value::Text("score".to_string()),
            id: Some(Uid::new("X".to_string())),
        }
    );
}

#[test]
fn field_of_a_missing_variable_gets_the_identifier_for_unknown_symbols() {
    let mut vars = SymbolTable::new();
    vars.insert("score".to_string(), Uid::new("X".to_string()));
    let empty = SymbolTable::new();
    let registry = ProcRegistry::new();
    let ctx = TargetContext {
        global_vars: &vars,
        global_lists: &empty,
        this_sprite_vars: &empty,
        this_sprite_lists: &empty,
        all_broadcasts: &empty,
        custom_blocks: &registry,
    };
    let field =
        BlockFieldBuilder::new_with_kind("missing".to_string(), FieldKind::GlobalVariable)
            .build(&ctx);
    assert_eq!(
        field,
        BlockField::WithId {
            value: Value::Text("missing".to_string()),
            id: Some(Uid::new("__unknown__".to_string())),
        }
    );
    assert_eq!(Uid::unknown().as_str(), "__unknown__");
}

#[test]
fn each_field_kind_looks_into_its_own_table() {
    let mut global_vars = SymbolTable::new();
    global_vars.insert("n".to_string(), Uid::new("gv".to_string()));
    let mut global_lists = SymbolTable::new();
    global_lists.insert("n".to_string(), Uid::new("gl".to_string()));
    let mut sprite_vars = SymbolTable::new();
    sprite_vars.insert("n".to_string(), Uid::new("sv".to_string()));
    let mut sprite_lists = SymbolTable::new();
    sprite_lists.insert("n".to_string(), Uid::new("sl".to_string()));
    let mut broadcasts = SymbolTable::new();
    broadcasts.insert("n".to_string(), Uid::new("bc".to_string()));
    let registry = ProcRegistry::new();
    let ctx = TargetContext {
        global_vars: &global_vars,
        global_lists: &global_lists,
        this_sprite_vars: &sprite_vars,
        this_sprite_lists: &sprite_lists,
        all_broadcasts: &broadcasts,
        custom_blocks: &registry,
    };
    let cases = [
        (FieldKind::GlobalVariable, "gv"),
        (FieldKind::GlobalList, "gl"),
        (FieldKind::SpriteVariable, "sv"),
        (FieldKind::SpriteList, "sl"),
        (FieldKind::Broadcast, "bc"),
    ];
    for (kind, id) in cases {
        let field = BlockFieldBuilder::new_with_kind("n".to_string(), kind).build(&ctx);
        assert_eq!(
            field,
            BlockField::WithId {
                value: Value::Text("n".to_string()),
                id: Some(Uid::new(id.to_string())),
            }
        );
    }
}

#[test]
fn plain_fields_are_not_looked_up() {
    let mut vars = SymbolTable::new();
    vars.insert("score".to_string(), Uid::new("X".to_string()));
    let registry = ProcRegistry::new();
    let ctx = TargetContext {
        global_vars: &vars,
        global_lists: &vars,
        this_sprite_vars: &vars,
        this_sprite_lists: &vars,
        all_broadcasts: &vars,
        custom_blocks: &registry,
    };
    let plain = BlockFieldBuilder::new_with_kind("score".to_string(), FieldKind::NoRef).build(&ctx);
    assert_eq!(plain, BlockField::NoId { value: Value::Text("score".to_string()) });
    let untyped = BlockFieldBuilder::new("score".to_string());
    assert_eq!(untyped.kind, FieldKind::NoRefMaybe);
    assert_eq!(
        untyped.build(&ctx),
        BlockField::WithId { value: Value::Text("score".to_string()), id: None }
    );
    assert_eq!(BlockFieldBuilder::default().kind, FieldKind::NoRefMaybe);
}

#[test]
fn field_builder_setters_change_one_part() {
    let mut field = BlockFieldBuilder::new("a".to_string());
    field.set_value("b".to_string()).set_kind(FieldKind::Broadcast);
    assert_eq!(field, BlockFieldBuilder::new_with_kind("b".to_string(), FieldKind::Broadcast));
}

#[test]
fn fields_of_a_statement_are_built_in_order() {
    let mut lists = SymbolTable::new();
    lists.insert("todo".to_string(), Uid::new("L1".to_string()));
    let empty = SymbolTable::new();
    let registry = ProcRegistry::new();
    let ctx = TargetContext {
        global_vars: &empty,
        global_lists: &lists,
        this_sprite_vars: &empty,
        this_sprite_lists: &empty,
        all_broadcasts: &empty,
        custom_blocks: &registry,
    };
    let mut ids = UidSource::new();
    let mut comments = CommentMap::new();
    let mut blocks = BlockMap::new();
    let mut block = BlockNormalBuilder::new("data_addtolist".to_string());
    block.add_field(
        "LIST".to_string(),
        BlockFieldBuilder::new_with_kind("todo".to_string(), FieldKind::GlobalList),
    );
    block.add_field("MODE".to_string(), BlockFieldBuilder::new("all".to_string()));
    block.add_field(
        "LIST".to_string(),
        BlockFieldBuilder::new_with_kind("todo".to_string(), FieldKind::SpriteList),
    );
    let node = block
        .build(&Uid::new("b".to_string()), &mut comments, &mut blocks, &ctx, &mut ids)
        .unwrap();
    assert_eq!(node.fields.len(), 2);
    assert_eq!(node.fields[0].0, "LIST");
    assert_eq!(
        node.fields[0].1,
        BlockField::WithId {
            value: Value::Text("todo".to_string()),
            id: Some(Uid::unknown()),
        }
    );
    assert_eq!(node.fields[1].0, "MODE");
}

#[test]
fn named_constructors_set_the_shadow_kind_and_the_slots() {
    let stack = || StackBuilder::start(BlockNormalBuilder::new("sensing_answer".to_string()));
    let literal = BlockInputBuilder::value(number_text("10"));
    assert_eq!(literal.shadow, ShadowInputType::Shadow);
    assert_eq!(literal.values, vec![Some(StackOrValue::Value(number_text("10")))]);
    let nested = BlockInputBuilder::stack(stack());
    assert_eq!(nested.shadow, ShadowInputType::NoShadow);
    assert_eq!(nested.values, vec![Some(StackOrValue::Stack(stack()))]);
    let shadowed = BlockInputBuilder::shadow_stack(stack());
    assert_eq!(shadowed.shadow, ShadowInputType::Shadow);
    assert_eq!(shadowed.values, vec![Some(StackOrValue::Stack(stack()))]);
    let obscured = BlockInputBuilder::stack_with_value_obscured(stack(), number_text("10"));
    assert_eq!(obscured.shadow, ShadowInputType::ShadowObscured);
    assert_eq!(
        obscured.values,
        vec![Some(StackOrValue::Stack(stack())), Some(StackOrValue::Value(number_text("10")))]
    );
    let empty = BlockInputBuilder::new();
    assert_eq!(empty.shadow, ShadowInputType::NoShadow);
    assert!(empty.values.is_empty());
    assert_eq!(BlockInputBuilder::default(), empty);
}

#[test]
fn obscured_input_builds_to_a_reference_and_a_literal() {
    let empty = SymbolTable::new();
    let registry = ProcRegistry::new();
    let ctx = TargetContext {
        global_vars: &empty,
        global_lists: &empty,
        this_sprite_vars: &empty,
        this_sprite_lists: &empty,
        all_broadcasts: &empty,
        custom_blocks: &registry,
    };
    let mut ids = UidSource::new();
    let mut comments = CommentMap::new();
    let mut blocks = BlockMap::new();
    let owner = Uid::new("owner".to_string());
    let input = BlockInputBuilder::stack_with_value_obscured(
        StackBuilder::start(BlockNormalBuilder::new("sensing_answer".to_string())),
        number_text("10"),
    )
    .build(&owner, &mut comments, &mut blocks, &ctx, &mut ids)
    .unwrap();
    assert_eq!(input.shadow, ShadowInputType::ShadowObscured);
    assert_eq!(input.inputs.len(), 2);
    assert_eq!(input.inputs[0], Some(UidOrValue::Uid(Uid::new("0".to_string()))));
    assert_eq!(input.inputs[1], Some(UidOrValue::Value(number_text("10"))));
    assert_eq!(blocks.len(), 1);
}

#[test]
fn shadow_and_plain_inputs_build_to_one_slot() {
    let empty = SymbolTable::new();
    let registry = ProcRegistry::new();
    let ctx = TargetContext {
        global_vars: &empty,
        global_lists: &empty,
        this_sprite_vars: &empty,
        this_sprite_lists: &empty,
        all_broadcasts: &empty,
        custom_blocks: &registry,
    };
    let mut ids = UidSource::new();
    let mut comments = CommentMap::new();
    let mut blocks = BlockMap::new();
    let owner = Uid::new("owner".to_string());
    let literal = BlockInputBuilder::value(number_text("3"))
        .build(&owner, &mut comments, &mut blocks, &ctx, &mut ids)
        .unwrap();
    assert_eq!(literal.inputs, vec![Some(UidOrValue::Value(number_text("3")))]);
    let nested = BlockInputBuilder::stack(StackBuilder::start(BlockNormalBuilder::new(
        "sensing_answer".to_string(),
    )))
    .build(&owner, &mut comments, &mut blocks, &ctx, &mut ids)
    .unwrap();
    assert_eq!(nested.shadow, ShadowInputType::NoShadow);
    assert_eq!(nested.inputs, vec![Some(UidOrValue::Uid(Uid::new("0".to_string())))]);
}

#[test]
fn slot_that_is_left_out_stays_left_out() {
    let empty = SymbolTable::new();
    let registry = ProcRegistry::new();
    let ctx = TargetContext {
        global_vars: &empty,
        global_lists: &empty,
        this_sprite_vars: &empty,
        this_sprite_lists: &empty,
        all_broadcasts: &empty,
        custom_blocks: &registry,
    };
    let mut ids = UidSource::new();
    let mut comments = CommentMap::new();
    let mut blocks = BlockMap::new();
    let owner = Uid::new("owner".to_string());
    let mut builder = BlockInputBuilder::new();
    builder.set_shadow(ShadowInputType::ShadowObscured).add_input(None).add_input(Some(
        StackOrValue::Value(number_text("0")),
    ));
    let input = builder.build(&owner, &mut comments, &mut blocks, &ctx, &mut ids).unwrap();
    assert_eq!(input.inputs, vec![None, Some(UidOrValue::Value(number_text("0")))]);
}

#[test]
fn shared_symbols_serve_every_target() {
    let mut shared = sb_itchy::build_context::GlobalVarListContext {
        vars: SymbolTable::new(),
        lists: SymbolTable::new(),
    };
    shared.vars.insert("score".to_string(), Uid::new("V".to_string()));
    shared.lists.insert("names".to_string(), Uid::new("L".to_string()));
    let own = SymbolTable::new();
    let registry = ProcRegistry::new();
    let ctx = TargetContext {
        global_vars: &shared.vars,
        global_lists: &shared.lists,
        this_sprite_vars: &own,
        this_sprite_lists: &own,
        all_broadcasts: &own,
        custom_blocks: &registry,
    };
    let list = BlockFieldBuilder::new_with_kind("names".to_string(), FieldKind::GlobalList).build(&ctx);
    assert_eq!(
        list,
        BlockField::WithId { value: Value::Text("names".to_string()), id: Some(Uid::new("L".to_string())) }
    );
    let local = BlockFieldBuilder::new_with_kind("names".to_string(), FieldKind::SpriteList).build(&ctx);
    assert_eq!(
        local,
        BlockField::WithId { value: Value::Text("names".to_string()), id: Some(Uid::unknown()) }
    );
}
