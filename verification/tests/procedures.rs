use rs_sb3::value::Number;
use sb_itchy::arena::BlockMap;
use sb_itchy::arena::CommentMap;
use sb_itchy::block::BlockBuilder;
use sb_itchy::block::BlockInputBuilder;
use sb_itchy::block::BlockNormalBuilder;
use sb_itchy::build_context::ProcRegistry;
use sb_itchy::build_context::SymbolTable;
use sb_itchy::build_context::TargetContext;
use sb_itchy::comment::CommentBuilder;
use sb_itchy::custom_block::CustomBlockBuilder;
use sb_itchy::custom_block::CustomBlockInputType;
use sb_itchy::custom_block::CustomBlockTy;
use sb_itchy::custom_block::CustomFuncCallBuilder;
use sb_itchy::document::Block;
use sb_itchy::document::BlockField;
use sb_itchy::document::BlockInput;
use sb_itchy::document::BlockInputValue;
use sb_itchy::document::BlockMutation;
use sb_itchy::document::BlockMutationEnum;
use sb_itchy::document::BlockNormal;
use sb_itchy::document::ShadowInputType;
use sb_itchy::document::UidOrValue;
use sb_itchy::error::BuildError;
use sb_itchy::func::CustomFuncBuilder;
use sb_itchy::func::CustomFuncInputType;
use sb_itchy::func::generate_func_input_block;
use sb_itchy::func::generate_func_input_block_var_boolean;
use sb_itchy::func::generate_func_input_block_var_string_number;
use sb_itchy::stack::StackBuilder;
use sb_itchy::uid::Uid;
use sb_itchy::uid::UidSource;
use sb_itchy::value::Value;
use sb_itchy::value::ValueWithBool;

fn uid(text: &str) -> Uid {
    Uid::new(text.to_string())
}

fn normal(block: &Block) -> &BlockNormal {
    match block {
        Block::Normal(node) => node,
        Block::VarList(_) => panic!("a reporter where a statement was expected"),
    }
}

fn text_input(value: &str) -> BlockInputValue {
    BlockInputValue::String { value: Value::Text(value.to_string()) }
}

fn reference(id: &str) -> BlockInput {
    BlockInput { shadow: ShadowInputType::Shadow, inputs: vec![Some(UidOrValue::Uid(uid(id)))] }
}

fn foo_signature(ids: &mut UidSource) -> CustomBlockTy {
    CustomBlockTy::new(
        vec![
            CustomBlockInputType::Text("foo".to_string()),
            CustomBlockInputType::StringOrNumber("x".to_string()),
        ],
        false,
        ids,
    )
}

#[test]
fn signature_gives_identifiers_to_the_arguments_that_take_a_value() {
    let mut ids = UidSource::new();
    let ty = CustomBlockTy::new(
        vec![
            CustomBlockInputType::Text("say".to_string()),
            CustomBlockInputType::StringOrNumber("what".to_string()),
            CustomBlockInputType::Text("if".to_string()),
            CustomBlockInputType::Boolean("loud".to_string()),
        ],
        true,
        &mut ids,
    );
    assert_eq!(ty.name(), "say");
    assert_eq!(ty.proccode(), "say %s if %b");
    assert!(ty.warp());
    assert_eq!(ty.argumentids(), vec![uid("0"), uid("1")]);
    assert_eq!(ty.argumentnames(), vec!["what".to_string(), "loud".to_string()]);
    assert_eq!(
        ty.argumentdefaults(),
        vec![ValueWithBool::Text(String::new()), ValueWithBool::Bool(false)]
    );
    assert_eq!(
        ty.vars(),
        vec![
            (uid("0"), CustomBlockInputType::StringOrNumber("what".to_string())),
            (uid("1"), CustomBlockInputType::Boolean("loud".to_string())),
        ]
    );
    assert_eq!(ids.generate(), uid("2"));
    assert_eq!(
        ty.call_mutation(),
        BlockMutationEnum::ProceduresCall {
            proccode: "say %s if %b".to_string(),
            argumentids: vec![uid("0"), uid("1")],
            warp: Some(true),
        }
    );
    assert_eq!(
        ty.define_mutation(),
        BlockMutationEnum::ProceduresPrototype {
            proccode: "say %s if %b".to_string(),
            argumentids: vec![uid("0"), uid("1")],
            argumentnames: vec!["what".to_string(), "loud".to_string()],
            argumentdefaults: vec![ValueWithBool::Text(String::new()), ValueWithBool::Bool(false)],
            warp: Some(true),
        }
    );
}

#[test]
fn signature_without_a_leading_label_has_the_empty_name() {
    let mut ids = UidSource::new();
    let ty = CustomBlockTy::new(
        vec![CustomBlockInputType::Boolean("b".to_string())],
        false,
        &mut ids,
    );
    assert_eq!(ty.name(), "");
    assert_eq!(ty.proccode(), "%b");
    let none = CustomBlockTy::new(vec![], false, &mut ids);
    assert_eq!(none.name(), "");
    assert_eq!(none.proccode(), "");
    assert!(none.vars().is_empty());
    assert!(!none.warp());
}

#[test]
fn argument_kinds_know_their_names() {
    assert_eq!(CustomBlockInputType::Text("a".to_string()).name(), "a");
    assert_eq!(CustomBlockInputType::StringOrNumber("b".to_string()).name(), "b");
    assert_eq!(CustomBlockInputType::Boolean("c".to_string()).name(), "c");
}

#[test]
fn call_without_an_argument_carries_the_empty_text() {
    let mut ids = UidSource::new();
    let mut registry = ProcRegistry::new();
    registry.register(foo_signature(&mut ids));
    let empty = SymbolTable::new();
    let ctx = TargetContext {
        global_vars: &empty,
        global_lists: &empty,
        this_sprite_vars: &empty,
        this_sprite_lists: &empty,
        all_broadcasts: &empty,
        custom_blocks: &registry,
    };
    let mut comments = CommentMap::new();
    let mut blocks = BlockMap::new();
    let mut call = CustomFuncCallBuilder::new();
    call.set_name("foo".to_string());
    let node = call.build(&uid("call"), &mut comments, &mut blocks, &ctx, &mut ids).unwrap();
    assert_eq!(node.opcode, "procedures_call");
    assert_eq!(
        node.inputs,
        vec![(
            "0".to_string(),
            BlockInput {
                shadow: ShadowInputType::Shadow,
                inputs: vec![Some(UidOrValue::Value(text_input("")))],
            }
        )]
    );
    assert_eq!(
        node.mutation,
        Some(BlockMutation {
            tag_name: "mutation".to_string(),
            mutation_enum: BlockMutationEnum::ProceduresCall {
                proccode: "foo %s".to_string(),
                argumentids: vec![uid("0")],
                warp: Some(false),
            },
        })
    );
    assert!(blocks.is_empty());
    assert!(node.fields.is_empty());
    assert!(!node.top_level);
}

#[test]
fn call_takes_the_arguments_that_it_supplies_by_name() {
    let mut ids = UidSource::new();
    let mut registry = ProcRegistry::new();
    registry.register(CustomBlockTy::new(
        vec![
            CustomBlockInputType::Text("mix".to_string()),
            CustomBlockInputType::StringOrNumber("a".to_string()),
            CustomBlockInputType::Boolean("fast".to_string()),
            CustomBlockInputType::StringOrNumber("b".to_string()),
            CustomBlockInputType::Boolean("loud".to_string()),
        ],
        false,
        &mut ids,
    ));
    let empty = SymbolTable::new();
    let ctx = TargetContext {
        global_vars: &empty,
        global_lists: &empty,
        this_sprite_vars: &empty,
        this_sprite_lists: &empty,
        all_broadcasts: &empty,
        custom_blocks: &registry,
    };
    let mut comments = CommentMap::new();
    let mut blocks = BlockMap::new();
    let mut call = CustomFuncCallBuilder::new();
    call.set_name("mix".to_string())
        .add_input("b".to_string(), BlockInputBuilder::value(text_input("two")))
        .add_input(
            "loud".to_string(),
            BlockInputBuilder::stack(StackBuilder::start(BlockNormalBuilder::new(
                "sensing_mousedown".to_string(),
            ))),
        )
        .add_input("nobody".to_string(), BlockInputBuilder::value(text_input("ignored")))
        .set_shadow(true)
        .set_pos(Some(Number::Int(1)), Some(Number::Int(2)));
    let node = call.build(&uid("call"), &mut comments, &mut blocks, &ctx, &mut ids).unwrap();
    assert_eq!(node.inputs.len(), 3);
    assert_eq!(node.inputs[0].0, "0");
    assert_eq!(node.inputs[0].1.inputs, vec![Some(UidOrValue::Value(text_input("")))]);
    assert_eq!(node.inputs[1].0, "2");
    assert_eq!(node.inputs[1].1.inputs, vec![Some(UidOrValue::Value(text_input("two")))]);
    assert_eq!(node.inputs[2].0, "3");
    assert_eq!(node.inputs[2].1.shadow, ShadowInputType::NoShadow);
    assert_eq!(node.inputs[2].1.inputs, vec![Some(UidOrValue::Uid(uid("4")))]);
    assert!(node.shadow);
    assert_eq!(node.x, Some(Number::Int(1)));
    assert_eq!(node.y, Some(Number::Int(2)));
    assert_eq!(blocks.len(), 1);
    let nested = normal(blocks.get(&uid("4")).unwrap());
    assert_eq!(nested.parent, Some(uid("call")));
}

#[test]
fn call_of_an_unregistered_procedure_fails_and_leaves_nothing_behind() {
    let mut ids = UidSource::new();
    let mut registry = ProcRegistry::new();
    registry.register(foo_signature(&mut ids));
    let empty = SymbolTable::new();
    let ctx = TargetContext {
        global_vars: &empty,
        global_lists: &empty,
        this_sprite_vars: &empty,
        this_sprite_lists: &empty,
        all_broadcasts: &empty,
        custom_blocks: &registry,
    };
    let mut comments = CommentMap::new();
    let mut blocks = BlockMap::new();
    blocks.insert(uid("kept"), Block::Normal(reporter_node_for_test()));
    let before = blocks.clone();
    let mut call = CustomFuncCallBuilder::new();
    call.set_name("bar".to_string()).set_comment(CommentBuilder::new("never".to_string()));
    call.add_input(
        "x".to_string(),
        BlockInputBuilder::stack(StackBuilder::start(BlockNormalBuilder::new(
            "sensing_answer".to_string(),
        ))),
    );
    let built = call.build(&uid("call"), &mut comments, &mut blocks, &ctx, &mut ids);
    assert_eq!(built, Err(BuildError::ProcedureNotFound("bar".to_string())));
    assert_eq!(blocks, before);
    assert!(comments.is_empty());
    assert_eq!(ids.generate(), uid("1"));
}

fn reporter_node_for_test() -> BlockNormal {
    BlockNormal {
        opcode: "looks_show".to_string(),
        comment: None,
        next: None,
        parent: None,
        inputs: vec![],
        fields: vec![],
        shadow: false,
        top_level: true,
        mutation: None,
        x: None,
        y: None,
    }
}

#[test]
fn unregistered_call_inside_a_script_fails_the_whole_build() {
    let mut ids = UidSource::new();
    let registry = ProcRegistry::new();
    let empty = SymbolTable::new();
    let ctx = TargetContext {
        global_vars: &empty,
        global_lists: &empty,
        this_sprite_vars: &empty,
        this_sprite_lists: &empty,
        all_broadcasts: &empty,
        custom_blocks: &registry,
    };
    let mut comments = CommentMap::new();
    let first = ids.generate();
    let mut noted = BlockNormalBuilder::new("looks_show".to_string());
    noted.set_comment(Some(CommentBuilder::new("first".to_string())));
    let mut call = CustomFuncCallBuilder::new();
    call.set_name("jump".to_string());
    let mut stack = StackBuilder::start(noted);
    stack.stack.push(BlockBuilder::CustomBlockCall(call));
    let built = stack.build(&first, &mut comments, &ctx, &mut ids);
    assert_eq!(built, Err(BuildError::ProcedureNotFound("jump".to_string())));
    assert!(comments.is_empty());
    assert_eq!(ids.generate(), uid("1"));
}

#[test]
fn definition_of_a_registered_procedure_emits_prototype_and_reporters() {
    let mut ids = UidSource::new();
    let mut registry = ProcRegistry::new();
    registry.register(CustomBlockTy::new(
        vec![
            CustomBlockInputType::Text("jump".to_string()),
            CustomBlockInputType::StringOrNumber("height".to_string()),
            CustomBlockInputType::Boolean("twice".to_string()),
        ],
        true,
        &mut ids,
    ));
    let empty = SymbolTable::new();
    let ctx = TargetContext {
        global_vars: &empty,
        global_lists: &empty,
        this_sprite_vars: &empty,
        this_sprite_lists: &empty,
        all_broadcasts: &empty,
        custom_blocks: &registry,
    };
    let mut comments = CommentMap::new();
    let first = ids.generate();
    assert_eq!(first, uid("2"));
    let mut definition = CustomBlockBuilder::new("jump".to_string());
    definition.set_pos(Number::Int(10), Number::Int(20));
    definition.set_comment(CommentBuilder::new("jumps".to_string()));
    let mut stack = StackBuilder::new();
    stack.stack.push(BlockBuilder::CustomBlock(definition));
    let stack = stack.next(StackBuilder::start(BlockNormalBuilder::new("looks_show".to_string())));
    let blocks = stack.build(&first, &mut comments, &ctx, &mut ids).unwrap();
    assert_eq!(blocks.len(), 5);
    let entries = blocks.clone().into_entries();
    let keys: Vec<&str> = entries.iter().map(|e| e.0.as_str()).collect();
    assert_eq!(keys, vec!["4", "5", "3", "2", "7"]);

    let height = normal(&entries[0].1);
    assert_eq!(height.opcode, "argument_reporter_string_number");
    assert_eq!(height.parent, Some(uid("3")));
    assert!(height.shadow);
    assert!(!height.top_level);
    assert_eq!(
        height.fields,
        vec![(
            "VALUE".to_string(),
            BlockField::WithId { value: Value::Text("height".to_string()), id: None }
        )]
    );
    let twice = normal(&entries[1].1);
    assert_eq!(twice.opcode, "argument_reporter_boolean");
    assert_eq!(twice.parent, Some(uid("3")));

    let prototype = normal(&entries[2].1);
    assert_eq!(prototype.opcode, "procedures_prototype");
    assert_eq!(prototype.parent, Some(uid("2")));
    assert!(prototype.shadow);
    assert_eq!(
        prototype.inputs,
        vec![("0".to_string(), reference("4")), ("1".to_string(), reference("5"))]
    );
    assert_eq!(
        prototype.mutation,
        Some(BlockMutation {
            tag_name: "mutation".to_string(),
            mutation_enum: BlockMutationEnum::ProceduresPrototype {
                proccode: "jump %s %b".to_string(),
                argumentids: vec![uid("0"), uid("1")],
                argumentnames: vec!["height".to_string(), "twice".to_string()],
                argumentdefaults: vec![
                    ValueWithBool::Text(String::new()),
                    ValueWithBool::Bool(false)
                ],
                warp: Some(true),
            },
        })
    );

    let definition = normal(&entries[3].1);
    assert_eq!(definition.opcode, "procedures_definition");
    assert_eq!(definition.inputs, vec![("custom_block".to_string(), reference("3"))]);
    assert!(definition.top_level);
    assert_eq!(definition.x, Some(Number::Int(10)));
    assert_eq!(definition.y, Some(Number::Int(20)));
    assert_eq!(definition.comment, Some(uid("6")));
    assert_eq!(definition.next, Some(uid("7")));
    assert_eq!(definition.mutation, None);
    assert_eq!(comments.get(&uid("6")).unwrap().block_id, Some(uid("2")));
    assert_eq!(normal(&entries[4].1).parent, Some(uid("2")));
}

#[test]
fn definition_of_an_unregistered_procedure_fails() {
    let mut ids = UidSource::new();
    let registry = ProcRegistry::new();
    let empty = SymbolTable::new();
    let ctx = TargetContext {
        global_vars: &empty,
        global_lists: &empty,
        this_sprite_vars: &empty,
        this_sprite_lists: &empty,
        all_broadcasts: &empty,
        custom_blocks: &registry,
    };
    let mut comments = CommentMap::new();
    let mut blocks = BlockMap::new();
    let built = CustomBlockBuilder::new("jump".to_string()).build(
        &uid("d"),
        &mut comments,
        &mut blocks,
        &ctx,
        &mut ids,
    );
    assert_eq!(built, Err(BuildError::ProcedureNotFound("jump".to_string())));
    assert!(blocks.is_empty());
    assert_eq!(ids.generate(), uid("0"));
}

#[test]
fn building_a_procedure_registers_it_for_later_calls() {
    let mut ids = UidSource::new();
    let mut registry = ProcRegistry::new();
    let mut comments = CommentMap::new();
    let mut blocks = BlockMap::new();
    let mut procedure = CustomFuncBuilder::new();
    procedure
        .add_arg(CustomFuncInputType::Text("foo".to_string()))
        .add_arg(CustomFuncInputType::StringOrNumber("x".to_string()))
        .set_warp(true)
        .set_pos(Number::Int(0), Number::Int(300));
    let my = ids.generate();
    let definition = procedure.build(&my, &mut comments, &mut blocks, &mut registry, &mut ids);
    assert_eq!(definition.opcode, "procedures_definition");
    assert!(definition.top_level);
    assert_eq!(definition.parent, None);
    assert_eq!(definition.y, Some(Number::Int(300)));
    assert_eq!(definition.inputs, vec![("custom_block".to_string(), reference("2"))]);
    assert_eq!(blocks.len(), 2);
    assert_eq!(normal(blocks.get(&uid("3")).unwrap()).opcode, "argument_reporter_string_number");
    assert_eq!(normal(blocks.get(&uid("2")).unwrap()).parent, Some(my));
    assert_eq!(registry.len(), 1);
    let found = registry.find(&"foo".to_string()).unwrap();
    assert_eq!(found.proccode(), "foo %s");
    assert_eq!(found.argumentids(), vec![uid("1")]);
    assert!(found.warp());

    let empty = SymbolTable::new();
    let ctx = TargetContext {
        global_vars: &empty,
        global_lists: &empty,
        this_sprite_vars: &empty,
        this_sprite_lists: &empty,
        all_broadcasts: &empty,
        custom_blocks: &registry,
    };
    let mut call = CustomFuncCallBuilder::new();
    call.set_name("foo".to_string());
    let node = call.build(&uid("call"), &mut comments, &mut blocks, &ctx, &mut ids).unwrap();
    assert_eq!(node.inputs.len(), 1);
    assert_eq!(node.inputs[0].0, "1");
    assert_eq!(node.inputs[0].1.inputs, vec![Some(UidOrValue::Value(text_input("")))]);
}

#[test]
fn registering_a_name_again_replaces_the_signature() {
    let mut ids = UidSource::new();
    let mut registry = ProcRegistry::new();
    registry.register(foo_signature(&mut ids));
    registry.register(CustomBlockTy::new(
        vec![CustomBlockInputType::Text("other".to_string())],
        false,
        &mut ids,
    ));
    registry.register(CustomBlockTy::new(
        vec![
            CustomBlockInputType::Text("foo".to_string()),
            CustomBlockInputType::Boolean("flag".to_string()),
        ],
        true,
        &mut ids,
    ));
    assert_eq!(registry.len(), 2);
    assert_eq!(registry.find(&"foo".to_string()).unwrap().proccode(), "foo %b");
    assert_eq!(registry.find(&"other".to_string()).unwrap().proccode(), "other");
    assert!(registry.find(&"missing".to_string()).is_none());
}

#[test]
fn prototype_of_new_arguments_is_made_below_its_definition() {
    let mut ids = UidSource::new();
    let mut blocks = BlockMap::new();
    let params = vec![
        CustomFuncInputType::Text("wave".to_string()),
        CustomFuncInputType::Boolean("left".to_string()),
    ];
    let (prototype, signature) =
        generate_func_input_block(uid("def"), &params, &mut blocks, false, &mut ids);
    assert_eq!(prototype, uid("1"));
    assert_eq!(signature.proccode(), "wave %b");
    assert_eq!(signature.argumentids(), vec![uid("0")]);
    assert_eq!(blocks.len(), 2);
    let node = normal(blocks.get(&uid("1")).unwrap());
    assert_eq!(node.parent, Some(uid("def")));
    assert_eq!(node.inputs, vec![("0".to_string(), reference("2"))]);
    assert_eq!(normal(blocks.get(&uid("2")).unwrap()).opcode, "argument_reporter_boolean");
}

#[test]
fn reporters_of_single_arguments() {
    let mut ids = UidSource::new();
    let (id, block, token, default) =
        generate_func_input_block_var_boolean("proto".to_string(), "left".to_string(), &mut ids);
    assert_eq!(id, uid("0"));
    assert_eq!(token, "%b");
    assert_eq!(default, ValueWithBool::Bool(false));
    let node = normal(&block);
    assert_eq!(node.opcode, "argument_reporter_boolean");
    assert_eq!(node.parent, Some(uid("proto")));
    assert!(node.shadow);
    let (id, block, token, default) =
        generate_func_input_block_var_string_number(uid("proto"), "steps".to_string(), &mut ids);
    assert_eq!(id, uid("1"));
    assert_eq!(token, "%s");
    assert_eq!(default, ValueWithBool::Text(String::new()));
    let node = normal(&block);
    assert_eq!(node.opcode, "argument_reporter_string_number");
    assert_eq!(
        node.fields,
        vec![(
            "VALUE".to_string(),
            BlockField::WithId { value: Value::Text("steps".to_string()), id: None }
        )]
    );
}
