use rs_sb3::value::Number;
use sb_itchy::arena::BlockMap;
use sb_itchy::arena::CommentMap;
use sb_itchy::block::BlockBuilder;
use sb_itchy::block::StackOrValue;
use sb_itchy::build_context::SymbolTable;
use sb_itchy::build_context::TargetContext;
use sb_itchy::document::BlockInputValue;
use sb_itchy::document::ShadowInputType;
use sb_itchy::uid::Uid;
use sb_itchy::value::Value;
use sb_itchy::block::BlockInputBuilder;
use sb_itchy::block::BlockNormalBuilder;
use sb_itchy::block::BlockVarListBuilder;
use sb_itchy::block::VarListFrom;
use sb_itchy::build_context::ProcRegistry;
use sb_itchy::comment::CommentBuilder;
use sb_itchy::custom_block::CustomBlockBuilder;
use sb_itchy::custom_block::CustomBlockInputType;
use sb_itchy::custom_block::CustomBlockTy;
use sb_itchy::custom_block::CustomFuncCallBuilder;
use sb_itchy::document::BlockMutation;
use sb_itchy::document::BlockMutationEnum;
use sb_itchy::document::ListOrVariable;
use sb_itchy::error::BuildError;
use sb_itchy::stack::StackBuilder;
use sb_itchy::uid::UidSource;

fn registry_with_jump() -> ProcRegistry {
    let mut ids = UidSource::new();
    let mut registry = ProcRegistry::new();
    registry.register(CustomBlockTy::new(
        vec![CustomBlockInputType::Text("jump".to_string())],
        false,
        &mut ids,
    ));
    registry
}

#[test]
fn sound_stack_has_no_fault() {
    let registry = registry_with_jump();
    let mut call = CustomFuncCallBuilder::new();
    call.set_name("jump".to_string());
    let mut stack = StackBuilder::start(BlockNormalBuilder::new("looks_show".to_string()));
    stack.stack.push(BlockBuilder::CustomBlockCall(call));
    stack.stack.push(BlockBuilder::CustomBlock(CustomBlockBuilder::new("jump".to_string())));
    assert_eq!(stack.fault(&registry), None);
}

#[test]
fn first_fault_in_building_order_is_reported() {
    let registry = registry_with_jump();
    let mut missing = CustomFuncCallBuilder::new();
    missing.set_name("fly".to_string());
    let mut stack = StackBuilder::start(BlockNormalBuilder::new("looks_show".to_string()));
    stack.stack.push(BlockBuilder::CustomBlockCall(missing));
    stack.stack.push(BlockBuilder::VarList(BlockVarListBuilder::global_var("v".to_string())));
    assert_eq!(stack.fault(&registry), Some(BuildError::ProcedureNotFound("fly".to_string())));

    let mut inner = CustomFuncCallBuilder::new();
    inner.set_name("swim".to_string());
    let mut nested = StackBuilder::new();
    nested.stack.push(BlockBuilder::CustomBlockCall(inner));
    let mut outer = BlockNormalBuilder::new("control_if".to_string());
    outer.add_input("CONDITION".to_string(), BlockInputBuilder::stack(nested));
    outer.add_input("SUBSTACK".to_string(), BlockInputBuilder::stack(StackBuilder::new()));
    assert_eq!(
        BlockBuilder::Normal(outer).fault(&registry),
        Some(BuildError::ProcedureNotFound("swim".to_string()))
    );
}

#[test]
fn call_with_a_faulty_argument_has_that_fault() {
    let mut ids = UidSource::new();
    let mut registry = ProcRegistry::new();
    registry.register(CustomBlockTy::new(
        vec![
            CustomBlockInputType::Text("jump".to_string()),
            CustomBlockInputType::StringOrNumber("height".to_string()),
        ],
        false,
        &mut ids,
    ));
    let mut call = CustomFuncCallBuilder::new();
    call.set_name("jump".to_string());
    call.add_input("height".to_string(), BlockInputBuilder::stack(StackBuilder::new()));
    assert_eq!(call.fault(&registry), Some(BuildError::EmptyStack));
    assert_eq!(BlockBuilder::CustomBlockCall(call).fault(&registry), Some(BuildError::EmptyStack));
    let definition = BlockBuilder::CustomBlock(CustomBlockBuilder::new("hop".to_string()));
    assert_eq!(
        definition.fault(&registry),
        Some(BuildError::ProcedureNotFound("hop".to_string()))
    );
}

#[test]
fn fault_in_an_argument_that_is_not_built_does_not_count() {
    let mut ids = UidSource::new();
    let mut registry = ProcRegistry::new();
    registry.register(CustomBlockTy::new(
        vec![
            CustomBlockInputType::Text("jump".to_string()),
            CustomBlockInputType::StringOrNumber("height".to_string()),
        ],
        false,
        &mut ids,
    ));
    let empty = SymbolTable::new();
    let ctx = TargetContext {
        global_vars: &empty,
        global_lists: &empty,
        this_sprite_vars: &empty,
        this_sprite_lists: &empty,
        all_broadcasts: &empty,
        custom_blocks: &registry,
    };
    let mut call = CustomFuncCallBuilder::new();
    call.set_name("jump".to_string());
    call.add_input("width".to_string(), BlockInputBuilder::stack(StackBuilder::new()));
    assert_eq!(call.fault(&registry), None);
    let mut comments = CommentMap::new();
    let mut blocks = BlockMap::new();
    let node = call
        .build(&Uid::new("call".to_string()), &mut comments, &mut blocks, &ctx, &mut ids)
        .unwrap();
    assert_eq!(node.inputs.len(), 1);
    assert_eq!(node.inputs[0].0, "0");
    assert!(blocks.is_empty());
}

#[test]
fn input_with_the_wrong_number_of_slots_is_a_fault() {
    let registry = ProcRegistry::new();
    let empty = SymbolTable::new();
    let ctx = TargetContext {
        global_vars: &empty,
        global_lists: &empty,
        this_sprite_vars: &empty,
        this_sprite_lists: &empty,
        all_broadcasts: &empty,
        custom_blocks: &registry,
    };
    let literal = || {
        Some(StackOrValue::Value(BlockInputValue::String { value: Value::Text("a".to_string()) }))
    };
    assert_eq!(BlockInputBuilder::new().fault(&registry), Some(BuildError::IllShapedInput));
    let mut three = BlockInputBuilder::new();
    three
        .set_shadow(ShadowInputType::ShadowObscured)
        .add_input(literal())
        .add_input(literal())
        .add_input(literal());
    assert_eq!(three.fault(&registry), Some(BuildError::IllShapedInput));
    let mut one = BlockInputBuilder::new();
    one.set_shadow(ShadowInputType::ShadowObscured).add_input(literal());
    assert_eq!(one.fault(&registry), Some(BuildError::IllShapedInput));
    let mut two = BlockInputBuilder::new();
    two.set_shadow(ShadowInputType::Shadow).add_input(literal()).add_input(literal());
    let mut ids = UidSource::new();
    let mut comments = CommentMap::new();
    let mut blocks = BlockMap::new();
    let built = two.build(
        &Uid::new("owner".to_string()),
        &mut comments,
        &mut blocks,
        &ctx,
        &mut ids,
    );
    assert_eq!(built, Err(BuildError::IllShapedInput));
    let mut shaped = BlockInputBuilder::new();
    shaped.set_shadow(ShadowInputType::NoShadow).add_input(None);
    assert_eq!(shaped.fault(&registry), None);

    let mut say = BlockNormalBuilder::new("looks_say".to_string());
    say.add_input("MESSAGE".to_string(), BlockInputBuilder::new());
    let stack = StackBuilder::start(BlockNormalBuilder::new("looks_show".to_string()))
        .next(StackBuilder::start(say));
    let built = stack.build_script(&mut comments, &ctx, &mut ids);
    assert_eq!(built, Err(BuildError::IllShapedInput));
    assert_eq!(ids.generate().as_str(), "0");
}

#[test]
fn reporters_are_told_from_other_blocks() {
    let reporter = BlockBuilder::VarList(BlockVarListBuilder::sprite_var("v".to_string()));
    assert!(reporter.is_reporter());
    assert_eq!(reporter.fault(&ProcRegistry::new()), None);
    let statement = BlockBuilder::Normal(BlockNormalBuilder::new("looks_show".to_string()));
    assert!(!statement.is_reporter());
}

#[test]
fn reporter_builders_start_at_the_origin() {
    let var = BlockVarListBuilder::sprite_var("v".to_string());
    assert_eq!(var.kind, ListOrVariable::Variable);
    assert_eq!(var.from, VarListFrom::Sprite);
    assert_eq!(var.x, Number::Int(0));
    assert_eq!(var.y, Number::Int(0));
    assert_eq!(var.comment, None);
    let list = BlockVarListBuilder::global_list("l".to_string());
    assert_eq!(list.kind, ListOrVariable::List);
    assert_eq!(list.from, VarListFrom::Global);
    let mut changed = BlockVarListBuilder::global_var("a".to_string());
    changed
        .set_kind(ListOrVariable::List)
        .set_from(VarListFrom::Sprite)
        .set_name("b".to_string())
        .set_x(Number::Int(1))
        .set_y(Number::Int(2))
        .set_comment(Some(CommentBuilder::new("c".to_string())));
    let mut expected = BlockVarListBuilder::sprite_list("b".to_string());
    expected.set_pos(Number::Int(1), Number::Int(2));
    expected.set_comment(Some(CommentBuilder::new("c".to_string())));
    assert_eq!(changed, expected);
}

#[test]
fn note_builder_describes_a_note() {
    let mut builder = CommentBuilder::new("remember".to_string());
    builder.set_pos(Some(Number::Int(4)), Some(Number::Float(2.5)));
    let note = builder.build();
    assert_eq!(note.block_id, None);
    assert_eq!(note.text, "remember");
    assert_eq!(note.x, Some(Number::Int(4)));
    assert_eq!(note.y, Some(Number::Float(2.5)));
    assert_eq!(note.width, Number::Int(200));
    assert_eq!(note.height, Number::Int(200));
}

#[test]
fn statement_setters_change_one_part() {
    let mutation = BlockMutation::new(BlockMutationEnum::ControlStop { hasnext: false });
    assert_eq!(mutation.tag_name, "mutation");
    let mut block = BlockNormalBuilder::new("control_stop".to_string());
    block
        .set_opcode("control_stop".to_string())
        .set_mutation(mutation.clone())
        .set_shadow(true)
        .set_inputs(vec![])
        .set_fields(vec![])
        .set_comment(None);
    assert_eq!(block.mutation, Some(mutation));
    assert!(block.shadow);
    assert_eq!(block.x, None);
    let mut definition = CustomBlockBuilder::new("jump".to_string());
    definition.set_x(Number::Int(1)).set_y(Number::Int(2));
    let mut same = CustomBlockBuilder::new("jump".to_string());
    same.set_pos(Number::Int(1), Number::Int(2));
    assert_eq!(definition, same);
    let mut call = CustomFuncCallBuilder::new();
    call.set_args(vec![]).set_x(Some(Number::Int(1))).set_y(None);
    assert_eq!(call.x, Some(Number::Int(1)));
    assert_eq!(call.y, None);
}

#[test]
fn name_that_occurs_twice_is_a_fault() {
    let registry = ProcRegistry::new();
    let literal = || {
        BlockInputBuilder::value(BlockInputValue::String { value: Value::Text("a".to_string()) })
    };
    let mut twice = BlockNormalBuilder::new("operator_add".to_string());
    twice.set_inputs(vec![
        ("NUM1".to_string(), literal()),
        ("NUM2".to_string(), literal()),
        ("NUM1".to_string(), literal()),
    ]);
    assert_eq!(twice.fault(&registry), Some(BuildError::RepeatedName));
    assert!(!sb_itchy::block::names_are_distinct(&twice.inputs));
    let mut fields = BlockNormalBuilder::new("data_variable".to_string());
    fields.set_fields(vec![
        ("VARIABLE".to_string(), sb_itchy::block::BlockFieldBuilder::new("a".to_string())),
        ("VARIABLE".to_string(), sb_itchy::block::BlockFieldBuilder::new("b".to_string())),
    ]);
    assert_eq!(
        BlockBuilder::Normal(fields).fault(&registry),
        Some(BuildError::RepeatedName)
    );
    let mut once = BlockNormalBuilder::new("operator_add".to_string());
    once.add_input("NUM1".to_string(), literal());
    once.add_input("NUM2".to_string(), literal());
    once.add_input("NUM1".to_string(), literal());
    assert_eq!(once.fault(&registry), None);
    assert!(sb_itchy::block::names_are_distinct(&once.inputs));
    let empty: Vec<(String, BlockInputBuilder)> = vec![];
    assert!(sb_itchy::block::names_are_distinct(&empty));
}
