use rs_sb3::value::Number;
use sb_itchy::arena::CommentMap;
use sb_itchy::block::BlockBuilder;
use sb_itchy::block::BlockFieldBuilder;
use sb_itchy::block::BlockInputBuilder;
use sb_itchy::block::BlockNormalBuilder;
use sb_itchy::block::BlockVarListBuilder;
use sb_itchy::block::FieldKind;
use sb_itchy::build_context::ProcRegistry;
use sb_itchy::build_context::SymbolTable;
use sb_itchy::build_context::TargetContext;
use sb_itchy::comment::CommentBuilder;
use sb_itchy::custom_block::CustomBlockBuilder;
use sb_itchy::custom_block::CustomBlockInputType;
use sb_itchy::custom_block::CustomBlockTy;
use sb_itchy::custom_block::CustomFuncCallBuilder;
use sb_itchy::document::BlockInputValue;
use sb_itchy::layout::BlockHeightData;
use sb_itchy::stack::StackBuilder;
use sb_itchy::uid::Uid;
use sb_itchy::uid::UidSource;
use sb_itchy::value::Value;

fn script() -> StackBuilder {
    let mut body = BlockNormalBuilder::new("data_changevariableby".to_string());
    body.add_field(
        "VARIABLE".to_string(),
        BlockFieldBuilder::new_with_kind("score".to_string(), FieldKind::GlobalVariable),
    );
    body.add_input(
        "VALUE".to_string(),
        BlockInputBuilder::stack_with_value_obscured(
            StackBuilder::start_varlist(BlockVarListBuilder::global_var("step".to_string())),
            BlockInputValue::Number { value: Value::Number(Number::Float(1.5)) },
        ),
    );
    body.set_comment(Some(CommentBuilder::new("counts".to_string())));
    let mut repeat = BlockNormalBuilder::new("control_repeat".to_string());
    repeat.add_input(
        "TIMES".to_string(),
        BlockInputBuilder::value(BlockInputValue::PositiveInteger {
            value: Value::Text("10".to_string()),
        }),
    );
    repeat.add_input("SUBSTACK".to_string(), BlockInputBuilder::stack(StackBuilder::start(body)));
    let mut call = CustomFuncCallBuilder::new();
    call.set_name("jump".to_string());
    let mut stack = StackBuilder::new();
    stack.stack.push(BlockBuilder::CustomBlock(CustomBlockBuilder::new("jump".to_string())));
    stack.stack.push(BlockBuilder::Normal(repeat));
    stack.stack.push(BlockBuilder::CustomBlockCall(call));
    stack
}

#[test]
fn copy_of_a_stack_equals_the_stack() {
    let stack = script();
    let copy = stack.clone();
    assert_eq!(copy, stack);
    assert_eq!(stack.duplicate(), stack);
    assert_eq!(stack.stack[1].clone(), stack.stack[1]);
}

#[test]
fn copy_has_the_same_height_and_builds_the_same_graph() {
    let mut names = UidSource::new();
    let mut registry = ProcRegistry::new();
    registry.register(CustomBlockTy::new(
        vec![
            CustomBlockInputType::Text("jump".to_string()),
            CustomBlockInputType::StringOrNumber("height".to_string()),
        ],
        false,
        &mut names,
    ));
    let mut vars = SymbolTable::new();
    vars.insert("score".to_string(), Uid::new("S".to_string()));
    let empty = SymbolTable::new();
    let ctx = TargetContext {
        global_vars: &vars,
        global_lists: &empty,
        this_sprite_vars: &empty,
        this_sprite_lists: &empty,
        all_broadcasts: &empty,
        custom_blocks: &registry,
    };
    let stack = script();
    let copy = stack.clone();
    let data = BlockHeightData::default();
    let height = stack.calc_block_height(&data, false);
    assert_eq!(height, 184 + (96 + 64 + (96 + 16)) + 96 + 16);
    assert_eq!(copy.calc_block_height(&data, false), height);
    assert_eq!(copy.fault(&registry), None);

    let first = Uid::new("first".to_string());
    let mut ids = UidSource::new();
    let mut comments = CommentMap::new();
    let built = stack.build(&first, &mut comments, &ctx, &mut ids).unwrap();
    let mut other_ids = UidSource::new();
    let mut other_comments = CommentMap::new();
    let rebuilt = copy.build(&first, &mut other_comments, &ctx, &mut other_ids).unwrap();
    assert_eq!(built, rebuilt);
    assert_eq!(comments, other_comments);
    assert_eq!(built.len(), 6);
    assert_eq!(comments.len(), 1);
    assert_eq!(ids.generate(), other_ids.generate());
}
