use sb_itchy::block::BlockBuilder;
use sb_itchy::block::BlockInputBuilder;
use sb_itchy::block::BlockNormalBuilder;
use sb_itchy::block::BlockVarListBuilder;
use sb_itchy::custom_block::CustomBlockBuilder;
use sb_itchy::custom_block::CustomFuncCallBuilder;
use sb_itchy::document::BlockInputValue;
use sb_itchy::layout::BlockHeightData;
use sb_itchy::layout::add_heights;
use sb_itchy::layout::taller_of;
use sb_itchy::stack::StackBuilder;
use sb_itchy::value::Value;

fn statement(opcode: &str) -> BlockNormalBuilder {
    BlockNormalBuilder::new(opcode.to_string())
}

fn literal() -> BlockInputBuilder {
    BlockInputBuilder::value(BlockInputValue::Number { value: Value::Text("1".to_string()) })
}

#[test]
fn default_heights() {
    let data = BlockHeightData::default();
    assert_eq!(data.input_block_height, 80);
    assert_eq!(data.input_block_nest_height, 16);
    assert_eq!(data.block_height, 96);
    assert_eq!(data.block_nest_height, 64);
    assert_eq!(data.block_bump, 16);
    assert_eq!(data.custom_block_height, 184);
    assert_eq!(data.event_block_height, 146);
}

#[test]
fn plain_statements_add_up_with_one_gap() {
    let data = BlockHeightData::default();
    let stack = StackBuilder::start(statement("looks_show"))
        .next(StackBuilder::start(statement("looks_hide")));
    assert_eq!(stack.calc_block_height(&data, false), 96 + 96 + 16);
    assert_eq!(stack.calc_block_height(&data, true), 96 + 96);
    assert_eq!(StackBuilder::new().calc_block_height(&data, false), 16);
    assert_eq!(StackBuilder::new().calc_block_height(&data, true), 0);
}

#[test]
fn statements_that_start_a_script_have_a_fixed_height() {
    let data = BlockHeightData::default();
    let mut hat = statement("event_whenkeypressed");
    hat.add_input("KEY".to_string(), literal());
    assert_eq!(BlockBuilder::Normal(hat).calc_block_height(&data, false), 146);
    let clone = BlockBuilder::Normal(statement("control_start_as_clone"));
    assert_eq!(clone.calc_block_height(&data, false), 146);
    assert_eq!(clone.calc_block_height(&data, true), 146);
    let flag = BlockBuilder::Normal(statement("event_whenflagclicked"));
    assert_eq!(flag.calc_block_height(&data, true), 146);
    let almost = BlockBuilder::Normal(statement("control_start_as_clones"));
    assert_eq!(almost.calc_block_height(&data, false), 96);
    let broadcast = BlockBuilder::Normal(statement("event_broadcast"));
    assert_eq!(broadcast.calc_block_height(&data, false), 96);
}

#[test]
fn tallest_expression_input_counts() {
    let data = BlockHeightData {
        input_block_height: 120,
        input_block_nest_height: 16,
        block_height: 96,
        block_nest_height: 64,
        block_bump: 16,
        custom_block_height: 184,
        event_block_height: 146,
    };
    let mut say = statement("looks_say");
    say.add_input("MESSAGE".to_string(), literal());
    let block = BlockBuilder::Normal(say);
    assert_eq!(block.calc_block_height(&data, false), 120);
    assert_eq!(block.calc_block_height(&data, true), 120);
    assert_eq!(block.calc_block_height(&BlockHeightData::default(), false), 96);
    assert_eq!(block.calc_block_height(&BlockHeightData::default(), true), 96);
    let bare = BlockBuilder::Normal(statement("operator_add"));
    assert_eq!(bare.calc_block_height(&BlockHeightData::default(), true), 96);
    assert_eq!(bare.calc_block_height(&BlockHeightData::default(), false), 96);
}

#[test]
fn nested_expressions_add_the_nesting_height() {
    let data = BlockHeightData::default();
    let mut inner = statement("operator_add");
    inner.add_input("NUM1".to_string(), literal());
    inner.add_input("NUM2".to_string(), literal());
    let mut outer = statement("operator_add");
    outer.add_input("NUM1".to_string(), BlockInputBuilder::stack(StackBuilder::start(inner)));
    outer.add_input("NUM2".to_string(), literal());
    let mut say = statement("looks_say");
    say.add_input("MESSAGE".to_string(), BlockInputBuilder::stack(StackBuilder::start(outer)));
    let block = BlockBuilder::Normal(say);
    assert_eq!(block.calc_block_height(&data, true), 96 + 16 + 16);
    assert_eq!(block.calc_block_height(&data, false), 128);
    assert_eq!(StackBuilder::start(statement("x")).calc_block_height(&data, true), 96);
}

#[test]
fn bodies_of_statements_add_their_heights() {
    let data = BlockHeightData::default();
    let body = StackBuilder::start(statement("looks_show"))
        .next(StackBuilder::start(statement("looks_hide")));
    let mut repeat = statement("control_repeat");
    repeat.add_input("TIMES".to_string(), literal());
    repeat.add_input("SUBSTACK".to_string(), BlockInputBuilder::stack(body));
    let block = BlockBuilder::Normal(repeat);
    assert_eq!(block.calc_block_height(&data, false), 96 + 64 + (96 + 96 + 16));
    assert_eq!(block.calc_block_height(&data, true), 96 + 64 + (96 + 96 + 16));

    let mut branch = statement("control_if_else");
    branch.add_input(
        "SUBSTACK".to_string(),
        BlockInputBuilder::stack(StackBuilder::start(statement("looks_show"))),
    );
    branch.add_input("SUBSTACK2".to_string(), BlockInputBuilder::new());
    let block = BlockBuilder::Normal(branch);
    assert_eq!(block.calc_block_height(&data, false), 96 + 64 + (96 + 16) + 64);
}

#[test]
fn definitions_calls_and_reporters() {
    let data = BlockHeightData::default();
    let definition = BlockBuilder::CustomBlock(CustomBlockBuilder::new("jump".to_string()));
    assert_eq!(definition.calc_block_height(&data, false), 184);
    assert_eq!(definition.calc_block_height(&data, true), 184);
    let reporter = BlockBuilder::VarList(BlockVarListBuilder::global_var("v".to_string()));
    assert_eq!(reporter.calc_block_height(&data, false), 80);
    let mut call = CustomFuncCallBuilder::new();
    call.set_name("jump".to_string());
    call.add_input("height".to_string(), literal());
    let call = BlockBuilder::CustomBlockCall(call);
    assert_eq!(call.calc_block_height(&data, false), 96);
    assert_eq!(call.calc_block_height(&data, true), 96);
    let tall = BlockHeightData { input_block_height: 500, ..data };
    assert_eq!(call.calc_block_height(&tall, true), 500);
}

#[test]
fn estimate_is_the_same_each_time_and_survives_a_build() {
    let data = BlockHeightData::default();
    let mut repeat = statement("control_forever");
    repeat.add_input(
        "SUBSTACK".to_string(),
        BlockInputBuilder::stack(StackBuilder::start(statement("motion_movesteps"))),
    );
    let stack = StackBuilder::start(statement("event_whenflagclicked"))
        .next(StackBuilder::start(repeat));
    let first = stack.calc_block_height(&data, false);
    let second = stack.calc_block_height(&data, false);
    assert_eq!(first, 146 + (96 + 64 + 96 + 16) + 16);
    assert_eq!(first, second);
}

#[test]
fn heights_stop_at_the_largest_number() {
    assert_eq!(add_heights(u64::MAX, 1), u64::MAX);
    assert_eq!(add_heights(u64::MAX - 1, 1), u64::MAX);
    assert_eq!(add_heights(3, 4), 7);
    assert_eq!(taller_of(3, 4), 4);
    assert_eq!(taller_of(5, 4), 5);
    let data = BlockHeightData { block_height: u64::MAX - 10, ..BlockHeightData::default() };
    let stack = StackBuilder::start(statement("looks_show"))
        .next(StackBuilder::start(statement("looks_hide")));
    assert_eq!(stack.calc_block_height(&data, false), u64::MAX);
}
