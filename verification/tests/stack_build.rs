use rs_sb3::value::Number;
use sb_itchy::arena::CommentMap;
use sb_itchy::block::BlockBuilder;
use sb_itchy::block::BlockInputBuilder;
use sb_itchy::block::BlockNormalBuilder;
use sb_itchy::block::BlockVarListBuilder;
use sb_itchy::build_context::ProcRegistry;
use sb_itchy::build_context::SymbolTable;
use sb_itchy::build_context::TargetContext;
use sb_itchy::comment::CommentBuilder;
use sb_itchy::document::Block;
use sb_itchy::document::BlockInputValue;
use sb_itchy::document::BlockNormal;
use sb_itchy::document::ListOrVariable;
use sb_itchy::document::ShadowInputType;
use sb_itchy::document::UidOrValue;
use sb_itchy::error::BuildError;
use sb_itchy::stack::StackBuilder;
use sb_itchy::uid::Uid;
use sb_itchy::uid::UidSource;
use sb_itchy::value::Value;

fn statement(opcode: &str) -> BlockNormalBuilder {
    BlockNormalBuilder::new(opcode.to_string())
}

fn normal(block: &Block) -> &BlockNormal {
    match block {
        Block::Normal(node) => node,
        Block::VarList(_) => panic!("a reporter where a statement was expected"),
    }
}

fn text(value: &str) -> BlockInputValue {
    BlockInputValue::String { value: Value::Text(value.to_string()) }
}

#[test]
fn chain_of_three_statements_is_linked() {
    let empty = SymbolTable::new();
    let registry = ProcRegistry::new();
    let ctx = TargetContext {
        global_vars: &empty,
        global_lists: &empty,
        this_sprite_vars: &empty,
        this_sprite_lists: &empty,
        all_broadcasts: &empty,
        custom_blocks: &registry,
    };
    let mut ids = UidSource::new();
    let mut comments = CommentMap::new();
    let first = ids.generate();
    let stack = StackBuilder::start(statement("event_whenflagclicked"))
        .next(StackBuilder::start(statement("motion_movesteps")))
        .next(StackBuilder::start(statement("looks_show")));
    let blocks = stack.build(&first, &mut comments, &ctx, &mut ids).unwrap();
    assert_eq!(blocks.len(), 3);
    assert!(comments.is_empty());
    let entries = blocks.into_entries();
    assert_eq!(entries[0].0, first);
    let a = normal(&entries[0].1);
    let b = normal(&entries[1].1);
    let c = normal(&entries[2].1);
    assert_eq!(a.opcode, "event_whenflagclicked");
    assert_eq!(b.opcode, "motion_movesteps");
    assert_eq!(c.opcode, "looks_show");
    assert!(a.top_level);
    assert_eq!(a.x, Some(Number::Int(0)));
    assert_eq!(a.y, Some(Number::Int(0)));
    assert_eq!(a.parent, None);
    assert_eq!(a.next, Some(entries[1].0.clone()));
    assert_eq!(b.parent, Some(entries[0].0.clone()));
    assert_eq!(b.next, Some(entries[2].0.clone()));
    assert!(!b.top_level);
    assert_eq!(b.x, None);
    assert_eq!(b.y, None);
    assert_eq!(c.parent, Some(entries[1].0.clone()));
    assert_eq!(c.next, None);
    assert!(!c.top_level);
    assert_eq!(c.x, None);
    assert_eq!(c.y, None);
    assert_eq!(first.as_str(), "0");
    assert_eq!(entries[1].0.as_str(), "1");
    assert_eq!(entries[2].0.as_str(), "2");
}

#[test]
fn single_statement_has_no_successor() {
    let empty = SymbolTable::new();
    let registry = ProcRegistry::new();
    let ctx = TargetContext {
        global_vars: &empty,
        global_lists: &empty,
        this_sprite_vars: &empty,
        this_sprite_lists: &empty,
        all_broadcasts: &empty,
        custom_blocks: &registry,
    };
    let mut ids = UidSource::new();
    let mut comments = CommentMap::new();
    let first = Uid::new("top".to_string());
    let blocks = StackBuilder::start(statement("looks_hide"))
        .build(&first, &mut comments, &ctx, &mut ids)
        .unwrap();
    assert_eq!(blocks.len(), 1);
    let node = normal(blocks.get(&first).unwrap());
    assert_eq!(node.next, None);
    assert_eq!(node.parent, None);
    assert!(node.top_level);
    assert!(!node.shadow);
    assert_eq!(node.comment, None);
    assert_eq!(node.mutation, None);
    assert!(node.inputs.is_empty());
    assert!(node.fields.is_empty());
}

#[test]
fn position_of_the_first_block_is_kept_and_later_ones_are_dropped() {
    let empty = SymbolTable::new();
    let registry = ProcRegistry::new();
    let ctx = TargetContext {
        global_vars: &empty,
        global_lists: &empty,
        this_sprite_vars: &empty,
        this_sprite_lists: &empty,
        all_broadcasts: &empty,
        custom_blocks: &registry,
    };
    let mut ids = UidSource::new();
    let mut comments = CommentMap::new();
    let first = ids.generate();
    let mut second = statement("looks_show");
    second.set_pos(Some(Number::Int(7)), Some(Number::Int(8)));
    let mut stack = StackBuilder::start(statement("event_whenflagclicked"))
        .next(StackBuilder::start(second));
    stack.set_top_block_position(Number::Float(12.5), Number::Int(-40));
    let entries = stack.build(&first, &mut comments, &ctx, &mut ids).unwrap().into_entries();
    let a = normal(&entries[0].1);
    let b = normal(&entries[1].1);
    assert_eq!(a.x, Some(Number::Float(12.5)));
    assert_eq!(a.y, Some(Number::Int(-40)));
    assert_eq!(b.x, None);
    assert_eq!(b.y, None);
}

#[test]
fn set_top_block_position_leaves_an_empty_stack_alone() {
    let mut stack = StackBuilder::new();
    stack.set_top_block_position(Number::Int(1), Number::Int(2));
    assert!(stack.stack.is_empty());
}

#[test]
fn note_of_a_statement_is_attached_to_it() {
    let empty = SymbolTable::new();
    let registry = ProcRegistry::new();
    let ctx = TargetContext {
        global_vars: &empty,
        global_lists: &empty,
        this_sprite_vars: &empty,
        this_sprite_lists: &empty,
        all_broadcasts: &empty,
        custom_blocks: &registry,
    };
    let mut ids = UidSource::new();
    let mut comments = CommentMap::new();
    let first = ids.generate();
    let mut block = statement("looks_show");
    block.set_comment(Some(CommentBuilder::new("shows the sprite".to_string())));
    let blocks = StackBuilder::start(block).build(&first, &mut comments, &ctx, &mut ids).unwrap();
    let node = normal(blocks.get(&first).unwrap());
    let note_id = node.comment.clone().unwrap();
    assert_eq!(note_id.as_str(), "1");
    assert_eq!(comments.len(), 1);
    let note = comments.get(&note_id).unwrap();
    assert_eq!(note.block_id, Some(first));
    assert_eq!(note.text, "shows the sprite");
    assert_eq!(note.width, Number::Int(200));
    assert_eq!(note.height, Number::Int(200));
    assert_eq!(note.x, None);
    assert!(!note.minimized);
}

#[test]
fn nested_expression_hangs_below_its_statement() {
    let empty = SymbolTable::new();
    let registry = ProcRegistry::new();
    let ctx = TargetContext {
        global_vars: &empty,
        global_lists: &empty,
        this_sprite_vars: &empty,
        this_sprite_lists: &empty,
        all_broadcasts: &empty,
        custom_blocks: &registry,
    };
    let mut ids = UidSource::new();
    let mut comments = CommentMap::new();
    let first = ids.generate();
    let mut sum = statement("operator_add");
    sum.add_input("NUM1".to_string(), BlockInputBuilder::value(text("1")));
    sum.add_input("NUM2".to_string(), BlockInputBuilder::value(text("2")));
    sum.set_pos(Some(Number::Int(5)), Some(Number::Int(5)));
    let mut say = statement("looks_say");
    say.add_input(
        "MESSAGE".to_string(),
        BlockInputBuilder::stack_with_value_obscured(StackBuilder::start(sum), text("Hello!")),
    );
    let blocks = StackBuilder::start(say).build(&first, &mut comments, &ctx, &mut ids).unwrap();
    assert_eq!(blocks.len(), 2);
    let nested_id = Uid::new("1".to_string());
    let nested = normal(blocks.get(&nested_id).unwrap());
    assert_eq!(nested.opcode, "operator_add");
    assert_eq!(nested.parent, Some(first.clone()));
    assert!(!nested.top_level);
    assert_eq!(nested.x, None);
    assert_eq!(nested.y, None);
    assert_eq!(nested.next, None);
    assert_eq!(nested.inputs.len(), 2);
    assert_eq!(nested.inputs[0].0, "NUM1");
    assert_eq!(nested.inputs[0].1.shadow, ShadowInputType::Shadow);
    assert_eq!(nested.inputs[0].1.inputs, vec![Some(UidOrValue::Value(text("1")))]);
    let top = normal(blocks.get(&first).unwrap());
    assert_eq!(top.inputs.len(), 1);
    assert_eq!(top.inputs[0].0, "MESSAGE");
    assert_eq!(top.inputs[0].1.shadow, ShadowInputType::ShadowObscured);
    assert_eq!(
        top.inputs[0].1.inputs,
        vec![Some(UidOrValue::Uid(nested_id)), Some(UidOrValue::Value(text("Hello!")))]
    );
    let entries = blocks.into_entries();
    assert_eq!(entries[0].0.as_str(), "1");
    assert_eq!(entries[1].0.as_str(), "0");
}

#[test]
fn reporter_of_a_variable_in_a_slot_becomes_a_literal() {
    let mut vars = SymbolTable::new();
    vars.insert("score".to_string(), Uid::new("score-id".to_string()));
    let empty = SymbolTable::new();
    let registry = ProcRegistry::new();
    let ctx = TargetContext {
        global_vars: &vars,
        global_lists: &empty,
        this_sprite_vars: &empty,
        this_sprite_lists: &empty,
        all_broadcasts: &empty,
        custom_blocks: &registry,
    };
    let mut ids = UidSource::new();
    let mut comments = CommentMap::new();
    let first = ids.generate();
    let mut say = statement("looks_say");
    say.add_input(
        "MESSAGE".to_string(),
        BlockInputBuilder::stack(StackBuilder::start_varlist(BlockVarListBuilder::global_var(
            "score".to_string(),
        ))),
    );
    let blocks = StackBuilder::start(say).build(&first, &mut comments, &ctx, &mut ids).unwrap();
    assert_eq!(blocks.len(), 1);
    let top = normal(blocks.get(&first).unwrap());
    assert_eq!(top.inputs[0].1.shadow, ShadowInputType::NoShadow);
    assert_eq!(
        top.inputs[0].1.inputs,
        vec![Some(UidOrValue::Value(BlockInputValue::Variable {
            name: "score".to_string(),
            id: Uid::new("score-id".to_string()),
        }))]
    );
}

#[test]
fn reporter_of_an_unknown_list_in_a_slot_names_the_unknown_symbol() {
    let empty = SymbolTable::new();
    let registry = ProcRegistry::new();
    let ctx = TargetContext {
        global_vars: &empty,
        global_lists: &empty,
        this_sprite_vars: &empty,
        this_sprite_lists: &empty,
        all_broadcasts: &empty,
        custom_blocks: &registry,
    };
    let mut ids = UidSource::new();
    let mut comments = CommentMap::new();
    let mut blocks = sb_itchy::arena::BlockMap::new();
    let owner = Uid::new("owner".to_string());
    let input = BlockInputBuilder::shadow_stack(StackBuilder::start_varlist(
        BlockVarListBuilder::sprite_list("inventory".to_string()),
    ))
    .build(&owner, &mut comments, &mut blocks, &ctx, &mut ids)
    .unwrap();
    assert!(blocks.is_empty());
    assert_eq!(input.shadow, ShadowInputType::Shadow);
    assert_eq!(
        input.inputs,
        vec![Some(UidOrValue::Value(BlockInputValue::List {
            name: "inventory".to_string(),
            id: Uid::unknown(),
        }))]
    );
}

#[test]
fn stack_that_starts_with_a_reporter_yields_the_reporter_alone() {
    let mut lists = SymbolTable::new();
    lists.insert("names".to_string(), Uid::new("names-id".to_string()));
    let empty = SymbolTable::new();
    let registry = ProcRegistry::new();
    let ctx = TargetContext {
        global_vars: &empty,
        global_lists: &empty,
        this_sprite_vars: &empty,
        this_sprite_lists: &lists,
        all_broadcasts: &empty,
        custom_blocks: &registry,
    };
    let mut ids = UidSource::new();
    let mut comments = CommentMap::new();
    let first = ids.generate();
    let mut reporter = BlockVarListBuilder::sprite_list("names".to_string());
    reporter.set_pos(Number::Int(30), Number::Int(60));
    let stack = StackBuilder::start_varlist(reporter)
        .next(StackBuilder::start(statement("looks_show")));
    let blocks = stack.build(&first, &mut comments, &ctx, &mut ids).unwrap();
    assert_eq!(blocks.len(), 1);
    match blocks.get(&first).unwrap() {
        Block::VarList(top) => {
            assert_eq!(top.kind, ListOrVariable::List);
            assert_eq!(top.name, "names");
            assert_eq!(top.id, Uid::new("names-id".to_string()));
            assert_eq!(top.x, Number::Int(30));
            assert_eq!(top.y, Number::Int(60));
        }
        Block::Normal(_) => panic!("a statement where a reporter was expected"),
    }
}

#[test]
fn empty_stack_is_a_fault() {
    let empty = SymbolTable::new();
    let registry = ProcRegistry::new();
    let ctx = TargetContext {
        global_vars: &empty,
        global_lists: &empty,
        this_sprite_vars: &empty,
        this_sprite_lists: &empty,
        all_broadcasts: &empty,
        custom_blocks: &registry,
    };
    let mut ids = UidSource::new();
    let mut comments = CommentMap::new();
    let first = Uid::new("top".to_string());
    let built = StackBuilder::new().build(&first, &mut comments, &ctx, &mut ids);
    assert_eq!(built, Err(BuildError::EmptyStack));
    assert_eq!(StackBuilder::with_capacity(4).fault(&registry), Some(BuildError::EmptyStack));
}

#[test]
fn reporter_behind_the_first_block_is_a_fault() {
    let empty = SymbolTable::new();
    let registry = ProcRegistry::new();
    let ctx = TargetContext {
        global_vars: &empty,
        global_lists: &empty,
        this_sprite_vars: &empty,
        this_sprite_lists: &empty,
        all_broadcasts: &empty,
        custom_blocks: &registry,
    };
    let mut ids = UidSource::new();
    let mut comments = CommentMap::new();
    let first = ids.generate();
    let stack = StackBuilder::start(statement("looks_show")).next(StackBuilder::start_varlist(
        BlockVarListBuilder::global_var("score".to_string()),
    ));
    let built = stack.build(&first, &mut comments, &ctx, &mut ids);
    assert_eq!(built, Err(BuildError::ReporterInChain));
    assert_eq!(ids.generate().as_str(), "1");
}

#[test]
fn fault_in_a_nested_stack_is_found_before_anything_is_built() {
    let empty = SymbolTable::new();
    let registry = ProcRegistry::new();
    let ctx = TargetContext {
        global_vars: &empty,
        global_lists: &empty,
        this_sprite_vars: &empty,
        this_sprite_lists: &empty,
        all_broadcasts: &empty,
        custom_blocks: &registry,
    };
    let mut ids = UidSource::new();
    let mut comments = CommentMap::new();
    let first = ids.generate();
    let mut noted = statement("looks_show");
    noted.set_comment(Some(CommentBuilder::new("never attached".to_string())));
    let mut repeat = statement("control_repeat");
    repeat.add_input("SUBSTACK".to_string(), BlockInputBuilder::stack(StackBuilder::new()));
    let stack = StackBuilder::start(noted).next(StackBuilder::start(repeat));
    let built = stack.build(&first, &mut comments, &ctx, &mut ids);
    assert_eq!(built, Err(BuildError::EmptyStack));
    assert!(comments.is_empty());
    assert_eq!(ids.generate().as_str(), "1");
}

#[test]
fn block_builder_builds_an_unlinked_node() {
    let empty = SymbolTable::new();
    let registry = ProcRegistry::new();
    let ctx = TargetContext {
        global_vars: &empty,
        global_lists: &empty,
        this_sprite_vars: &empty,
        this_sprite_lists: &empty,
        all_broadcasts: &empty,
        custom_blocks: &registry,
    };
    let mut ids = UidSource::new();
    let mut comments = CommentMap::new();
    let mut blocks = sb_itchy::arena::BlockMap::new();
    let my = Uid::new("me".to_string());
    let mut block = statement("motion_gotoxy");
    block.set_shadow(true).set_x(Some(Number::Int(3))).set_y(None);
    let built = BlockBuilder::Normal(block)
        .build(&my, &mut comments, &mut blocks, &ctx, &mut ids)
        .unwrap();
    let node = normal(&built);
    assert!(!node.top_level);
    assert!(node.shadow);
    assert_eq!(node.parent, None);
    assert_eq!(node.next, None);
    assert_eq!(node.x, Some(Number::Int(3)));
    assert_eq!(node.y, None);
    assert!(blocks.is_empty());
}

#[test]
fn add_input_replaces_the_input_of_the_same_name() {
    let mut block = statement("looks_say");
    block.add_input("MESSAGE".to_string(), BlockInputBuilder::value(text("first")));
    block.add_input("OTHER".to_string(), BlockInputBuilder::value(text("other")));
    block.add_input("MESSAGE".to_string(), BlockInputBuilder::value(text("second")));
    assert_eq!(block.inputs.len(), 2);
    assert_eq!(block.inputs[0].0, "MESSAGE");
    assert_eq!(block.inputs[0].1, BlockInputBuilder::value(text("second")));
    assert_eq!(block.inputs[1].0, "OTHER");
}

#[test]
fn build_script_draws_the_first_identifier_itself() {
    let empty = SymbolTable::new();
    let registry = ProcRegistry::new();
    let ctx = TargetContext {
        global_vars: &empty,
        global_lists: &empty,
        this_sprite_vars: &empty,
        this_sprite_lists: &empty,
        all_broadcasts: &empty,
        custom_blocks: &registry,
    };
    let mut ids = UidSource::new();
    let mut comments = CommentMap::new();
    let mut sum = statement("operator_add");
    sum.set_pos(Some(Number::Int(9)), None);
    let mut say = statement("looks_say");
    say.add_input("MESSAGE".to_string(), BlockInputBuilder::stack(StackBuilder::start(sum)));
    say.set_pos(None, Some(Number::Int(40)));
    let stack = StackBuilder::start(say).next(StackBuilder::start(statement("looks_hide")));
    let (first, blocks) = stack.build_script(&mut comments, &ctx, &mut ids).unwrap();
    assert_eq!(first.as_str(), "0");
    assert_eq!(blocks.len(), 3);
    let entries = blocks.clone().into_entries();
    let keys: Vec<&str> = entries.iter().map(|e| e.0.as_str()).collect();
    assert_eq!(keys, vec!["1", "0", "2"]);
    let top = normal(blocks.get(&first).unwrap());
    assert!(top.top_level);
    assert_eq!(top.parent, None);
    assert_eq!(top.x, Some(Number::Int(0)));
    assert_eq!(top.y, Some(Number::Int(40)));
    assert_eq!(top.next, Some(Uid::new("2".to_string())));
    for (key, block) in &entries {
        if *key != first {
            assert!(!normal(block).top_level);
            assert_eq!(normal(block).x, None);
        }
    }
    assert_eq!(normal(blocks.get(&Uid::new("1".to_string())).unwrap()).parent, Some(first));
}

#[test]
fn first_identifier_that_is_still_to_be_issued_is_taken_over_by_a_later_node() {
    let empty = SymbolTable::new();
    let registry = ProcRegistry::new();
    let ctx = TargetContext {
        global_vars: &empty,
        global_lists: &empty,
        this_sprite_vars: &empty,
        this_sprite_lists: &empty,
        all_broadcasts: &empty,
        custom_blocks: &registry,
    };
    let mut ids = UidSource::new();
    let mut comments = CommentMap::new();
    let stack = StackBuilder::start(statement("looks_show"))
        .next(StackBuilder::start(statement("looks_hide")));
    let first = Uid::new("0".to_string());
    let blocks = stack.clone().build(&first, &mut comments, &ctx, &mut ids).unwrap();
    assert_eq!(blocks.len(), 1);
    assert_eq!(normal(blocks.get(&first).unwrap()).opcode, "looks_hide");

    let mut ids = UidSource::new();
    let (first, blocks) = stack.build_script(&mut comments, &ctx, &mut ids).unwrap();
    assert_eq!(blocks.len(), 2);
    let entries = blocks.into_entries();
    assert_eq!(entries[0].0, first);
    assert_ne!(entries[0].0, entries[1].0);
    assert_eq!(normal(&entries[0].1).opcode, "looks_show");
}
