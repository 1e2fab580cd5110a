//! When two builders describe the same thing.  A copy of a builder is like the
//! builder: it has the same faults, the same height, and builds the same graph.

use crate::assembly::block_fault;
use crate::assembly::block_spec;
use crate::assembly::call_fault;
use crate::assembly::call_inputs_spec;
use crate::assembly::call_spec;
use crate::assembly::chain_fault;
use crate::assembly::chain_spec;
use crate::assembly::default_input;
use crate::assembly::definition_spec;
use crate::assembly::distinct_names;
use crate::assembly::field_spec;
use crate::assembly::fields_spec;
use crate::assembly::Graph;
use crate::assembly::input_fault;
use crate::assembly::input_spec;
use crate::assembly::inputs_fault;
use crate::assembly::inputs_spec;
use crate::assembly::nested_spec;
use crate::assembly::normal_spec;
use crate::assembly::note_spec;
use crate::assembly::place_block;
use crate::assembly::signature_of;
use crate::assembly::slot_spec;
use crate::assembly::slots_fault;
use crate::assembly::slots_spec;
use crate::assembly::stack_fault;
use crate::assembly::stack_spec;
use crate::block::BlockBuilder;
use crate::block::BlockFieldBuilder;
use crate::block::BlockInputBuilder;
use crate::block::BlockNormalBuilder;
use crate::block::BlockVarListBuilder;
use crate::block::key_position;
use crate::block::StackOrValue;
use crate::build_context::ContextView;
use crate::comment::CommentBuilder;
use crate::custom_block::CustomBlockBuilder;
use crate::custom_block::CustomBlockInputTypeView;
use crate::custom_block::CustomFuncCallBuilder;
use crate::custom_block::SignatureView;
use crate::document::BlockInputView;
use crate::document::opt_mutation_view;
use crate::document::UidOrValueView;
use crate::layout::block_height;
use crate::layout::BlockHeightData;
use crate::layout::blocks_height;
use crate::layout::bodies_height;
use crate::layout::slot_height;
use crate::layout::stack_height;
use crate::layout::substacks_height;
use crate::layout::tallest_input;
use crate::layout::tallest_slot;
use crate::stack::StackBuilder;
use vstd::prelude::*;

verus! {

/// Whether two notes, or the lack of one, are alike: they have the same text,
/// place, size and state.
pub open spec fn like_note(a: Option<CommentBuilder>, b: Option<CommentBuilder>) -> bool {
    match (a, b) {
        (None, None) => true,
        (Some(x), Some(y)) => {
            &&& x.content@ == y.content@
            &&& x.x == y.x
            &&& x.y == y.y
            &&& x.width == y.width
            &&& x.height == y.height
            &&& x.minimized == y.minimized
        },
        _ => false,
    }
}

/// Whether named fields are alike: the same names in the same order, each with
/// the same text and kind.
pub open spec fn like_fields(
    a: Seq<(String, BlockFieldBuilder)>,
    b: Seq<(String, BlockFieldBuilder)>,
) -> bool {
    &&& a.len() == b.len()
    &&& forall|i: int|
        0 <= i < a.len() ==> {
            &&& (#[trigger] a[i]).0@ == b[i].0@
            &&& a[i].1.value@ == b[i].1.value@
            &&& a[i].1.kind == b[i].1.kind
        }
}

/// Whether two reporters of a variable or a list are alike.
pub open spec fn like_reporter(a: BlockVarListBuilder, b: BlockVarListBuilder) -> bool {
    &&& a.kind == b.kind
    &&& a.from == b.from
    &&& a.name@ == b.name@
    &&& a.x == b.x
    &&& a.y == b.y
    &&& like_note(a.comment, b.comment)
}

/// Whether two definitions are alike.
pub open spec fn like_definition(a: CustomBlockBuilder, b: CustomBlockBuilder) -> bool {
    &&& a.name@ == b.name@
    &&& a.x == b.x
    &&& a.y == b.y
    &&& like_note(a.comment, b.comment)
}

/// Whether two slots are alike: both left out, the same literal, or stacks that
/// are alike.
pub open spec fn like_slot(a: Option<StackOrValue>, b: Option<StackOrValue>) -> bool
    decreases a, 0nat,
{
    match (a, b) {
        (None, None) => true,
        (Some(StackOrValue::Value(x)), Some(StackOrValue::Value(y))) => x@ == y@,
        (Some(StackOrValue::Stack(s)), Some(StackOrValue::Stack(t))) => like_stack(s, t),
        _ => false,
    }
}

/// Whether two inputs are alike: the same shadow kind and slots that are alike,
/// one by one.
pub open spec fn like_input(a: BlockInputBuilder, b: BlockInputBuilder) -> bool
    decreases a, 1nat,
{
    &&& a.shadow == b.shadow
    &&& a.values.len() == b.values.len()
    &&& forall|j: int|
        0 <= j < a.values.len() ==> like_slot(#[trigger] a.values[j], b.values[j])
}

/// Whether named inputs are alike: the same names in the same order, each with
/// inputs that are alike.
pub open spec fn like_inputs(
    a: Vec<(String, BlockInputBuilder)>,
    b: Vec<(String, BlockInputBuilder)>,
) -> bool
    decreases a, 0nat,
{
    &&& a.len() == b.len()
    &&& forall|i: int|
        0 <= i < a.len() ==> (#[trigger] a[i]).0@ == b[i].0@ && like_input(a[i].1, b[i].1)
}

/// Whether two statements or expressions are alike.
pub open spec fn like_normal(a: BlockNormalBuilder, b: BlockNormalBuilder) -> bool
    decreases a, 1nat,
{
    &&& a.opcode@ == b.opcode@
    &&& like_note(a.comment, b.comment)
    &&& like_inputs(a.inputs, b.inputs)
    &&& like_fields(a.fields@, b.fields@)
    &&& opt_mutation_view(a.mutation) == opt_mutation_view(b.mutation)
    &&& a.shadow == b.shadow
    &&& a.x == b.x
    &&& a.y == b.y
}

/// Whether two calls are alike.
pub open spec fn like_call(a: CustomFuncCallBuilder, b: CustomFuncCallBuilder) -> bool
    decreases a, 1nat,
{
    &&& a.name@ == b.name@
    &&& like_note(a.comment, b.comment)
    &&& like_inputs(a.args, b.args)
    &&& a.shadow == b.shadow
    &&& a.x == b.x
    &&& a.y == b.y
}

/// Whether two blocks are alike: of the same sort, and alike as such.
pub open spec fn like_block(a: BlockBuilder, b: BlockBuilder) -> bool
    decreases a, 2nat,
{
    match (a, b) {
        (BlockBuilder::Normal(x), BlockBuilder::Normal(y)) => like_normal(x, y),
        (BlockBuilder::CustomBlock(x), BlockBuilder::CustomBlock(y)) => like_definition(x, y),
        (BlockBuilder::CustomBlockCall(x), BlockBuilder::CustomBlockCall(y)) => like_call(x, y),
        (BlockBuilder::VarList(x), BlockBuilder::VarList(y)) => like_reporter(x, y),
        _ => false,
    }
}

/// Whether two stacks are alike: as many blocks, which are alike one by one.
pub open spec fn like_stack(a: StackBuilder, b: StackBuilder) -> bool
    decreases a, 0nat,
{
    &&& a.stack.len() == b.stack.len()
    &&& forall|i: int| 0 <= i < a.stack.len() ==> like_block(#[trigger] a.stack[i], b.stack[i])
}

proof fn lemma_like_note(
    a: Option<CommentBuilder>,
    b: Option<CommentBuilder>,
    owner: Seq<char>,
    g: Graph,
)
    requires
        like_note(a, b),
    ensures
        note_spec(a, owner, g) == note_spec(b, owner, g),
{
}

proof fn lemma_like_fields(
    a: Seq<(String, BlockFieldBuilder)>,
    b: Seq<(String, BlockFieldBuilder)>,
    ctx: ContextView,
)
    requires
        like_fields(a, b),
    ensures
        fields_spec(a, ctx) == fields_spec(b, ctx),
{
    assert forall|i: int| 0 <= i < a.len() implies fields_spec(a, ctx)[i] == fields_spec(b, ctx)[i] by {
        assert(a[i].0@ == b[i].0@);
        assert(field_spec(a[i].1, ctx) == field_spec(b[i].1, ctx));
    }
    assert(fields_spec(a, ctx) =~= fields_spec(b, ctx));
}

proof fn lemma_like_keys(
    a: Vec<(String, BlockInputBuilder)>,
    b: Vec<(String, BlockInputBuilder)>,
    key: Seq<char>,
    from: int,
)
    requires
        like_inputs(a, b),
    ensures
        key_position(a@, key, from) == key_position(b@, key, from),
    decreases a.len() - from,
{
    if 0 <= from < a.len() {
        assert(a[from].0@ == b[from].0@);
        if a[from].0@ != key {
            lemma_like_keys(a, b, key, from + 1);
        }
    }
}

proof fn lemma_like_slot(
    a: Option<StackOrValue>,
    b: Option<StackOrValue>,
    parent: Seq<char>,
    ctx: ContextView,
    g: Graph,
)
    requires
        like_slot(a, b),
    ensures
        slot_spec(a, parent, ctx, g) == slot_spec(b, parent, ctx, g),
    decreases a, 0nat,
{
    match (a, b) {
        (Some(StackOrValue::Stack(s)), Some(StackOrValue::Stack(t))) => {
            lemma_like_nested(s, t, parent, ctx, g);
        },
        _ => {},
    }
}

proof fn lemma_like_nested(
    a: StackBuilder,
    b: StackBuilder,
    parent: Seq<char>,
    ctx: ContextView,
    g: Graph,
)
    requires
        like_stack(a, b),
    ensures
        nested_spec(a, parent, ctx, g) == nested_spec(b, parent, ctx, g),
    decreases a, a.stack.len() + 1,
{
    if a.stack.len() > 0 {
        assert(like_block(a.stack[0], b.stack[0]));
        match (a.stack[0], b.stack[0]) {
            (BlockBuilder::VarList(x), BlockBuilder::VarList(y)) => {
                lemma_like_note(x.comment, y.comment, g.fresh(), g.advance());
            },
            _ => {
                lemma_like_chain(a, b, 0, g.fresh(), Some(parent), ctx, g.advance());
            },
        }
    }
}

proof fn lemma_like_slots(
    a: BlockInputBuilder,
    b: BlockInputBuilder,
    i: int,
    parent: Seq<char>,
    ctx: ContextView,
    built: Seq<Option<UidOrValueView>>,
    g: Graph,
)
    requires
        like_input(a, b),
    ensures
        slots_spec(a, i, parent, ctx, built, g) == slots_spec(b, i, parent, ctx, built, g),
    decreases a, a.values.len() - i,
{
    if 0 <= i < a.values.len() {
        assert(like_slot(a.values[i], b.values[i]));
        lemma_like_slot(a.values[i], b.values[i], parent, ctx, g);
        let (slot, g1) = slot_spec(a.values[i], parent, ctx, g);
        lemma_like_slots(a, b, i + 1, parent, ctx, built.push(slot), g1);
    }
}

proof fn lemma_like_input(
    a: BlockInputBuilder,
    b: BlockInputBuilder,
    parent: Seq<char>,
    ctx: ContextView,
    g: Graph,
)
    requires
        like_input(a, b),
    ensures
        input_spec(a, parent, ctx, g) == input_spec(b, parent, ctx, g),
    decreases a, a.values.len() + 1,
{
    lemma_like_slots(a, b, 0, parent, ctx, Seq::empty(), g);
}

proof fn lemma_like_inputs(
    a: Vec<(String, BlockInputBuilder)>,
    b: Vec<(String, BlockInputBuilder)>,
    i: int,
    parent: Seq<char>,
    ctx: ContextView,
    built: Seq<(Seq<char>, BlockInputView)>,
    g: Graph,
)
    requires
        like_inputs(a, b),
    ensures
        inputs_spec(a, i, parent, ctx, built, g) == inputs_spec(b, i, parent, ctx, built, g),
    decreases a, a.len() - i,
{
    if 0 <= i < a.len() {
        assert(a[i].0@ == b[i].0@ && like_input(a[i].1, b[i].1));
        lemma_like_input(a[i].1, b[i].1, parent, ctx, g);
        let (input, g1) = input_spec(a[i].1, parent, ctx, g);
        lemma_like_inputs(a, b, i + 1, parent, ctx, built.push((a[i].0@, input)), g1);
    }
}

proof fn lemma_like_normal(
    a: BlockNormalBuilder,
    b: BlockNormalBuilder,
    my: Seq<char>,
    ctx: ContextView,
    g: Graph,
)
    requires
        like_normal(a, b),
    ensures
        normal_spec(a, my, ctx, g) == normal_spec(b, my, ctx, g),
    decreases a, 1nat,
{
    lemma_like_inputs(a.inputs, b.inputs, 0, my, ctx, Seq::empty(), g);
    let g1 = inputs_spec(a.inputs, 0, my, ctx, Seq::empty(), g).1;
    lemma_like_note(a.comment, b.comment, my, g1);
    lemma_like_fields(a.fields@, b.fields@, ctx);
}

proof fn lemma_like_call_inputs(
    a: CustomFuncCallBuilder,
    b: CustomFuncCallBuilder,
    vars: Seq<(Seq<char>, CustomBlockInputTypeView)>,
    j: int,
    my: Seq<char>,
    ctx: ContextView,
    built: Seq<(Seq<char>, BlockInputView)>,
    g: Graph,
)
    requires
        like_call(a, b),
    ensures
        call_inputs_spec(a, vars, j, my, ctx, built, g) == call_inputs_spec(
            b,
            vars,
            j,
            my,
            ctx,
            built,
            g,
        ),
    decreases a, vars.len() - j,
{
    if 0 <= j < vars.len() {
        lemma_like_keys(a.args, b.args, vars[j].1.name(), 0);
        match key_position(a.args@, vars[j].1.name(), 0) {
            Some(k) => {
                if 0 <= k < a.args.len() {
                    assert(a.args[k].0@ == b.args[k].0@ && like_input(a.args[k].1, b.args[k].1));
                    lemma_like_input(a.args[k].1, b.args[k].1, my, ctx, g);
                    let (input, g1) = input_spec(a.args[k].1, my, ctx, g);
                    lemma_like_call_inputs(
                        a,
                        b,
                        vars,
                        j + 1,
                        my,
                        ctx,
                        built.push((vars[j].0, input)),
                        g1,
                    );
                }
            },
            None => match vars[j].1 {
                CustomBlockInputTypeView::Boolean(_) => {
                    lemma_like_call_inputs(a, b, vars, j + 1, my, ctx, built, g);
                },
                _ => {
                    lemma_like_call_inputs(
                        a,
                        b,
                        vars,
                        j + 1,
                        my,
                        ctx,
                        built.push((vars[j].0, default_input())),
                        g,
                    );
                },
            },
        }
    }
}

proof fn lemma_like_call(
    a: CustomFuncCallBuilder,
    b: CustomFuncCallBuilder,
    signature: SignatureView,
    my: Seq<char>,
    ctx: ContextView,
    g: Graph,
)
    requires
        like_call(a, b),
    ensures
        call_spec(a, signature, my, ctx, g) == call_spec(b, signature, my, ctx, g),
    decreases a, signature.vars().len() + 1,
{
    lemma_like_call_inputs(a, b, signature.vars(), 0, my, ctx, Seq::empty(), g);
    let g1 = call_inputs_spec(a, signature.vars(), 0, my, ctx, Seq::empty(), g).1;
    lemma_like_note(a.comment, b.comment, my, g1);
}

proof fn lemma_like_block(
    a: BlockBuilder,
    b: BlockBuilder,
    my: Seq<char>,
    ctx: ContextView,
    g: Graph,
)
    requires
        like_block(a, b),
    ensures
        block_spec(a, my, ctx, g) == block_spec(b, my, ctx, g),
    decreases a, 2nat,
{
    match (a, b) {
        (BlockBuilder::Normal(x), BlockBuilder::Normal(y)) => {
            lemma_like_normal(x, y, my, ctx, g);
        },
        (BlockBuilder::CustomBlock(x), BlockBuilder::CustomBlock(y)) => {
            let signature = signature_of(ctx, x.name@);
            let g1 = crate::assembly::prototype_spec(signature, my, g).1;
            lemma_like_note(x.comment, y.comment, my, g1);
            assert(definition_spec(x, signature, my, g) == definition_spec(y, signature, my, g));
        },
        (BlockBuilder::CustomBlockCall(x), BlockBuilder::CustomBlockCall(y)) => {
            lemma_like_call(x, y, signature_of(ctx, x.name@), my, ctx, g);
        },
        (BlockBuilder::VarList(x), BlockBuilder::VarList(y)) => {
            lemma_like_note(x.comment, y.comment, my, g);
        },
        _ => {},
    }
}

proof fn lemma_like_chain(
    a: StackBuilder,
    b: StackBuilder,
    i: int,
    my: Seq<char>,
    parent: Option<Seq<char>>,
    ctx: ContextView,
    g: Graph,
)
    requires
        like_stack(a, b),
    ensures
        chain_spec(a, i, my, parent, ctx, g) == chain_spec(b, i, my, parent, ctx, g),
    decreases a, a.stack.len() - i,
{
    if 0 <= i < a.stack.len() {
        assert(like_block(a.stack[i], b.stack[i]));
        lemma_like_block(a.stack[i], b.stack[i], my, ctx, g);
        let (block, g1) = block_spec(a.stack[i], my, ctx, g);
        if i + 1 < a.stack.len() {
            let next = g1.fresh();
            lemma_like_chain(
                a,
                b,
                i + 1,
                next,
                Some(my),
                ctx,
                g1.advance().with_block(my, place_block(block, parent, Some(next))),
            );
        }
    }
}

/// Stacks that are alike build the same graph.
pub proof fn lemma_like_stacks_build_the_same(
    a: StackBuilder,
    b: StackBuilder,
    first: Seq<char>,
    ctx: ContextView,
    g: Graph,
)
    requires
        like_stack(a, b),
    ensures
        stack_spec(a, first, ctx, g) == stack_spec(b, first, ctx, g),
{
    if a.stack.len() > 0 {
        assert(like_block(a.stack[0], b.stack[0]));
        match (a.stack[0], b.stack[0]) {
            (BlockBuilder::VarList(x), BlockBuilder::VarList(y)) => {
                lemma_like_note(x.comment, y.comment, first, g);
            },
            _ => {
                lemma_like_chain(a, b, 0, first, None, ctx, g);
            },
        }
    }
}

proof fn lemma_like_slots_fault(
    a: BlockInputBuilder,
    b: BlockInputBuilder,
    i: int,
    procs: Seq<SignatureView>,
)
    requires
        like_input(a, b),
    ensures
        slots_fault(a, i, procs) == slots_fault(b, i, procs),
    decreases a, a.values.len() - i,
{
    if 0 <= i < a.values.len() {
        assert(like_slot(a.values[i], b.values[i]));
        match (a.values[i], b.values[i]) {
            (Some(StackOrValue::Stack(s)), Some(StackOrValue::Stack(t))) => {
                lemma_like_stacks_have_the_same_fault(s, t, procs);
            },
            _ => {},
        }
        lemma_like_slots_fault(a, b, i + 1, procs);
    }
}

proof fn lemma_like_input_fault(
    a: BlockInputBuilder,
    b: BlockInputBuilder,
    procs: Seq<SignatureView>,
)
    requires
        like_input(a, b),
    ensures
        input_fault(a, procs) == input_fault(b, procs),
    decreases a, a.values.len() + 1,
{
    lemma_like_slots_fault(a, b, 0, procs);
}

proof fn lemma_like_call_fault(
    a: CustomFuncCallBuilder,
    b: CustomFuncCallBuilder,
    vars: Seq<(Seq<char>, CustomBlockInputTypeView)>,
    j: int,
    procs: Seq<SignatureView>,
)
    requires
        like_call(a, b),
    ensures
        call_fault(a, vars, j, procs) == call_fault(b, vars, j, procs),
    decreases a, vars.len() - j,
{
    if 0 <= j < vars.len() {
        lemma_like_keys(a.args, b.args, vars[j].1.name(), 0);
        match key_position(a.args@, vars[j].1.name(), 0) {
            Some(k) => {
                if 0 <= k < a.args.len() {
                    assert(a.args[k].0@ == b.args[k].0@ && like_input(a.args[k].1, b.args[k].1));
                    lemma_like_input_fault(a.args[k].1, b.args[k].1, procs);
                }
            },
            None => {},
        }
        lemma_like_call_fault(a, b, vars, j + 1, procs);
    }
}

proof fn lemma_like_inputs_fault(
    a: Vec<(String, BlockInputBuilder)>,
    b: Vec<(String, BlockInputBuilder)>,
    i: int,
    procs: Seq<SignatureView>,
)
    requires
        like_inputs(a, b),
    ensures
        inputs_fault(a, i, procs) == inputs_fault(b, i, procs),
    decreases a, a.len() - i,
{
    if 0 <= i < a.len() {
        assert(a[i].0@ == b[i].0@ && like_input(a[i].1, b[i].1));
        lemma_like_input_fault(a[i].1, b[i].1, procs);
        lemma_like_inputs_fault(a, b, i + 1, procs);
    }
}

proof fn lemma_like_names<T>(a: Seq<(String, T)>, b: Seq<(String, T)>)
    requires
        a.len() == b.len(),
        forall|i: int| 0 <= i < a.len() ==> (#[trigger] a[i]).0@ == b[i].0@,
    ensures
        distinct_names(a) == distinct_names(b),
{
    if distinct_names(a) {
        assert forall|i: int, j: int| 0 <= i < j < b.len() implies (#[trigger] b[i]).0@ != (
        #[trigger] b[j]).0@ by {
            assert(a[i].0@ != a[j].0@);
        }
    }
    if distinct_names(b) {
        assert forall|i: int, j: int| 0 <= i < j < a.len() implies (#[trigger] a[i]).0@ != (
        #[trigger] a[j]).0@ by {
            assert(b[i].0@ != b[j].0@);
        }
    }
}

proof fn lemma_like_block_fault(a: BlockBuilder, b: BlockBuilder, procs: Seq<SignatureView>)
    requires
        like_block(a, b),
    ensures
        block_fault(a, procs) == block_fault(b, procs),
    decreases a, 2nat,
{
    match (a, b) {
        (BlockBuilder::Normal(x), BlockBuilder::Normal(y)) => {
            lemma_like_names(x.inputs@, y.inputs@);
            lemma_like_names(x.fields@, y.fields@);
            lemma_like_inputs_fault(x.inputs, y.inputs, 0, procs);
        },
        (BlockBuilder::CustomBlockCall(x), BlockBuilder::CustomBlockCall(y)) => {
            match crate::build_context::find(procs, x.name@) {
                Some(signature) => {
                    lemma_like_call_fault(x, y, signature.vars(), 0, procs);
                },
                None => {},
            }
        },
        _ => {},
    }
}

proof fn lemma_like_chain_fault(
    a: StackBuilder,
    b: StackBuilder,
    i: int,
    procs: Seq<SignatureView>,
)
    requires
        like_stack(a, b),
    ensures
        chain_fault(a, i, procs) == chain_fault(b, i, procs),
    decreases a, a.stack.len() - i,
{
    if 0 <= i < a.stack.len() {
        assert(like_block(a.stack[i], b.stack[i]));
        lemma_like_block_fault(a.stack[i], b.stack[i], procs);
        lemma_like_chain_fault(a, b, i + 1, procs);
    }
}

/// Stacks that are alike have the same fault, or none.
pub proof fn lemma_like_stacks_have_the_same_fault(
    a: StackBuilder,
    b: StackBuilder,
    procs: Seq<SignatureView>,
)
    requires
        like_stack(a, b),
    ensures
        stack_fault(a, procs) == stack_fault(b, procs),
    decreases a, a.stack.len() + 1,
{
    if a.stack.len() > 0 {
        assert(like_block(a.stack[0], b.stack[0]));
        lemma_like_chain_fault(a, b, 0, procs);
    }
}

proof fn lemma_like_tallest_slot(
    a: BlockInputBuilder,
    b: BlockInputBuilder,
    j: int,
    data: BlockHeightData,
)
    requires
        like_input(a, b),
    ensures
        tallest_slot(a, j, data) == tallest_slot(b, j, data),
    decreases a, a.values.len() - j,
{
    if 0 <= j < a.values.len() {
        assert(like_slot(a.values[j], b.values[j]));
        match (a.values[j], b.values[j]) {
            (Some(StackOrValue::Stack(s)), Some(StackOrValue::Stack(t))) => {
                lemma_like_stacks_have_the_same_height(s, t, data, true);
            },
            _ => {},
        }
        assert(slot_height(a.values[j], data) == slot_height(b.values[j], data));
        lemma_like_tallest_slot(a, b, j + 1, data);
    }
}

proof fn lemma_like_bodies(
    a: BlockInputBuilder,
    b: BlockInputBuilder,
    j: int,
    data: BlockHeightData,
)
    requires
        like_input(a, b),
    ensures
        bodies_height(a, j, data) == bodies_height(b, j, data),
    decreases a, a.values.len() - j,
{
    if 0 <= j < a.values.len() {
        assert(like_slot(a.values[j], b.values[j]));
        match (a.values[j], b.values[j]) {
            (Some(StackOrValue::Stack(s)), Some(StackOrValue::Stack(t))) => {
                lemma_like_stacks_have_the_same_height(s, t, data, false);
            },
            _ => {},
        }
        lemma_like_bodies(a, b, j + 1, data);
    }
}

proof fn lemma_like_tallest_input(
    a: Vec<(String, BlockInputBuilder)>,
    b: Vec<(String, BlockInputBuilder)>,
    i: int,
    data: BlockHeightData,
)
    requires
        like_inputs(a, b),
    ensures
        tallest_input(a, i, data) == tallest_input(b, i, data),
    decreases a, a.len() - i,
{
    if 0 <= i < a.len() {
        assert(a[i].0@ == b[i].0@ && like_input(a[i].1, b[i].1));
        lemma_like_tallest_slot(a[i].1, b[i].1, 0, data);
        lemma_like_tallest_input(a, b, i + 1, data);
    }
}

proof fn lemma_like_substacks(
    a: Vec<(String, BlockInputBuilder)>,
    b: Vec<(String, BlockInputBuilder)>,
    i: int,
    data: BlockHeightData,
)
    requires
        like_inputs(a, b),
    ensures
        substacks_height(a, i, data) == substacks_height(b, i, data),
    decreases a, a.len() - i,
{
    if 0 <= i < a.len() {
        assert(a[i].0@ == b[i].0@ && like_input(a[i].1, b[i].1));
        lemma_like_bodies(a[i].1, b[i].1, 0, data);
        lemma_like_substacks(a, b, i + 1, data);
    }
}

proof fn lemma_like_block_height(
    a: BlockBuilder,
    b: BlockBuilder,
    data: BlockHeightData,
    is_input: bool,
)
    requires
        like_block(a, b),
    ensures
        block_height(a, data, is_input) == block_height(b, data, is_input),
    decreases a, 2nat,
{
    match (a, b) {
        (BlockBuilder::Normal(x), BlockBuilder::Normal(y)) => {
            lemma_like_tallest_input(x.inputs, y.inputs, 0, data);
            lemma_like_substacks(x.inputs, y.inputs, 0, data);
        },
        (BlockBuilder::CustomBlockCall(x), BlockBuilder::CustomBlockCall(y)) => {
            lemma_like_tallest_input(x.args, y.args, 0, data);
        },
        _ => {},
    }
}

proof fn lemma_like_blocks_height(
    a: StackBuilder,
    b: StackBuilder,
    i: int,
    data: BlockHeightData,
    is_input: bool,
)
    requires
        like_stack(a, b),
    ensures
        blocks_height(a, i, data, is_input) == blocks_height(b, i, data, is_input),
    decreases a, a.stack.len() - i,
{
    if 0 <= i < a.stack.len() {
        assert(like_block(a.stack[i], b.stack[i]));
        lemma_like_block_height(a.stack[i], b.stack[i], data, is_input);
        lemma_like_blocks_height(a, b, i + 1, data, is_input);
    }
}

/// Stacks that are alike have the same height.
pub proof fn lemma_like_stacks_have_the_same_height(
    a: StackBuilder,
    b: StackBuilder,
    data: BlockHeightData,
    is_input: bool,
)
    requires
        like_stack(a, b),
    ensures
        stack_height(a, data, is_input) == stack_height(b, data, is_input),
    decreases a, a.stack.len() + 1,
{
    lemma_like_blocks_height(a, b, 0, data, is_input);
}

impl CommentBuilder {
    /// A copy that is like the note.
    pub fn duplicate(&self) -> (copy: CommentBuilder)
        ensures
            like_note(Some(*self), Some(copy)),
    {
        CommentBuilder {
            x: self.x,
            y: self.y,
            width: self.width,
            height: self.height,
            minimized: self.minimized,
            content: self.content.clone(),
        }
    }
}

/// A copy of a note, or of the lack of one.
fn duplicate_note(note: &Option<CommentBuilder>) -> (copy: Option<CommentBuilder>)
    ensures
        like_note(*note, copy),
{
    match note {
        Some(builder) => Some(builder.duplicate()),
        None => None,
    }
}

/// A copy of named fields.
fn duplicate_fields(fields: &Vec<(String, BlockFieldBuilder)>) -> (copy: Vec<
    (String, BlockFieldBuilder),
>)
    ensures
        like_fields(fields@, copy@),
{
    let mut copy: Vec<(String, BlockFieldBuilder)> = Vec::new();
    let mut i: usize = 0;
    while i < fields.len()
        invariant
            0 <= i <= fields.len(),
            copy.len() == i,
            forall|k: int|
                0 <= k < i ==> {
                    &&& (#[trigger] fields@[k]).0@ == copy@[k].0@
                    &&& fields@[k].1.value@ == copy@[k].1.value@
                    &&& fields@[k].1.kind == copy@[k].1.kind
                },
        decreases fields.len() - i,
    {
        let field = BlockFieldBuilder { value: fields[i].1.value.clone(), kind: fields[i].1.kind };
        copy.push((fields[i].0.clone(), field));
        i = i + 1;
    }
    copy
}

/// A copy of named inputs.
fn duplicate_inputs(inputs: &Vec<(String, BlockInputBuilder)>) -> (copy: Vec<
    (String, BlockInputBuilder),
>)
    ensures
        like_inputs(*inputs, copy),
    decreases *inputs,
{
    let mut copy: Vec<(String, BlockInputBuilder)> = Vec::new();
    let mut i: usize = 0;
    while i < inputs.len()
        invariant
            0 <= i <= inputs.len(),
            copy.len() == i,
            forall|k: int|
                0 <= k < i ==> (#[trigger] inputs[k]).0@ == copy[k].0@ && like_input(
                    inputs[k].1,
                    copy[k].1,
                ),
        decreases inputs.len() - i,
    {
        let input = inputs[i].1.duplicate();
        copy.push((inputs[i].0.clone(), input));
        i = i + 1;
    }
    copy
}

impl BlockInputBuilder {
    /// A copy that is like the input.
    pub fn duplicate(&self) -> (copy: BlockInputBuilder)
        ensures
            like_input(*self, copy),
        decreases *self,
    {
        let mut values: Vec<Option<StackOrValue>> = Vec::new();
        let mut j: usize = 0;
        while j < self.values.len()
            invariant
                0 <= j <= self.values.len(),
                values.len() == j,
                forall|k: int| 0 <= k < j ==> like_slot(#[trigger] self.values[k], values[k]),
            decreases self.values.len() - j,
        {
            let slot = match &self.values[j] {
                None => None,
                Some(StackOrValue::Value(value)) => Some(StackOrValue::Value(value.duplicate())),
                Some(StackOrValue::Stack(stack)) => Some(StackOrValue::Stack(stack.duplicate())),
            };
            values.push(slot);
            j = j + 1;
        }
        BlockInputBuilder { shadow: self.shadow, values }
    }
}

impl BlockNormalBuilder {
    /// A copy that is like the block.
    pub fn duplicate(&self) -> (copy: BlockNormalBuilder)
        ensures
            like_normal(*self, copy),
        decreases *self,
    {
        BlockNormalBuilder {
            opcode: self.opcode.clone(),
            comment: duplicate_note(&self.comment),
            inputs: duplicate_inputs(&self.inputs),
            fields: duplicate_fields(&self.fields),
            mutation: match &self.mutation {
                Some(mutation) => Some(mutation.duplicate()),
                None => None,
            },
            shadow: self.shadow,
            x: self.x,
            y: self.y,
        }
    }
}

impl CustomFuncCallBuilder {
    /// A copy that is like the call.
    pub fn duplicate(&self) -> (copy: CustomFuncCallBuilder)
        ensures
            like_call(*self, copy),
        decreases *self,
    {
        CustomFuncCallBuilder {
            name: self.name.clone(),
            comment: duplicate_note(&self.comment),
            args: duplicate_inputs(&self.args),
            shadow: self.shadow,
            x: self.x,
            y: self.y,
        }
    }
}

impl CustomBlockBuilder {
    /// A copy that is like the definition.
    pub fn duplicate(&self) -> (copy: CustomBlockBuilder)
        ensures
            like_definition(*self, copy),
    {
        CustomBlockBuilder {
            name: self.name.clone(),
            x: self.x,
            y: self.y,
            comment: duplicate_note(&self.comment),
        }
    }
}

impl BlockVarListBuilder {
    /// A copy that is like the reporter.
    pub fn duplicate(&self) -> (copy: BlockVarListBuilder)
        ensures
            like_reporter(*self, copy),
    {
        BlockVarListBuilder {
            kind: self.kind,
            from: self.from,
            name: self.name.clone(),
            x: self.x,
            y: self.y,
            comment: duplicate_note(&self.comment),
        }
    }
}

impl BlockBuilder {
    /// A copy that is like the block.
    pub fn duplicate(&self) -> (copy: BlockBuilder)
        ensures
            like_block(*self, copy),
        decreases *self,
    {
        match self {
            BlockBuilder::Normal(normal) => BlockBuilder::Normal(normal.duplicate()),
            BlockBuilder::CustomBlock(definition) => BlockBuilder::CustomBlock(
                definition.duplicate(),
            ),
            BlockBuilder::CustomBlockCall(call) => BlockBuilder::CustomBlockCall(call.duplicate()),
            BlockBuilder::VarList(reporter) => BlockBuilder::VarList(reporter.duplicate()),
        }
    }
}

impl StackBuilder {
    /// A copy that is like the stack: it has the same faults and the same height,
    /// and builds the same graph.
    pub fn duplicate(&self) -> (copy: StackBuilder)
        ensures
            like_stack(*self, copy),
        decreases *self,
    {
        let mut stack: Vec<BlockBuilder> = Vec::new();
        let mut i: usize = 0;
        while i < self.stack.len()
            invariant
                0 <= i <= self.stack.len(),
                stack.len() == i,
                forall|k: int| 0 <= k < i ==> like_block(#[trigger] self.stack[k], stack[k]),
            decreases self.stack.len() - i,
        {
            let block = self.stack[i].duplicate();
            stack.push(block);
            i = i + 1;
        }
        StackBuilder { stack }
    }
}

} // verus!
