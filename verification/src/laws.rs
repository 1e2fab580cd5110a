//! What holds of every build, proved from the model in [`crate::assembly`].

use crate::arena::distinct_keys;
use crate::arena::has_key;
use crate::arena::lemma_lookup_distinct;
use crate::arena::lookup;
use crate::assembly::block_fault;
use crate::assembly::block_spec;
use crate::assembly::call_fault;
use crate::assembly::call_inputs_spec;
use crate::assembly::call_spec;
use crate::assembly::chain_fault;
use crate::assembly::chain_spec;
use crate::assembly::default_input;
use crate::assembly::Graph;
use crate::assembly::input_fault;
use crate::assembly::input_spec;
use crate::assembly::inputs_fault;
use crate::assembly::inputs_spec;
use crate::assembly::nested_spec;
use crate::assembly::normal_fault;
use crate::assembly::normal_spec;
use crate::assembly::place_block;
use crate::assembly::signature_of;
use crate::assembly::slot_spec;
use crate::assembly::slots_fault;
use crate::assembly::slots_spec;
use crate::assembly::stack_fault;
use crate::assembly::stack_spec;
use crate::assembly::varlist_spec;
use crate::block::BlockBuilder;
use crate::block::BlockInputBuilder;
use crate::block::BlockNormalBuilder;
use crate::block::key_position;
use crate::block::StackOrValue;
use crate::build_context::ContextView;
use crate::build_context::find;
use crate::comment::CommentView;
use crate::custom_block::CustomBlockInputTypeView;
use crate::custom_block::CustomFuncCallBuilder;
use crate::custom_block::SignatureView;
use crate::document::BlockInputValueView;
use crate::document::BlockInputView;
use crate::document::BlockView;
use crate::document::ListOrVariable;
use crate::document::ShadowInputType;
use crate::document::UidOrValueView;
use crate::error::BuildErrorView;
use crate::freshness::grows;
use crate::freshness::is_top;
use crate::freshness::lemma_add_block;
use crate::freshness::lemma_advance;
use crate::freshness::lemma_block;
use crate::freshness::lemma_chain;
use crate::freshness::lemma_fresh_absent;
use crate::freshness::lemma_fresh_is_reserved;
use crate::freshness::lemma_grows_keeps;
use crate::freshness::ready;
use crate::freshness::settled;
use crate::stack::StackBuilder;
use crate::uid::reserved;
use crate::value::whole_number;
use vstd::prelude::*;

verus! {

/// Whether a built slot is what the slot of a builder becomes: nothing for a slot
/// that was left out, the same literal for a literal, the literal that names the
/// variable or list for a stack that starts with a reporter of one, and
/// a reference to a node for any other stack.
pub open spec fn slot_fits(slot: Option<StackOrValue>, built: Option<UidOrValueView>) -> bool {
    match slot {
        None => built is None,
        Some(StackOrValue::Value(value)) => built == Some(UidOrValueView::Value(value@)),
        Some(StackOrValue::Stack(stack)) => {
            if stack.stack.len() == 0 {
                built is None
            } else {
                match stack.stack[0] {
                    BlockBuilder::VarList(reporter) => match built {
                        Some(UidOrValueView::Value(BlockInputValueView::Variable { name, id })) => {
                            reporter.kind == ListOrVariable::Variable && name == reporter.name@
                        },
                        Some(UidOrValueView::Value(BlockInputValueView::List { name, id })) => {
                            reporter.kind == ListOrVariable::List && name == reporter.name@
                        },
                        _ => false,
                    },
                    _ => built matches Some(UidOrValueView::Uid(_)),
                }
            }
        },
    }
}

proof fn lemma_slot_fits(slot: Option<StackOrValue>, parent: Seq<char>, ctx: ContextView, g: Graph)
    ensures
        slot_fits(slot, slot_spec(slot, parent, ctx, g).0),
{
    match slot {
        Some(StackOrValue::Stack(stack)) => {
            assert(slot_spec(slot, parent, ctx, g) == nested_spec(stack, parent, ctx, g));
        },
        _ => {},
    }
}

proof fn lemma_slots_fit(
    input: BlockInputBuilder,
    i: int,
    parent: Seq<char>,
    ctx: ContextView,
    built: Seq<Option<UidOrValueView>>,
    g: Graph,
)
    requires
        0 <= i <= input.values.len(),
        built.len() == i,
        forall|j: int| 0 <= j < i ==> slot_fits(input.values[j], #[trigger] built[j]),
    ensures
        slots_spec(input, i, parent, ctx, built, g).0.len() == input.values.len(),
        forall|j: int|
            0 <= j < input.values.len() ==> slot_fits(
                input.values[j],
                #[trigger] slots_spec(input, i, parent, ctx, built, g).0[j],
            ),
    decreases input.values.len() - i,
{
    if i < input.values.len() {
        let (slot, g1) = slot_spec(input.values[i], parent, ctx, g);
        lemma_slot_fits(input.values[i], parent, ctx, g);
        let longer = built.push(slot);
        assert forall|j: int| 0 <= j < i + 1 implies slot_fits(
            input.values[j],
            #[trigger] longer[j],
        ) by {
            if j < i {
                assert(longer[j] == built[j]);
            }
        }
        lemma_slots_fit(input, i + 1, parent, ctx, longer, g1);
    }
}

/// A built input keeps the shadow kind of its builder and has one slot for each
/// slot of the builder, in order, each of them what the builder's slot becomes.
/// So an input with an obscured shadow that is well shaped builds to two slots,
/// and any other well-shaped input to one.
pub proof fn lemma_built_input_shape(
    input: BlockInputBuilder,
    parent: Seq<char>,
    ctx: ContextView,
    g: Graph,
)
    ensures
        input_spec(input, parent, ctx, g).0.shadow == input.shadow,
        input_spec(input, parent, ctx, g).0.inputs.len() == input.values.len(),
        forall|j: int|
            0 <= j < input.values.len() ==> slot_fits(
                input.values[j],
                #[trigger] input_spec(input, parent, ctx, g).0.inputs[j],
            ),
        input.well_shaped() && input.shadow == ShadowInputType::ShadowObscured ==> input_spec(
            input,
            parent,
            ctx,
            g,
        ).0.inputs.len() == 2,
        input.well_shaped() && input.shadow != ShadowInputType::ShadowObscured ==> input_spec(
            input,
            parent,
            ctx,
            g,
        ).0.inputs.len() == 1,
{
    lemma_slots_fit(input, 0, parent, ctx, Seq::empty(), g);
}

/// An input that is built has the number of slots that its shadow kind asks for.
/// Let an input have no fault.  Then what it builds to keeps its shadow kind and
/// has two slots if the shadow is obscured, and one slot otherwise; each slot is
/// what the builder's slot becomes.
pub proof fn lemma_sound_input_shape(
    input: BlockInputBuilder,
    parent: Seq<char>,
    ctx: ContextView,
    g: Graph,
    procs: Seq<SignatureView>,
)
    requires
        input_fault(input, procs) is None,
    ensures
        input.well_shaped(),
        input_spec(input, parent, ctx, g).0.shadow == input.shadow,
        input_spec(input, parent, ctx, g).0.inputs.len() == if input.shadow
            == ShadowInputType::ShadowObscured {
            2int
        } else {
            1int
        },
        forall|j: int|
            0 <= j < input.values.len() ==> slot_fits(
                input.values[j],
                #[trigger] input_spec(input, parent, ctx, g).0.inputs[j],
            ),
{
    lemma_built_input_shape(input, parent, ctx, g);
}

/// A stack that starts with a reporter of a variable or a list, in a slot of an
/// input, becomes the literal that names the variable or list, with the
/// identifier that the reporter's name resolves to.  It adds no node to the graph.
pub proof fn lemma_reporter_in_slot(
    stack: StackBuilder,
    parent: Seq<char>,
    ctx: ContextView,
    g: Graph,
)
    requires
        stack.stack.len() > 0,
        stack.stack[0] is VarList,
    ensures
        ({
            let reporter = stack.stack[0]->VarList_0;
            let slot = Some(StackOrValue::Stack(stack));
            let top = varlist_spec(reporter, g.fresh(), ctx, g.advance()).0;
            &&& slot_spec(slot, parent, ctx, g).0 == Some(
                UidOrValueView::Value(
                    match reporter.kind {
                        ListOrVariable::Variable => BlockInputValueView::Variable {
                            name: reporter.name@,
                            id: top.id,
                        },
                        ListOrVariable::List => BlockInputValueView::List {
                            name: reporter.name@,
                            id: top.id,
                        },
                    },
                ),
            )
            &&& slot_spec(slot, parent, ctx, g).1.blocks == g.blocks
        }),
{
    let slot = Some(StackOrValue::Stack(stack));
    assert(slot_spec(slot, parent, ctx, g) == nested_spec(stack, parent, ctx, g));
}

/// Whether an input holds no stack.
pub open spec fn holds_no_stack(input: BlockInputBuilder) -> bool {
    forall|j: int| 0 <= j < input.values.len() ==> !(#[trigger] input.values[j] matches Some(
        StackOrValue::Stack(_),
    ))
}

/// Whether a block is a statement, an expression or a call none of whose inputs
/// holds a stack.
pub open spec fn is_plain(block: BlockBuilder) -> bool {
    match block {
        BlockBuilder::Normal(normal) => forall|i: int|
            0 <= i < normal.inputs.len() ==> holds_no_stack((#[trigger] normal.inputs[i]).1),
        BlockBuilder::CustomBlockCall(call) => forall|i: int|
            0 <= i < call.args.len() ==> holds_no_stack((#[trigger] call.args[i]).1),
        _ => false,
    }
}

proof fn lemma_plain_slots(
    input: BlockInputBuilder,
    i: int,
    parent: Seq<char>,
    ctx: ContextView,
    built: Seq<Option<UidOrValueView>>,
    g: Graph,
)
    requires
        holds_no_stack(input),
    ensures
        slots_spec(input, i, parent, ctx, built, g).1 == g,
    decreases input.values.len() - i,
{
    if 0 <= i < input.values.len() {
        let (slot, g1) = slot_spec(input.values[i], parent, ctx, g);
        assert(!(input.values[i] matches Some(StackOrValue::Stack(_))));
        assert(g1 == g);
        lemma_plain_slots(input, i + 1, parent, ctx, built.push(slot), g1);
    }
}

proof fn lemma_plain_inputs(
    inputs: Vec<(String, BlockInputBuilder)>,
    i: int,
    parent: Seq<char>,
    ctx: ContextView,
    built: Seq<(Seq<char>, BlockInputView)>,
    g: Graph,
)
    requires
        forall|k: int| 0 <= k < inputs.len() ==> holds_no_stack((#[trigger] inputs[k]).1),
    ensures
        inputs_spec(inputs, i, parent, ctx, built, g).1 == g,
    decreases inputs.len() - i,
{
    if 0 <= i < inputs.len() {
        assert(holds_no_stack(inputs[i].1));
        lemma_plain_slots(inputs[i].1, 0, parent, ctx, Seq::empty(), g);
        let (input, g1) = input_spec(inputs[i].1, parent, ctx, g);
        lemma_plain_inputs(inputs, i + 1, parent, ctx, built.push((inputs[i].0@, input)), g1);
    }
}

proof fn lemma_plain_call_inputs(
    call: CustomFuncCallBuilder,
    vars: Seq<(Seq<char>, CustomBlockInputTypeView)>,
    j: int,
    my: Seq<char>,
    ctx: ContextView,
    built: Seq<(Seq<char>, BlockInputView)>,
    g: Graph,
)
    requires
        forall|k: int| 0 <= k < call.args.len() ==> holds_no_stack((#[trigger] call.args[k]).1),
    ensures
        call_inputs_spec(call, vars, j, my, ctx, built, g).1 == g,
    decreases vars.len() - j,
{
    if 0 <= j < vars.len() {
        match key_position(call.args@, vars[j].1.name(), 0) {
            Some(k) => {
                if 0 <= k < call.args.len() {
                    assert(holds_no_stack(call.args[k].1));
                    lemma_plain_slots(call.args[k].1, 0, my, ctx, Seq::empty(), g);
                    let (input, g1) = input_spec(call.args[k].1, my, ctx, g);
                    lemma_plain_call_inputs(
                        call,
                        vars,
                        j + 1,
                        my,
                        ctx,
                        built.push((vars[j].0, input)),
                        g1,
                    );
                }
            },
            None => match vars[j].1 {
                CustomBlockInputTypeView::Boolean(_) => {
                    lemma_plain_call_inputs(call, vars, j + 1, my, ctx, built, g);
                },
                _ => {
                    lemma_plain_call_inputs(
                        call,
                        vars,
                        j + 1,
                        my,
                        ctx,
                        built.push((vars[j].0, default_input())),
                        g,
                    );
                },
            },
        }
    }
}

/// A plain block adds no node to the graph when it is built, and issues at most
/// the identifier of its note.
proof fn lemma_plain_block(block: BlockBuilder, my: Seq<char>, ctx: ContextView, g: Graph)
    requires
        is_plain(block),
    ensures
        block_spec(block, my, ctx, g).0 is Normal,
        block_spec(block, my, ctx, g).1.blocks == g.blocks,
        g.issued <= block_spec(block, my, ctx, g).1.issued,
{
    match block {
        BlockBuilder::Normal(normal) => {
            lemma_plain_inputs(normal.inputs, 0, my, ctx, Seq::empty(), g);
            assert(block_spec(block, my, ctx, g).1 == normal_spec(normal, my, ctx, g).1);
        },
        BlockBuilder::CustomBlockCall(call) => {
            let signature = signature_of(ctx, call.name@);
            lemma_plain_call_inputs(call, signature.vars(), 0, my, ctx, Seq::empty(), g);
            assert(block_spec(block, my, ctx, g).1 == call_spec(
                call,
                signature,
                my,
                ctx,
                g,
            ).1);
        },
        _ => {},
    }
}

/// Whether the nodes from the `base`-th on are a chain of `n` statements that
/// hangs below `parent`: every node but the last has the node behind it as its
/// `next`, the last has none; every node but the first has the node before it as
/// its parent.  A first node without a parent is the only one that is marked
/// top-level and the only one with a position.
#[verifier::opaque]
pub open spec fn is_chain(
    blocks: Seq<(Seq<char>, BlockView)>,
    base: int,
    n: int,
    parent: Option<Seq<char>>,
) -> bool {
    &&& 0 <= base
    &&& 0 < n
    &&& blocks.len() == base + n
    &&& forall|i: int| base <= i < base + n ==> (#[trigger] blocks[i]).1 is Normal
    &&& forall|i: int|
        base <= i < base + n - 1 ==> (#[trigger] blocks[i]).1->Normal_0.next == Some(
            blocks[i + 1].0,
        )
    &&& blocks[base + n - 1].1->Normal_0.next is None
    &&& forall|i: int|
        base < i < base + n ==> {
            let node = (#[trigger] blocks[i]).1->Normal_0;
            &&& node.parent == Some(blocks[i - 1].0)
            &&& !node.top_level
            &&& node.x is None
            &&& node.y is None
        }
    &&& is_head(blocks[base].1, parent)
}

/// Whether a block is a statement that is placed below `parent`, or as the top of
/// a script where there is no parent: then, and only then, it is marked top-level
/// and has a position.
pub open spec fn is_head(block: BlockView, parent: Option<Seq<char>>) -> bool {
    &&& block is Normal
    &&& block->Normal_0.parent == parent
    &&& block->Normal_0.top_level == (parent is None)
    &&& (block->Normal_0.x is Some) == (parent is None)
    &&& (block->Normal_0.y is Some) == (parent is None)
}

proof fn lemma_chain_single(
    blocks: Seq<(Seq<char>, BlockView)>,
    base: int,
    parent: Option<Seq<char>>,
)
    requires
        0 <= base,
        blocks.len() == base + 1,
        is_head(blocks[base].1, parent),
        blocks[base].1->Normal_0.next is None,
    ensures
        is_chain(blocks, base, 1, parent),
{
    reveal(is_chain);
}

proof fn lemma_chain_cons(
    blocks: Seq<(Seq<char>, BlockView)>,
    base: int,
    n: int,
    parent: Option<Seq<char>>,
)
    requires
        0 <= base,
        n >= 2,
        is_chain(blocks, base + 1, n - 1, Some(blocks[base].0)),
        is_head(blocks[base].1, parent),
        blocks[base].1->Normal_0.next == Some(blocks[base + 1].0),
    ensures
        is_chain(blocks, base, n, parent),
{
    reveal(is_chain);
    assert forall|i: int| base < i < base + n implies {
        let node = (#[trigger] blocks[i]).1->Normal_0;
        &&& node.parent == Some(blocks[i - 1].0)
        &&& !node.top_level
        &&& node.x is None
        &&& node.y is None
    } by {
        if i == base + 1 {
            assert(is_head(blocks[base + 1].1, Some(blocks[base].0)));
        }
    }
}

proof fn lemma_placed_is_head(
    block: BlockView,
    parent: Option<Seq<char>>,
    next: Option<Seq<char>>,
)
    requires
        block is Normal,
    ensures
        is_head(place_block(block, parent, next), parent),
        place_block(block, parent, next)->Normal_0.next == next,
{
}

proof fn lemma_plain_chain_shape(
    stack: StackBuilder,
    i: int,
    my: Seq<char>,
    parent: Option<Seq<char>>,
    ctx: ContextView,
    g: Graph,
)
    requires
        0 <= i < stack.stack.len(),
        forall|k: int| 0 <= k < stack.stack.len() ==> is_plain(#[trigger] stack.stack[k]),
        ready(g, my),
    ensures
        ({
            let out = chain_spec(stack, i, my, parent, ctx, g);
            let base = g.blocks.len() as int;
            &&& out.blocks.len() == base + stack.stack.len() - i
            &&& forall|k: int| 0 <= k < base ==> out.blocks[k] == g.blocks[k]
            &&& is_chain(out.blocks, base, stack.stack.len() - i, parent)
            &&& out.blocks[base].0 == my
            &&& g.issued <= out.issued
            &&& settled(out.blocks, out.issued)
        }),
    decreases stack.stack.len() - i,
{
    let base = g.blocks.len() as int;
    let (block, g1) = block_spec(stack.stack[i], my, ctx, g);
    assert(is_plain(stack.stack[i]));
    lemma_plain_block(stack.stack[i], my, ctx, g);
    lemma_block(stack.stack[i], my, ctx, g);
    lemma_grows_keeps(g, g1, None, false, my);
    lemma_chain(stack, i, my, parent, ctx, g);
    if i + 1 < stack.stack.len() {
        let next = g1.fresh();
        let placed = place_block(block, parent, Some(next));
        lemma_placed_is_head(block, parent, Some(next));
        let g2 = g1.advance();
        lemma_advance(g1);
        lemma_grows_keeps(g1, g2, None, false, my);
        lemma_fresh_is_reserved(g1.issued);
        lemma_fresh_absent(g1.blocks, g1.issued);
        let g3 = g2.with_block(my, placed);
        lemma_add_block(g2, my, placed);
        assert(!has_key(g3.blocks, next)) by {
            if has_key(g3.blocks, next) {
                let k = choose|k: int|
                    0 <= k < g3.blocks.len() && (#[trigger] g3.blocks[k]).0 == next;
                if k < g1.blocks.len() {
                    assert(g1.blocks[k].0 == next);
                }
            }
        }
        lemma_plain_chain_shape(stack, i + 1, next, Some(my), ctx, g3);
        let out = chain_spec(stack, i + 1, next, Some(my), ctx, g3);
        assert(out == chain_spec(stack, i, my, parent, ctx, g));
        assert(g3.blocks.len() == base + 1);
        assert(g3.blocks[base] == (my, placed));
        assert(out.blocks[base] == g3.blocks[base]);
        assert forall|k: int| 0 <= k < base implies out.blocks[k] == g.blocks[k] by {
            assert(out.blocks[k] == g3.blocks[k]);
        }
        lemma_chain_cons(out.blocks, base, stack.stack.len() - i, parent);
    } else {
        let placed = place_block(block, parent, None);
        lemma_placed_is_head(block, parent, None);
        let out = g1.with_block(my, placed);
        lemma_add_block(g1, my, placed);
        assert(out == chain_spec(stack, i, my, parent, ctx, g));
        assert(out.blocks[base] == (my, placed));
        lemma_chain_single(out.blocks, base, parent);
    }
}

/// A stack of `n` plain blocks builds to exactly `n` nodes.  Let the identifier
/// for the first block be none that the source may still issue.  Then the build
/// yields one node for each block, in the order of the stack, the first under
/// the identifier that the build was given, and each under an identifier of its
/// own.  The nodes are statements that form a chain: each but the last has the
/// next one as its `next`, each but the first has the one before it as its
/// parent, and the first alone is marked top-level and has a position.
pub proof fn lemma_plain_stack_is_chain(
    stack: StackBuilder,
    first: Seq<char>,
    ctx: ContextView,
    issued: nat,
    comments: Seq<(Seq<char>, CommentView)>,
)
    requires
        stack.stack.len() > 0,
        forall|k: int| 0 <= k < stack.stack.len() ==> is_plain(#[trigger] stack.stack[k]),
        !reserved(first, issued),
    ensures
        ({
            let out = stack_spec(
                stack,
                first,
                ctx,
                Graph { issued, blocks: Seq::empty(), comments },
            );
            &&& out.blocks.len() == stack.stack.len()
            &&& out.blocks[0].0 == first
            &&& is_chain(out.blocks, 0, stack.stack.len() as int, None)
            &&& distinct_keys(out.blocks)
        }),
{
    let g = Graph { issued, blocks: Seq::empty(), comments };
    assert(is_plain(stack.stack[0]));
    lemma_plain_chain_shape(stack, 0, first, None, ctx, g);
}

/// The identifiers of the blocks of a chain from the `i`-th on, in order, where
/// the `i`-th block has the identifier `my` and the chain is built into `g`.
pub open spec fn chain_ids(
    stack: StackBuilder,
    i: int,
    my: Seq<char>,
    parent: Option<Seq<char>>,
    ctx: ContextView,
    g: Graph,
) -> Seq<Seq<char>>
    decreases stack.stack.len() - i,
{
    if 0 <= i < stack.stack.len() {
        let (block, g1) = block_spec(stack.stack[i], my, ctx, g);
        if i + 1 < stack.stack.len() {
            let next = g1.fresh();
            seq![my] + chain_ids(
                stack,
                i + 1,
                next,
                Some(my),
                ctx,
                g1.advance().with_block(my, place_block(block, parent, Some(next))),
            )
        } else {
            seq![my]
        }
    } else {
        Seq::empty()
    }
}

/// Whether the node under the `j`-th identifier of a chain is linked as its place
/// in the chain asks: its `next` is the node behind it, if there is one; its
/// parent is the node before it, or `parent` for the first; and it is marked
/// top-level, and has a position, exactly if it is the first and has no parent.
pub open spec fn linked_at(
    blocks: Seq<(Seq<char>, BlockView)>,
    ids: Seq<Seq<char>>,
    j: int,
    parent: Option<Seq<char>>,
) -> bool {
    match lookup(blocks, ids[j]) {
        Some(BlockView::Normal(node)) => {
            &&& node.next == if j + 1 < ids.len() {
                Some(ids[j + 1])
            } else {
                None
            }
            &&& node.parent == if j == 0 {
                parent
            } else {
                Some(ids[j - 1])
            }
            &&& node.top_level == (j == 0 && parent is None)
            &&& (node.x is Some) == (j == 0 && parent is None)
            &&& (node.y is Some) == (j == 0 && parent is None)
        },
        _ => false,
    }
}

/// What stands behind the `i`-th block of a chain that is built into `g`: the
/// identifier that its successor gets, if it has one.
pub open spec fn next_in_chain(
    stack: StackBuilder,
    i: int,
    my: Seq<char>,
    ctx: ContextView,
    g: Graph,
) -> Option<
    Seq<char>,
> {
    if i + 1 < stack.stack.len() {
        Some(block_spec(stack.stack[i], my, ctx, g).1.fresh())
    } else {
        None
    }
}

proof fn lemma_chain_linked(
    stack: StackBuilder,
    i: int,
    my: Seq<char>,
    parent: Option<Seq<char>>,
    ctx: ContextView,
    g: Graph,
)
    requires
        0 <= i < stack.stack.len(),
        forall|k: int| 0 <= k < stack.stack.len() ==> !(#[trigger] stack.stack[k] is VarList),
        settled(g.blocks, g.issued),
        !reserved(my, g.issued),
        !has_key(g.blocks, my),
    ensures
        ({
            let out = chain_spec(stack, i, my, parent, ctx, g);
            let ids = chain_ids(stack, i, my, parent, ctx, g);
            &&& ids.len() == stack.stack.len() - i
            &&& ids[0] == my
            &&& forall|j: int| 0 <= j < ids.len() ==> linked_at(out.blocks, ids, j, parent)
            &&& lookup(out.blocks, my) == Some(
                place_block(
                    block_spec(stack.stack[i], my, ctx, g).0,
                    parent,
                    next_in_chain(stack, i, my, ctx, g),
                ),
            )
        }),
    decreases stack.stack.len() - i,
{
    let (block, g1) = block_spec(stack.stack[i], my, ctx, g);
    assert(!(stack.stack[i] is VarList));
    assert(block is Normal);
    lemma_block(stack.stack[i], my, ctx, g);
    lemma_grows_keeps(g, g1, None, false, my);
    let out = chain_spec(stack, i, my, parent, ctx, g);
    let ids = chain_ids(stack, i, my, parent, ctx, g);
    lemma_chain(stack, i, my, parent, ctx, g);
    if i + 1 < stack.stack.len() {
        let next = g1.fresh();
        let g2 = g1.advance();
        let placed = place_block(block, parent, Some(next));
        lemma_placed_is_head(block, parent, Some(next));
        let g3 = g2.with_block(my, placed);
        lemma_advance(g1);
        lemma_grows_keeps(g1, g2, None, false, my);
        lemma_fresh_is_reserved(g1.issued);
        lemma_fresh_absent(g1.blocks, g1.issued);
        lemma_add_block(g2, my, placed);
        assert(!has_key(g3.blocks, next)) by {
            if has_key(g3.blocks, next) {
                let k = choose|k: int|
                    0 <= k < g3.blocks.len() && (#[trigger] g3.blocks[k]).0 == next;
                if k < g1.blocks.len() {
                    assert(g1.blocks[k].0 == next);
                }
            }
        }
        let rest = chain_ids(stack, i + 1, next, Some(my), ctx, g3);
        lemma_chain_linked(stack, i + 1, next, Some(my), ctx, g3);
        lemma_chain(stack, i + 1, next, Some(my), ctx, g3);
        assert(out == chain_spec(stack, i + 1, next, Some(my), ctx, g3));
        assert(ids == seq![my] + rest);
        let p = g1.blocks.len() as int;
        assert(p < out.blocks.len() && out.blocks[p] == (my, placed)) by {
            reveal(grows);
            assert(g3.blocks[p] == (my, placed));
        }
        lemma_lookup_distinct(out.blocks, p);
        assert forall|j: int| 0 <= j < ids.len() implies linked_at(out.blocks, ids, j, parent) by {
            if j == 0 {
                assert(ids[1] == rest[0]);
            } else {
                assert(ids[j] == rest[j - 1]);
                assert(linked_at(out.blocks, rest, j - 1, Some(my)));
                if j + 1 < ids.len() {
                    assert(ids[j + 1] == rest[j]);
                }
                if j >= 2 {
                    assert(ids[j - 1] == rest[j - 2]);
                }
            }
        }
    } else {
        let placed = place_block(block, parent, None);
        lemma_placed_is_head(block, parent, None);
        lemma_add_block(g1, my, placed);
        assert(out == g1.with_block(my, placed));
        assert(out.blocks.last() == (my, placed));
        assert(ids == seq![my]);
        assert(linked_at(out.blocks, ids, 0, parent));
    }
}

/// The blocks of any script are linked into a chain.  Let no block of the stack
/// be a reporter of a variable or a list, let the nodes so far each stand under
/// an identifier of their own, none of which the source may still issue, and let
/// the identifier for the first block be neither in use nor one that the source
/// may still issue.  Then each block of the stack has a node in the graph,
/// whatever its inputs hold: the node's `next` is the node of the block behind
/// it, its parent the node of the block before it, and the first node alone is
/// marked top-level and has a position.  The node under the first identifier is
/// what the first block builds to, placed as the top of a script.
pub proof fn lemma_script_is_linked(
    stack: StackBuilder,
    first: Seq<char>,
    ctx: ContextView,
    g: Graph,
)
    requires
        stack.stack.len() > 0,
        forall|k: int| 0 <= k < stack.stack.len() ==> !(#[trigger] stack.stack[k] is VarList),
        settled(g.blocks, g.issued),
        !reserved(first, g.issued),
        !has_key(g.blocks, first),
    ensures
        ({
            let out = stack_spec(stack, first, ctx, g);
            let ids = chain_ids(stack, 0, first, None, ctx, g);
            &&& ids.len() == stack.stack.len()
            &&& ids[0] == first
            &&& forall|j: int| 0 <= j < ids.len() ==> linked_at(out.blocks, ids, j, None)
            &&& lookup(out.blocks, first) == Some(
                place_block(
                    block_spec(stack.stack[0], first, ctx, g).0,
                    None,
                    next_in_chain(stack, 0, first, ctx, g),
                ),
            )
        }),
{
    assert(!(stack.stack[0] is VarList));
    lemma_chain_linked(stack, 0, first, None, ctx, g);
}

/// The top of a script has a position.  Under the conditions of
/// [`lemma_script_is_linked`], let the first block be a statement or an
/// expression.  Then the node under the first identifier is marked top-level, has
/// no parent, and stands where the builder said, or at the origin where the
/// builder gave no position, whatever the stack holds besides.
pub proof fn lemma_top_node_has_a_position(
    stack: StackBuilder,
    first: Seq<char>,
    ctx: ContextView,
    g: Graph,
)
    requires
        stack.stack.len() > 0,
        stack.stack[0] is Normal,
        forall|k: int| 0 <= k < stack.stack.len() ==> !(#[trigger] stack.stack[k] is VarList),
        settled(g.blocks, g.issued),
        !reserved(first, g.issued),
        !has_key(g.blocks, first),
    ensures
        ({
            let out = stack_spec(stack, first, ctx, g);
            let builder = stack.stack[0]->Normal_0;
            &&& lookup(out.blocks, first) matches Some(BlockView::Normal(node)) && {
                &&& node.top_level
                &&& node.parent is None
                &&& node.opcode == builder.opcode@
                &&& node.x == Some(
                    match builder.x {
                        Some(x) => x,
                        None => whole_number(0),
                    },
                )
                &&& node.y == Some(
                    match builder.y {
                        Some(y) => y,
                        None => whole_number(0),
                    },
                )
            }
        }),
{
    lemma_script_is_linked(stack, first, ctx, g);
    let builder = stack.stack[0]->Normal_0;
    assert(block_spec(stack.stack[0], first, ctx, g).0 == BlockView::Normal(
        normal_spec(builder, first, ctx, g).0,
    ));
}

/// A stack in a slot hangs below the node that owns the slot.  Let no block of
/// the stack be a reporter of a variable or a list, and let the nodes so far each
/// stand under an identifier of their own, none of which the source may still
/// issue.  Then the slot refers to the node of the stack's first block, which has
/// the owner as its parent, is not marked top-level and has no position; the
/// blocks of the stack are linked into a chain.
pub proof fn lemma_nested_stack_is_linked(
    stack: StackBuilder,
    parent: Seq<char>,
    ctx: ContextView,
    g: Graph,
)
    requires
        stack.stack.len() > 0,
        forall|k: int| 0 <= k < stack.stack.len() ==> !(#[trigger] stack.stack[k] is VarList),
        settled(g.blocks, g.issued),
    ensures
        ({
            let (slot, out) = nested_spec(stack, parent, ctx, g);
            let ids = chain_ids(stack, 0, g.fresh(), Some(parent), ctx, g.advance());
            &&& slot == Some(UidOrValueView::Uid(g.fresh()))
            &&& ids.len() == stack.stack.len()
            &&& ids[0] == g.fresh()
            &&& forall|j: int| 0 <= j < ids.len() ==> linked_at(out.blocks, ids, j, Some(parent))
        }),
{
    assert(!(stack.stack[0] is VarList));
    lemma_advance(g);
    lemma_fresh_is_reserved(g.issued);
    lemma_fresh_absent(g.blocks, g.issued);
    assert(!has_key(g.advance().blocks, g.fresh()));
    lemma_chain_linked(stack, 0, g.fresh(), Some(parent), ctx, g.advance());
    assert(nested_spec(stack, parent, ctx, g) == (
        Some(UidOrValueView::Uid(g.fresh())),
        chain_spec(stack, 0, g.fresh(), Some(parent), ctx, g.advance()),
    ));
}

proof fn lemma_fault_at(
    stack: StackBuilder,
    k: int,
    i: int,
    procs: Seq<SignatureView>,
    fault: BuildErrorView,
)
    requires
        0 <= k <= i < stack.stack.len(),
        forall|j: int|
            0 <= j < i ==> {
                &&& j > 0 ==> !(#[trigger] stack.stack[j] is VarList)
                &&& block_fault(stack.stack[j], procs) is None
            },
        !(i > 0 && stack.stack[i] is VarList),
        block_fault(stack.stack[i], procs) == Some(fault),
    ensures
        chain_fault(stack, k, procs) == Some(fault),
    decreases i - k,
{
    if k < i {
        assert(k > 0 ==> !(stack.stack[k] is VarList));
        assert(block_fault(stack.stack[k], procs) is None);
        lemma_fault_at(stack, k + 1, i, procs, fault);
    }
}

/// A call of a procedure that is not registered fails the build of its script
/// with the name of the procedure.  Let the `i`-th block of a stack call
/// a procedure under whose name nothing is registered, and let the blocks before
/// it have no fault.  Then the fault of the stack is that the procedure was not
/// found, so a build returns it and leaves the graph as it was.
pub proof fn lemma_unregistered_call_is_the_fault(
    stack: StackBuilder,
    i: int,
    procs: Seq<SignatureView>,
)
    requires
        0 <= i < stack.stack.len(),
        !(stack.stack[0] is VarList),
        stack.stack[i] is CustomBlockCall,
        find(procs, stack.stack[i]->CustomBlockCall_0.name@) is None,
        forall|j: int|
            0 <= j < i ==> {
                &&& !(#[trigger] stack.stack[j] is VarList)
                &&& block_fault(stack.stack[j], procs) is None
            },
    ensures
        stack_fault(stack, procs) == Some(
            BuildErrorView::ProcedureNotFound(
                stack.stack[i]->CustomBlockCall_0.name@,
            ),
        ),
{
    let name = stack.stack[i]->CustomBlockCall_0.name@;
    lemma_fault_at(stack, 0, i, procs, BuildErrorView::ProcedureNotFound(name));
}

/// The inputs that a call gets for the arguments from the `j`-th on where it
/// supplies nothing: the empty text for each argument that takes a text or
/// a number, under the argument's identifier, and nothing for the others.
pub open spec fn defaults_from(
    vars: Seq<(Seq<char>, CustomBlockInputTypeView)>,
    j: int,
) -> Seq<(Seq<char>, BlockInputView)>
    decreases vars.len() - j,
{
    if 0 <= j < vars.len() {
        match vars[j].1 {
            CustomBlockInputTypeView::Boolean(_) => defaults_from(vars, j + 1),
            _ => seq![(vars[j].0, default_input())] + defaults_from(vars, j + 1),
        }
    } else {
        Seq::empty()
    }
}

proof fn lemma_bare_call_inputs(
    call: CustomFuncCallBuilder,
    vars: Seq<(Seq<char>, CustomBlockInputTypeView)>,
    j: int,
    my: Seq<char>,
    ctx: ContextView,
    built: Seq<(Seq<char>, BlockInputView)>,
    g: Graph,
)
    requires
        call.args.len() == 0,
        0 <= j,
    ensures
        call_inputs_spec(call, vars, j, my, ctx, built, g) == (
            built + defaults_from(vars, j),
            g,
        ),
    decreases vars.len() - j,
{
    if j < vars.len() {
        assert(key_position(call.args@, vars[j].1.name(), 0) is None);
        match vars[j].1 {
            CustomBlockInputTypeView::Boolean(_) => {
                lemma_bare_call_inputs(call, vars, j + 1, my, ctx, built, g);
            },
            _ => {
                let more = built.push((vars[j].0, default_input()));
                lemma_bare_call_inputs(call, vars, j + 1, my, ctx, more, g);
                assert(more + defaults_from(vars, j + 1) =~= built + defaults_from(vars, j));
            },
        }
    } else {
        assert(built + defaults_from(vars, j) =~= built);
    }
}

/// A call that supplies no argument carries the defaults: its inputs are the
/// empty text for each argument of the procedure that takes a text or a number,
/// under the argument's identifier and in the order of the signature, and it adds
/// no node to the graph.
pub proof fn lemma_bare_call_carries_defaults(
    call: CustomFuncCallBuilder,
    signature: SignatureView,
    my: Seq<char>,
    ctx: ContextView,
    g: Graph,
)
    requires
        call.args.len() == 0,
    ensures
        call_spec(call, signature, my, ctx, g).0.inputs == defaults_from(
            signature.vars(),
            0,
        ),
        call_spec(call, signature, my, ctx, g).1.blocks == g.blocks,
{
    lemma_bare_call_inputs(call, signature.vars(), 0, my, ctx, Seq::empty(), g);
    assert(Seq::<(Seq<char>, BlockInputView)>::empty() + defaults_from(
        signature.vars(),
        0,
    ) =~= defaults_from(signature.vars(), 0));
}

proof fn lemma_no_fault_from(stack: StackBuilder, k: int, i: int, procs: Seq<SignatureView>)
    requires
        0 <= k <= i < stack.stack.len(),
        chain_fault(stack, k, procs) is None,
    ensures
        block_fault(stack.stack[i], procs) is None,
        i > 0 ==> !(stack.stack[i] is VarList),
    decreases i - k,
{
    if k < i {
        lemma_no_fault_from(stack, k + 1, i, procs);
    }
}

/// A stack is only built where each of its blocks can be built.  Let a stack
/// without a fault start with a block that is no reporter of a variable or
/// a list.  Then none of its blocks has a fault: none is a reporter behind the
/// first block, and every procedure that a block defines or calls is registered.
pub proof fn lemma_built_stack_has_sound_blocks(
    stack: StackBuilder,
    i: int,
    procs: Seq<SignatureView>,
)
    requires
        stack_fault(stack, procs) is None,
        0 <= i < stack.stack.len(),
        !(stack.stack[0] is VarList),
    ensures
        block_fault(stack.stack[i], procs) is None,
        i > 0 ==> !(stack.stack[i] is VarList),
        stack.stack[i] matches BlockBuilder::CustomBlockCall(call) ==> find(procs, call.name@)
            is Some,
        stack.stack[i] matches BlockBuilder::CustomBlock(definition) ==> find(
            procs,
            definition.name@,
        ) is Some,
{
    lemma_no_fault_from(stack, 0, i, procs);
}

/// Whether the nodes are those of one script whose top stands under `first`:
/// every node stands under an identifier of its own; the node under `first` is
/// there, and if it is a statement or an expression it is marked top-level, has no
/// parent and has a position; no other node is marked top-level.
pub open spec fn one_script(blocks: Seq<(Seq<char>, BlockView)>, first: Seq<char>) -> bool {
    &&& distinct_keys(blocks)
    &&& forall|k: int|
        0 <= k < blocks.len() && (#[trigger] blocks[k]).0 != first ==> !is_top(blocks[k].1)
    &&& match lookup(blocks, first) {
        Some(BlockView::Normal(node)) => {
            &&& node.top_level
            &&& node.parent is None
            &&& node.x is Some
            &&& node.y is Some
        },
        Some(BlockView::VarList(_)) => true,
        None => false,
    }
}

/// What a build yields is one script.  Let a stack have no fault, and let the
/// identifier for its first block be none that the source may still issue.  Then
/// the nodes that the build yields are those of one script whose top stands
/// under that identifier, whatever the stack holds.
pub proof fn lemma_build_yields_one_script(
    stack: StackBuilder,
    first: Seq<char>,
    ctx: ContextView,
    issued: nat,
    comments: Seq<(Seq<char>, CommentView)>,
    procs: Seq<SignatureView>,
)
    requires
        stack_fault(stack, procs) is None,
        !reserved(first, issued),
    ensures
        one_script(
            stack_spec(stack, first, ctx, Graph { issued, blocks: Seq::empty(), comments }).blocks,
            first,
        ),
{
    let g = Graph { issued, blocks: Seq::empty(), comments };
    let out = stack_spec(stack, first, ctx, g);
    crate::freshness::lemma_stack_keeps_identifiers_unique(stack, first, ctx, g);
    if stack.stack[0] is VarList {
        assert(out.blocks.last().0 == first);
        assert(out.blocks.last().1 is VarList);
    } else {
        assert forall|k: int| 0 <= k < stack.stack.len() implies !(
        #[trigger] stack.stack[k] is VarList) by {
            lemma_built_stack_has_sound_blocks(stack, k, procs);
        }
        lemma_script_is_linked(stack, first, ctx, g);
        let ids = chain_ids(stack, 0, first, None, ctx, g);
        assert(linked_at(out.blocks, ids, 0, None));
    }
}

/// Whether a slot of an input from the `i`-th on holds a stack that calls `name`.
pub open spec fn slots_call(
    input: BlockInputBuilder,
    i: int,
    name: Seq<char>,
    procs: Seq<SignatureView>,
) -> bool
    decreases input, input.values.len() - i,
{
    0 <= i < input.values.len() && {
        ||| input.values[i] matches Some(StackOrValue::Stack(stack)) && stack_calls(
            stack,
            name,
            procs,
        )
        ||| slots_call(input, i + 1, name, procs)
    }
}

/// Whether one of the named inputs from the `i`-th on calls `name`.
pub open spec fn inputs_call(
    inputs: Vec<(String, BlockInputBuilder)>,
    i: int,
    name: Seq<char>,
    procs: Seq<SignatureView>,
) -> bool
    decreases inputs, inputs.len() - i,
{
    0 <= i < inputs.len() && {
        ||| slots_call(inputs[i].1, 0, name, procs)
        ||| inputs_call(inputs, i + 1, name, procs)
    }
}

/// Whether one of the arguments of a call that are built, for the arguments of
/// the signature from the `j`-th on, calls `name`.
pub open spec fn arguments_call(
    call: CustomFuncCallBuilder,
    vars: Seq<(Seq<char>, CustomBlockInputTypeView)>,
    j: int,
    name: Seq<char>,
    procs: Seq<SignatureView>,
) -> bool
    decreases call, vars.len() - j,
{
    0 <= j < vars.len() && {
        ||| match key_position(call.args@, vars[j].1.name(), 0) {
            Some(k) => 0 <= k < call.args.len() && slots_call(call.args[k].1, 0, name, procs),
            None => false,
        }
        ||| arguments_call(call, vars, j + 1, name, procs)
    }
}

/// Whether a block calls `name`: it is a call of `name`, or something that it
/// holds and that is built calls `name`, at any depth.
pub open spec fn block_calls(
    builder: BlockBuilder,
    name: Seq<char>,
    procs: Seq<SignatureView>,
) -> bool
    decreases builder, 0nat,
{
    match builder {
        BlockBuilder::Normal(normal) => inputs_call(normal.inputs, 0, name, procs),
        BlockBuilder::CustomBlockCall(call) => {
            ||| call.name@ == name
            ||| match find(procs, call.name@) {
                Some(signature) => arguments_call(call, signature.vars(), 0, name, procs),
                None => false,
            }
        },
        _ => false,
    }
}

/// Whether one of the blocks of a stack from the `i`-th on calls `name`.
pub open spec fn chain_calls(
    stack: StackBuilder,
    i: int,
    name: Seq<char>,
    procs: Seq<SignatureView>,
) -> bool
    decreases stack, stack.stack.len() - i,
{
    0 <= i < stack.stack.len() && {
        ||| block_calls(stack.stack[i], name, procs)
        ||| chain_calls(stack, i + 1, name, procs)
    }
}

/// Whether a stack calls the procedure `name` in what is built of it, at any
/// depth.  Behind a first block that is a reporter of a variable or a list
/// nothing is built.
pub open spec fn stack_calls(
    stack: StackBuilder,
    name: Seq<char>,
    procs: Seq<SignatureView>,
) -> bool
    decreases stack, stack.stack.len() + 1,
{
    stack.stack.len() > 0 && !(stack.stack[0] is VarList) && chain_calls(stack, 0, name, procs)
}

proof fn lemma_slots_call(
    input: BlockInputBuilder,
    i: int,
    name: Seq<char>,
    procs: Seq<SignatureView>,
)
    requires
        slots_fault(input, i, procs) is None,
        slots_call(input, i, name, procs),
    ensures
        find(procs, name) is Some,
    decreases input, input.values.len() - i,
{
    match input.values[i] {
        Some(StackOrValue::Stack(stack)) => {
            if stack_calls(stack, name, procs) {
                lemma_built_stack_calls_what_is_registered(stack, name, procs);
            } else {
                lemma_slots_call(input, i + 1, name, procs);
            }
        },
        _ => {
            lemma_slots_call(input, i + 1, name, procs);
        },
    }
}

proof fn lemma_inputs_call(
    inputs: Vec<(String, BlockInputBuilder)>,
    i: int,
    name: Seq<char>,
    procs: Seq<SignatureView>,
)
    requires
        inputs_fault(inputs, i, procs) is None,
        inputs_call(inputs, i, name, procs),
    ensures
        find(procs, name) is Some,
    decreases inputs, inputs.len() - i,
{
    if slots_call(inputs[i].1, 0, name, procs) {
        assert(input_fault(inputs[i].1, procs) is None);
        assert(slots_fault(inputs[i].1, 0, procs) is None);
        lemma_slots_call(inputs[i].1, 0, name, procs);
    } else {
        lemma_inputs_call(inputs, i + 1, name, procs);
    }
}

proof fn lemma_arguments_call(
    call: CustomFuncCallBuilder,
    vars: Seq<(Seq<char>, CustomBlockInputTypeView)>,
    j: int,
    name: Seq<char>,
    procs: Seq<SignatureView>,
)
    requires
        call_fault(call, vars, j, procs) is None,
        arguments_call(call, vars, j, name, procs),
    ensures
        find(procs, name) is Some,
    decreases call, vars.len() - j,
{
    match key_position(call.args@, vars[j].1.name(), 0) {
        Some(k) => {
            if 0 <= k < call.args.len() && slots_call(call.args[k].1, 0, name, procs) {
                assert(input_fault(call.args[k].1, procs) is None);
                assert(slots_fault(call.args[k].1, 0, procs) is None);
                lemma_slots_call(call.args[k].1, 0, name, procs);
            } else {
                lemma_arguments_call(call, vars, j + 1, name, procs);
            }
        },
        None => {
            lemma_arguments_call(call, vars, j + 1, name, procs);
        },
    }
}

proof fn lemma_block_calls(builder: BlockBuilder, name: Seq<char>, procs: Seq<SignatureView>)
    requires
        block_fault(builder, procs) is None,
        block_calls(builder, name, procs),
    ensures
        find(procs, name) is Some,
    decreases builder, 0nat,
{
    match builder {
        BlockBuilder::Normal(normal) => {
            lemma_inputs_call(normal.inputs, 0, name, procs);
        },
        BlockBuilder::CustomBlockCall(call) => {
            if call.name@ != name {
                lemma_arguments_call(call, find(procs, call.name@)->0.vars(), 0, name, procs);
            }
        },
        _ => {},
    }
}

proof fn lemma_chain_calls(stack: StackBuilder, i: int, name: Seq<char>, procs: Seq<SignatureView>)
    requires
        chain_fault(stack, i, procs) is None,
        chain_calls(stack, i, name, procs),
    ensures
        find(procs, name) is Some,
    decreases stack, stack.stack.len() - i,
{
    if block_calls(stack.stack[i], name, procs) {
        lemma_block_calls(stack.stack[i], name, procs);
    } else {
        lemma_chain_calls(stack, i + 1, name, procs);
    }
}

/// A stack is only built where every procedure that it calls is registered.  Let
/// a stack have no fault.  Then every procedure that is called in what is built
/// of it, at any depth, is registered.  So a stack that calls a procedure under
/// whose name nothing is registered, at whatever depth, has a fault, and a build
/// of it fails and leaves the graph as it was.
pub proof fn lemma_built_stack_calls_what_is_registered(
    stack: StackBuilder,
    name: Seq<char>,
    procs: Seq<SignatureView>,
)
    requires
        stack_fault(stack, procs) is None,
        stack_calls(stack, name, procs),
    ensures
        find(procs, name) is Some,
    decreases stack, stack.stack.len() + 1,
{
    lemma_chain_calls(stack, 0, name, procs);
}

/// Whether the node under `first` stands where the first block of the stack
/// says: at the position that the builder of a statement or expression gave, or
/// at the origin where it gave none.  Of other first blocks this says nothing.
pub open spec fn top_stands_where_told(
    blocks: Seq<(Seq<char>, BlockView)>,
    first: Seq<char>,
    stack: StackBuilder,
) -> bool {
    stack.stack.len() > 0 ==> match stack.stack[0] {
        BlockBuilder::Normal(builder) => lookup(blocks, first) matches Some(
            BlockView::Normal(node),
        ) && {
            &&& node.opcode == builder.opcode@
            &&& node.x == Some(
                match builder.x {
                    Some(x) => x,
                    None => whole_number(0),
                },
            )
            &&& node.y == Some(
                match builder.y {
                    Some(y) => y,
                    None => whole_number(0),
                },
            )
        },
        _ => true,
    }
}

/// The top of a script stands where its builder says.  Let a stack have no
/// fault, and let the identifier for its first block be none that the source may
/// still issue.  Then the node under that identifier has the position that the
/// first block's builder gave, or the origin where it gave none, whatever the
/// stack holds.
pub proof fn lemma_build_puts_top_where_told(
    stack: StackBuilder,
    first: Seq<char>,
    ctx: ContextView,
    issued: nat,
    comments: Seq<(Seq<char>, CommentView)>,
    procs: Seq<SignatureView>,
)
    requires
        stack_fault(stack, procs) is None,
        !reserved(first, issued),
    ensures
        top_stands_where_told(
            stack_spec(stack, first, ctx, Graph { issued, blocks: Seq::empty(), comments }).blocks,
            first,
            stack,
        ),
{
    let g = Graph { issued, blocks: Seq::empty(), comments };
    if stack.stack[0] is Normal {
        assert forall|k: int| 0 <= k < stack.stack.len() implies !(
        #[trigger] stack.stack[k] is VarList) by {
            lemma_built_stack_has_sound_blocks(stack, k, procs);
        }
        lemma_top_node_has_a_position(stack, first, ctx, g);
    }
}

/// Whether the nodes hold the chain of the blocks of a stack that was built
/// into `g` under the identifier `first`: each block has a node, the first under
/// `first`, and each node has the node of the block behind it as its `next` and
/// the node of the block before it as its parent.  Of a stack that starts with
/// a reporter of a variable or a list, which is built alone, this says nothing.
pub open spec fn holds_chain_of(
    blocks: Seq<(Seq<char>, BlockView)>,
    stack: StackBuilder,
    first: Seq<char>,
    ctx: ContextView,
    g: Graph,
) -> bool {
    stack.stack.len() > 0 && !(stack.stack[0] is VarList) ==> {
        let ids = chain_ids(stack, 0, first, None, ctx, g);
        &&& ids.len() == stack.stack.len()
        &&& ids[0] == first
        &&& forall|j: int| 0 <= j < ids.len() ==> linked_at(blocks, ids, j, None)
    }
}

/// What a build yields holds the chain of the stack.  Let a stack have no fault,
/// and let the identifier for its first block be none that the source may still
/// issue.  Then each block of the stack has a node of its own among the nodes
/// that the build yields, and these nodes are linked in the order of the stack,
/// whatever the blocks hold.
pub proof fn lemma_build_links_the_chain(
    stack: StackBuilder,
    first: Seq<char>,
    ctx: ContextView,
    issued: nat,
    comments: Seq<(Seq<char>, CommentView)>,
    procs: Seq<SignatureView>,
)
    requires
        stack_fault(stack, procs) is None,
        !reserved(first, issued),
    ensures
        holds_chain_of(
            stack_spec(stack, first, ctx, Graph { issued, blocks: Seq::empty(), comments }).blocks,
            stack,
            first,
            ctx,
            Graph { issued, blocks: Seq::empty(), comments },
        ),
{
    let g = Graph { issued, blocks: Seq::empty(), comments };
    if !(stack.stack[0] is VarList) {
        assert forall|k: int| 0 <= k < stack.stack.len() implies !(
        #[trigger] stack.stack[k] is VarList) by {
            lemma_built_stack_has_sound_blocks(stack, k, procs);
        }
        lemma_script_is_linked(stack, first, ctx, g);
    }
}

proof fn lemma_inputs_keep_names(
    inputs: Vec<(String, BlockInputBuilder)>,
    i: int,
    parent: Seq<char>,
    ctx: ContextView,
    built: Seq<(Seq<char>, BlockInputView)>,
    g: Graph,
)
    requires
        0 <= i <= inputs.len(),
    ensures
        ({
            let named = inputs_spec(inputs, i, parent, ctx, built, g).0;
            &&& named.len() == built.len() + inputs.len() - i
            &&& forall|k: int| 0 <= k < built.len() ==> named[k] == built[k]
            &&& forall|k: int| i <= k < inputs.len() ==> named[built.len() + k - i].0 == inputs[k].0@
        }),
    decreases inputs.len() - i,
{
    if i < inputs.len() {
        let (input, g1) = input_spec(inputs[i].1, parent, ctx, g);
        let more = built.push((inputs[i].0@, input));
        lemma_inputs_keep_names(inputs, i + 1, parent, ctx, more, g1);
        let named = inputs_spec(inputs, i, parent, ctx, built, g).0;
        assert(named == inputs_spec(inputs, i + 1, parent, ctx, more, g1).0);
        assert forall|k: int| 0 <= k < built.len() implies named[k] == built[k] by {
            assert(named[k] == more[k]);
        }
        assert(named[built.len() as int] == more[built.len() as int]);
    }
}

/// A node that is built has each name once.  Let a statement or expression have
/// no fault.  Then the node that it builds to has its inputs under the names and
/// in the order of the builder, no two inputs under the same name, and no two
/// fields under the same name.
pub proof fn lemma_built_node_has_each_name_once(
    builder: BlockNormalBuilder,
    my: Seq<char>,
    ctx: ContextView,
    g: Graph,
    procs: Seq<SignatureView>,
)
    requires
        normal_fault(builder, procs) is None,
    ensures
        ({
            let node = normal_spec(builder, my, ctx, g).0;
            &&& node.inputs.len() == builder.inputs.len()
            &&& forall|k: int|
                0 <= k < builder.inputs.len() ==> (#[trigger] node.inputs[k]).0 == builder.inputs[k].0@
            &&& distinct_keys(node.inputs)
            &&& distinct_keys(node.fields)
        }),
{
    let node = normal_spec(builder, my, ctx, g).0;
    lemma_inputs_keep_names(builder.inputs, 0, my, ctx, Seq::empty(), g);
    assert forall|a: int, b: int| 0 <= a < b < node.inputs.len() implies (
    #[trigger] node.inputs[a]).0 != (#[trigger] node.inputs[b]).0 by {
        assert(builder.inputs@[a].0@ != builder.inputs@[b].0@);
    }
    assert forall|a: int, b: int| 0 <= a < b < node.fields.len() implies (
    #[trigger] node.fields[a]).0 != (#[trigger] node.fields[b]).0 by {
        assert(builder.fields@[a].0@ != builder.fields@[b].0@);
    }
}

} // verus!
