//! Identifiers stay unique: a build never puts two nodes, or two notes, under
//! the same identifier.

use crate::arena::distinct_keys;
use crate::arena::has_key;
use crate::arena::lemma_put_entry;
use crate::arena::lemma_put_new;
use crate::arena::put_entry;
use crate::assembly::block_spec;
use crate::assembly::call_inputs_spec;
use crate::assembly::call_spec;
use crate::assembly::chain_spec;
use crate::assembly::default_input;
use crate::assembly::definition_spec;
use crate::assembly::Graph;
use crate::assembly::input_spec;
use crate::assembly::inputs_spec;
use crate::assembly::nested_spec;
use crate::assembly::normal_spec;
use crate::assembly::note_spec;
use crate::assembly::place_block;
use crate::assembly::prototype_spec;
use crate::assembly::reporter_node;
use crate::assembly::reporters_spec;
use crate::assembly::shadow_reference;
use crate::assembly::signature_of;
use crate::assembly::slot_spec;
use crate::assembly::slots_spec;
use crate::assembly::stack_spec;
use crate::assembly::varlist_spec;
use crate::block::BlockBuilder;
use crate::block::BlockInputBuilder;
use crate::block::BlockNormalBuilder;
use crate::block::BlockVarListBuilder;
use crate::block::key_position;
use crate::block::StackOrValue;
use crate::build_context::ContextView;
use crate::comment::CommentBuilder;
use crate::comment::CommentView;
use crate::custom_block::CustomBlockBuilder;
use crate::custom_block::CustomBlockInputTypeView;
use crate::custom_block::CustomFuncCallBuilder;
use crate::custom_block::SignatureView;
use crate::document::BlockInputView;
use crate::document::BlockMutationView;
use crate::document::BlockNormalView;
use crate::document::BlockView;
use crate::document::mutation_tag;
use crate::document::UidOrValueView;
use crate::stack::StackBuilder;
use crate::uid::lemma_uid_text_injective;
use crate::uid::reserved;
use crate::uid::uid_text;
use vstd::prelude::*;

verus! {

/// Whether no identifier occurs twice among the entries and none of them is one
/// that a source may still issue after `issued` identifiers.
pub open spec fn settled<V>(entries: Seq<(Seq<char>, V)>, issued: nat) -> bool {
    &&& distinct_keys(entries)
    &&& forall|k: int| 0 <= k < entries.len() ==> !reserved((#[trigger] entries[k]).0, issued)
}

/// Whether a node is marked as the top of a script.
pub open spec fn is_top(block: BlockView) -> bool {
    block matches BlockView::Normal(node) && node.top_level
}

/// Whether `after` came from `before` by a build: identifiers were issued, and
/// every identifier that stood for a node still stands for one.
#[verifier::opaque]
pub open spec fn keeps(before: Graph, after: Graph) -> bool {
    &&& before.issued <= after.issued
    &&& forall|id: Seq<char>| has_key(before.blocks, id) ==> has_key(after.blocks, id)
}

/// Whether the nodes of `after` came from those of `before` by adding nodes
/// behind them.  The nodes that were there stay as they were.  Every node was
/// added under an identifier that was issued on the way, but that one may stand
/// under the identifier `given`.  No node that was added is marked as the top of
/// a script, but that one under `given` may be where `top` says so.
#[verifier::opaque]
pub open spec fn grows(before: Graph, after: Graph, given: Option<Seq<char>>, top: bool) -> bool {
    &&& before.issued <= after.issued
    &&& before.blocks.len() <= after.blocks.len()
    &&& forall|k: int| 0 <= k < before.blocks.len() ==> after.blocks[k] == before.blocks[k]
    &&& forall|k: int|
        before.blocks.len() <= k < after.blocks.len() ==> {
            ||| reserved((#[trigger] after.blocks[k]).0, before.issued)
            ||| Some(after.blocks[k].0) == given
        }
    &&& forall|k: int|
        before.blocks.len() <= k < after.blocks.len() ==> {
            ||| !is_top((#[trigger] after.blocks[k]).1)
            ||| (top && Some(after.blocks[k].0) == given)
        }
}

/// Whether the notes of `after` came from those of `before` by adding notes
/// behind them, each under an identifier that was issued on the way.
#[verifier::opaque]
pub open spec fn notes_grow(before: Graph, after: Graph) -> bool {
    &&& before.issued <= after.issued
    &&& before.comments.len() <= after.comments.len()
    &&& forall|k: int| 0 <= k < before.comments.len() ==> after.comments[k] == before.comments[k]
    &&& forall|k: int|
        before.comments.len() <= k < after.comments.len() ==> reserved(
            (#[trigger] after.comments[k]).0,
            before.issued,
        )
}

/// Whether a build kept the nodes in order: they are settled and grew.
pub open spec fn blocks_kept(
    before: Graph,
    after: Graph,
    given: Option<Seq<char>>,
    top: bool,
) -> bool {
    settled(after.blocks, after.issued) && grows(before, after, given, top)
}

/// Whether a build kept the notes in order: they are settled and grew.
pub open spec fn notes_kept(before: Graph, after: Graph) -> bool {
    settled(after.comments, after.issued) && notes_grow(before, after)
}

/// What every step of a build keeps: the identifiers in use; the order of the
/// nodes, where they were settled; and the order of the notes, where they were
/// settled.
pub open spec fn orderly_step(before: Graph, after: Graph) -> bool {
    &&& keeps(before, after)
    &&& settled(before.blocks, before.issued) ==> blocks_kept(before, after, None, false)
    &&& settled(before.comments, before.issued) ==> notes_kept(before, after)
}

/// Whether a build kept the identifiers in order: nodes that stood under
/// identifiers of their own, none of which the source may still issue, do so
/// again afterwards, and so do notes.
pub open spec fn stays_settled(before: Graph, after: Graph) -> bool {
    &&& settled(before.blocks, before.issued) ==> settled(after.blocks, after.issued)
    &&& settled(before.comments, before.issued) ==> settled(after.comments, after.issued)
}

pub(crate) proof fn lemma_reserved_earlier(uid: Seq<char>, earlier: nat, later: nat)
    requires
        earlier <= later,
        reserved(uid, later),
    ensures
        reserved(uid, earlier),
{
    let n = choose|n: nat| n >= later && uid == uid_text(n);
    assert(n >= earlier && uid == uid_text(n));
}

pub(crate) proof fn lemma_fresh_is_reserved(issued: nat)
    ensures
        reserved(uid_text(issued), issued),
        !reserved(uid_text(issued), issued + 1),
{
    assert(issued >= issued && uid_text(issued) == uid_text(issued));
    if reserved(uid_text(issued), issued + 1) {
        let n = choose|n: nat| n >= issued + 1 && uid_text(issued) == uid_text(n);
        lemma_uid_text_injective(issued, n);
    }
}

/// Entries that are settled stay so while identifiers are issued.
pub(crate) proof fn lemma_settled_later<V>(entries: Seq<(Seq<char>, V)>, issued: nat, later: nat)
    requires
        settled(entries, issued),
        issued <= later,
    ensures
        settled(entries, later),
{
    assert forall|k: int| 0 <= k < entries.len() implies !reserved(
        (#[trigger] entries[k]).0,
        later,
    ) by {
        if reserved(entries[k].0, later) {
            lemma_reserved_earlier(entries[k].0, issued, later);
        }
    }
}

/// Settled entries stay so when a value is put under an identifier that is
/// neither among them nor still to be issued; the value comes to stand behind
/// them.
pub(crate) proof fn lemma_settled_put<V>(
    entries: Seq<(Seq<char>, V)>,
    issued: nat,
    id: Seq<char>,
    value: V,
)
    requires
        settled(entries, issued),
        !reserved(id, issued),
        !has_key(entries, id),
    ensures
        put_entry(entries, id, value) == entries.push((id, value)),
        settled(put_entry(entries, id, value), issued),
{
    lemma_put_new(entries, id, value);
    lemma_put_entry(entries, id, value);
    let after = entries.push((id, value));
    assert forall|k: int| 0 <= k < after.len() implies !reserved(
        (#[trigger] after[k]).0,
        issued,
    ) by {
        if k < entries.len() {
            assert(!reserved(entries[k].0, issued));
        }
    }
}

/// The identifier that is issued next is not among settled entries.
pub(crate) proof fn lemma_fresh_absent<V>(entries: Seq<(Seq<char>, V)>, issued: nat)
    requires
        settled(entries, issued),
    ensures
        !has_key(entries, uid_text(issued)),
{
    lemma_fresh_is_reserved(issued);
}

pub(crate) proof fn lemma_step_same(g: Graph)
    ensures
        orderly_step(g, g),
        keeps(g, g),
{
    reveal(keeps);
    reveal(grows);
    reveal(notes_grow);
}

pub(crate) proof fn lemma_grows_widen(
    before: Graph,
    after: Graph,
    given: Option<Seq<char>>,
    top: bool,
)
    requires
        grows(before, after, None, false),
    ensures
        grows(before, after, given, top),
{
    reveal(grows);
}

pub(crate) proof fn lemma_keeps_then(before: Graph, middle: Graph, after: Graph)
    requires
        keeps(before, middle),
        keeps(middle, after),
    ensures
        keeps(before, after),
{
    reveal(keeps);
}

pub(crate) proof fn lemma_grows_then(
    before: Graph,
    middle: Graph,
    after: Graph,
    given: Option<Seq<char>>,
    top: bool,
)
    requires
        grows(before, middle, given, top),
        grows(middle, after, given, top),
    ensures
        grows(before, after, given, top),
{
    reveal(grows);
    assert forall|k: int| before.blocks.len() <= k < after.blocks.len() implies {
        ||| reserved((#[trigger] after.blocks[k]).0, before.issued)
        ||| Some(after.blocks[k].0) == given
    } by {
        if k < middle.blocks.len() {
            assert(after.blocks[k] == middle.blocks[k]);
        } else if reserved(after.blocks[k].0, middle.issued) {
            lemma_reserved_earlier(after.blocks[k].0, before.issued, middle.issued);
        }
    }
    assert forall|k: int| before.blocks.len() <= k < after.blocks.len() implies {
        ||| !is_top((#[trigger] after.blocks[k]).1)
        ||| (top && Some(after.blocks[k].0) == given)
    } by {
        if k < middle.blocks.len() {
            assert(after.blocks[k] == middle.blocks[k]);
        }
    }
}

proof fn lemma_notes_then(before: Graph, middle: Graph, after: Graph)
    requires
        notes_grow(before, middle),
        notes_grow(middle, after),
    ensures
        notes_grow(before, after),
{
    reveal(notes_grow);
    assert forall|k: int| before.comments.len() <= k < after.comments.len() implies reserved(
        (#[trigger] after.comments[k]).0,
        before.issued,
    ) by {
        if k < middle.comments.len() {
            assert(after.comments[k] == middle.comments[k]);
        } else {
            lemma_reserved_earlier(after.comments[k].0, before.issued, middle.issued);
        }
    }
}

/// One step after another is a step.
pub(crate) proof fn lemma_step_then(before: Graph, middle: Graph, after: Graph)
    requires
        orderly_step(before, middle),
        orderly_step(middle, after),
    ensures
        orderly_step(before, after),
{
    lemma_keeps_then(before, middle, after);
    if settled(before.blocks, before.issued) {
        lemma_grows_then(before, middle, after, None, false);
    }
    if settled(before.comments, before.issued) {
        lemma_notes_then(before, middle, after);
    }
}

/// A graph that grew, counting a node under an identifier that was issued on the
/// way and that is no top of a script, grew by what was issued on the way.
pub(crate) proof fn lemma_given_reserved(before: Graph, after: Graph, given: Seq<char>)
    requires
        grows(before, after, Some(given), false),
        reserved(given, before.issued),
    ensures
        grows(before, after, None, false),
{
    reveal(grows);
}

/// What a graph neither held nor may still issue stays out while it grows,
/// unless it is the identifier that was given.
pub(crate) proof fn lemma_grows_keeps(
    before: Graph,
    after: Graph,
    given: Option<Seq<char>>,
    top: bool,
    id: Seq<char>,
)
    requires
        grows(before, after, given, top),
    ensures
        !reserved(id, before.issued) ==> !reserved(id, after.issued),
        !reserved(id, before.issued) && !has_key(before.blocks, id) && given != Some(id)
            ==> !has_key(after.blocks, id),
{
    reveal(grows);
    if reserved(id, after.issued) {
        lemma_reserved_earlier(id, before.issued, after.issued);
    }
    if has_key(after.blocks, id) && !has_key(before.blocks, id) {
        let k = choose|k: int| 0 <= k < after.blocks.len() && (#[trigger] after.blocks[k]).0 == id;
        if k < before.blocks.len() {
            assert(before.blocks[k].0 == id);
        }
    }
}

/// Issuing an identifier.
pub(crate) proof fn lemma_advance(g: Graph)
    ensures
        orderly_step(g, g.advance()),
{
    reveal(keeps);
    reveal(grows);
    reveal(notes_grow);
    if settled(g.blocks, g.issued) {
        lemma_settled_later(g.blocks, g.issued, g.issued + 1);
    }
    if settled(g.comments, g.issued) {
        lemma_settled_later(g.comments, g.issued, g.issued + 1);
    }
}

/// Putting a node under a given identifier.
pub(crate) proof fn lemma_add_block(g: Graph, id: Seq<char>, block: BlockView)
    ensures
        keeps(g, g.with_block(id, block)),
        has_key(g.with_block(id, block).blocks, id),
        settled(g.blocks, g.issued) && !reserved(id, g.issued) && !has_key(g.blocks, id) ==> {
            &&& g.with_block(id, block).blocks == g.blocks.push((id, block))
            &&& blocks_kept(g, g.with_block(id, block), Some(id), is_top(block))
        },
        settled(g.comments, g.issued) ==> notes_kept(g, g.with_block(id, block)),
{
    reveal(keeps);
    reveal(grows);
    reveal(notes_grow);
    lemma_put_entry(g.blocks, id, block);
    if settled(g.blocks, g.issued) && !reserved(id, g.issued) && !has_key(g.blocks, id) {
        lemma_settled_put(g.blocks, g.issued, id, block);
    }
}

/// Putting a node that is no top of a script under the identifier that is issued
/// next.
pub(crate) proof fn lemma_add_fresh_block(g: Graph, block: BlockView)
    requires
        !is_top(block),
    ensures
        orderly_step(g, g.advance().with_block(g.fresh(), block)),
        has_key(g.advance().with_block(g.fresh(), block).blocks, g.fresh()),
{
    let g1 = g.advance();
    let out = g1.with_block(g.fresh(), block);
    lemma_advance(g);
    lemma_fresh_is_reserved(g.issued);
    lemma_add_block(g1, g.fresh(), block);
    lemma_keeps_then(g, g1, out);
    if settled(g.blocks, g.issued) {
        lemma_fresh_absent(g.blocks, g.issued);
        lemma_grows_widen(g, g1, Some(g.fresh()), false);
        lemma_grows_then(g, g1, out, Some(g.fresh()), false);
        lemma_given_reserved(g, out, g.fresh());
    }
    if settled(g.comments, g.issued) {
        lemma_notes_then(g, g1, out);
    }
}

/// Putting a note under the identifier that is issued next.
pub(crate) proof fn lemma_add_fresh_comment(g: Graph, comment: CommentView)
    ensures
        orderly_step(g, g.advance().with_comment(g.fresh(), comment)),
{
    lemma_advance(g);
    lemma_fresh_is_reserved(g.issued);
    reveal(keeps);
    reveal(grows);
    reveal(notes_grow);
    if settled(g.comments, g.issued) {
        lemma_fresh_absent(g.comments, g.issued);
        lemma_settled_put(g.comments, g.issued + 1, g.fresh(), comment);
    }
}

pub(crate) proof fn lemma_note(comment: Option<CommentBuilder>, owner: Seq<char>, g: Graph)
    ensures
        orderly_step(g, note_spec(comment, owner, g).1),
{
    match comment {
        Some(c) => {
            lemma_add_fresh_comment(g, c.attached_to(owner));
        },
        None => {
            lemma_step_same(g);
        },
    }
}

pub(crate) proof fn lemma_varlist(
    builder: BlockVarListBuilder,
    my: Seq<char>,
    ctx: ContextView,
    g: Graph,
)
    ensures
        orderly_step(g, varlist_spec(builder, my, ctx, g).1),
{
    lemma_note(builder.comment, my, g);
}

proof fn lemma_reporters(
    vars: Seq<(Seq<char>, CustomBlockInputTypeView)>,
    j: int,
    prototype: Seq<char>,
    inputs: Seq<(Seq<char>, BlockInputView)>,
    g: Graph,
)
    ensures
        orderly_step(g, reporters_spec(vars, j, prototype, inputs, g).1),
    decreases vars.len() - j,
{
    if 0 <= j < vars.len() {
        let reporter = g.fresh();
        let node = BlockView::Normal(reporter_node(vars[j].1, prototype));
        let g1 = g.advance().with_block(reporter, node);
        lemma_add_fresh_block(g, node);
        let more = inputs.push((vars[j].0, shadow_reference(reporter)));
        lemma_reporters(vars, j + 1, prototype, more, g1);
        lemma_step_then(g, g1, reporters_spec(vars, j + 1, prototype, more, g1).1);
    } else {
        lemma_step_same(g);
    }
}

pub(crate) proof fn lemma_prototype(signature: SignatureView, definition: Seq<char>, g: Graph)
    ensures
        orderly_step(g, prototype_spec(signature, definition, g).1),
{
    let prototype = g.fresh();
    let g0 = g.advance();
    lemma_advance(g);
    lemma_fresh_is_reserved(g.issued);
    let (inputs, g1) = reporters_spec(signature.vars(), 0, prototype, Seq::empty(), g0);
    lemma_reporters(signature.vars(), 0, prototype, Seq::empty(), g0);
    let node = BlockView::Normal(
        BlockNormalView {
            opcode: "procedures_prototype"@,
            comment: None,
            next: None,
            parent: Some(definition),
            inputs,
            fields: Seq::empty(),
            shadow: true,
            top_level: false,
            mutation: Some(
                BlockMutationView {
                    tag_name: mutation_tag(),
                    mutation_enum: signature.define_mutation(),
                },
            ),
            x: None,
            y: None,
        },
    );
    let out = prototype_spec(signature, definition, g).1;
    assert(out == g1.with_block(prototype, node));
    lemma_add_block(g1, prototype, node);
    lemma_step_then(g, g0, g1);
    lemma_keeps_then(g, g1, out);
    if settled(g.blocks, g.issued) {
        lemma_fresh_absent(g.blocks, g.issued);
        lemma_grows_keeps(g0, g1, None, false, prototype);
        lemma_grows_widen(g, g1, Some(prototype), false);
        lemma_grows_then(g, g1, out, Some(prototype), false);
        lemma_given_reserved(g, out, prototype);
    }
    if settled(g.comments, g.issued) {
        lemma_notes_then(g, g1, out);
    }
}

proof fn lemma_definition(
    builder: CustomBlockBuilder,
    signature: SignatureView,
    my: Seq<char>,
    g: Graph,
)
    ensures
        orderly_step(g, definition_spec(builder, signature, my, g).1),
{
    let (prototype, g1) = prototype_spec(signature, my, g);
    lemma_prototype(signature, my, g);
    lemma_note(builder.comment, my, g1);
    lemma_step_then(g, g1, note_spec(builder.comment, my, g1).1);
}

pub(crate) proof fn lemma_slot(
    slot: Option<StackOrValue>,
    parent: Seq<char>,
    ctx: ContextView,
    g: Graph,
)
    ensures
        orderly_step(g, slot_spec(slot, parent, ctx, g).1),
        slot_spec(slot, parent, ctx, g).0 matches Some(UidOrValueView::Uid(id)) ==> has_key(
            slot_spec(slot, parent, ctx, g).1.blocks,
            id,
        ),
    decreases slot, 0nat,
{
    match slot {
        Some(StackOrValue::Stack(stack)) => {
            lemma_nested(stack, parent, ctx, g);
        },
        _ => {
            lemma_step_same(g);
        },
    }
}

pub(crate) proof fn lemma_nested(
    stack: StackBuilder,
    parent: Seq<char>,
    ctx: ContextView,
    g: Graph,
)
    ensures
        orderly_step(g, nested_spec(stack, parent, ctx, g).1),
        nested_spec(stack, parent, ctx, g).0 matches Some(UidOrValueView::Uid(id)) ==> has_key(
            nested_spec(stack, parent, ctx, g).1.blocks,
            id,
        ),
    decreases stack, stack.stack.len() + 1,
{
    let first = g.fresh();
    let g0 = g.advance();
    lemma_advance(g);
    lemma_fresh_is_reserved(g.issued);
    if stack.stack.len() == 0 {
    } else {
        match stack.stack[0] {
            BlockBuilder::VarList(reporter) => {
                lemma_varlist(reporter, first, ctx, g0);
                lemma_step_then(g, g0, varlist_spec(reporter, first, ctx, g0).1);
            },
            _ => {
                lemma_chain(stack, 0, first, Some(parent), ctx, g0);
                let out = chain_spec(stack, 0, first, Some(parent), ctx, g0);
                lemma_keeps_then(g, g0, out);
                if settled(g.blocks, g.issued) {
                    lemma_fresh_absent(g.blocks, g.issued);
                    lemma_grows_widen(g, g0, Some(first), false);
                    lemma_grows_then(g, g0, out, Some(first), false);
                    lemma_given_reserved(g, out, first);
                }
                if settled(g.comments, g.issued) {
                    lemma_notes_then(g, g0, out);
                }
            },
        }
    }
}

pub(crate) proof fn lemma_slots(
    input: BlockInputBuilder,
    i: int,
    parent: Seq<char>,
    ctx: ContextView,
    built: Seq<Option<UidOrValueView>>,
    g: Graph,
)
    ensures
        orderly_step(g, slots_spec(input, i, parent, ctx, built, g).1),
    decreases input, input.values.len() - i,
{
    if 0 <= i < input.values.len() {
        let (slot, g1) = slot_spec(input.values[i], parent, ctx, g);
        lemma_slot(input.values[i], parent, ctx, g);
        lemma_slots(input, i + 1, parent, ctx, built.push(slot), g1);
        lemma_step_then(g, g1, slots_spec(input, i + 1, parent, ctx, built.push(slot), g1).1);
    } else {
        lemma_step_same(g);
    }
}

pub(crate) proof fn lemma_input(
    input: BlockInputBuilder,
    parent: Seq<char>,
    ctx: ContextView,
    g: Graph,
)
    ensures
        orderly_step(g, input_spec(input, parent, ctx, g).1),
    decreases input, input.values.len() + 1,
{
    lemma_slots(input, 0, parent, ctx, Seq::empty(), g);
}

proof fn lemma_inputs(
    inputs: Vec<(String, BlockInputBuilder)>,
    i: int,
    parent: Seq<char>,
    ctx: ContextView,
    built: Seq<(Seq<char>, BlockInputView)>,
    g: Graph,
)
    ensures
        orderly_step(g, inputs_spec(inputs, i, parent, ctx, built, g).1),
    decreases inputs, inputs.len() - i,
{
    if 0 <= i < inputs.len() {
        let (input, g1) = input_spec(inputs[i].1, parent, ctx, g);
        lemma_input(inputs[i].1, parent, ctx, g);
        let more = built.push((inputs[i].0@, input));
        lemma_inputs(inputs, i + 1, parent, ctx, more, g1);
        lemma_step_then(g, g1, inputs_spec(inputs, i + 1, parent, ctx, more, g1).1);
    } else {
        lemma_step_same(g);
    }
}

proof fn lemma_normal(builder: BlockNormalBuilder, my: Seq<char>, ctx: ContextView, g: Graph)
    ensures
        orderly_step(g, normal_spec(builder, my, ctx, g).1),
    decreases builder, 0nat,
{
    let (inputs, g1) = inputs_spec(builder.inputs, 0, my, ctx, Seq::empty(), g);
    lemma_inputs(builder.inputs, 0, my, ctx, Seq::empty(), g);
    lemma_note(builder.comment, my, g1);
    lemma_step_then(g, g1, note_spec(builder.comment, my, g1).1);
}

proof fn lemma_call_inputs(
    call: CustomFuncCallBuilder,
    vars: Seq<(Seq<char>, CustomBlockInputTypeView)>,
    j: int,
    my: Seq<char>,
    ctx: ContextView,
    built: Seq<(Seq<char>, BlockInputView)>,
    g: Graph,
)
    ensures
        orderly_step(g, call_inputs_spec(call, vars, j, my, ctx, built, g).1),
    decreases call, vars.len() - j,
{
    lemma_step_same(g);
    if 0 <= j < vars.len() {
        match key_position(call.args@, vars[j].1.name(), 0) {
            Some(k) => {
                if 0 <= k < call.args.len() {
                    let (input, g1) = input_spec(call.args[k].1, my, ctx, g);
                    lemma_input(call.args[k].1, my, ctx, g);
                    let more = built.push((vars[j].0, input));
                    lemma_call_inputs(call, vars, j + 1, my, ctx, more, g1);
                    lemma_step_then(
                        g,
                        g1,
                        call_inputs_spec(call, vars, j + 1, my, ctx, more, g1).1,
                    );
                }
            },
            None => match vars[j].1 {
                CustomBlockInputTypeView::Boolean(_) => {
                    lemma_call_inputs(call, vars, j + 1, my, ctx, built, g);
                },
                _ => {
                    lemma_call_inputs(
                        call,
                        vars,
                        j + 1,
                        my,
                        ctx,
                        built.push((vars[j].0, default_input())),
                        g,
                    );
                },
            },
        }
    }
}

proof fn lemma_call(
    call: CustomFuncCallBuilder,
    signature: SignatureView,
    my: Seq<char>,
    ctx: ContextView,
    g: Graph,
)
    ensures
        orderly_step(g, call_spec(call, signature, my, ctx, g).1),
    decreases call, signature.vars().len() + 1,
{
    let (inputs, g1) = call_inputs_spec(call, signature.vars(), 0, my, ctx, Seq::empty(), g);
    lemma_call_inputs(call, signature.vars(), 0, my, ctx, Seq::empty(), g);
    lemma_note(call.comment, my, g1);
    lemma_step_then(g, g1, note_spec(call.comment, my, g1).1);
}

/// Building a block keeps the identifiers in use.  Where the nodes were settled,
/// it adds nodes under identifiers that are issued on the way, none of them the
/// top of a script, and the nodes are settled again; the same holds of the
/// notes.  The block's own node is not among them: it is added when the block is
/// placed.
pub(crate) proof fn lemma_block(builder: BlockBuilder, my: Seq<char>, ctx: ContextView, g: Graph)
    ensures
        orderly_step(g, block_spec(builder, my, ctx, g).1),
    decreases builder, 0nat,
{
    match builder {
        BlockBuilder::Normal(normal) => {
            lemma_normal(normal, my, ctx, g);
        },
        BlockBuilder::CustomBlock(definition) => {
            lemma_definition(definition, signature_of(ctx, definition.name@), my, g);
        },
        BlockBuilder::CustomBlockCall(call) => {
            lemma_call(call, signature_of(ctx, call.name@), my, ctx, g);
        },
        BlockBuilder::VarList(reporter) => {
            lemma_varlist(reporter, my, ctx, g);
        },
    }
}

/// A placed block is the top of a script only where it has no parent.
pub(crate) proof fn lemma_placed_top(
    block: BlockView,
    parent: Option<Seq<char>>,
    next: Option<Seq<char>>,
)
    ensures
        is_top(place_block(block, parent, next)) ==> parent is None,
{
}

/// Whether the first block of a chain may be given its identifier: the nodes are
/// settled, and the identifier is neither in use nor still to be issued.
pub open spec fn ready(g: Graph, my: Seq<char>) -> bool {
    &&& settled(g.blocks, g.issued)
    &&& !reserved(my, g.issued)
    &&& !has_key(g.blocks, my)
}

/// Chaining the blocks of a stack from the `i`-th on keeps the identifiers in
/// use and brings `my` into use.  Where the nodes were settled and `my` was
/// neither in use nor still to be issued, it adds the nodes of the blocks, the
/// first under `my`, and what they hold under identifiers that are issued on the
/// way; of these nodes only the one under `my` can be the top of a script, and
/// only where it has no parent.
pub(crate) proof fn lemma_chain(
    stack: StackBuilder,
    i: int,
    my: Seq<char>,
    parent: Option<Seq<char>>,
    ctx: ContextView,
    g: Graph,
)
    ensures
        keeps(g, chain_spec(stack, i, my, parent, ctx, g)),
        0 <= i < stack.stack.len() ==> has_key(chain_spec(stack, i, my, parent, ctx, g).blocks, my),
        ready(g, my) ==> blocks_kept(
            g,
            chain_spec(stack, i, my, parent, ctx, g),
            Some(my),
            parent is None,
        ),
        settled(g.comments, g.issued) ==> notes_kept(g, chain_spec(stack, i, my, parent, ctx, g)),
    decreases stack, stack.stack.len() - i,
{
    let top = parent is None;
    if 0 <= i < stack.stack.len() {
        let (block, g1) = block_spec(stack.stack[i], my, ctx, g);
        lemma_block(stack.stack[i], my, ctx, g);
        if i + 1 < stack.stack.len() {
            let next = g1.fresh();
            let g2 = g1.advance();
            lemma_advance(g1);
            lemma_fresh_is_reserved(g1.issued);
            let placed = place_block(block, parent, Some(next));
            lemma_placed_top(block, parent, Some(next));
            let g3 = g2.with_block(my, placed);
            lemma_add_block(g2, my, placed);
            let out = chain_spec(stack, i + 1, next, Some(my), ctx, g3);
            lemma_chain(stack, i + 1, next, Some(my), ctx, g3);
            lemma_keeps_then(g, g1, g2);
            lemma_keeps_then(g, g2, g3);
            lemma_keeps_then(g, g3, out);
            assert(has_key(out.blocks, my)) by {
                reveal(keeps);
            }
            if settled(g.comments, g.issued) {
                lemma_notes_then(g, g1, g2);
                lemma_notes_then(g, g2, g3);
                lemma_notes_then(g, g3, out);
            }
            if ready(g, my) {
                lemma_grows_keeps(g, g1, None, false, my);
                lemma_grows_keeps(g1, g2, None, false, my);
                lemma_fresh_absent(g1.blocks, g1.issued);
                assert(!has_key(g3.blocks, next)) by {
                    if has_key(g3.blocks, next) {
                        let k = choose|k: int|
                            0 <= k < g3.blocks.len() && (#[trigger] g3.blocks[k]).0 == next;
                        if k < g1.blocks.len() {
                            assert(g1.blocks[k].0 == next);
                        }
                    }
                }
                lemma_grows_widen(g, g1, Some(my), top);
                lemma_grows_widen(g1, g2, Some(my), top);
                lemma_grows_then(g, g1, g2, Some(my), top);
                lemma_grows_top(g2, g3, my, is_top(placed), top);
                lemma_grows_then(g, g2, g3, Some(my), top);
                lemma_after_next(g, g1, g3, out, my, next, top);
            }
        } else {
            let placed = place_block(block, parent, None);
            lemma_placed_top(block, parent, None);
            let out = g1.with_block(my, placed);
            lemma_add_block(g1, my, placed);
            lemma_keeps_then(g, g1, out);
            if settled(g.comments, g.issued) {
                lemma_notes_then(g, g1, out);
            }
            if ready(g, my) {
                lemma_grows_keeps(g, g1, None, false, my);
                lemma_grows_widen(g, g1, Some(my), top);
                lemma_grows_top(g1, out, my, is_top(placed), top);
                lemma_grows_then(g, g1, out, Some(my), top);
            }
        }
    } else {
        lemma_step_same(g);
        if ready(g, my) {
            lemma_grows_widen(g, g, Some(my), top);
        }
    }
}

/// Where the node under the given identifier is no top of a script unless `top`
/// allows it, the graph grew for `top` as well.
proof fn lemma_grows_top(before: Graph, after: Graph, given: Seq<char>, was: bool, top: bool)
    requires
        grows(before, after, Some(given), was),
        was ==> top,
    ensures
        grows(before, after, Some(given), top),
{
    reveal(grows);
}

/// The rest of a chain, which grows the graph by issued identifiers and by the
/// identifier of its own first block, grows the graph of the whole chain by
/// issued identifiers and by the identifier of the chain's first block.
proof fn lemma_after_next(
    before: Graph,
    built: Graph,
    middle: Graph,
    after: Graph,
    my: Seq<char>,
    next: Seq<char>,
    top: bool,
)
    requires
        grows(before, built, None, false),
        grows(before, middle, Some(my), top),
        grows(middle, after, Some(next), false),
        next == uid_text(built.issued),
    ensures
        grows(before, after, Some(my), top),
{
    reveal(grows);
    lemma_fresh_is_reserved(built.issued);
    lemma_reserved_earlier(next, before.issued, built.issued);
    assert forall|k: int| before.blocks.len() <= k < after.blocks.len() implies {
        ||| reserved((#[trigger] after.blocks[k]).0, before.issued)
        ||| Some(after.blocks[k].0) == Some(my)
    } by {
        if k < middle.blocks.len() {
            assert(after.blocks[k] == middle.blocks[k]);
        } else if reserved(after.blocks[k].0, middle.issued) {
            lemma_reserved_earlier(after.blocks[k].0, before.issued, middle.issued);
        }
    }
    assert forall|k: int| before.blocks.len() <= k < after.blocks.len() implies {
        ||| !is_top((#[trigger] after.blocks[k]).1)
        ||| (top && Some(after.blocks[k].0) == Some(my))
    } by {
        if k < middle.blocks.len() {
            assert(after.blocks[k] == middle.blocks[k]);
        }
    }
}

/// Building a stack as a script of its own under the identifier `first`.
pub(crate) proof fn lemma_stack(stack: StackBuilder, first: Seq<char>, ctx: ContextView, g: Graph)
    ensures
        keeps(g, stack_spec(stack, first, ctx, g)),
        stack.stack.len() > 0 ==> has_key(stack_spec(stack, first, ctx, g).blocks, first),
        ready(g, first) ==> blocks_kept(g, stack_spec(stack, first, ctx, g), Some(first), true),
        settled(g.comments, g.issued) ==> notes_kept(g, stack_spec(stack, first, ctx, g)),
{
    lemma_step_same(g);
    if stack.stack.len() > 0 {
        match stack.stack[0] {
            BlockBuilder::VarList(reporter) => {
                let (top, g1) = varlist_spec(reporter, first, ctx, g);
                let out = g1.with_block(first, BlockView::VarList(top));
                lemma_varlist(reporter, first, ctx, g);
                lemma_add_block(g1, first, BlockView::VarList(top));
                lemma_keeps_then(g, g1, out);
                if settled(g.comments, g.issued) {
                    lemma_notes_then(g, g1, out);
                }
                if ready(g, first) {
                    lemma_grows_keeps(g, g1, None, false, first);
                    lemma_grows_widen(g, g1, Some(first), true);
                    lemma_grows_top(g1, out, first, false, true);
                    lemma_grows_then(g, g1, out, Some(first), true);
                }
            },
            _ => {
                lemma_chain(stack, 0, first, None, ctx, g);
            },
        }
    } else if ready(g, first) {
        lemma_grows_widen(g, g, Some(first), true);
    }
}

/// A build keeps identifiers unique.  Whatever a stack holds, the identifiers
/// that stood for nodes still do so after it was built, and so does the first
/// identifier.  Let the nodes so far stand under identifiers none of which the
/// source may still issue, and let the identifier for the first block be neither
/// in use nor one that the source may still issue.  Then the nodes that were
/// there stay as they were, the nodes that the build adds stand behind them,
/// each under an identifier of its own, and only the one under the first
/// identifier can be marked as the top of a script.  Likewise, where the notes
/// so far stand under identifiers none of which the source may still issue, they
/// stay as they were and those that are added stand behind them, each under an
/// identifier of its own.
pub proof fn lemma_stack_keeps_identifiers_unique(
    stack: StackBuilder,
    first: Seq<char>,
    ctx: ContextView,
    g: Graph,
)
    ensures
        ({
            let out = stack_spec(stack, first, ctx, g);
            &&& g.issued <= out.issued
            &&& forall|id: Seq<char>| has_key(g.blocks, id) ==> has_key(out.blocks, id)
            &&& stack.stack.len() > 0 ==> has_key(out.blocks, first)
            &&& ready(g, first) ==> {
                &&& settled(out.blocks, out.issued)
                &&& g.blocks.len() <= out.blocks.len()
                &&& forall|k: int| 0 <= k < g.blocks.len() ==> out.blocks[k] == g.blocks[k]
                &&& forall|k: int|
                    g.blocks.len() <= k < out.blocks.len() && (#[trigger] out.blocks[k]).0 != first
                        ==> !is_top(out.blocks[k].1)
            }
            &&& settled(g.comments, g.issued) ==> {
                &&& settled(out.comments, out.issued)
                &&& g.comments.len() <= out.comments.len()
                &&& forall|k: int| 0 <= k < g.comments.len() ==> out.comments[k] == g.comments[k]
            }
        }),
{
    reveal(keeps);
    reveal(grows);
    reveal(notes_grow);
    lemma_stack(stack, first, ctx, g);
}

/// An input keeps identifiers unique.  Whatever an input holds, the identifiers
/// that stood for nodes still do so after it was built, and every slot that
/// refers to a node refers to one that is in the graph.  Where the nodes so far
/// stand under identifiers none of which the source may still issue, they stay
/// as they were, and the nodes that are added stand behind them, each under an
/// identifier of its own and none marked as the top of a script.  The same holds
/// of the notes.
pub proof fn lemma_input_keeps_identifiers_unique(
    input: BlockInputBuilder,
    parent: Seq<char>,
    ctx: ContextView,
    g: Graph,
)
    ensures
        ({
            let (built, out) = input_spec(input, parent, ctx, g);
            &&& g.issued <= out.issued
            &&& forall|id: Seq<char>| has_key(g.blocks, id) ==> has_key(out.blocks, id)
            &&& forall|j: int|
                0 <= j < built.inputs.len() ==> (#[trigger] built.inputs[j] matches Some(
                    UidOrValueView::Uid(id),
                ) ==> has_key(out.blocks, id))
            &&& settled(g.blocks, g.issued) ==> {
                &&& settled(out.blocks, out.issued)
                &&& g.blocks.len() <= out.blocks.len()
                &&& forall|k: int| 0 <= k < g.blocks.len() ==> out.blocks[k] == g.blocks[k]
                &&& forall|k: int|
                    g.blocks.len() <= k < out.blocks.len() ==> !is_top(
                        (#[trigger] out.blocks[k]).1,
                    )
            }
            &&& settled(g.comments, g.issued) ==> {
                &&& settled(out.comments, out.issued)
                &&& g.comments.len() <= out.comments.len()
                &&& forall|k: int| 0 <= k < g.comments.len() ==> out.comments[k] == g.comments[k]
            }
        }),
{
    reveal(keeps);
    reveal(grows);
    reveal(notes_grow);
    lemma_input(input, parent, ctx, g);
    lemma_slot_references(input, 0, parent, ctx, Seq::empty(), g);
}

/// Every slot that refers to a node refers to one that is in the graph.
proof fn lemma_slot_references(
    input: BlockInputBuilder,
    i: int,
    parent: Seq<char>,
    ctx: ContextView,
    built: Seq<Option<UidOrValueView>>,
    g: Graph,
)
    requires
        forall|j: int|
            0 <= j < built.len() ==> (#[trigger] built[j] matches Some(UidOrValueView::Uid(id))
                ==> has_key(g.blocks, id)),
    ensures
        ({
            let (slots, out) = slots_spec(input, i, parent, ctx, built, g);
            forall|j: int|
                0 <= j < slots.len() ==> (#[trigger] slots[j] matches Some(
                    UidOrValueView::Uid(id),
                ) ==> has_key(out.blocks, id))
        }),
    decreases input.values.len() - i,
{
    if 0 <= i < input.values.len() {
        let (slot, g1) = slot_spec(input.values[i], parent, ctx, g);
        lemma_slot(input.values[i], parent, ctx, g);
        let more = built.push(slot);
        assert forall|j: int| 0 <= j < more.len() implies (#[trigger] more[j] matches Some(
            UidOrValueView::Uid(id),
        ) ==> has_key(g1.blocks, id)) by {
            reveal(keeps);
            if j < built.len() {
                assert(more[j] == built[j]);
            }
        }
        lemma_slot_references(input, i + 1, parent, ctx, more, g1);
    }
}

} // verus!
