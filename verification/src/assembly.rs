//! The mathematical model of a build: what the graph holds after each builder was
//! assembled into it, and which builders cannot be assembled.

use crate::arena::BlockMap;
use crate::arena::CommentMap;
use crate::arena::put_entry;
use crate::block::BlockBuilder;
use crate::block::BlockFieldBuilder;
use crate::block::BlockInputBuilder;
use crate::block::BlockNormalBuilder;
use crate::block::BlockVarListBuilder;
use crate::block::FieldKind;
use crate::block::key_position;
use crate::block::StackOrValue;
use crate::block::VarListFrom;
use crate::build_context::ContextView;
use crate::build_context::find;
use crate::build_context::resolve;
use crate::comment::CommentBuilder;
use crate::comment::CommentView;
use crate::custom_block::CustomBlockBuilder;
use crate::custom_block::CustomBlockInputTypeView;
use crate::custom_block::CustomFuncCallBuilder;
use crate::custom_block::SignatureView;
use crate::document::BlockFieldView;
use crate::document::BlockInputValueView;
use crate::document::BlockInputView;
use crate::document::BlockMutationView;
use crate::document::BlockNormalView;
use crate::document::BlockVarListReporterTopView;
use crate::document::BlockView;
use crate::document::ListOrVariable;
use crate::document::mutation_tag;
use crate::document::opt_mutation_view;
use crate::document::ShadowInputType;
use crate::document::UidOrValueView;
use crate::error::BuildErrorView;
use crate::stack::StackBuilder;
use crate::uid::uid_text;
use crate::uid::UidSource;
use crate::value::ValueView;
use crate::value::whole_number;
use vstd::prelude::*;

verus! {

/// The state of a build: how many identifiers were issued, and the nodes and
/// notes made so far, each under its identifier, in the order in which the
/// identifiers came into use.
pub struct Graph {
    pub issued: nat,
    pub blocks: Seq<(Seq<char>, BlockView)>,
    pub comments: Seq<(Seq<char>, CommentView)>,
}

impl Graph {
    /// The identifier that is issued next.
    pub open spec fn fresh(self) -> Seq<char> {
        uid_text(self.issued)
    }

    /// The state after one identifier was issued.
    pub open spec fn advance(self) -> Graph {
        Graph { issued: self.issued + 1, ..self }
    }

    /// The state after a node was put under `id`.  It stands at the end, or in
    /// the place of the node that stood under `id`.
    pub open spec fn with_block(self, id: Seq<char>, block: BlockView) -> Graph {
        Graph { blocks: put_entry(self.blocks, id, block), ..self }
    }

    /// The state after a note was put under `id`.
    pub open spec fn with_comment(self, id: Seq<char>, comment: CommentView) -> Graph {
        Graph { comments: put_entry(self.comments, id, comment), ..self }
    }
}

/// The state of a build that is held in the given source and maps.
pub open spec fn graph_of(ids: UidSource, blocks: BlockMap, comments: CommentMap) -> Graph {
    Graph { issued: ids@, blocks: blocks@, comments: comments@ }
}

/// The field that a field builder describes.  A plain text stays as it is; the
/// name of a symbol is looked up in the table of its scope.
pub open spec fn field_spec(field: BlockFieldBuilder, ctx: ContextView) -> BlockFieldView {
    let value = ValueView::Text(field.value@);
    match field.kind {
        FieldKind::NoRef => BlockFieldView::NoId { value },
        FieldKind::NoRefMaybe => BlockFieldView::WithId { value, id: None },
        FieldKind::Broadcast => BlockFieldView::WithId {
            value,
            id: Some(resolve(ctx.all_broadcasts, field.value@)),
        },
        FieldKind::SpriteVariable => BlockFieldView::WithId {
            value,
            id: Some(resolve(ctx.this_sprite_vars, field.value@)),
        },
        FieldKind::GlobalVariable => BlockFieldView::WithId {
            value,
            id: Some(resolve(ctx.global_vars, field.value@)),
        },
        FieldKind::SpriteList => BlockFieldView::WithId {
            value,
            id: Some(resolve(ctx.this_sprite_lists, field.value@)),
        },
        FieldKind::GlobalList => BlockFieldView::WithId {
            value,
            id: Some(resolve(ctx.global_lists, field.value@)),
        },
    }
}

/// The fields that named field builders describe, in their order.
pub open spec fn fields_spec(fields: Seq<(String, BlockFieldBuilder)>, ctx: ContextView) -> Seq<
    (Seq<char>, BlockFieldView),
> {
    fields.map_values(|entry: (String, BlockFieldBuilder)| (entry.0@, field_spec(entry.1, ctx)))
}

/// Attaches a note, if there is one, to the node `owner`: the note gets the next
/// identifier and is added to the notes.  Gives the note's identifier.
pub open spec fn note_spec(comment: Option<CommentBuilder>, owner: Seq<char>, g: Graph) -> (
    Option<Seq<char>>,
    Graph,
) {
    match comment {
        Some(c) => (Some(g.fresh()), g.advance().with_comment(g.fresh(), c.attached_to(owner))),
        None => (None, g),
    }
}

/// The reporter that a reporter builder describes under the identifier `my`.  The
/// name is looked up in the table that the kind and the origin select.
pub open spec fn varlist_spec(
    builder: BlockVarListBuilder,
    my: Seq<char>,
    ctx: ContextView,
    g: Graph,
) -> (BlockVarListReporterTopView, Graph) {
    let table = match (builder.kind, builder.from) {
        (ListOrVariable::Variable, VarListFrom::Global) => ctx.global_vars,
        (ListOrVariable::Variable, VarListFrom::Sprite) => ctx.this_sprite_vars,
        (ListOrVariable::List, VarListFrom::Global) => ctx.global_lists,
        (ListOrVariable::List, VarListFrom::Sprite) => ctx.this_sprite_lists,
    };
    (
        BlockVarListReporterTopView {
            kind: builder.kind,
            name: builder.name@,
            id: resolve(table, builder.name@),
            x: builder.x,
            y: builder.y,
        },
        note_spec(builder.comment, my, g).1,
    )
}

/// The literal that stands in a slot in place of a reporter of a variable or list.
pub open spec fn inline_value(top: BlockVarListReporterTopView) -> BlockInputValueView {
    match top.kind {
        ListOrVariable::Variable => BlockInputValueView::Variable { name: top.name, id: top.id },
        ListOrVariable::List => BlockInputValueView::List { name: top.name, id: top.id },
    }
}

/// A node as it is placed in the graph.  Without a parent it is the top of a
/// script: it is marked top-level and gets a position, the origin where it has
/// none.  With a parent it is not top-level and has no position.
pub open spec fn place(
    node: BlockNormalView,
    parent: Option<Seq<char>>,
    next: Option<Seq<char>>,
) -> BlockNormalView {
    match parent {
        None => BlockNormalView {
            next,
            parent: None,
            top_level: true,
            x: Some(
                match node.x {
                    Some(x) => x,
                    None => whole_number(0),
                },
            ),
            y: Some(
                match node.y {
                    Some(y) => y,
                    None => whole_number(0),
                },
            ),
            ..node
        },
        Some(p) => BlockNormalView {
            next,
            parent: Some(p),
            top_level: false,
            x: None,
            y: None,
            ..node
        },
    }
}

/// A block as it is placed in the graph.  A reporter of a variable or a list is
/// never linked to anything.
pub open spec fn place_block(
    block: BlockView,
    parent: Option<Seq<char>>,
    next: Option<Seq<char>>,
) -> BlockView {
    match block {
        BlockView::Normal(node) => BlockView::Normal(place(node, parent, next)),
        BlockView::VarList(top) => BlockView::VarList(top),
    }
}

/// The operation of the node that reports an argument inside a definition.
pub open spec fn reporter_opcode(kind: CustomBlockInputTypeView) -> Seq<char> {
    match kind {
        CustomBlockInputTypeView::Boolean(_) => "argument_reporter_boolean"@,
        _ => "argument_reporter_string_number"@,
    }
}

/// The node that reports the argument `kind` inside the prototype `parent`.
pub open spec fn reporter_node(
    kind: CustomBlockInputTypeView,
    parent: Seq<char>,
) -> BlockNormalView {
    BlockNormalView {
        opcode: reporter_opcode(kind),
        comment: None,
        next: None,
        parent: Some(parent),
        inputs: Seq::empty(),
        fields: seq![
            ("VALUE"@, BlockFieldView::WithId { value: ValueView::Text(kind.name()), id: None }),
        ],
        shadow: true,
        top_level: false,
        mutation: None,
        x: None,
        y: None,
    }
}

/// An input of one slot that refers to the node `id` as its shadow.
pub open spec fn shadow_reference(id: Seq<char>) -> BlockInputView {
    BlockInputView { shadow: ShadowInputType::Shadow, inputs: seq![Some(UidOrValueView::Uid(id))] }
}

/// Adds the reporters of the arguments from `j` on to the graph, each under a
/// fresh identifier, and lists the inputs of the prototype: under the identifier
/// of each argument a reference to its reporter.
pub open spec fn reporters_spec(
    vars: Seq<(Seq<char>, CustomBlockInputTypeView)>,
    j: int,
    prototype: Seq<char>,
    inputs: Seq<(Seq<char>, BlockInputView)>,
    g: Graph,
) -> (Seq<(Seq<char>, BlockInputView)>, Graph)
    decreases vars.len() - j,
{
    if 0 <= j < vars.len() {
        let reporter = g.fresh();
        reporters_spec(
            vars,
            j + 1,
            prototype,
            inputs.push((vars[j].0, shadow_reference(reporter))),
            g.advance().with_block(reporter, BlockView::Normal(reporter_node(vars[j].1, prototype))),
        )
    } else {
        (inputs, g)
    }
}

/// Adds the prototype of a procedure and the reporters of its arguments to the
/// graph, below the definition node `definition`.  Gives the prototype's
/// identifier.
pub open spec fn prototype_spec(signature: SignatureView, definition: Seq<char>, g: Graph) -> (
    Seq<char>,
    Graph,
) {
    let prototype = g.fresh();
    let (inputs, g1) = reporters_spec(signature.vars(), 0, prototype, Seq::empty(), g.advance());
    let node = BlockNormalView {
        opcode: "procedures_prototype"@,
        comment: None,
        next: None,
        parent: Some(definition),
        inputs,
        fields: Seq::empty(),
        shadow: true,
        top_level: false,
        mutation: Some(
            BlockMutationView {
                tag_name: mutation_tag(),
                mutation_enum: signature.define_mutation(),
            },
        ),
        x: None,
        y: None,
    };
    (prototype, g1.with_block(prototype, BlockView::Normal(node)))
}

/// The node that defines a procedure, over the prototype `prototype`.
pub open spec fn definition_node(
    prototype: Seq<char>,
    comment: Option<Seq<char>>,
    x: Option<rs_sb3::value::Number>,
    y: Option<rs_sb3::value::Number>,
) -> BlockNormalView {
    BlockNormalView {
        opcode: "procedures_definition"@,
        comment,
        next: None,
        parent: None,
        inputs: seq![("custom_block"@, shadow_reference(prototype))],
        fields: Seq::empty(),
        shadow: false,
        top_level: false,
        mutation: None,
        x,
        y,
    }
}

/// The definition of a procedure with the given signature under the identifier
/// `my`: the prototype and the reporters are added to the graph, then the note.
pub open spec fn definition_spec(
    builder: CustomBlockBuilder,
    signature: SignatureView,
    my: Seq<char>,
    g: Graph,
) -> (BlockNormalView, Graph) {
    let (prototype, g1) = prototype_spec(signature, my, g);
    let (note, g2) = note_spec(builder.comment, my, g1);
    (definition_node(prototype, note, builder.x, builder.y), g2)
}

/// The input of a call for an argument that the call leaves out and that takes a
/// text or a number: the empty text.
pub open spec fn default_input() -> BlockInputView {
    BlockInputView {
        shadow: ShadowInputType::Shadow,
        inputs: seq![
            Some(
                UidOrValueView::Value(
                    BlockInputValueView::String { value: ValueView::Text(Seq::empty()) },
                ),
            ),
        ],
    }
}

/// What one slot of an input holds once it is built.  A literal passes through.
/// A stack is built into the graph below the node `parent`.
pub open spec fn slot_spec(
    slot: Option<StackOrValue>,
    parent: Seq<char>,
    ctx: ContextView,
    g: Graph,
) -> (Option<UidOrValueView>, Graph)
    decreases slot, 0nat,
{
    match slot {
        None => (None, g),
        Some(StackOrValue::Value(value)) => (Some(UidOrValueView::Value(value@)), g),
        Some(StackOrValue::Stack(stack)) => nested_spec(stack, parent, ctx, g),
    }
}

/// A stack in a slot of the node `parent`.  Its first block gets the next
/// identifier.  A reporter of a variable or a list becomes a literal in the slot
/// and adds no node; any other stack is chained below `parent`, and the slot
/// refers to its first node.
pub open spec fn nested_spec(
    stack: StackBuilder,
    parent: Seq<char>,
    ctx: ContextView,
    g: Graph,
) -> (
    Option<UidOrValueView>,
    Graph,
)
    decreases stack, stack.stack.len() + 1,
{
    let first = g.fresh();
    if stack.stack.len() == 0 {
        (None, g.advance())
    } else {
        match stack.stack[0] {
            BlockBuilder::VarList(reporter) => {
                let (top, g1) = varlist_spec(reporter, first, ctx, g.advance());
                (Some(UidOrValueView::Value(inline_value(top))), g1)
            },
            _ => (
                Some(UidOrValueView::Uid(first)),
                chain_spec(stack, 0, first, Some(parent), ctx, g.advance()),
            ),
        }
    }
}

/// The slots of an input from the `i`-th on, built in order and appended to
/// `built`.
pub open spec fn slots_spec(
    input: BlockInputBuilder,
    i: int,
    parent: Seq<char>,
    ctx: ContextView,
    built: Seq<Option<UidOrValueView>>,
    g: Graph,
) -> (Seq<Option<UidOrValueView>>, Graph)
    decreases input, input.values.len() - i,
{
    if 0 <= i < input.values.len() {
        let (slot, g1) = slot_spec(input.values[i], parent, ctx, g);
        slots_spec(input, i + 1, parent, ctx, built.push(slot), g1)
    } else {
        (built, g)
    }
}

/// The input that an input builder describes on the node `parent`: it keeps the
/// shadow kind and has one slot for each slot of the builder, in order.
pub open spec fn input_spec(
    input: BlockInputBuilder,
    parent: Seq<char>,
    ctx: ContextView,
    g: Graph,
) -> (
    BlockInputView,
    Graph,
)
    decreases input, input.values.len() + 1,
{
    let (slots, g1) = slots_spec(input, 0, parent, ctx, Seq::empty(), g);
    (BlockInputView { shadow: input.shadow, inputs: slots }, g1)
}

/// The named inputs from the `i`-th on, built in order and appended to `built`.
pub open spec fn inputs_spec(
    inputs: Vec<(String, BlockInputBuilder)>,
    i: int,
    parent: Seq<char>,
    ctx: ContextView,
    built: Seq<(Seq<char>, BlockInputView)>,
    g: Graph,
) -> (Seq<(Seq<char>, BlockInputView)>, Graph)
    decreases inputs, inputs.len() - i,
{
    if 0 <= i < inputs.len() {
        let (input, g1) = input_spec(inputs[i].1, parent, ctx, g);
        inputs_spec(inputs, i + 1, parent, ctx, built.push((inputs[i].0@, input)), g1)
    } else {
        (built, g)
    }
}

/// The node that a block builder describes under the identifier `my`, not yet
/// linked: its inputs are built first, then its fields, then its note.
pub open spec fn normal_spec(
    builder: BlockNormalBuilder,
    my: Seq<char>,
    ctx: ContextView,
    g: Graph,
) -> (
    BlockNormalView,
    Graph,
)
    decreases builder, 0nat,
{
    let (inputs, g1) = inputs_spec(builder.inputs, 0, my, ctx, Seq::empty(), g);
    let (note, g2) = note_spec(builder.comment, my, g1);
    (
        BlockNormalView {
            opcode: builder.opcode@,
            comment: note,
            next: None,
            parent: None,
            inputs,
            fields: fields_spec(builder.fields@, ctx),
            shadow: builder.shadow,
            top_level: false,
            mutation: opt_mutation_view(builder.mutation),
            x: builder.x,
            y: builder.y,
        },
        g2,
    )
}

/// The inputs of a call for the arguments of the signature from the `j`-th on,
/// each under the identifier of its argument.  An argument that the call supplies
/// by name is built from what was supplied.  One that it leaves out gets the empty
/// text if it takes a text or a number, and no input if it takes a truth value.
pub open spec fn call_inputs_spec(
    call: CustomFuncCallBuilder,
    vars: Seq<(Seq<char>, CustomBlockInputTypeView)>,
    j: int,
    my: Seq<char>,
    ctx: ContextView,
    built: Seq<(Seq<char>, BlockInputView)>,
    g: Graph,
) -> (Seq<(Seq<char>, BlockInputView)>, Graph)
    decreases call, vars.len() - j,
{
    if 0 <= j < vars.len() {
        match key_position(call.args@, vars[j].1.name(), 0) {
            Some(k) => {
                if 0 <= k < call.args.len() {
                    let (input, g1) = input_spec(call.args[k].1, my, ctx, g);
                    call_inputs_spec(call, vars, j + 1, my, ctx, built.push((vars[j].0, input)), g1)
                } else {
                    (built, g)
                }
            },
            None => match vars[j].1 {
                CustomBlockInputTypeView::Boolean(_) => call_inputs_spec(
                    call,
                    vars,
                    j + 1,
                    my,
                    ctx,
                    built,
                    g,
                ),
                _ => call_inputs_spec(
                    call,
                    vars,
                    j + 1,
                    my,
                    ctx,
                    built.push((vars[j].0, default_input())),
                    g,
                ),
            },
        }
    } else {
        (built, g)
    }
}

/// The node that calls a procedure with the given signature, under the
/// identifier `my`, not yet linked.
pub open spec fn call_spec(
    call: CustomFuncCallBuilder,
    signature: SignatureView,
    my: Seq<char>,
    ctx: ContextView,
    g: Graph,
) -> (BlockNormalView, Graph)
    decreases call, signature.vars().len() + 1,
{
    let (inputs, g1) = call_inputs_spec(call, signature.vars(), 0, my, ctx, Seq::empty(), g);
    let (note, g2) = note_spec(call.comment, my, g1);
    (
        BlockNormalView {
            opcode: "procedures_call"@,
            comment: note,
            next: None,
            parent: None,
            inputs,
            fields: Seq::empty(),
            shadow: call.shadow,
            top_level: false,
            mutation: Some(
                BlockMutationView {
                    tag_name: mutation_tag(),
                    mutation_enum: signature.call_mutation(),
                },
            ),
            x: call.x,
            y: call.y,
        },
        g2,
    )
}

/// The signature that counts for `name`; that of a procedure without arguments
/// where none is registered.
pub open spec fn signature_of(ctx: ContextView, name: Seq<char>) -> SignatureView {
    match find(ctx.custom_blocks, name) {
        Some(signature) => signature,
        None => SignatureView { args: Seq::empty(), warp: false },
    }
}

/// The block that a block builder describes under the identifier `my`, not yet
/// linked.
pub open spec fn block_spec(builder: BlockBuilder, my: Seq<char>, ctx: ContextView, g: Graph) -> (
    BlockView,
    Graph,
)
    decreases builder, 0nat,
{
    match builder {
        BlockBuilder::Normal(normal) => {
            let (node, g1) = normal_spec(normal, my, ctx, g);
            (BlockView::Normal(node), g1)
        },
        BlockBuilder::CustomBlock(definition) => {
            let (node, g1) = definition_spec(
                definition,
                signature_of(ctx, definition.name@),
                my,
                g,
            );
            (BlockView::Normal(node), g1)
        },
        BlockBuilder::CustomBlockCall(call) => {
            let (node, g1) = call_spec(call, signature_of(ctx, call.name@), my, ctx, g);
            (BlockView::Normal(node), g1)
        },
        BlockBuilder::VarList(reporter) => {
            let (top, g1) = varlist_spec(reporter, my, ctx, g);
            (BlockView::VarList(top), g1)
        },
    }
}

/// Chains the blocks of a stack from the `i`-th on.  The `i`-th block has the
/// identifier `my` and stands below `parent`.  Each block is built, gets the
/// identifier of the block behind it as its `next`, and is added to the graph;
/// the block behind it has it as its parent.
pub open spec fn chain_spec(
    stack: StackBuilder,
    i: int,
    my: Seq<char>,
    parent: Option<Seq<char>>,
    ctx: ContextView,
    g: Graph,
) -> Graph
    decreases stack, stack.stack.len() - i,
{
    if 0 <= i < stack.stack.len() {
        let (block, g1) = block_spec(stack.stack[i], my, ctx, g);
        if i + 1 < stack.stack.len() {
            let next = g1.fresh();
            chain_spec(
                stack,
                i + 1,
                next,
                Some(my),
                ctx,
                g1.advance().with_block(my, place_block(block, parent, Some(next))),
            )
        } else {
            g1.with_block(my, place_block(block, parent, None))
        }
    } else {
        g
    }
}

/// Builds a stack as a script of its own whose first block has the identifier
/// `first`.  A stack that starts with a reporter of a variable or a list consists
/// of that reporter alone: what follows it is left out.
pub open spec fn stack_spec(
    stack: StackBuilder,
    first: Seq<char>,
    ctx: ContextView,
    g: Graph,
) -> Graph {
    if stack.stack.len() == 0 {
        g
    } else {
        match stack.stack[0] {
            BlockBuilder::VarList(reporter) => {
                let (top, g1) = varlist_spec(reporter, first, ctx, g);
                g1.with_block(first, BlockView::VarList(top))
            },
            _ => chain_spec(stack, 0, first, None, ctx, g),
        }
    }
}

/// The first fault among the slots of an input from the `i`-th on.
pub open spec fn slots_fault(input: BlockInputBuilder, i: int, procs: Seq<SignatureView>) -> Option<
    BuildErrorView,
>
    decreases input, input.values.len() - i,
{
    if 0 <= i < input.values.len() {
        let here = match input.values[i] {
            Some(StackOrValue::Stack(stack)) => stack_fault(stack, procs),
            _ => None,
        };
        match here {
            Some(fault) => Some(fault),
            None => slots_fault(input, i + 1, procs),
        }
    } else {
        None
    }
}

/// The first fault of an input: that it has not the number of slots that its
/// shadow kind asks for, or else the first fault among the stacks in its slots.
pub open spec fn input_fault(input: BlockInputBuilder, procs: Seq<SignatureView>) -> Option<
    BuildErrorView,
>
    decreases input, input.values.len() + 1,
{
    if !input.well_shaped() {
        Some(BuildErrorView::IllShapedInput)
    } else {
        slots_fault(input, 0, procs)
    }
}

/// The first fault among named inputs from the `i`-th on.
pub open spec fn inputs_fault(
    inputs: Vec<(String, BlockInputBuilder)>,
    i: int,
    procs: Seq<SignatureView>,
) -> Option<BuildErrorView>
    decreases inputs, inputs.len() - i,
{
    if 0 <= i < inputs.len() {
        match input_fault(inputs[i].1, procs) {
            Some(fault) => Some(fault),
            None => inputs_fault(inputs, i + 1, procs),
        }
    } else {
        None
    }
}

/// The first fault among the arguments of a call that are built: for each
/// argument of the signature from the `j`-th on, what the call supplies under its
/// name.  What a call supplies under another name is not built and has no part in
/// this.
pub open spec fn call_fault(
    call: CustomFuncCallBuilder,
    vars: Seq<(Seq<char>, CustomBlockInputTypeView)>,
    j: int,
    procs: Seq<SignatureView>,
) -> Option<BuildErrorView>
    decreases call, vars.len() - j,
{
    if 0 <= j < vars.len() {
        let here = match key_position(call.args@, vars[j].1.name(), 0) {
            Some(k) => if 0 <= k < call.args.len() {
                input_fault(call.args[k].1, procs)
            } else {
                None
            },
            None => None,
        };
        match here {
            Some(fault) => Some(fault),
            None => call_fault(call, vars, j + 1, procs),
        }
    } else {
        None
    }
}

/// Whether no name occurs twice among named entries.
pub open spec fn distinct_names<T>(entries: Seq<(String, T)>) -> bool {
    forall|i: int, j: int|
        0 <= i < j < entries.len() ==> (#[trigger] entries[i]).0@ != (#[trigger] entries[j]).0@
}

/// The first fault of a statement or expression: that two of its inputs, or two
/// of its fields, have the same name, or else the first fault among its inputs.
pub open spec fn normal_fault(builder: BlockNormalBuilder, procs: Seq<SignatureView>) -> Option<
    BuildErrorView,
>
    decreases builder, 0nat,
{
    if !distinct_names(builder.inputs@) || !distinct_names(builder.fields@) {
        Some(BuildErrorView::RepeatedName)
    } else {
        inputs_fault(builder.inputs, 0, procs)
    }
}

/// The first fault of a block: a procedure that is defined or called without
/// being registered, a name that occurs twice, or a fault among the inputs that
/// are built.
pub open spec fn block_fault(builder: BlockBuilder, procs: Seq<SignatureView>) -> Option<
    BuildErrorView,
>
    decreases builder, 1nat,
{
    match builder {
        BlockBuilder::Normal(normal) => normal_fault(normal, procs),
        BlockBuilder::CustomBlock(definition) => {
            if find(procs, definition.name@) is None {
                Some(BuildErrorView::ProcedureNotFound(definition.name@))
            } else {
                None
            }
        },
        BlockBuilder::CustomBlockCall(call) => match find(procs, call.name@) {
            None => Some(BuildErrorView::ProcedureNotFound(call.name@)),
            Some(signature) => call_fault(call, signature.vars(), 0, procs),
        },
        BlockBuilder::VarList(_) => None,
    }
}

/// The first fault among the blocks of a stack from the `i`-th on.  Behind the
/// first block a reporter of a variable or a list is a fault.
pub open spec fn chain_fault(stack: StackBuilder, i: int, procs: Seq<SignatureView>) -> Option<
    BuildErrorView,
>
    decreases stack, stack.stack.len() - i,
{
    if 0 <= i < stack.stack.len() {
        let here = if i > 0 && stack.stack[i] is VarList {
            Some(BuildErrorView::ReporterInChain)
        } else {
            block_fault(stack.stack[i], procs)
        };
        match here {
            Some(fault) => Some(fault),
            None => chain_fault(stack, i + 1, procs),
        }
    } else {
        None
    }
}

/// The first fault of a stack, in the order in which a build would meet it; `None`
/// where the stack can be built.  An empty stack is a fault.  Behind a first
/// block that is a reporter of a variable or a list nothing is built, so nothing
/// there is a fault.
pub open spec fn stack_fault(stack: StackBuilder, procs: Seq<SignatureView>) -> Option<
    BuildErrorView,
>
    decreases stack, stack.stack.len() + 1,
{
    if stack.stack.len() == 0 {
        Some(BuildErrorView::EmptyStack)
    } else if stack.stack[0] is VarList {
        None
    } else {
        chain_fault(stack, 0, procs)
    }
}

} // verus!
