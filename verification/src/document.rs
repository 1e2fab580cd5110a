//! The nodes of the block graph, as the document format lays them out, and their
//! mathematical models.

use crate::uid::Uid;
use crate::value::Value;
use crate::value::ValueView;
use crate::value::ValueWithBool;
use crate::value::ValueWithBoolView;
use vstd::prelude::*;

verus! {

/// How an input slot relates to the default value underneath it.
#[derive(Debug, Clone, Copy, PartialEq, Eq, Structural)]
pub enum ShadowInputType {
    /// The slot shows its default value.
    Shadow,
    /// The slot has no default value.
    NoShadow,
    /// An expression covers the default value.
    ShadowObscured,
}

/// Whether a reporter displays a variable or a list.
#[derive(Debug, Clone, Copy, PartialEq, Eq, Structural)]
pub enum ListOrVariable {
    Variable,
    List,
}

/// A literal that an input slot can hold.
#[derive(Debug, Clone, PartialEq)]
pub enum BlockInputValue {
    Number { value: Value },
    PositiveNumber { value: Value },
    PositiveInteger { value: Value },
    Integer { value: Value },
    Angle { value: Value },
    Color { value: Value },
    String { value: Value },
    Broadcast { name: String, id: Uid },
    Variable { name: String, id: Uid },
    List { name: String, id: Uid },
}

/// The model of a [`BlockInputValue`].
pub enum BlockInputValueView {
    Number { value: ValueView },
    PositiveNumber { value: ValueView },
    PositiveInteger { value: ValueView },
    Integer { value: ValueView },
    Angle { value: ValueView },
    Color { value: ValueView },
    String { value: ValueView },
    Broadcast { name: Seq<char>, id: Seq<char> },
    Variable { name: Seq<char>, id: Seq<char> },
    List { name: Seq<char>, id: Seq<char> },
}

impl View for BlockInputValue {
    type V = BlockInputValueView;

    open spec fn view(&self) -> BlockInputValueView {
        match self {
            BlockInputValue::Number { value } => BlockInputValueView::Number { value: value@ },
            BlockInputValue::PositiveNumber { value } => BlockInputValueView::PositiveNumber {
                value: value@,
            },
            BlockInputValue::PositiveInteger { value } => BlockInputValueView::PositiveInteger {
                value: value@,
            },
            BlockInputValue::Integer { value } => BlockInputValueView::Integer { value: value@ },
            BlockInputValue::Angle { value } => BlockInputValueView::Angle { value: value@ },
            BlockInputValue::Color { value } => BlockInputValueView::Color { value: value@ },
            BlockInputValue::String { value } => BlockInputValueView::String { value: value@ },
            BlockInputValue::Broadcast { name, id } => BlockInputValueView::Broadcast {
                name: name@,
                id: id@,
            },
            BlockInputValue::Variable { name, id } => BlockInputValueView::Variable {
                name: name@,
                id: id@,
            },
            BlockInputValue::List { name, id } => BlockInputValueView::List {
                name: name@,
                id: id@,
            },
        }
    }
}

impl BlockInputValue {
    /// A copy with the same view.
    pub fn duplicate(&self) -> (copy: BlockInputValue)
        ensures
            copy@ == self@,
    {
        match self {
            BlockInputValue::Number { value } => BlockInputValue::Number {
                value: value.duplicate(),
            },
            BlockInputValue::PositiveNumber { value } => BlockInputValue::PositiveNumber {
                value: value.duplicate(),
            },
            BlockInputValue::PositiveInteger { value } => BlockInputValue::PositiveInteger {
                value: value.duplicate(),
            },
            BlockInputValue::Integer { value } => BlockInputValue::Integer {
                value: value.duplicate(),
            },
            BlockInputValue::Angle { value } => BlockInputValue::Angle { value: value.duplicate() },
            BlockInputValue::Color { value } => BlockInputValue::Color { value: value.duplicate() },
            BlockInputValue::String { value } => BlockInputValue::String {
                value: value.duplicate(),
            },
            BlockInputValue::Broadcast { name, id } => BlockInputValue::Broadcast {
                name: name.clone(),
                id: id.clone(),
            },
            BlockInputValue::Variable { name, id } => BlockInputValue::Variable {
                name: name.clone(),
                id: id.clone(),
            },
            BlockInputValue::List { name, id } => BlockInputValue::List {
                name: name.clone(),
                id: id.clone(),
            },
        }
    }
}

/// What one slot of a built input holds: a reference to a node, or a literal.
#[derive(Debug, Clone, PartialEq)]
pub enum UidOrValue {
    Uid(Uid),
    Value(BlockInputValue),
}

/// The model of a [`UidOrValue`].
pub enum UidOrValueView {
    Uid(Seq<char>),
    Value(BlockInputValueView),
}

impl View for UidOrValue {
    type V = UidOrValueView;

    open spec fn view(&self) -> UidOrValueView {
        match self {
            UidOrValue::Uid(id) => UidOrValueView::Uid(id@),
            UidOrValue::Value(value) => UidOrValueView::Value(value@),
        }
    }
}

/// The model of one slot of a built input; `None` is a slot that was left out.
pub open spec fn slot_view(slot: Option<UidOrValue>) -> Option<UidOrValueView> {
    match slot {
        Some(s) => Some(s@),
        None => None,
    }
}

/// The models of the slots of a built input.
pub open spec fn slots_view(slots: Seq<Option<UidOrValue>>) -> Seq<Option<UidOrValueView>> {
    slots.map_values(|slot: Option<UidOrValue>| slot_view(slot))
}

/// Viewing commutes with appending a slot.
pub proof fn lemma_slots_view_push(slots: Seq<Option<UidOrValue>>, slot: Option<UidOrValue>)
    ensures
        slots_view(slots.push(slot)) == slots_view(slots).push(slot_view(slot)),
{
    assert(slots_view(slots.push(slot)) =~= slots_view(slots).push(slot_view(slot)));
}

/// A built input: its shadow kind and its slots in order.
#[derive(Debug, Clone, PartialEq)]
pub struct BlockInput {
    pub shadow: ShadowInputType,
    pub inputs: Vec<Option<UidOrValue>>,
}

/// The model of a [`BlockInput`].
pub struct BlockInputView {
    pub shadow: ShadowInputType,
    pub inputs: Seq<Option<UidOrValueView>>,
}

impl View for BlockInput {
    type V = BlockInputView;

    open spec fn view(&self) -> BlockInputView {
        BlockInputView {
            shadow: self.shadow,
            inputs: slots_view(self.inputs@),
        }
    }
}

/// A built field: a value, and for a reference the identifier of what it names.
#[derive(Debug, Clone, PartialEq)]
pub enum BlockField {
    WithId { value: Value, id: Option<Uid> },
    NoId { value: Value },
}

/// The model of a [`BlockField`].
pub enum BlockFieldView {
    WithId { value: ValueView, id: Option<Seq<char>> },
    NoId { value: ValueView },
}

/// The model of an identifier that may be absent.
pub open spec fn opt_uid_view(id: Option<Uid>) -> Option<Seq<char>> {
    match id {
        Some(id) => Some(id@),
        None => None,
    }
}

impl View for BlockField {
    type V = BlockFieldView;

    open spec fn view(&self) -> BlockFieldView {
        match self {
            BlockField::WithId { value, id } => BlockFieldView::WithId {
                value: value@,
                id: opt_uid_view(*id),
            },
            BlockField::NoId { value } => BlockFieldView::NoId { value: value@ },
        }
    }
}

/// The signature data that a procedure node carries.
#[derive(Debug, Clone, PartialEq)]
pub enum BlockMutationEnum {
    ProceduresPrototype {
        proccode: String,
        argumentids: Vec<Uid>,
        argumentnames: Vec<String>,
        argumentdefaults: Vec<ValueWithBool>,
        warp: Option<bool>,
    },
    ProceduresCall { proccode: String, argumentids: Vec<Uid>, warp: Option<bool> },
    ControlStop { hasnext: bool },
}

/// The model of a [`BlockMutationEnum`].
pub enum BlockMutationEnumView {
    ProceduresPrototype {
        proccode: Seq<char>,
        argumentids: Seq<Seq<char>>,
        argumentnames: Seq<Seq<char>>,
        argumentdefaults: Seq<ValueWithBoolView>,
        warp: Option<bool>,
    },
    ProceduresCall { proccode: Seq<char>, argumentids: Seq<Seq<char>>, warp: Option<bool> },
    ControlStop { hasnext: bool },
}

/// The models of a sequence of identifiers.
pub open spec fn uids_view(ids: Seq<Uid>) -> Seq<Seq<char>> {
    ids.map_values(|id: Uid| id@)
}

/// The models of a sequence of texts.
pub open spec fn texts_view(texts: Seq<String>) -> Seq<Seq<char>> {
    texts.map_values(|text: String| text@)
}

/// The models of a sequence of default values.
pub open spec fn defaults_view(values: Seq<ValueWithBool>) -> Seq<ValueWithBoolView> {
    values.map_values(|value: ValueWithBool| value@)
}

impl View for BlockMutationEnum {
    type V = BlockMutationEnumView;

    open spec fn view(&self) -> BlockMutationEnumView {
        match self {
            BlockMutationEnum::ProceduresPrototype {
                proccode,
                argumentids,
                argumentnames,
                argumentdefaults,
                warp,
            } => BlockMutationEnumView::ProceduresPrototype {
                proccode: proccode@,
                argumentids: uids_view(argumentids@),
                argumentnames: texts_view(argumentnames@),
                argumentdefaults: defaults_view(argumentdefaults@),
                warp: *warp,
            },
            BlockMutationEnum::ProceduresCall {
                proccode,
                argumentids,
                warp,
            } => BlockMutationEnumView::ProceduresCall {
                proccode: proccode@,
                argumentids: uids_view(argumentids@),
                warp: *warp,
            },
            BlockMutationEnum::ControlStop { hasnext } => BlockMutationEnumView::ControlStop {
                hasnext: *hasnext,
            },
        }
    }
}

/// Viewing commutes with appending an identifier.
pub proof fn lemma_uids_view_push(ids: Seq<Uid>, id: Uid)
    ensures
        uids_view(ids.push(id)) == uids_view(ids).push(id@),
{
    assert(uids_view(ids.push(id)) =~= uids_view(ids).push(id@));
}

/// Viewing commutes with appending a text.
pub proof fn lemma_texts_view_push(texts: Seq<String>, text: String)
    ensures
        texts_view(texts.push(text)) == texts_view(texts).push(text@),
{
    assert(texts_view(texts.push(text)) =~= texts_view(texts).push(text@));
}

/// Viewing commutes with appending a default value.
pub proof fn lemma_defaults_view_push(values: Seq<ValueWithBool>, value: ValueWithBool)
    ensures
        defaults_view(values.push(value)) == defaults_view(values).push(value@),
{
    assert(defaults_view(values.push(value)) =~= defaults_view(values).push(value@));
}

/// A copy of a list of identifiers with the same view.
pub fn duplicate_uids(ids: &Vec<Uid>) -> (copy: Vec<Uid>)
    ensures
        uids_view(copy@) == uids_view(ids@),
{
    let mut copy: Vec<Uid> = Vec::new();
    let mut i: usize = 0;
    while i < ids.len()
        invariant
            0 <= i <= ids.len(),
            uids_view(copy@) == uids_view(ids@.subrange(0, i as int)),
        decreases ids.len() - i,
    {
        let item = ids[i].clone();
        proof {
            lemma_uids_view_push(copy@, item);
            lemma_uids_view_push(ids@.subrange(0, i as int), ids@[i as int]);
            assert(ids@.subrange(0, i + 1) =~= ids@.subrange(0, i as int).push(ids@[i as int]));
        }
        copy.push(item);
        i = i + 1;
    }
    assert(ids@.subrange(0, i as int) =~= ids@);
    copy
}

/// A copy of a list of texts with the same view.
pub fn duplicate_texts(texts: &Vec<String>) -> (copy: Vec<String>)
    ensures
        texts_view(copy@) == texts_view(texts@),
{
    let mut copy: Vec<String> = Vec::new();
    let mut i: usize = 0;
    while i < texts.len()
        invariant
            0 <= i <= texts.len(),
            texts_view(copy@) == texts_view(texts@.subrange(0, i as int)),
        decreases texts.len() - i,
    {
        let item = texts[i].clone();
        proof {
            lemma_texts_view_push(copy@, item);
            lemma_texts_view_push(texts@.subrange(0, i as int), texts@[i as int]);
            assert(texts@.subrange(0, i + 1) =~= texts@.subrange(0, i as int).push(texts@[i as int]));
        }
        copy.push(item);
        i = i + 1;
    }
    assert(texts@.subrange(0, i as int) =~= texts@);
    copy
}

/// A copy of a list of default values with the same view.
pub fn duplicate_defaults(values: &Vec<ValueWithBool>) -> (copy: Vec<ValueWithBool>)
    ensures
        defaults_view(copy@) == defaults_view(values@),
{
    let mut copy: Vec<ValueWithBool> = Vec::new();
    let mut i: usize = 0;
    while i < values.len()
        invariant
            0 <= i <= values.len(),
            defaults_view(copy@) == defaults_view(values@.subrange(0, i as int)),
        decreases values.len() - i,
    {
        let item = values[i].duplicate();
        proof {
            lemma_defaults_view_push(copy@, item);
            lemma_defaults_view_push(values@.subrange(0, i as int), values@[i as int]);
            assert(values@.subrange(0, i + 1) =~= values@.subrange(0, i as int).push(values@[i as int]));
        }
        copy.push(item);
        i = i + 1;
    }
    assert(values@.subrange(0, i as int) =~= values@);
    copy
}

impl BlockMutationEnum {
    /// A copy with the same view.
    pub fn duplicate(&self) -> (copy: BlockMutationEnum)
        ensures
            copy@ == self@,
    {
        match self {
            BlockMutationEnum::ProceduresPrototype {
                proccode,
                argumentids,
                argumentnames,
                argumentdefaults,
                warp,
            } => BlockMutationEnum::ProceduresPrototype {
                proccode: proccode.clone(),
                argumentids: duplicate_uids(argumentids),
                argumentnames: duplicate_texts(argumentnames),
                argumentdefaults: duplicate_defaults(argumentdefaults),
                warp: *warp,
            },
            BlockMutationEnum::ProceduresCall {
                proccode,
                argumentids,
                warp,
            } => BlockMutationEnum::ProceduresCall {
                proccode: proccode.clone(),
                argumentids: duplicate_uids(argumentids),
                warp: *warp,
            },
            BlockMutationEnum::ControlStop { hasnext } => BlockMutationEnum::ControlStop {
                hasnext: *hasnext,
            },
        }
    }
}

/// The mutation record of a node: a tag, which the format fixes to `mutation`, and
/// the data that depends on the kind of node.
#[derive(Debug, Clone, PartialEq)]
pub struct BlockMutation {
    pub tag_name: String,
    pub mutation_enum: BlockMutationEnum,
}

/// The model of a [`BlockMutation`].
pub struct BlockMutationView {
    pub tag_name: Seq<char>,
    pub mutation_enum: BlockMutationEnumView,
}

impl View for BlockMutation {
    type V = BlockMutationView;

    open spec fn view(&self) -> BlockMutationView {
        BlockMutationView { tag_name: self.tag_name@, mutation_enum: self.mutation_enum@ }
    }
}

/// The tag of every mutation record.
pub open spec fn mutation_tag() -> Seq<char> {
    "mutation"@
}

impl BlockMutation {
    /// The mutation record with the tag that the format fixes.
    pub fn new(mutation_enum: BlockMutationEnum) -> (mutation: BlockMutation)
        ensures
            mutation@ == (BlockMutationView {
                tag_name: mutation_tag(),
                mutation_enum: mutation_enum@,
            }),
    {
        BlockMutation { tag_name: "mutation".to_owned(), mutation_enum }
    }

    /// A copy with the same view.
    pub fn duplicate(&self) -> (copy: BlockMutation)
        ensures
            copy@ == self@,
    {
        BlockMutation {
            tag_name: self.tag_name.clone(),
            mutation_enum: self.mutation_enum.duplicate(),
        }
    }
}

/// The model of a mutation record that may be absent.
pub open spec fn opt_mutation_view(mutation: Option<BlockMutation>) -> Option<BlockMutationView> {
    match mutation {
        Some(m) => Some(m@),
        None => None,
    }
}

/// A statement or expression node.
#[derive(Debug, Clone, PartialEq)]
pub struct BlockNormal {
    pub opcode: String,
    pub comment: Option<Uid>,
    pub next: Option<Uid>,
    pub parent: Option<Uid>,
    pub inputs: Vec<(String, BlockInput)>,
    pub fields: Vec<(String, BlockField)>,
    pub shadow: bool,
    pub top_level: bool,
    pub mutation: Option<BlockMutation>,
    pub x: Option<rs_sb3::value::Number>,
    pub y: Option<rs_sb3::value::Number>,
}

/// The model of a [`BlockNormal`].  Inputs and fields are listed by name, in the
/// order in which they were built.
pub struct BlockNormalView {
    pub opcode: Seq<char>,
    pub comment: Option<Seq<char>>,
    pub next: Option<Seq<char>>,
    pub parent: Option<Seq<char>>,
    pub inputs: Seq<(Seq<char>, BlockInputView)>,
    pub fields: Seq<(Seq<char>, BlockFieldView)>,
    pub shadow: bool,
    pub top_level: bool,
    pub mutation: Option<BlockMutationView>,
    pub x: Option<rs_sb3::value::Number>,
    pub y: Option<rs_sb3::value::Number>,
}

/// The models of named inputs.
pub open spec fn inputs_view(
    inputs: Seq<(String, BlockInput)>,
) -> Seq<(Seq<char>, BlockInputView)> {
    inputs.map_values(|entry: (String, BlockInput)| (entry.0@, entry.1@))
}

/// The models of named fields.
pub open spec fn fields_view(
    fields: Seq<(String, BlockField)>,
) -> Seq<(Seq<char>, BlockFieldView)> {
    fields.map_values(|entry: (String, BlockField)| (entry.0@, entry.1@))
}

/// Viewing commutes with appending a named input.
pub proof fn lemma_inputs_view_push(inputs: Seq<(String, BlockInput)>, entry: (String, BlockInput))
    ensures
        inputs_view(inputs.push(entry)) == inputs_view(inputs).push((entry.0@, entry.1@)),
{
    assert(inputs_view(inputs.push(entry)) =~= inputs_view(inputs).push((entry.0@, entry.1@)));
}

/// Viewing commutes with appending a named field.
pub proof fn lemma_fields_view_push(fields: Seq<(String, BlockField)>, entry: (String, BlockField))
    ensures
        fields_view(fields.push(entry)) == fields_view(fields).push((entry.0@, entry.1@)),
{
    assert(fields_view(fields.push(entry)) =~= fields_view(fields).push((entry.0@, entry.1@)));
}

impl View for BlockNormal {
    type V = BlockNormalView;

    open spec fn view(&self) -> BlockNormalView {
        BlockNormalView {
            opcode: self.opcode@,
            comment: opt_uid_view(self.comment),
            next: opt_uid_view(self.next),
            parent: opt_uid_view(self.parent),
            inputs: inputs_view(self.inputs@),
            fields: fields_view(self.fields@),
            shadow: self.shadow,
            top_level: self.top_level,
            mutation: opt_mutation_view(self.mutation),
            x: self.x,
            y: self.y,
        }
    }
}

/// A reporter that displays a variable or a list on its own.
#[derive(Debug, Clone, PartialEq)]
pub struct BlockVarListReporterTop {
    pub kind: ListOrVariable,
    pub name: String,
    pub id: Uid,
    pub x: rs_sb3::value::Number,
    pub y: rs_sb3::value::Number,
}

/// The model of a [`BlockVarListReporterTop`].
pub struct BlockVarListReporterTopView {
    pub kind: ListOrVariable,
    pub name: Seq<char>,
    pub id: Seq<char>,
    pub x: rs_sb3::value::Number,
    pub y: rs_sb3::value::Number,
}

impl View for BlockVarListReporterTop {
    type V = BlockVarListReporterTopView;

    open spec fn view(&self) -> BlockVarListReporterTopView {
        BlockVarListReporterTopView {
            kind: self.kind,
            name: self.name@,
            id: self.id@,
            x: self.x,
            y: self.y,
        }
    }
}

/// A node of the block graph.
#[derive(Debug, Clone, PartialEq)]
pub enum Block {
    Normal(BlockNormal),
    VarList(BlockVarListReporterTop),
}

/// The model of a [`Block`].
pub enum BlockView {
    Normal(BlockNormalView),
    VarList(BlockVarListReporterTopView),
}

impl View for Block {
    type V = BlockView;

    open spec fn view(&self) -> BlockView {
        match self {
            Block::Normal(n) => BlockView::Normal(n@),
            Block::VarList(v) => BlockView::VarList(v@),
        }
    }
}

} // verus!
