//! Builders of single blocks: fields, inputs, statements and reporters.

use crate::arena::BlockMap;
use crate::arena::CommentMap;
use crate::arena::distinct_keys;
use crate::arena::has_key;
use crate::assembly::block_fault;
use crate::assembly::block_spec;
use crate::assembly::distinct_names;
use crate::assembly::field_spec;
use crate::assembly::fields_spec;
use crate::assembly::Graph;
use crate::assembly::graph_of;
use crate::assembly::inline_value;
use crate::assembly::input_fault;
use crate::assembly::input_spec;
use crate::assembly::inputs_fault;
use crate::assembly::inputs_spec;
use crate::assembly::normal_fault;
use crate::assembly::normal_spec;
use crate::assembly::note_spec;
use crate::assembly::place;
use crate::assembly::place_block;
use crate::assembly::slot_spec;
use crate::assembly::slots_fault;
use crate::assembly::slots_spec;
use crate::assembly::varlist_spec;
use crate::build_context::ProcRegistry;
use crate::build_context::TargetContext;
use crate::comment::CommentBuilder;
use crate::custom_block::CustomBlockBuilder;
use crate::custom_block::CustomFuncCallBuilder;
use crate::document::Block;
use crate::document::BlockField;
use crate::document::BlockInput;
use crate::document::BlockInputValue;
use crate::document::BlockMutation;
use crate::document::BlockNormal;
use crate::document::BlockVarListReporterTop;
use crate::document::fields_view;
use crate::document::inputs_view;
use crate::document::lemma_fields_view_push;
use crate::document::lemma_inputs_view_push;
use crate::document::lemma_slots_view_push;
use crate::document::ListOrVariable;
use crate::document::opt_uid_view;
use crate::document::ShadowInputType;
use crate::document::slot_view;
use crate::document::slots_view;
use crate::document::UidOrValue;
use crate::document::UidOrValueView;
use crate::error::BuildError;
use crate::error::fault_view;
use crate::freshness::lemma_block;
use crate::freshness::lemma_input_keeps_identifiers_unique;
use crate::freshness::settled;
use crate::freshness::stays_settled;
use crate::laws::lemma_built_node_has_each_name_once;
use crate::laws::lemma_sound_input_shape;
use crate::layout::add_heights;
use crate::layout::block_height;
use crate::layout::BlockHeightData;
use crate::layout::bodies_height;
use crate::layout::clamp;
use crate::layout::slot_height;
use crate::layout::starts_script;
use crate::layout::starts_with;
use crate::layout::substacks_height;
use crate::layout::taller;
use crate::layout::taller_of;
use crate::layout::tallest_input;
use crate::layout::tallest_slot;
use crate::likeness::like_block;
use crate::likeness::like_input;
use crate::likeness::like_normal;
use crate::likeness::like_slot;
use crate::stack::StackBuilder;
use crate::uid::Uid;
use crate::uid::UidSource;
use crate::value::number_from_int;
use crate::value::Value;
use crate::value::whole_number;
use vstd::prelude::*;

verus! {

/// The place of `key` among named entries: the first entry under it.
pub open spec fn key_position<T>(entries: Seq<(String, T)>, key: Seq<char>, from: int) -> Option<
    int,
>
    decreases entries.len() - from,
{
    if from < 0 || from >= entries.len() {
        None
    } else if entries[from].0@ == key {
        Some(from)
    } else {
        key_position(entries, key, from + 1)
    }
}

/// What `key_position` returns is the first place at or after `from` under the key.
pub proof fn lemma_key_position<T>(entries: Seq<(String, T)>, key: Seq<char>, from: int)
    requires
        0 <= from,
    ensures
        match key_position(entries, key, from) {
            Some(i) => {
                &&& from <= i < entries.len()
                &&& entries[i].0@ == key
                &&& forall|j: int| from <= j < i ==> entries[j].0@ != key
            },
            None => forall|j: int| from <= j < entries.len() ==> entries[j].0@ != key,
        },
    decreases entries.len() - from,
{
    if from < entries.len() && entries[from].0@ != key {
        lemma_key_position(entries, key, from + 1);
    }
}

/// Named entries after `value` was put under `key`: in the place of the first
/// entry under that key, or at the end where there was none.
pub open spec fn put<T>(entries: Seq<(String, T)>, key: String, value: T) -> Seq<(String, T)> {
    match key_position(entries, key@, 0) {
        Some(i) => entries.update(i, (key, value)),
        None => entries.push((key, value)),
    }
}

/// The place of the first entry under `key`.
pub fn find_key<T>(entries: &Vec<(String, T)>, key: &String) -> (found: Option<usize>)
    ensures
        match found {
            Some(i) => key_position(entries@, key@, 0) == Some(i as int) && i < entries.len(),
            None => key_position(entries@, key@, 0) is None,
        },
{
    let mut i: usize = 0;
    while i < entries.len()
        invariant
            0 <= i <= entries.len(),
            key_position(entries@, key@, 0) == key_position(entries@, key@, i as int),
        decreases entries.len() - i,
    {
        if entries[i].0 == *key {
            return Some(i);
        }
        i = i + 1;
    }
    None
}

/// Puts `value` under `key`, in place of what stood there.
pub fn put_entry<T>(entries: &mut Vec<(String, T)>, key: String, value: T)
    ensures
        final(entries)@ == put(old(entries)@, key, value),
{
    match find_key(entries, &key) {
        Some(i) => {
            entries.set(i, (key, value));
        },
        None => {
            entries.push((key, value));
        },
    }
}

/// One slot of an input: a literal, or a stack whose first block fills the slot.
#[derive(Debug, PartialEq)]
pub enum StackOrValue {
    Value(BlockInputValue),
    Stack(StackBuilder),
}

/// Written by hand, since the builders hold each other and Verus takes no derived
/// `Clone` that goes round such a circle.  A copy is like what it was made from.
impl Clone for StackOrValue {
    fn clone(&self) -> (copy: StackOrValue)
        ensures
            like_slot(Some(*self), Some(copy)),
    {
        match self {
            StackOrValue::Value(value) => StackOrValue::Value(value.duplicate()),
            StackOrValue::Stack(stack) => StackOrValue::Stack(stack.duplicate()),
        }
    }
}

/// Describes one input of a block: its shadow kind and its slots in order.  A
/// slot that is `None` is left out of the document.
#[derive(Debug, PartialEq)]
pub struct BlockInputBuilder {
    pub shadow: ShadowInputType,
    pub values: Vec<Option<StackOrValue>>,
}

/// Written by hand, since the builders hold each other and Verus takes no derived
/// `Clone` that goes round such a circle.  A copy is like what it was made from.
impl Clone for BlockInputBuilder {
    fn clone(&self) -> (copy: BlockInputBuilder)
        ensures
            like_input(*self, copy),
    {
        self.duplicate()
    }
}

impl BlockInputBuilder {
    /// An input without a shadow and without slots.
    pub fn new() -> (builder: BlockInputBuilder)
        ensures
            builder.shadow == ShadowInputType::NoShadow,
            builder.values@ == Seq::<Option<StackOrValue>>::empty(),
    {
        BlockInputBuilder { shadow: ShadowInputType::NoShadow, values: Vec::new() }
    }

    pub fn set_shadow(&mut self, shadow: ShadowInputType) -> (builder: &mut Self)
        ensures
            *builder == (BlockInputBuilder { shadow, ..*old(self) }),
            *final(self) == *final(builder),
    {
        self.shadow = shadow;
        self
    }

    /// Appends a slot.
    pub fn add_input(&mut self, input: Option<StackOrValue>) -> (builder: &mut Self)
        ensures
            builder.shadow == old(self).shadow,
            builder.values@ == old(self).values@.push(input),
            *final(self) == *final(builder),
    {
        self.values.push(input);
        self
    }

    /// A literal that the slot shows as its own value.
    pub fn value(value: BlockInputValue) -> (builder: BlockInputBuilder)
        ensures
            builder.shadow == ShadowInputType::Shadow,
            builder.values@ == seq![Some(StackOrValue::Value(value))],
    {
        let mut values: Vec<Option<StackOrValue>> = Vec::new();
        values.push(Some(StackOrValue::Value(value)));
        BlockInputBuilder { shadow: ShadowInputType::Shadow, values }
    }

    /// An expression in a slot that has no default value.
    pub fn stack(stack: StackBuilder) -> (builder: BlockInputBuilder)
        ensures
            builder.shadow == ShadowInputType::NoShadow,
            builder.values@ == seq![Some(StackOrValue::Stack(stack))],
    {
        let mut values: Vec<Option<StackOrValue>> = Vec::new();
        values.push(Some(StackOrValue::Stack(stack)));
        BlockInputBuilder { shadow: ShadowInputType::NoShadow, values }
    }

    /// An expression that stands where the slot's default value would stand.
    pub fn shadow_stack(stack: StackBuilder) -> (builder: BlockInputBuilder)
        ensures
            builder.shadow == ShadowInputType::Shadow,
            builder.values@ == seq![Some(StackOrValue::Stack(stack))],
    {
        let mut values: Vec<Option<StackOrValue>> = Vec::new();
        values.push(Some(StackOrValue::Stack(stack)));
        BlockInputBuilder { shadow: ShadowInputType::Shadow, values }
    }

    /// An expression that covers a default value, which stays underneath.
    pub fn stack_with_value_obscured(stack: StackBuilder, value: BlockInputValue) -> (builder:
        BlockInputBuilder)
        ensures
            builder.shadow == ShadowInputType::ShadowObscured,
            builder.values@ == seq![
                Some(StackOrValue::Stack(stack)),
                Some(StackOrValue::Value(value)),
            ],
    {
        let mut values: Vec<Option<StackOrValue>> = Vec::new();
        values.push(Some(StackOrValue::Stack(stack)));
        values.push(Some(StackOrValue::Value(value)));
        BlockInputBuilder { shadow: ShadowInputType::ShadowObscured, values }
    }

    /// Whether the number of slots is the one that the shadow kind asks for: two
    /// for an obscured shadow, one otherwise.
    pub open spec fn well_shaped(self) -> bool {
        self.values.len() == if self.shadow == ShadowInputType::ShadowObscured {
            2int
        } else {
            1int
        }
    }
}

impl Default for BlockInputBuilder {
    fn default() -> (builder: BlockInputBuilder)
        ensures
            builder.shadow == ShadowInputType::NoShadow,
            builder.values@ == Seq::<Option<StackOrValue>>::empty(),
    {
        BlockInputBuilder { shadow: ShadowInputType::NoShadow, values: Vec::new() }
    }
}

/// How the text of a field is to be understood.
#[derive(Debug, Default, Clone, Copy, PartialEq, Eq, Structural)]
pub enum FieldKind {
    /// A plain text that names nothing.
    NoRef,
    /// A text that could name something, but is not looked up.
    #[default]
    NoRefMaybe,
    /// The name of a broadcast.
    Broadcast,
    /// The name of a variable of this target.
    SpriteVariable,
    /// The name of a variable that all targets share.
    GlobalVariable,
    /// The name of a list of this target.
    SpriteList,
    /// The name of a list that all targets share.
    GlobalList,
}

/// Describes one field of a block.
#[derive(Debug, Default, Clone, PartialEq)]
pub struct BlockFieldBuilder {
    pub value: String,
    pub kind: FieldKind,
}

impl BlockFieldBuilder {
    pub fn new_with_kind(value: String, kind: FieldKind) -> (builder: BlockFieldBuilder)
        ensures
            builder.value == value,
            builder.kind == kind,
    {
        BlockFieldBuilder { value, kind }
    }

    /// A field whose text is not looked up.
    pub fn new(value: String) -> (builder: BlockFieldBuilder)
        ensures
            builder.value == value,
            builder.kind == FieldKind::NoRefMaybe,
    {
        BlockFieldBuilder { value, kind: FieldKind::NoRefMaybe }
    }

    pub fn set_value(&mut self, value: String) -> (builder: &mut Self)
        ensures
            *builder == (BlockFieldBuilder { value, ..*old(self) }),
            *final(self) == *final(builder),
    {
        self.value = value;
        self
    }

    pub fn set_kind(&mut self, kind: FieldKind) -> (builder: &mut Self)
        ensures
            *builder == (BlockFieldBuilder { kind, ..*old(self) }),
            *final(self) == *final(builder),
    {
        self.kind = kind;
        self
    }

    /// The field that the builder describes.  The name of a symbol that no table
    /// holds resolves to the identifier for unknown symbols: resolution never fails.
    pub fn build(self, target_context: &TargetContext) -> (field: BlockField)
        ensures
            field@ == field_spec(self, target_context@),
    {
        self.assemble(target_context)
    }

    pub(crate) fn assemble(&self, target_context: &TargetContext) -> (field: BlockField)
        ensures
            field@ == field_spec(*self, target_context@),
    {
        let value = Value::Text(self.value.clone());
        let name = self.value.as_str();
        let id = match self.kind {
            FieldKind::NoRef => {
                return BlockField::NoId { value };
            },
            FieldKind::NoRefMaybe => {
                return BlockField::WithId { value, id: None };
            },
            FieldKind::Broadcast => target_context.all_broadcasts.resolve(name),
            FieldKind::SpriteVariable => target_context.this_sprite_vars.resolve(name),
            FieldKind::GlobalVariable => target_context.global_vars.resolve(name),
            FieldKind::SpriteList => target_context.this_sprite_lists.resolve(name),
            FieldKind::GlobalList => target_context.global_lists.resolve(name),
        };
        BlockField::WithId { value, id: Some(id) }
    }
}

/// Attaches a note, if there is one, to the node `owner`, and gives the note's
/// identifier.
pub(crate) fn attach_note(
    comment: &Option<CommentBuilder>,
    owner: &Uid,
    comments: &mut CommentMap,
    ids: &mut UidSource,
) -> (note: Option<Uid>)
    ensures
        forall|blocks: BlockMap|
            (opt_uid_view(note), #[trigger] graph_of(*final(ids), blocks, *final(comments)))
                == note_spec(*comment, owner@, graph_of(*old(ids), blocks, *old(comments))),
{
    match comment {
        Some(builder) => {
            let uid = ids.generate();
            let mut note = builder.build();
            note.block_id = Some(owner.clone());
            comments.insert(uid.clone(), note);
            Some(uid)
        },
        None => None,
    }
}

/// Describes a statement or an expression.
#[derive(Debug, Default, PartialEq)]
pub struct BlockNormalBuilder {
    pub opcode: String,
    pub comment: Option<CommentBuilder>,
    pub inputs: Vec<(String, BlockInputBuilder)>,
    pub fields: Vec<(String, BlockFieldBuilder)>,
    pub mutation: Option<BlockMutation>,
    pub shadow: bool,
    pub x: Option<rs_sb3::value::Number>,
    pub y: Option<rs_sb3::value::Number>,
}

/// Written by hand, since the builders hold each other and Verus takes no derived
/// `Clone` that goes round such a circle.  A copy is like what it was made from.
impl Clone for BlockNormalBuilder {
    fn clone(&self) -> (copy: BlockNormalBuilder)
        ensures
            like_normal(*self, copy),
    {
        self.duplicate()
    }
}

impl BlockNormalBuilder {
    /// A block of the given operation with nothing else set.
    pub fn new(opcode: String) -> (builder: BlockNormalBuilder)
        ensures
            builder.opcode == opcode,
            builder.comment is None,
            builder.inputs@ == Seq::<(String, BlockInputBuilder)>::empty(),
            builder.fields@ == Seq::<(String, BlockFieldBuilder)>::empty(),
            builder.mutation is None,
            !builder.shadow,
            builder.x is None,
            builder.y is None,
    {
        BlockNormalBuilder {
            opcode,
            comment: None,
            inputs: Vec::new(),
            fields: Vec::new(),
            mutation: None,
            shadow: false,
            x: None,
            y: None,
        }
    }

    /// Puts an input under `key`, in place of the input that stood there.
    pub fn add_input(&mut self, key: String, block_input_builder: BlockInputBuilder) -> (builder:
        &mut Self)
        ensures
            builder.inputs@ == put(old(self).inputs@, key, block_input_builder),
            *builder == (BlockNormalBuilder { inputs: builder.inputs, ..*old(self) }),
            *final(self) == *final(builder),
    {
        put_entry(&mut self.inputs, key, block_input_builder);
        self
    }

    /// Puts a field under `key`, in place of the field that stood there.
    pub fn add_field(&mut self, key: String, block_field_builder: BlockFieldBuilder) -> (builder:
        &mut Self)
        ensures
            builder.fields@ == put(old(self).fields@, key, block_field_builder),
            *builder == (BlockNormalBuilder { fields: builder.fields, ..*old(self) }),
            *final(self) == *final(builder),
    {
        put_entry(&mut self.fields, key, block_field_builder);
        self
    }

    pub fn set_opcode(&mut self, opcode: String) -> (builder: &mut Self)
        ensures
            *builder == (BlockNormalBuilder { opcode, ..*old(self) }),
            *final(self) == *final(builder),
    {
        self.opcode = opcode;
        self
    }

    pub fn set_comment(&mut self, comment: Option<CommentBuilder>) -> (builder: &mut Self)
        ensures
            *builder == (BlockNormalBuilder { comment, ..*old(self) }),
            *final(self) == *final(builder),
    {
        self.comment = comment;
        self
    }

    pub fn set_inputs(&mut self, inputs: Vec<(String, BlockInputBuilder)>) -> (builder: &mut Self)
        ensures
            *builder == (BlockNormalBuilder { inputs, ..*old(self) }),
            *final(self) == *final(builder),
    {
        self.inputs = inputs;
        self
    }

    pub fn set_fields(&mut self, fields: Vec<(String, BlockFieldBuilder)>) -> (builder: &mut Self)
        ensures
            *builder == (BlockNormalBuilder { fields, ..*old(self) }),
            *final(self) == *final(builder),
    {
        self.fields = fields;
        self
    }

    pub fn set_mutation(&mut self, mutation: BlockMutation) -> (builder: &mut Self)
        ensures
            *builder == (BlockNormalBuilder { mutation: Some(mutation), ..*old(self) }),
            *final(self) == *final(builder),
    {
        self.mutation = Some(mutation);
        self
    }

    pub fn set_shadow(&mut self, is_shadow: bool) -> (builder: &mut Self)
        ensures
            *builder == (BlockNormalBuilder { shadow: is_shadow, ..*old(self) }),
            *final(self) == *final(builder),
    {
        self.shadow = is_shadow;
        self
    }

    pub fn set_x(&mut self, x: Option<rs_sb3::value::Number>) -> (builder: &mut Self)
        ensures
            *builder == (BlockNormalBuilder { x, ..*old(self) }),
            *final(self) == *final(builder),
    {
        self.x = x;
        self
    }

    pub fn set_y(&mut self, y: Option<rs_sb3::value::Number>) -> (builder: &mut Self)
        ensures
            *builder == (BlockNormalBuilder { y, ..*old(self) }),
            *final(self) == *final(builder),
    {
        self.y = y;
        self
    }

    pub fn set_pos(
        &mut self,
        x: Option<rs_sb3::value::Number>,
        y: Option<rs_sb3::value::Number>,
    ) -> (builder: &mut Self)
        ensures
            *builder == (BlockNormalBuilder { x, y, ..*old(self) }),
            *final(self) == *final(builder),
    {
        self.x = x;
        self.y = y;
        self
    }
}

/// Whether a reporter names a symbol of this target or one that all targets share.
#[derive(Debug, Clone, Copy, PartialEq, Eq, Structural)]
pub enum VarListFrom {
    Global,
    Sprite,
}

/// Describes a reporter that displays a variable or a list on its own.
#[derive(Debug, Clone, PartialEq)]
pub struct BlockVarListBuilder {
    pub kind: ListOrVariable,
    pub from: VarListFrom,
    pub name: String,
    pub x: rs_sb3::value::Number,
    pub y: rs_sb3::value::Number,
    pub comment: Option<CommentBuilder>,
}

impl BlockVarListBuilder {
    /// A reporter of the variable `name` that all targets share, at the origin.
    pub fn global_var(name: String) -> (builder: BlockVarListBuilder)
        ensures
            builder == (BlockVarListBuilder {
                kind: ListOrVariable::Variable,
                from: VarListFrom::Global,
                name,
                x: whole_number(0),
                y: whole_number(0),
                comment: None,
            }),
    {
        BlockVarListBuilder {
            kind: ListOrVariable::Variable,
            from: VarListFrom::Global,
            name,
            x: number_from_int(0),
            y: number_from_int(0),
            comment: None,
        }
    }

    /// A reporter of the list `name` that all targets share, at the origin.
    pub fn global_list(name: String) -> (builder: BlockVarListBuilder)
        ensures
            builder == (BlockVarListBuilder {
                kind: ListOrVariable::List,
                from: VarListFrom::Global,
                name,
                x: whole_number(0),
                y: whole_number(0),
                comment: None,
            }),
    {
        BlockVarListBuilder {
            kind: ListOrVariable::List,
            from: VarListFrom::Global,
            name,
            x: number_from_int(0),
            y: number_from_int(0),
            comment: None,
        }
    }

    /// A reporter of the variable `name` of this target, at the origin.
    pub fn sprite_var(name: String) -> (builder: BlockVarListBuilder)
        ensures
            builder == (BlockVarListBuilder {
                kind: ListOrVariable::Variable,
                from: VarListFrom::Sprite,
                name,
                x: whole_number(0),
                y: whole_number(0),
                comment: None,
            }),
    {
        BlockVarListBuilder {
            kind: ListOrVariable::Variable,
            from: VarListFrom::Sprite,
            name,
            x: number_from_int(0),
            y: number_from_int(0),
            comment: None,
        }
    }

    /// A reporter of the list `name` of this target, at the origin.
    pub fn sprite_list(name: String) -> (builder: BlockVarListBuilder)
        ensures
            builder == (BlockVarListBuilder {
                kind: ListOrVariable::List,
                from: VarListFrom::Sprite,
                name,
                x: whole_number(0),
                y: whole_number(0),
                comment: None,
            }),
    {
        BlockVarListBuilder {
            kind: ListOrVariable::List,
            from: VarListFrom::Sprite,
            name,
            x: number_from_int(0),
            y: number_from_int(0),
            comment: None,
        }
    }

    pub fn set_kind(&mut self, kind: ListOrVariable) -> (builder: &mut Self)
        ensures
            *builder == (BlockVarListBuilder { kind, ..*old(self) }),
            *final(self) == *final(builder),
    {
        self.kind = kind;
        self
    }

    pub fn set_from(&mut self, from: VarListFrom) -> (builder: &mut Self)
        ensures
            *builder == (BlockVarListBuilder { from, ..*old(self) }),
            *final(self) == *final(builder),
    {
        self.from = from;
        self
    }

    pub fn set_name(&mut self, name: String) -> (builder: &mut Self)
        ensures
            *builder == (BlockVarListBuilder { name, ..*old(self) }),
            *final(self) == *final(builder),
    {
        self.name = name;
        self
    }

    pub fn set_x(&mut self, x: rs_sb3::value::Number) -> (builder: &mut Self)
        ensures
            *builder == (BlockVarListBuilder { x, ..*old(self) }),
            *final(self) == *final(builder),
    {
        self.x = x;
        self
    }

    pub fn set_y(&mut self, y: rs_sb3::value::Number) -> (builder: &mut Self)
        ensures
            *builder == (BlockVarListBuilder { y, ..*old(self) }),
            *final(self) == *final(builder),
    {
        self.y = y;
        self
    }

    pub fn set_pos(&mut self, x: rs_sb3::value::Number, y: rs_sb3::value::Number) -> (builder:
        &mut Self)
        ensures
            *builder == (BlockVarListBuilder { x, y, ..*old(self) }),
            *final(self) == *final(builder),
    {
        self.x = x;
        self.y = y;
        self
    }

    pub fn set_comment(&mut self, comment: Option<CommentBuilder>) -> (builder: &mut Self)
        ensures
            *builder == (BlockVarListBuilder { comment, ..*old(self) }),
            *final(self) == *final(builder),
    {
        self.comment = comment;
        self
    }

    /// The reporter that the builder describes, under the identifier `my_uid`.
    /// Its note, if it has one, is added to `comment_buff`.
    pub fn build(
        self,
        my_uid: &Uid,
        comment_buff: &mut CommentMap,
        target_context: &TargetContext,
        ids: &mut UidSource,
    ) -> (top: BlockVarListReporterTop)
        ensures
            (
                top@,
                Graph { issued: final(ids)@, blocks: Seq::empty(), comments: final(comment_buff)@ },
            ) == varlist_spec(
                self,
                my_uid@,
                target_context@,
                Graph { issued: old(ids)@, blocks: Seq::empty(), comments: old(comment_buff)@ },
            ),
            settled(old(comment_buff)@, old(ids)@) ==> settled(final(comment_buff)@, final(ids)@),
    {
        let none = BlockMap::new();
        proof {
            lemma_block(
                BlockBuilder::VarList(self),
                my_uid@,
                target_context@,
                graph_of(*ids, none, *comment_buff),
            );
        }
        let ghost before = graph_of(*ids, none, *comment_buff);
        let top = self.assemble(my_uid, comment_buff, target_context, ids);
        proof {
            assert((top@, graph_of(*ids, none, *comment_buff)) == varlist_spec(
                self,
                my_uid@,
                target_context@,
                before,
            ));
        }
        top
    }

    pub(crate) fn assemble(
        &self,
        my_uid: &Uid,
        comment_buff: &mut CommentMap,
        target_context: &TargetContext,
        ids: &mut UidSource,
    ) -> (top: BlockVarListReporterTop)
        ensures
            forall|blocks: BlockMap|
                (top@, #[trigger] graph_of(*final(ids), blocks, *final(comment_buff)))
                    == varlist_spec(
                    *self,
                    my_uid@,
                    target_context@,
                    graph_of(*old(ids), blocks, *old(comment_buff)),
                ),
    {
        let name = self.name.as_str();
        let id = match (self.kind, self.from) {
            (ListOrVariable::Variable, VarListFrom::Global) => target_context.global_vars.resolve(
                name,
            ),
            (ListOrVariable::Variable, VarListFrom::Sprite) => {
                target_context.this_sprite_vars.resolve(name)
            },
            (ListOrVariable::List, VarListFrom::Global) => target_context.global_lists.resolve(name),
            (ListOrVariable::List, VarListFrom::Sprite) => {
                target_context.this_sprite_lists.resolve(name)
            },
        };
        let _ = attach_note(&self.comment, my_uid, comment_buff, ids);
        BlockVarListReporterTop { kind: self.kind, name: self.name.clone(), id, x: self.x, y: self.y }
    }
}

/// Describes one block of a stack.
#[derive(Debug, PartialEq)]
pub enum BlockBuilder {
    /// A statement or an expression.
    Normal(BlockNormalBuilder),
    /// The definition of a registered procedure.
    CustomBlock(CustomBlockBuilder),
    /// A call of a registered procedure.
    CustomBlockCall(CustomFuncCallBuilder),
    /// A reporter of a variable or a list.
    VarList(BlockVarListBuilder),
}

/// Written by hand, since the builders hold each other and Verus takes no derived
/// `Clone` that goes round such a circle.  A copy is like what it was made from.
impl Clone for BlockBuilder {
    fn clone(&self) -> (copy: BlockBuilder)
        ensures
            like_block(*self, copy),
    {
        self.duplicate()
    }
}

/// The literal that stands in a slot in place of a reporter of a variable or list.
pub(crate) fn inline_reporter(top: BlockVarListReporterTop) -> (value: BlockInputValue)
    ensures
        value@ == inline_value(top@),
{
    match top.kind {
        ListOrVariable::Variable => BlockInputValue::Variable { name: top.name, id: top.id },
        ListOrVariable::List => BlockInputValue::List { name: top.name, id: top.id },
    }
}

/// Places a block in the graph: below `parent` if there is one, as the top of a
/// script otherwise, and in front of `next`.
pub(crate) fn place_in_graph(block: Block, parent: &Option<Uid>, next: Option<Uid>) -> (placed:
    Block)
    ensures
        placed@ == place_block(block@, opt_uid_view(*parent), opt_uid_view(next)),
{
    match block {
        Block::Normal(node) => {
            let mut node = node;
            node.next = next;
            match parent {
                Some(p) => {
                    node.parent = Some(p.clone());
                    node.top_level = false;
                    node.x = None;
                    node.y = None;
                },
                None => {
                    node.parent = None;
                    node.top_level = true;
                    node.x = Some(
                        match node.x {
                            Some(x) => x,
                            None => number_from_int(0),
                        },
                    );
                    node.y = Some(
                        match node.y {
                            Some(y) => y,
                            None => number_from_int(0),
                        },
                    );
                },
            }
            Block::Normal(node)
        },
        Block::VarList(top) => Block::VarList(top),
    }
}

/// Whether no name occurs twice among named entries.
pub fn names_are_distinct<T>(entries: &Vec<(String, T)>) -> (distinct: bool)
    ensures
        distinct == distinct_names(entries@),
{
    let mut i: usize = 0;
    while i < entries.len()
        invariant
            0 <= i <= entries.len(),
            forall|a: int, b: int|
                0 <= a < b < i ==> (#[trigger] entries@[a]).0@ != (#[trigger] entries@[b]).0@,
        decreases entries.len() - i,
    {
        proof {
            lemma_key_position(entries@, entries@[i as int].0@, 0);
        }
        match find_key(entries, &entries[i].0) {
            Some(k) => {
                if k != i {
                    assert(entries@[k as int].0@ == entries@[i as int].0@);
                    return false;
                }
            },
            None => {},
        }
        i = i + 1;
    }
    true
}

/// The first fault among named inputs.
pub(crate) fn find_inputs_fault(
    inputs: &Vec<(String, BlockInputBuilder)>,
    registry: &ProcRegistry,
) -> (fault:
    Option<BuildError>)
    ensures
        fault_view(fault) == inputs_fault(*inputs, 0, registry@),
    decreases *inputs,
{
    let mut i: usize = 0;
    while i < inputs.len()
        invariant
            0 <= i <= inputs.len(),
            inputs_fault(*inputs, 0, registry@) == inputs_fault(*inputs, i as int, registry@),
        decreases inputs.len() - i,
    {
        match inputs[i].1.fault(registry) {
            Some(fault) => {
                return Some(fault);
            },
            None => {},
        }
        i = i + 1;
    }
    None
}

/// Builds named inputs on the node `parent`, in their order.
pub(crate) fn assemble_inputs(
    inputs: &Vec<(String, BlockInputBuilder)>,
    parent: &Uid,
    comment_buff: &mut CommentMap,
    final_stack: &mut BlockMap,
    target_context: &TargetContext,
    ids: &mut UidSource,
) -> (built: Vec<(String, BlockInput)>)
    requires
        inputs_fault(*inputs, 0, target_context@.custom_blocks) is None,
    ensures
        (inputs_view(built@), graph_of(*final(ids), *final(final_stack), *final(comment_buff)))
            == inputs_spec(
            *inputs,
            0,
            parent@,
            target_context@,
            Seq::empty(),
            graph_of(*old(ids), *old(final_stack), *old(comment_buff)),
        ),
    decreases *inputs,
{
    let mut built: Vec<(String, BlockInput)> = Vec::new();
    let mut i: usize = 0;
    let ghost goal = inputs_spec(
        *inputs,
        0,
        parent@,
        target_context@,
        Seq::empty(),
        graph_of(*ids, *final_stack, *comment_buff),
    );
    assert(inputs_view(built@) =~= Seq::empty());
    while i < inputs.len()
        invariant
            0 <= i <= inputs.len(),
            inputs_fault(*inputs, i as int, target_context@.custom_blocks) is None,
            inputs_spec(
                *inputs,
                i as int,
                parent@,
                target_context@,
                inputs_view(built@),
                graph_of(*ids, *final_stack, *comment_buff),
            ) == goal,
        decreases inputs.len() - i,
    {
        let input = inputs[i].1.assemble(parent, comment_buff, final_stack, target_context, ids);
        let entry = (inputs[i].0.clone(), input);
        proof {
            lemma_inputs_view_push(built@, entry);
        }
        built.push(entry);
        i = i + 1;
    }
    built
}

impl BlockInputBuilder {
    /// The first fault among the stacks in the slots, in the order in which
    /// a build would meet it.
    pub fn fault(&self, registry: &ProcRegistry) -> (fault: Option<BuildError>)
        ensures
            fault_view(fault) == input_fault(*self, registry@),
        decreases *self,
    {
        let wanted: usize = match self.shadow {
            ShadowInputType::ShadowObscured => 2,
            _ => 1,
        };
        if self.values.len() != wanted {
            return Some(BuildError::IllShapedInput);
        }
        let mut i: usize = 0;
        while i < self.values.len()
            invariant
                0 <= i <= self.values.len(),
                self.well_shaped(),
                slots_fault(*self, 0, registry@) == slots_fault(*self, i as int, registry@),
            decreases self.values.len() - i,
        {
            match &self.values[i] {
                Some(StackOrValue::Stack(stack)) => {
                    match stack.fault(registry) {
                        Some(fault) => {
                            return Some(fault);
                        },
                        None => {},
                    }
                },
                _ => {},
            }
            i = i + 1;
        }
        None
    }

    /// Builds the input on the node `this_block_uid`.  The nodes of the stacks in
    /// its slots are added to `final_stack`, their notes to `comment_buff`.
    ///
    /// The built input keeps the shadow kind and has one slot for each slot of the
    /// builder, in order: a literal stays as it is, a stack becomes a reference to
    /// its first node, and a stack that starts with a reporter of a variable or
    /// a list becomes the literal that names the variable or list.  So the input
    /// has two slots if its shadow is obscured and one otherwise, and every node
    /// that a slot refers to is in `final_stack`.  Nodes and notes that each stood
    /// under an identifier of their own, none of which `ids` may still issue, do
    /// so again afterwards.  Where the input has not the number of slots that its
    /// shadow kind asks for, or a stack in it has a fault, nothing is built and
    /// nothing changes.
    pub fn build(
        self,
        this_block_uid: &Uid,
        comment_buff: &mut CommentMap,
        final_stack: &mut BlockMap,
        target_context: &TargetContext,
        ids: &mut UidSource,
    ) -> (built: Result<BlockInput, BuildError>)
        ensures
            match built {
                Ok(input) => {
                    &&& input_fault(self, target_context@.custom_blocks) is None
                    &&& (input@, graph_of(*final(ids), *final(final_stack), *final(comment_buff)))
                        == input_spec(
                        self,
                        this_block_uid@,
                        target_context@,
                        graph_of(*old(ids), *old(final_stack), *old(comment_buff)),
                    )
                    &&& input@.shadow == self.shadow
                    &&& input@.inputs.len() == if self.shadow == ShadowInputType::ShadowObscured {
                        2int
                    } else {
                        1int
                    }
                    &&& forall|j: int|
                        0 <= j < input@.inputs.len() ==> (#[trigger] input@.inputs[j] matches Some(
                            UidOrValueView::Uid(id),
                        ) ==> has_key(final(final_stack)@, id))
                    &&& settled(old(final_stack)@, old(ids)@) ==> settled(
                        final(final_stack)@,
                        final(ids)@,
                    )
                    &&& settled(old(comment_buff)@, old(ids)@) ==> settled(
                        final(comment_buff)@,
                        final(ids)@,
                    )
                },
                Err(fault) => {
                    &&& input_fault(self, target_context@.custom_blocks) == Some(fault@)
                    &&& graph_of(*final(ids), *final(final_stack), *final(comment_buff))
                        == graph_of(*old(ids), *old(final_stack), *old(comment_buff))
                },
            },
    {
        match self.fault(target_context.custom_blocks) {
            Some(fault) => Err(fault),
            None => {
                proof {
                    let g = graph_of(*ids, *final_stack, *comment_buff);
                    lemma_sound_input_shape(
                        self,
                        this_block_uid@,
                        target_context@,
                        g,
                        target_context@.custom_blocks,
                    );
                    lemma_input_keeps_identifiers_unique(self, this_block_uid@, target_context@, g);
                }
                Ok(self.assemble(this_block_uid, comment_buff, final_stack, target_context, ids))
            },
        }
    }

    pub(crate) fn assemble(
        &self,
        this_block_uid: &Uid,
        comment_buff: &mut CommentMap,
        final_stack: &mut BlockMap,
        target_context: &TargetContext,
        ids: &mut UidSource,
    ) -> (input: BlockInput)
        requires
            input_fault(*self, target_context@.custom_blocks) is None,
        ensures
            (input@, graph_of(*final(ids), *final(final_stack), *final(comment_buff)))
                == input_spec(
                *self,
                this_block_uid@,
                target_context@,
                graph_of(*old(ids), *old(final_stack), *old(comment_buff)),
            ),
        decreases *self,
    {
        let mut slots: Vec<Option<UidOrValue>> = Vec::new();
        let mut i: usize = 0;
        let ghost goal = slots_spec(
            *self,
            0,
            this_block_uid@,
            target_context@,
            Seq::empty(),
            graph_of(*ids, *final_stack, *comment_buff),
        );
        assert(slots_view(slots@) =~= Seq::empty());
        while i < self.values.len()
            invariant
                0 <= i <= self.values.len(),
                slots_fault(*self, i as int, target_context@.custom_blocks) is None,
                slots_spec(
                    *self,
                    i as int,
                    this_block_uid@,
                    target_context@,
                    slots_view(slots@),
                    graph_of(*ids, *final_stack, *comment_buff),
                ) == goal,
            decreases self.values.len() - i,
        {
            let ghost before = graph_of(*ids, *final_stack, *comment_buff);
            let slot = match &self.values[i] {
                None => None,
                Some(StackOrValue::Value(value)) => Some(UidOrValue::Value(value.duplicate())),
                Some(StackOrValue::Stack(stack)) => stack.assemble_nested(
                    this_block_uid,
                    comment_buff,
                    final_stack,
                    target_context,
                    ids,
                ),
            };
            proof {
                lemma_slots_view_push(slots@, slot);
                assert((slot_view(slot), graph_of(*ids, *final_stack, *comment_buff)) == slot_spec(
                    self.values[i as int],
                    this_block_uid@,
                    target_context@,
                    before,
                ));
            }
            slots.push(slot);
            i = i + 1;
        }
        BlockInput { shadow: self.shadow, inputs: slots }
    }
}

impl BlockNormalBuilder {
    /// Builds the node under the identifier `my_uid`, not yet linked: it has no
    /// parent and no successor and is not marked top-level.  The nodes of the
    /// stacks in its inputs are added to `final_stack`; its note, if it has one,
    /// to `comment_buff`.  Nodes and notes that stood under identifiers of their
    /// own, none of which `ids` may still issue, do so again afterwards.  Where
    /// two inputs or two fields have the same name, or an input has a fault,
    /// nothing is built and nothing changes.
    pub fn build(
        self,
        my_uid: &Uid,
        comment_buff: &mut CommentMap,
        final_stack: &mut BlockMap,
        target_context: &TargetContext,
        ids: &mut UidSource,
    ) -> (built: Result<BlockNormal, BuildError>)
        ensures
            match built {
                Ok(node) => {
                    &&& normal_fault(self, target_context@.custom_blocks) is None
                    &&& (node@, graph_of(*final(ids), *final(final_stack), *final(comment_buff)))
                        == normal_spec(
                        self,
                        my_uid@,
                        target_context@,
                        graph_of(*old(ids), *old(final_stack), *old(comment_buff)),
                    )
                    &&& distinct_keys(node@.inputs)
                    &&& distinct_keys(node@.fields)
                    &&& stays_settled(
                        graph_of(*old(ids), *old(final_stack), *old(comment_buff)),
                        graph_of(*final(ids), *final(final_stack), *final(comment_buff)),
                    )
                },
                Err(fault) => {
                    &&& normal_fault(self, target_context@.custom_blocks) == Some(fault@)
                    &&& graph_of(*final(ids), *final(final_stack), *final(comment_buff))
                        == graph_of(*old(ids), *old(final_stack), *old(comment_buff))
                },
            },
    {
        match self.fault(target_context.custom_blocks) {
            Some(fault) => Err(fault),
            None => {
                proof {
                    lemma_built_node_has_each_name_once(
                        self,
                        my_uid@,
                        target_context@,
                        graph_of(*ids, *final_stack, *comment_buff),
                        target_context@.custom_blocks,
                    );
                    lemma_block(
                        BlockBuilder::Normal(self),
                        my_uid@,
                        target_context@,
                        graph_of(*ids, *final_stack, *comment_buff),
                    );
                }
                Ok(self.assemble(my_uid, comment_buff, final_stack, target_context, ids))
            },
        }
    }

    /// The first fault of the block, in the order in which a build would meet it.
    pub fn fault(&self, registry: &ProcRegistry) -> (fault: Option<BuildError>)
        ensures
            fault_view(fault) == normal_fault(*self, registry@),
        decreases *self,
    {
        if !names_are_distinct(&self.inputs) || !names_are_distinct(&self.fields) {
            return Some(BuildError::RepeatedName);
        }
        find_inputs_fault(&self.inputs, registry)
    }

    pub(crate) fn assemble_fields(&self, target_context: &TargetContext) -> (fields: Vec<
        (String, BlockField),
    >)
        ensures
            fields_view(fields@) == fields_spec(self.fields@, target_context@),
    {
        let mut fields: Vec<(String, BlockField)> = Vec::new();
        let mut i: usize = 0;
        assert(fields_view(fields@) =~= fields_spec(self.fields@.take(0), target_context@));
        while i < self.fields.len()
            invariant
                0 <= i <= self.fields.len(),
                fields_view(fields@) == fields_spec(self.fields@.take(i as int), target_context@),
            decreases self.fields.len() - i,
        {
            let entry = (self.fields[i].0.clone(), self.fields[i].1.assemble(target_context));
            proof {
                lemma_fields_view_push(fields@, entry);
                assert(fields_spec(self.fields@.take(i + 1), target_context@) =~= fields_spec(
                    self.fields@.take(i as int),
                    target_context@,
                ).push((entry.0@, entry.1@)));
            }
            fields.push(entry);
            i = i + 1;
        }
        assert(self.fields@.take(i as int) =~= self.fields@);
        fields
    }

    pub(crate) fn assemble(
        &self,
        my_uid: &Uid,
        comment_buff: &mut CommentMap,
        final_stack: &mut BlockMap,
        target_context: &TargetContext,
        ids: &mut UidSource,
    ) -> (node: BlockNormal)
        requires
            inputs_fault(self.inputs, 0, target_context@.custom_blocks) is None,
        ensures
            (node@, graph_of(*final(ids), *final(final_stack), *final(comment_buff)))
                == normal_spec(
                *self,
                my_uid@,
                target_context@,
                graph_of(*old(ids), *old(final_stack), *old(comment_buff)),
            ),
        decreases *self,
    {
        let inputs = assemble_inputs(
            &self.inputs,
            my_uid,
            comment_buff,
            final_stack,
            target_context,
            ids,
        );
        let fields = self.assemble_fields(target_context);
        let ghost before = graph_of(*ids, *final_stack, *comment_buff);
        let comment = attach_note(&self.comment, my_uid, comment_buff, ids);
        proof {
            assert((opt_uid_view(comment), graph_of(*ids, *final_stack, *comment_buff))
                == note_spec(self.comment, my_uid@, before));
        }
        let mutation = match &self.mutation {
            Some(m) => Some(m.duplicate()),
            None => None,
        };
        BlockNormal {
            opcode: self.opcode.clone(),
            comment,
            next: None,
            parent: None,
            inputs,
            fields,
            shadow: self.shadow,
            top_level: false,
            mutation,
            x: self.x,
            y: self.y,
        }
    }
}

impl BlockBuilder {
    /// Whether the block is a reporter of a variable or a list.
    pub fn is_reporter(&self) -> (reporter: bool)
        ensures
            reporter == (*self is VarList),
    {
        match self {
            BlockBuilder::VarList(_) => true,
            _ => false,
        }
    }

    /// The first fault of the block, in the order in which a build would meet it.
    pub fn fault(&self, registry: &ProcRegistry) -> (fault: Option<BuildError>)
        ensures
            fault_view(fault) == block_fault(*self, registry@),
        decreases *self,
    {
        match self {
            BlockBuilder::Normal(normal) => normal.fault(registry),
            BlockBuilder::CustomBlock(definition) => {
                match registry.find(&definition.name) {
                    Some(_) => None,
                    None => Some(BuildError::ProcedureNotFound(definition.name.clone())),
                }
            },
            BlockBuilder::CustomBlockCall(call) => call.fault(registry),
            BlockBuilder::VarList(_) => None,
        }
    }

    /// Builds the block under the identifier `my_uid`, not yet linked.  What it is
    /// made of besides is added to `final_stack` and `comment_buff`.  Nodes and
    /// notes that stood under identifiers of their own, none of which `ids` may
    /// still issue, do so again afterwards.  Where the block has a fault, nothing
    /// is built and nothing changes.
    pub fn build(
        self,
        my_uid: &Uid,
        comment_buff: &mut CommentMap,
        final_stack: &mut BlockMap,
        target_context: &TargetContext,
        ids: &mut UidSource,
    ) -> (built: Result<Block, BuildError>)
        ensures
            match built {
                Ok(block) => {
                    &&& block_fault(self, target_context@.custom_blocks) is None
                    &&& (block@, graph_of(*final(ids), *final(final_stack), *final(comment_buff)))
                        == block_spec(
                        self,
                        my_uid@,
                        target_context@,
                        graph_of(*old(ids), *old(final_stack), *old(comment_buff)),
                    )
                    &&& stays_settled(
                        graph_of(*old(ids), *old(final_stack), *old(comment_buff)),
                        graph_of(*final(ids), *final(final_stack), *final(comment_buff)),
                    )
                },
                Err(fault) => {
                    &&& block_fault(self, target_context@.custom_blocks) == Some(fault@)
                    &&& graph_of(*final(ids), *final(final_stack), *final(comment_buff))
                        == graph_of(*old(ids), *old(final_stack), *old(comment_buff))
                },
            },
    {
        match self.fault(target_context.custom_blocks) {
            Some(fault) => Err(fault),
            None => {
                proof {
                    lemma_block(
                        self,
                        my_uid@,
                        target_context@,
                        graph_of(*ids, *final_stack, *comment_buff),
                    );
                }
                Ok(self.assemble(my_uid, comment_buff, final_stack, target_context, ids))
            },
        }
    }

    pub(crate) fn assemble(
        &self,
        my_uid: &Uid,
        comment_buff: &mut CommentMap,
        final_stack: &mut BlockMap,
        target_context: &TargetContext,
        ids: &mut UidSource,
    ) -> (block: Block)
        requires
            block_fault(*self, target_context@.custom_blocks) is None,
        ensures
            (block@, graph_of(*final(ids), *final(final_stack), *final(comment_buff)))
                == block_spec(
                *self,
                my_uid@,
                target_context@,
                graph_of(*old(ids), *old(final_stack), *old(comment_buff)),
            ),
        decreases *self,
    {
        match self {
            BlockBuilder::Normal(normal) => Block::Normal(
                normal.assemble(my_uid, comment_buff, final_stack, target_context, ids),
            ),
            BlockBuilder::CustomBlock(definition) => Block::Normal(
                definition.assemble(my_uid, comment_buff, final_stack, target_context, ids),
            ),
            BlockBuilder::CustomBlockCall(call) => Block::Normal(
                call.assemble(my_uid, comment_buff, final_stack, target_context, ids),
            ),
            BlockBuilder::VarList(reporter) => {
                let ghost before = graph_of(*ids, *final_stack, *comment_buff);
                let top = reporter.assemble(my_uid, comment_buff, target_context, ids);
                proof {
                    assert((top@, graph_of(*ids, *final_stack, *comment_buff)) == varlist_spec(
                        *reporter,
                        my_uid@,
                        target_context@,
                        before,
                    ));
                }
                Block::VarList(top)
            },
        }
    }
}

impl BlockInputBuilder {
    /// The height of the tallest slot, as far as 64 bits hold it.
    pub(crate) fn tallest_slot_height(&self, data: &BlockHeightData) -> (height: u64)
        ensures
            height == clamp(tallest_slot(*self, 0, *data)),
        decreases *self,
    {
        let mut height: u64 = 0;
        let mut j: usize = 0;
        while j < self.values.len()
            invariant
                0 <= j <= self.values.len(),
                clamp(taller(height as nat, tallest_slot(*self, j as int, *data))) == clamp(
                    tallest_slot(*self, 0, *data),
                ),
            decreases self.values.len() - j,
        {
            let here = match &self.values[j] {
                Some(StackOrValue::Stack(stack)) => add_heights(
                    stack.calc_block_height(data, true),
                    data.input_block_nest_height,
                ),
                Some(StackOrValue::Value(_)) => data.input_block_height,
                None => 0,
            };
            assert(here == clamp(slot_height(self.values[j as int], *data)));
            height = taller_of(height, here);
            j = j + 1;
        }
        height
    }

    /// The heights of the bodies of statements in the slots, added up as far as
    /// 64 bits hold the sum.
    pub(crate) fn bodies(&self, data: &BlockHeightData) -> (height: u64)
        ensures
            height == clamp(bodies_height(*self, 0, *data)),
        decreases *self,
    {
        let mut height: u64 = 0;
        let mut j: usize = 0;
        while j < self.values.len()
            invariant
                0 <= j <= self.values.len(),
                clamp(height as nat + bodies_height(*self, j as int, *data)) == clamp(
                    bodies_height(*self, 0, *data),
                ),
            decreases self.values.len() - j,
        {
            match &self.values[j] {
                Some(StackOrValue::Stack(stack)) => {
                    height = add_heights(height, stack.calc_block_height(data, false));
                },
                _ => {},
            }
            j = j + 1;
        }
        height
    }
}

/// The height of the tallest slot among the named inputs that hold expressions,
/// as far as 64 bits hold it.
pub(crate) fn new_inputs_height(
    data: &BlockHeightData,
    inputs: &Vec<(String, BlockInputBuilder)>,
) -> (height:
    u64)
    ensures
        height == clamp(tallest_input(*inputs, 0, *data)),
    decreases *inputs,
{
    let mut height: u64 = 0;
    let mut i: usize = 0;
    while i < inputs.len()
        invariant
            0 <= i <= inputs.len(),
            clamp(taller(height as nat, tallest_input(*inputs, i as int, *data))) == clamp(
                tallest_input(*inputs, 0, *data),
            ),
        decreases inputs.len() - i,
    {
        if !starts_with(inputs[i].0.as_str(), "SUBSTACK") {
            height = taller_of(height, inputs[i].1.tallest_slot_height(data));
        }
        i = i + 1;
    }
    height
}

/// What the named inputs that hold bodies of statements add to a statement, as
/// far as 64 bits hold it.
pub(crate) fn substacks(
    data: &BlockHeightData,
    inputs: &Vec<(String, BlockInputBuilder)>,
) -> (height:
    u64)
    ensures
        height == clamp(substacks_height(*inputs, 0, *data)),
    decreases *inputs,
{
    let mut height: u64 = 0;
    let mut i: usize = 0;
    while i < inputs.len()
        invariant
            0 <= i <= inputs.len(),
            clamp(height as nat + substacks_height(*inputs, i as int, *data)) == clamp(
                substacks_height(*inputs, 0, *data),
            ),
        decreases inputs.len() - i,
    {
        if starts_with(inputs[i].0.as_str(), "SUBSTACK") {
            height = add_heights(height, data.block_nest_height);
            height = add_heights(height, inputs[i].1.bodies(data));
        }
        i = i + 1;
    }
    height
}

/// Whether a statement of this operation starts a script.
pub(crate) fn opcode_starts_script(opcode: &String) -> (starts: bool)
    ensures
        starts == starts_script(opcode@),
{
    let clone_start = "control_start_as_clone".to_owned();
    *opcode == clone_start || starts_with(opcode.as_str(), "event_when")
}

impl BlockBuilder {
    /// Estimates the height of the block in layout units.  `is_input` says that
    /// the block stands in an input as an expression, which changes nothing for
    /// a single block: only a stack leaves out the gap below it there.  The
    /// estimate depends on the builder and the heights in `data` alone, and is
    /// exact as far as 64 bits hold it.
    pub fn calc_block_height(&self, data: &BlockHeightData, is_input: bool) -> (height: u64)
        ensures
            height == clamp(block_height(*self, *data, is_input)),
        decreases *self,
    {
        match self {
            BlockBuilder::Normal(normal) => {
                if opcode_starts_script(&normal.opcode) {
                    return data.event_block_height;
                }
                add_heights(
                    taller_of(new_inputs_height(data, &normal.inputs), data.block_height),
                    substacks(data, &normal.inputs),
                )
            },
            BlockBuilder::CustomBlock(_) => data.custom_block_height,
            BlockBuilder::CustomBlockCall(call) => taller_of(
                new_inputs_height(data, &call.args),
                data.block_height,
            ),
            BlockBuilder::VarList(_) => data.input_block_height,
        }
    }
}

} // verus!
