//! Procedures: their signatures, the nodes that define them and the nodes that
//! call them.

use crate::arena::BlockMap;
use crate::arena::CommentMap;
use crate::assembly::call_fault;
use crate::assembly::call_inputs_spec;
use crate::assembly::call_spec;
use crate::assembly::default_input;
use crate::assembly::definition_node;
use crate::assembly::definition_spec;
use crate::assembly::graph_of;
use crate::assembly::note_spec;
use crate::assembly::prototype_spec;
use crate::assembly::reporter_node;
use crate::assembly::reporters_spec;
use crate::assembly::shadow_reference;
use crate::assembly::signature_of;
use crate::block::attach_note;
use crate::block::BlockBuilder;
use crate::block::BlockInputBuilder;
use crate::block::find_key;
use crate::block::lemma_key_position;
use crate::block::put;
use crate::block::put_entry;
use crate::build_context::find;
use crate::build_context::ProcRegistry;
use crate::build_context::TargetContext;
use crate::comment::CommentBuilder;
use crate::document::Block;
use crate::document::BlockField;
use crate::document::BlockInput;
use crate::document::BlockInputValue;
use crate::document::BlockMutation;
use crate::document::BlockMutationEnum;
use crate::document::BlockMutationEnumView;
use crate::document::BlockNormal;
use crate::document::BlockView;
use crate::document::defaults_view;
use crate::document::inputs_view;
use crate::document::lemma_defaults_view_push;
use crate::document::lemma_inputs_view_push;
use crate::document::lemma_texts_view_push;
use crate::document::lemma_uids_view_push;
use crate::document::opt_uid_view;
use crate::document::ShadowInputType;
use crate::document::texts_view;
use crate::document::UidOrValue;
use crate::document::uids_view;
use crate::error::BuildError;
use crate::error::BuildErrorView;
use crate::error::fault_view;
use crate::freshness::lemma_block;
use crate::freshness::stays_settled;
use crate::likeness::like_call;
use crate::uid::Uid;
use crate::uid::uid_text;
use crate::uid::UidSource;
use crate::value::Value;
use crate::value::ValueWithBool;
use crate::value::ValueWithBoolView;
use vstd::prelude::*;

verus! {

/// One argument of a procedure, by kind, with its name.
#[derive(Debug, Clone, PartialEq)]
pub enum CustomBlockInputType {
    /// A word of the procedure's label.  It takes no value when the procedure is
    /// called.
    Text(String),
    /// An argument that takes a text or a number.
    StringOrNumber(String),
    /// An argument that takes a truth value.
    Boolean(String),
}

/// The model of a [`CustomBlockInputType`].
pub enum CustomBlockInputTypeView {
    Text(Seq<char>),
    StringOrNumber(Seq<char>),
    Boolean(Seq<char>),
}

impl View for CustomBlockInputType {
    type V = CustomBlockInputTypeView;

    open spec fn view(&self) -> CustomBlockInputTypeView {
        match self {
            CustomBlockInputType::Text(name) => CustomBlockInputTypeView::Text(name@),
            CustomBlockInputType::StringOrNumber(name) => CustomBlockInputTypeView::StringOrNumber(
                name@,
            ),
            CustomBlockInputType::Boolean(name) => CustomBlockInputTypeView::Boolean(name@),
        }
    }
}

impl CustomBlockInputTypeView {
    /// The name of the argument.
    pub open spec fn name(self) -> Seq<char> {
        match self {
            CustomBlockInputTypeView::Text(name) => name,
            CustomBlockInputTypeView::StringOrNumber(name) => name,
            CustomBlockInputTypeView::Boolean(name) => name,
        }
    }

    /// What the argument contributes to the procedure's code: its own word for
    /// a label, `%s` for a text or number, `%b` for a truth value.
    pub open spec fn token(self) -> Seq<char> {
        match self {
            CustomBlockInputTypeView::Text(name) => name,
            CustomBlockInputTypeView::StringOrNumber(_) => "%s"@,
            CustomBlockInputTypeView::Boolean(_) => "%b"@,
        }
    }

    /// The value that the argument has where a call leaves it out: `false` for
    /// a truth value, the empty text otherwise.
    pub open spec fn default_value(self) -> ValueWithBoolView {
        match self {
            CustomBlockInputTypeView::Boolean(_) => ValueWithBoolView::Bool(false),
            _ => ValueWithBoolView::Text(Seq::empty()),
        }
    }
}

impl CustomBlockInputType {
    pub fn name(&self) -> (name: String)
        ensures
            name@ == self@.name(),
    {
        match self {
            CustomBlockInputType::Text(name) => name.clone(),
            CustomBlockInputType::StringOrNumber(name) => name.clone(),
            CustomBlockInputType::Boolean(name) => name.clone(),
        }
    }

    /// A copy with the same view.
    pub fn duplicate(&self) -> (copy: CustomBlockInputType)
        ensures
            copy@ == self@,
    {
        match self {
            CustomBlockInputType::Text(name) => CustomBlockInputType::Text(name.clone()),
            CustomBlockInputType::StringOrNumber(name) => CustomBlockInputType::StringOrNumber(
                name.clone(),
            ),
            CustomBlockInputType::Boolean(name) => CustomBlockInputType::Boolean(name.clone()),
        }
    }
}

/// The model of a procedure's signature: its arguments in order, each with the
/// identifier it was given (a label has none), and whether the procedure runs
/// without screen refresh.
pub struct SignatureView {
    pub args: Seq<(Option<Seq<char>>, CustomBlockInputTypeView)>,
    pub warp: bool,
}

/// The arguments that take a value, among the first `n`: each with its identifier.
pub open spec fn vars_upto(
    args: Seq<(Option<Seq<char>>, CustomBlockInputTypeView)>,
    n: int,
) -> Seq<(Seq<char>, CustomBlockInputTypeView)>
    decreases n,
{
    if n <= 0 || n > args.len() {
        Seq::empty()
    } else {
        match args[n - 1].0 {
            Some(id) => vars_upto(args, n - 1).push((id, args[n - 1].1)),
            None => vars_upto(args, n - 1),
        }
    }
}

/// The tokens of the first `n` arguments, joined by single spaces.
pub open spec fn proccode_upto(
    args: Seq<(Option<Seq<char>>, CustomBlockInputTypeView)>,
    n: int,
) -> Seq<char>
    decreases n,
{
    if n <= 0 || n > args.len() {
        Seq::empty()
    } else if n == 1 {
        args[0].1.token()
    } else {
        proccode_upto(args, n - 1) + " "@ + args[n - 1].1.token()
    }
}

/// The first `n` arguments of a new signature whose identifiers are issued by a
/// source that has issued `issued` identifiers, paired with the number of
/// identifiers issued afterwards.  A label gets no identifier.
pub open spec fn assign_ids(args: Seq<CustomBlockInputTypeView>, n: int, issued: nat) -> (
    Seq<(Option<Seq<char>>, CustomBlockInputTypeView)>,
    nat,
)
    decreases n,
{
    if n <= 0 || n > args.len() {
        (Seq::empty(), issued)
    } else {
        let (front, next) = assign_ids(args, n - 1, issued);
        match args[n - 1] {
            CustomBlockInputTypeView::Text(_) => (front.push((None, args[n - 1])), next),
            _ => (front.push((Some(uid_text(next)), args[n - 1])), next + 1),
        }
    }
}

/// Giving identifiers to arguments issues identifiers and takes none back.
pub proof fn lemma_assign_ids_issues(args: Seq<CustomBlockInputTypeView>, n: int, issued: nat)
    ensures
        assign_ids(args, n, issued).1 >= issued,
    decreases n,
{
    if 0 < n <= args.len() {
        lemma_assign_ids_issues(args, n - 1, issued);
    }
}

impl SignatureView {
    /// The name under which the procedure is registered: its first argument where
    /// that is a label, the empty text otherwise.
    pub open spec fn name(self) -> Seq<char> {
        if self.args.len() > 0 {
            match self.args[0].1 {
                CustomBlockInputTypeView::Text(name) => name,
                _ => Seq::empty(),
            }
        } else {
            Seq::empty()
        }
    }

    /// The procedure's code.
    pub open spec fn proccode(self) -> Seq<char> {
        proccode_upto(self.args, self.args.len() as int)
    }

    /// The arguments that take a value, each with its identifier.
    pub open spec fn vars(self) -> Seq<(Seq<char>, CustomBlockInputTypeView)> {
        vars_upto(self.args, self.args.len() as int)
    }

    pub open spec fn argumentids(self) -> Seq<Seq<char>> {
        self.vars().map_values(|v: (Seq<char>, CustomBlockInputTypeView)| v.0)
    }

    pub open spec fn argumentnames(self) -> Seq<Seq<char>> {
        self.vars().map_values(|v: (Seq<char>, CustomBlockInputTypeView)| v.1.name())
    }

    pub open spec fn argumentdefaults(self) -> Seq<ValueWithBoolView> {
        self.vars().map_values(|v: (Seq<char>, CustomBlockInputTypeView)| v.1.default_value())
    }

    /// The signature data of a node that calls the procedure.
    pub open spec fn call_mutation(self) -> BlockMutationEnumView {
        BlockMutationEnumView::ProceduresCall {
            proccode: self.proccode(),
            argumentids: self.argumentids(),
            warp: Some(self.warp),
        }
    }

    /// The signature data of the prototype node of the procedure's definition.
    pub open spec fn define_mutation(self) -> BlockMutationEnumView {
        BlockMutationEnumView::ProceduresPrototype {
            proccode: self.proccode(),
            argumentids: self.argumentids(),
            argumentnames: self.argumentnames(),
            argumentdefaults: self.argumentdefaults(),
            warp: Some(self.warp),
        }
    }
}

/// The models of the arguments of a signature.
pub open spec fn args_view(args: Seq<(Option<Uid>, CustomBlockInputType)>) -> Seq<
    (Option<Seq<char>>, CustomBlockInputTypeView),
> {
    args.map_values(|a: (Option<Uid>, CustomBlockInputType)| (opt_uid_view(a.0), a.1@))
}

/// The models of a list of argument kinds.
pub open spec fn kinds_view(kinds: Seq<CustomBlockInputType>) -> Seq<CustomBlockInputTypeView> {
    kinds.map_values(|k: CustomBlockInputType| k@)
}

/// The models of arguments that take a value.
pub open spec fn vars_view(vars: Seq<(Uid, CustomBlockInputType)>) -> Seq<
    (Seq<char>, CustomBlockInputTypeView),
> {
    vars.map_values(|v: (Uid, CustomBlockInputType)| (v.0@, v.1@))
}

/// The signature of a procedure.
#[derive(Debug, Clone, PartialEq)]
pub struct CustomBlockTy {
    ty: Vec<(Option<Uid>, CustomBlockInputType)>,
    warp: bool,
}

impl View for CustomBlockTy {
    type V = SignatureView;

    closed spec fn view(&self) -> SignatureView {
        SignatureView { args: args_view(self.ty@), warp: self.warp }
    }
}

impl CustomBlockTy {
    /// The signature with the given arguments.  Every argument that takes a value
    /// gets a fresh identifier from `ids`, in order.
    pub fn new(args: Vec<CustomBlockInputType>, warp: bool, ids: &mut UidSource) -> (ty:
        CustomBlockTy)
        ensures
            ty@.warp == warp,
            ty@.args == assign_ids(kinds_view(args@), args@.len() as int, old(ids)@).0,
            final(ids)@ == assign_ids(kinds_view(args@), args@.len() as int, old(ids)@).1,
    {
        let mut ty: Vec<(Option<Uid>, CustomBlockInputType)> = Vec::new();
        let mut i: usize = 0;
        let ghost kinds = kinds_view(args@);
        let ghost start = ids@;
        assert(args_view(ty@) =~= assign_ids(kinds, 0, start).0);
        while i < args.len()
            invariant
                0 <= i <= args.len(),
                kinds == kinds_view(args@),
                args_view(ty@) == assign_ids(kinds, i as int, start).0,
                ids@ == assign_ids(kinds, i as int, start).1,
            decreases args.len() - i,
        {
            let kind = args[i].duplicate();
            let id = match &kind {
                CustomBlockInputType::Text(_) => None,
                _ => Some(ids.generate()),
            };
            proof {
                assert(kinds[i as int] == args@[i as int]@);
                assert(args_view(ty@.push((id, kind))) =~= args_view(ty@).push(
                    (opt_uid_view(id), kind@),
                ));
            }
            ty.push((id, kind));
            i = i + 1;
        }
        CustomBlockTy { ty, warp }
    }

    /// The name under which the procedure is registered.
    pub fn name(&self) -> (name: String)
        ensures
            name@ == self@.name(),
    {
        if self.ty.len() > 0 {
            match &self.ty[0].1 {
                CustomBlockInputType::Text(name) => name.clone(),
                _ => String::new(),
            }
        } else {
            String::new()
        }
    }

    pub fn proccode(&self) -> (code: String)
        ensures
            code@ == self@.proccode(),
    {
        let mut code = String::new();
        let mut i: usize = 0;
        let ghost args = self@.args;
        while i < self.ty.len()
            invariant
                0 <= i <= self.ty.len(),
                args == args_view(self.ty@),
                code@ == proccode_upto(args, i as int),
            decreases self.ty.len() - i,
        {
            let ghost before = code@;
            if i > 0 {
                code.append(" ");
            }
            match &self.ty[i].1 {
                CustomBlockInputType::Text(name) => code.append(name.as_str()),
                CustomBlockInputType::StringOrNumber(_) => code.append("%s"),
                CustomBlockInputType::Boolean(_) => code.append("%b"),
            }
            proof {
                assert(args[i as int].1 == self.ty@[i as int].1@);
                if i == 0 {
                    assert(before + args[0].1.token() =~= args[0].1.token());
                }
            }
            i = i + 1;
        }
        code
    }

    /// The arguments that take a value, each with its identifier.
    pub fn vars(&self) -> (vars: Vec<(Uid, CustomBlockInputType)>)
        ensures
            vars_view(vars@) == self@.vars(),
    {
        let mut vars: Vec<(Uid, CustomBlockInputType)> = Vec::new();
        let mut i: usize = 0;
        let ghost args = self@.args;
        assert(vars_view(vars@) =~= vars_upto(args, 0));
        while i < self.ty.len()
            invariant
                0 <= i <= self.ty.len(),
                args == args_view(self.ty@),
                vars_view(vars@) == vars_upto(args, i as int),
            decreases self.ty.len() - i,
        {
            proof {
                assert(args[i as int] == (opt_uid_view(self.ty@[i as int].0), self.ty@[i as int].1@));
            }
            match &self.ty[i].0 {
                Some(id) => {
                    let var = (id.clone(), self.ty[i].1.duplicate());
                    proof {
                        assert(vars_view(vars@.push(var)) =~= vars_view(vars@).push((var.0@, var.1@)));
                    }
                    vars.push(var);
                },
                None => {},
            }
            i = i + 1;
        }
        vars
    }

    pub fn argumentids(&self) -> (ids: Vec<Uid>)
        ensures
            uids_view(ids@) == self@.argumentids(),
    {
        let vars = self.vars();
        let mut ids: Vec<Uid> = Vec::new();
        let mut i: usize = 0;
        let ghost all = self@.vars();
        assert(uids_view(ids@) =~= all.take(0).map_values(
            |v: (Seq<char>, CustomBlockInputTypeView)| v.0,
        ));
        while i < vars.len()
            invariant
                0 <= i <= vars.len(),
                all == vars_view(vars@),
                uids_view(ids@) == all.take(i as int).map_values(
                    |v: (Seq<char>, CustomBlockInputTypeView)| v.0,
                ),
            decreases vars.len() - i,
        {
            let id = vars[i].0.clone();
            proof {
                lemma_uids_view_push(ids@, id);
                assert(all[i as int] == (vars@[i as int].0@, vars@[i as int].1@));
                assert(all.take(i + 1).map_values(|v: (Seq<char>, CustomBlockInputTypeView)| v.0)
                    =~= all.take(i as int).map_values(
                    |v: (Seq<char>, CustomBlockInputTypeView)| v.0,
                ).push(all[i as int].0));
            }
            ids.push(id);
            i = i + 1;
        }
        assert(all.take(i as int) =~= all);
        ids
    }

    pub fn argumentnames(&self) -> (names: Vec<String>)
        ensures
            texts_view(names@) == self@.argumentnames(),
    {
        let vars = self.vars();
        let mut names: Vec<String> = Vec::new();
        let mut i: usize = 0;
        let ghost all = self@.vars();
        assert(texts_view(names@) =~= all.take(0).map_values(
            |v: (Seq<char>, CustomBlockInputTypeView)| v.1.name(),
        ));
        while i < vars.len()
            invariant
                0 <= i <= vars.len(),
                all == vars_view(vars@),
                texts_view(names@) == all.take(i as int).map_values(
                    |v: (Seq<char>, CustomBlockInputTypeView)| v.1.name(),
                ),
            decreases vars.len() - i,
        {
            let name = vars[i].1.name();
            proof {
                lemma_texts_view_push(names@, name);
                assert(all[i as int] == (vars@[i as int].0@, vars@[i as int].1@));
                assert(all.take(i + 1).map_values(
                    |v: (Seq<char>, CustomBlockInputTypeView)| v.1.name(),
                ) =~= all.take(i as int).map_values(
                    |v: (Seq<char>, CustomBlockInputTypeView)| v.1.name(),
                ).push(all[i as int].1.name()));
            }
            names.push(name);
            i = i + 1;
        }
        assert(all.take(i as int) =~= all);
        names
    }

    pub fn argumentdefaults(&self) -> (defaults: Vec<ValueWithBool>)
        ensures
            defaults_view(defaults@) == self@.argumentdefaults(),
    {
        let vars = self.vars();
        let mut defaults: Vec<ValueWithBool> = Vec::new();
        let mut i: usize = 0;
        let ghost all = self@.vars();
        assert(defaults_view(defaults@) =~= all.take(0).map_values(
            |v: (Seq<char>, CustomBlockInputTypeView)| v.1.default_value(),
        ));
        while i < vars.len()
            invariant
                0 <= i <= vars.len(),
                all == vars_view(vars@),
                defaults_view(defaults@) == all.take(i as int).map_values(
                    |v: (Seq<char>, CustomBlockInputTypeView)| v.1.default_value(),
                ),
            decreases vars.len() - i,
        {
            let value = match &vars[i].1 {
                CustomBlockInputType::Boolean(_) => ValueWithBool::Bool(false),
                _ => ValueWithBool::Text(String::new()),
            };
            proof {
                lemma_defaults_view_push(defaults@, value);
                assert(all[i as int] == (vars@[i as int].0@, vars@[i as int].1@));
                assert(all.take(i + 1).map_values(
                    |v: (Seq<char>, CustomBlockInputTypeView)| v.1.default_value(),
                ) =~= all.take(i as int).map_values(
                    |v: (Seq<char>, CustomBlockInputTypeView)| v.1.default_value(),
                ).push(all[i as int].1.default_value()));
            }
            defaults.push(value);
            i = i + 1;
        }
        assert(all.take(i as int) =~= all);
        defaults
    }

    pub fn warp(&self) -> (warp: bool)
        ensures
            warp == self@.warp,
    {
        self.warp
    }

    /// The signature data of a node that calls the procedure.
    pub fn call_mutation(&self) -> (mutation: BlockMutationEnum)
        ensures
            mutation@ == self@.call_mutation(),
    {
        BlockMutationEnum::ProceduresCall {
            proccode: self.proccode(),
            argumentids: self.argumentids(),
            warp: Some(self.warp),
        }
    }

    /// The signature data of the prototype node of the procedure's definition.
    pub fn define_mutation(&self) -> (mutation: BlockMutationEnum)
        ensures
            mutation@ == self@.define_mutation(),
    {
        BlockMutationEnum::ProceduresPrototype {
            proccode: self.proccode(),
            argumentids: self.argumentids(),
            argumentnames: self.argumentnames(),
            argumentdefaults: self.argumentdefaults(),
            warp: Some(self.warp),
        }
    }
}

} // verus!

verus! {

/// Describes the definition of a procedure that is registered under `name`.
#[derive(Debug, Default, Clone, PartialEq)]
pub struct CustomBlockBuilder {
    pub name: String,
    pub x: Option<rs_sb3::value::Number>,
    pub y: Option<rs_sb3::value::Number>,
    pub comment: Option<CommentBuilder>,
}

impl CustomBlockBuilder {
    /// The definition of the procedure `name`, with nothing else set.
    pub fn new(name: String) -> (builder: CustomBlockBuilder)
        ensures
            builder == (CustomBlockBuilder { name, x: None, y: None, comment: None }),
    {
        CustomBlockBuilder { name, x: None, y: None, comment: None }
    }

    pub fn set_comment(&mut self, comment: CommentBuilder) -> (builder: &mut Self)
        ensures
            *builder == (CustomBlockBuilder { comment: Some(comment), ..*old(self) }),
            *final(self) == *final(builder),
    {
        self.comment = Some(comment);
        self
    }

    pub fn set_x(&mut self, x: rs_sb3::value::Number) -> (builder: &mut Self)
        ensures
            *builder == (CustomBlockBuilder { x: Some(x), ..*old(self) }),
            *final(self) == *final(builder),
    {
        self.x = Some(x);
        self
    }

    pub fn set_y(&mut self, y: rs_sb3::value::Number) -> (builder: &mut Self)
        ensures
            *builder == (CustomBlockBuilder { y: Some(y), ..*old(self) }),
            *final(self) == *final(builder),
    {
        self.y = Some(y);
        self
    }

    pub fn set_pos(&mut self, x: rs_sb3::value::Number, y: rs_sb3::value::Number) -> (builder:
        &mut Self)
        ensures
            *builder == (CustomBlockBuilder { x: Some(x), y: Some(y), ..*old(self) }),
            *final(self) == *final(builder),
    {
        self.x = Some(x);
        self.y = Some(y);
        self
    }
}

/// Describes a call of the procedure that is registered under `name`.  An argument
/// is supplied under the name that the procedure's signature gives it.
#[derive(Debug, Default, PartialEq)]
pub struct CustomFuncCallBuilder {
    pub name: String,
    pub comment: Option<CommentBuilder>,
    pub args: Vec<(String, BlockInputBuilder)>,
    pub shadow: bool,
    pub x: Option<rs_sb3::value::Number>,
    pub y: Option<rs_sb3::value::Number>,
}

/// Written by hand, since the builders hold each other and Verus takes no derived
/// `Clone` that goes round such a circle.  A copy is like what it was made from.
impl Clone for CustomFuncCallBuilder {
    fn clone(&self) -> (copy: CustomFuncCallBuilder)
        ensures
            like_call(*self, copy),
    {
        self.duplicate()
    }
}

impl CustomFuncCallBuilder {
    /// A call of the procedure with the empty name, with nothing set.
    pub fn new() -> (builder: CustomFuncCallBuilder)
        ensures
            builder.name@ == Seq::<char>::empty(),
            builder.comment is None,
            builder.args@ == Seq::<(String, BlockInputBuilder)>::empty(),
            !builder.shadow,
            builder.x is None,
            builder.y is None,
    {
        CustomFuncCallBuilder {
            name: String::new(),
            comment: None,
            args: Vec::new(),
            shadow: false,
            x: None,
            y: None,
        }
    }

    /// Supplies the argument `key`, in place of what was supplied for it.
    pub fn add_input(&mut self, key: String, input: BlockInputBuilder) -> (builder: &mut Self)
        ensures
            builder.args@ == put(old(self).args@, key, input),
            *builder == (CustomFuncCallBuilder { args: builder.args, ..*old(self) }),
            *final(self) == *final(builder),
    {
        put_entry(&mut self.args, key, input);
        self
    }

    pub fn set_comment(&mut self, comment: CommentBuilder) -> (builder: &mut Self)
        ensures
            *builder == (CustomFuncCallBuilder { comment: Some(comment), ..*old(self) }),
            *final(self) == *final(builder),
    {
        self.comment = Some(comment);
        self
    }

    pub fn set_args(&mut self, args: Vec<(String, BlockInputBuilder)>) -> (builder: &mut Self)
        ensures
            *builder == (CustomFuncCallBuilder { args, ..*old(self) }),
            *final(self) == *final(builder),
    {
        self.args = args;
        self
    }

    pub fn set_shadow(&mut self, is_shadow: bool) -> (builder: &mut Self)
        ensures
            *builder == (CustomFuncCallBuilder { shadow: is_shadow, ..*old(self) }),
            *final(self) == *final(builder),
    {
        self.shadow = is_shadow;
        self
    }

    pub fn set_name(&mut self, name: String) -> (builder: &mut Self)
        ensures
            *builder == (CustomFuncCallBuilder { name, ..*old(self) }),
            *final(self) == *final(builder),
    {
        self.name = name;
        self
    }

    pub fn set_x(&mut self, x: Option<rs_sb3::value::Number>) -> (builder: &mut Self)
        ensures
            *builder == (CustomFuncCallBuilder { x, ..*old(self) }),
            *final(self) == *final(builder),
    {
        self.x = x;
        self
    }

    pub fn set_y(&mut self, y: Option<rs_sb3::value::Number>) -> (builder: &mut Self)
        ensures
            *builder == (CustomFuncCallBuilder { y, ..*old(self) }),
            *final(self) == *final(builder),
    {
        self.y = y;
        self
    }

    pub fn set_pos(
        &mut self,
        x: Option<rs_sb3::value::Number>,
        y: Option<rs_sb3::value::Number>,
    ) -> (builder: &mut Self)
        ensures
            *builder == (CustomFuncCallBuilder { x, y, ..*old(self) }),
            *final(self) == *final(builder),
    {
        self.x = x;
        self.y = y;
        self
    }
}

/// An input of one slot that refers to the node `id` as its shadow.
pub(crate) fn reference_input(id: Uid) -> (input: BlockInput)
    ensures
        input@ == shadow_reference(id@),
{
    let mut slots: Vec<Option<UidOrValue>> = Vec::new();
    slots.push(Some(UidOrValue::Uid(id)));
    let input = BlockInput { shadow: ShadowInputType::Shadow, inputs: slots };
    assert(input@.inputs =~= shadow_reference(id@).inputs);
    input
}

/// The node that reports the argument `kind` inside the prototype `parent`.
pub(crate) fn make_reporter(kind: &CustomBlockInputType, parent: &Uid) -> (node: BlockNormal)
    ensures
        node@ == reporter_node(kind@, parent@),
{
    let opcode = match kind {
        CustomBlockInputType::Boolean(_) => "argument_reporter_boolean".to_owned(),
        _ => "argument_reporter_string_number".to_owned(),
    };
    let mut fields: Vec<(String, BlockField)> = Vec::new();
    fields.push(("VALUE".to_owned(), BlockField::WithId { value: Value::Text(kind.name()), id: None }));
    let node = BlockNormal {
        opcode,
        comment: None,
        next: None,
        parent: Some(parent.clone()),
        inputs: Vec::new(),
        fields,
        shadow: true,
        top_level: false,
        mutation: None,
        x: None,
        y: None,
    };
    assert(node@.fields =~= reporter_node(kind@, parent@).fields);
    assert(node@.inputs =~= reporter_node(kind@, parent@).inputs);
    node
}

/// Adds the prototype of a procedure and the reporters of its arguments to
/// `final_stack`, below the definition node `definition`, and gives the
/// prototype's identifier.
pub(crate) fn emit_prototype(
    signature: &CustomBlockTy,
    definition: &Uid,
    final_stack: &mut BlockMap,
    ids: &mut UidSource,
) -> (prototype: Uid)
    ensures
        forall|comments: CommentMap|
            (prototype@, #[trigger] graph_of(*final(ids), *final(final_stack), comments))
                == prototype_spec(
                signature@,
                definition@,
                graph_of(*old(ids), *old(final_stack), comments),
            ),
{
    let prototype = ids.generate();
    let vars = signature.vars();
    let mut inputs: Vec<(String, BlockInput)> = Vec::new();
    let mut j: usize = 0;
    let ghost start_ids = *ids;
    let ghost start_stack = *final_stack;
    assert(inputs_view(inputs@) =~= Seq::empty());
    while j < vars.len()
        invariant
            0 <= j <= vars.len(),
            vars_view(vars@) == signature@.vars(),
            forall|comments: CommentMap|
                reporters_spec(
                    signature@.vars(),
                    j as int,
                    prototype@,
                    inputs_view(inputs@),
                    #[trigger] graph_of(*ids, *final_stack, comments),
                ) == reporters_spec(
                    signature@.vars(),
                    0,
                    prototype@,
                    Seq::empty(),
                    graph_of(start_ids, start_stack, comments),
                ),
        decreases vars.len() - j,
    {
        let ghost before_ids = *ids;
        let ghost earlier_stack = *final_stack;
        let ghost before_inputs = inputs@;
        let reporter = ids.generate();
        let node = make_reporter(&vars[j].1, &prototype);
        final_stack.insert(reporter.clone(), Block::Normal(node));
        let entry = (vars[j].0.clone().into_inner(), reference_input(reporter));
        proof {
            lemma_inputs_view_push(inputs@, entry);
            assert(signature@.vars()[j as int] == (vars@[j as int].0@, vars@[j as int].1@));
        }
        inputs.push(entry);
        j = j + 1;
        proof {
            assert forall|comments: CommentMap|
                reporters_spec(
                    signature@.vars(),
                    j as int,
                    prototype@,
                    inputs_view(inputs@),
                    #[trigger] graph_of(*ids, *final_stack, comments),
                ) == reporters_spec(
                    signature@.vars(),
                    0,
                    prototype@,
                    Seq::empty(),
                    graph_of(start_ids, start_stack, comments),
                ) by {
                let g = graph_of(before_ids, earlier_stack, comments);
                assert(reporters_spec(
                    signature@.vars(),
                    j - 1,
                    prototype@,
                    inputs_view(before_inputs),
                    g,
                ) == reporters_spec(
                    signature@.vars(),
                    0,
                    prototype@,
                    Seq::empty(),
                    graph_of(start_ids, start_stack, comments),
                ));
                assert(graph_of(*ids, *final_stack, comments) == g.advance().with_block(
                    reporter@,
                    BlockView::Normal(reporter_node(signature@.vars()[j - 1].1, prototype@)),
                ));
            }
        }
    }
    let node = BlockNormal {
        opcode: "procedures_prototype".to_owned(),
        comment: None,
        next: None,
        parent: Some(definition.clone()),
        inputs,
        fields: Vec::new(),
        shadow: true,
        top_level: false,
        mutation: Some(BlockMutation::new(signature.define_mutation())),
        x: None,
        y: None,
    };
    assert(node@.fields =~= Seq::empty());
    let ghost before_stack = *final_stack;
    final_stack.insert(prototype.clone(), Block::Normal(node));
    proof {
        assert forall|comments: CommentMap|
            (prototype@, #[trigger] graph_of(*ids, *final_stack, comments)) == prototype_spec(
                signature@,
                definition@,
                graph_of(*old(ids), *old(final_stack), comments),
            ) by {
            let g = graph_of(*old(ids), *old(final_stack), comments);
            assert(graph_of(start_ids, start_stack, comments) == g.advance());
            let done = graph_of(*ids, before_stack, comments);
            assert(reporters_spec(
                signature@.vars(),
                vars.len() as int,
                prototype@,
                inputs_view(node.inputs@),
                done,
            ) == (inputs_view(node.inputs@), done));
            assert(graph_of(*ids, *final_stack, comments) == done.with_block(
                prototype@,
                BlockView::Normal(node@),
            ));
        }
    }
    prototype
}

/// The node that defines a procedure, over the prototype `prototype`.
pub(crate) fn make_definition(
    prototype: Uid,
    comment: Option<Uid>,
    x: Option<rs_sb3::value::Number>,
    y: Option<rs_sb3::value::Number>,
) -> (node: BlockNormal)
    ensures
        node@ == definition_node(prototype@, opt_uid_view(comment), x, y),
{
    let mut inputs: Vec<(String, BlockInput)> = Vec::new();
    inputs.push(("custom_block".to_owned(), reference_input(prototype)));
    let node = BlockNormal {
        opcode: "procedures_definition".to_owned(),
        comment,
        next: None,
        parent: None,
        inputs,
        fields: Vec::new(),
        shadow: false,
        top_level: false,
        mutation: None,
        x,
        y,
    };
    assert(node@.inputs =~= definition_node(prototype@, opt_uid_view(comment), x, y).inputs);
    assert(node@.fields =~= Seq::empty());
    node
}

impl CustomBlockBuilder {
    /// Builds the definition of the procedure under the identifier `my_uid`, not
    /// yet linked.  The prototype and the reporters of the arguments are added to
    /// `final_stack`, the note to `comment_buff`.  Nodes and notes that stood
    /// under identifiers of their own, none of which `ids` may still issue, do so
    /// again afterwards.  Where no procedure is registered under the name,
    /// nothing is built and nothing changes.
    pub fn build(
        self,
        my_uid: &Uid,
        comment_buff: &mut CommentMap,
        final_stack: &mut BlockMap,
        target_context: &TargetContext,
        ids: &mut UidSource,
    ) -> (built: Result<BlockNormal, BuildError>)
        ensures
            match built {
                Ok(node) => {
                    &&& find(target_context@.custom_blocks, self.name@) is Some
                    &&& (node@, graph_of(*final(ids), *final(final_stack), *final(comment_buff)))
                        == definition_spec(
                        self,
                        signature_of(target_context@, self.name@),
                        my_uid@,
                        graph_of(*old(ids), *old(final_stack), *old(comment_buff)),
                    )
                    &&& stays_settled(
                        graph_of(*old(ids), *old(final_stack), *old(comment_buff)),
                        graph_of(*final(ids), *final(final_stack), *final(comment_buff)),
                    )
                },
                Err(fault) => {
                    &&& find(target_context@.custom_blocks, self.name@) is None
                    &&& fault@ == BuildErrorView::ProcedureNotFound(self.name@)
                    &&& graph_of(*final(ids), *final(final_stack), *final(comment_buff))
                        == graph_of(*old(ids), *old(final_stack), *old(comment_buff))
                },
            },
    {
        match target_context.custom_blocks.find(&self.name) {
            Some(_) => {
                proof {
                    lemma_block(
                        BlockBuilder::CustomBlock(self),
                        my_uid@,
                        target_context@,
                        graph_of(*ids, *final_stack, *comment_buff),
                    );
                }
                Ok(self.assemble(my_uid, comment_buff, final_stack, target_context, ids))
            },
            None => Err(BuildError::ProcedureNotFound(self.name)),
        }
    }

    pub(crate) fn assemble(
        &self,
        my_uid: &Uid,
        comment_buff: &mut CommentMap,
        final_stack: &mut BlockMap,
        target_context: &TargetContext,
        ids: &mut UidSource,
    ) -> (node: BlockNormal)
        requires
            find(target_context@.custom_blocks, self.name@) is Some,
        ensures
            (node@, graph_of(*final(ids), *final(final_stack), *final(comment_buff)))
                == definition_spec(
                *self,
                signature_of(target_context@, self.name@),
                my_uid@,
                graph_of(*old(ids), *old(final_stack), *old(comment_buff)),
            ),
    {
        match target_context.custom_blocks.find(&self.name) {
            Some(signature) => {
                let ghost start = graph_of(*ids, *final_stack, *comment_buff);
                let prototype = emit_prototype(signature, my_uid, final_stack, ids);
                let ghost middle = graph_of(*ids, *final_stack, *comment_buff);
                proof {
                    assert((prototype@, middle) == prototype_spec(signature@, my_uid@, start));
                }
                let comment = attach_note(&self.comment, my_uid, comment_buff, ids);
                proof {
                    assert((opt_uid_view(comment), graph_of(*ids, *final_stack, *comment_buff))
                        == note_spec(self.comment, my_uid@, middle));
                }
                make_definition(prototype, comment, self.x, self.y)
            },
            None => vstd::pervasive::unreached(),
        }
    }
}

impl CustomFuncCallBuilder {
    /// Builds the call under the identifier `my_uid`, not yet linked.  Every
    /// argument of the procedure that takes a value gets an input under the
    /// argument's identifier: what the call supplies under the argument's name,
    /// or, where it supplies nothing, the empty text for an argument that takes
    /// a text or a number, and no input at all for one that takes a truth value.
    /// What the call supplies under a name that the procedure does not take is
    /// left out.  Nodes and notes that stood under identifiers of their own, none
    /// of which `ids` may still issue, do so again afterwards.  Where no
    /// procedure is registered under the name, or an argument that is built has
    /// a fault, nothing is built and nothing changes.
    pub fn build(
        self,
        my_uid: &Uid,
        comment_buff: &mut CommentMap,
        final_stack: &mut BlockMap,
        target_context: &TargetContext,
        ids: &mut UidSource,
    ) -> (built: Result<BlockNormal, BuildError>)
        ensures
            match built {
                Ok(node) => {
                    &&& self.fault_spec(target_context@.custom_blocks) is None
                    &&& (node@, graph_of(*final(ids), *final(final_stack), *final(comment_buff)))
                        == call_spec(
                        self,
                        signature_of(target_context@, self.name@),
                        my_uid@,
                        target_context@,
                        graph_of(*old(ids), *old(final_stack), *old(comment_buff)),
                    )
                    &&& stays_settled(
                        graph_of(*old(ids), *old(final_stack), *old(comment_buff)),
                        graph_of(*final(ids), *final(final_stack), *final(comment_buff)),
                    )
                },
                Err(fault) => {
                    &&& self.fault_spec(target_context@.custom_blocks) == Some(fault@)
                    &&& graph_of(*final(ids), *final(final_stack), *final(comment_buff))
                        == graph_of(*old(ids), *old(final_stack), *old(comment_buff))
                },
            },
    {
        match self.fault(target_context.custom_blocks) {
            Some(fault) => Err(fault),
            None => {
                proof {
                    lemma_block(
                        BlockBuilder::CustomBlockCall(self),
                        my_uid@,
                        target_context@,
                        graph_of(*ids, *final_stack, *comment_buff),
                    );
                }
                Ok(self.assemble(my_uid, comment_buff, final_stack, target_context, ids))
            },
        }
    }

    /// The first fault of the call: that no procedure is registered under its
    /// name, or else the first fault among the arguments that are built.
    pub open spec fn fault_spec(self, procs: Seq<SignatureView>) -> Option<BuildErrorView> {
        match find(procs, self.name@) {
            None => Some(BuildErrorView::ProcedureNotFound(self.name@)),
            Some(signature) => call_fault(self, signature.vars(), 0, procs),
        }
    }

    /// The first fault of the call, in the order in which a build would meet it.
    pub fn fault(&self, registry: &ProcRegistry) -> (fault: Option<BuildError>)
        ensures
            fault_view(fault) == self.fault_spec(registry@),
        decreases *self,
    {
        match registry.find(&self.name) {
            None => Some(BuildError::ProcedureNotFound(self.name.clone())),
            Some(signature) => {
                let vars = signature.vars();
                let mut j: usize = 0;
                while j < vars.len()
                    invariant
                        0 <= j <= vars.len(),
                        vars_view(vars@) == signature@.vars(),
                        find(registry@, self.name@) == Some(signature@),
                        call_fault(*self, signature@.vars(), 0, registry@) == call_fault(
                            *self,
                            signature@.vars(),
                            j as int,
                            registry@,
                        ),
                    decreases vars.len() - j,
                {
                    let name = vars[j].1.name();
                    proof {
                        assert(signature@.vars()[j as int] == (vars@[j as int].0@, vars@[j as int].1@));
                    }
                    match find_key(&self.args, &name) {
                        Some(k) => {
                            match self.args[k].1.fault(registry) {
                                Some(fault) => {
                                    return Some(fault);
                                },
                                None => {},
                            }
                        },
                        None => {},
                    }
                    j = j + 1;
                }
                None
            },
        }
    }

    pub(crate) fn assemble(
        &self,
        my_uid: &Uid,
        comment_buff: &mut CommentMap,
        final_stack: &mut BlockMap,
        target_context: &TargetContext,
        ids: &mut UidSource,
    ) -> (node: BlockNormal)
        requires
            self.fault_spec(target_context@.custom_blocks) is None,
        ensures
            (node@, graph_of(*final(ids), *final(final_stack), *final(comment_buff))) == call_spec(
                *self,
                signature_of(target_context@, self.name@),
                my_uid@,
                target_context@,
                graph_of(*old(ids), *old(final_stack), *old(comment_buff)),
            ),
        decreases *self,
    {
        match target_context.custom_blocks.find(&self.name) {
            Some(signature) => {
                let vars = signature.vars();
                let mut inputs: Vec<(String, BlockInput)> = Vec::new();
                let mut j: usize = 0;
                let ghost goal = call_inputs_spec(
                    *self,
                    signature@.vars(),
                    0,
                    my_uid@,
                    target_context@,
                    Seq::empty(),
                    graph_of(*ids, *final_stack, *comment_buff),
                );
                assert(inputs_view(inputs@) =~= Seq::empty());
                while j < vars.len()
                    invariant
                        0 <= j <= vars.len(),
                        vars_view(vars@) == signature@.vars(),
                        call_fault(
                            *self,
                            signature@.vars(),
                            j as int,
                            target_context@.custom_blocks,
                        ) is None,
                        call_inputs_spec(
                            *self,
                            signature@.vars(),
                            j as int,
                            my_uid@,
                            target_context@,
                            inputs_view(inputs@),
                            graph_of(*ids, *final_stack, *comment_buff),
                        ) == goal,
                    decreases vars.len() - j,
                {
                    let name = vars[j].1.name();
                    proof {
                        assert(signature@.vars()[j as int] == (vars@[j as int].0@, vars@[j as int].1@));
                        lemma_key_position(self.args@, name@, 0);
                    }
                    match find_key(&self.args, &name) {
                        Some(k) => {
                            let input = self.args[k].1.assemble(
                                my_uid,
                                comment_buff,
                                final_stack,
                                target_context,
                                ids,
                            );
                            let entry = (vars[j].0.clone().into_inner(), input);
                            proof {
                                lemma_inputs_view_push(inputs@, entry);
                            }
                            inputs.push(entry);
                        },
                        None => {
                            match &vars[j].1 {
                                CustomBlockInputType::Boolean(_) => {},
                                _ => {
                                    let entry = (vars[j].0.clone().into_inner(), empty_text_input());
                                    proof {
                                        lemma_inputs_view_push(inputs@, entry);
                                    }
                                    inputs.push(entry);
                                },
                            }
                        },
                    }
                    j = j + 1;
                }
                let ghost middle = graph_of(*ids, *final_stack, *comment_buff);
                let comment = attach_note(&self.comment, my_uid, comment_buff, ids);
                proof {
                    assert((opt_uid_view(comment), graph_of(*ids, *final_stack, *comment_buff))
                        == note_spec(self.comment, my_uid@, middle));
                }
                let node = BlockNormal {
                    opcode: "procedures_call".to_owned(),
                    comment,
                    next: None,
                    parent: None,
                    inputs,
                    fields: Vec::new(),
                    shadow: self.shadow,
                    top_level: false,
                    mutation: Some(BlockMutation::new(signature.call_mutation())),
                    x: self.x,
                    y: self.y,
                };
                assert(node@.fields =~= Seq::empty());
                node
            },
            None => vstd::pervasive::unreached(),
        }
    }
}

/// The input of a call for an argument that the call leaves out and that takes a
/// text or a number.
pub(crate) fn empty_text_input() -> (input: BlockInput)
    ensures
        input@ == default_input(),
{
    let mut slots: Vec<Option<UidOrValue>> = Vec::new();
    slots.push(Some(UidOrValue::Value(BlockInputValue::String { value: Value::Text(String::new()) })));
    let input = BlockInput { shadow: ShadowInputType::Shadow, inputs: slots };
    assert(input@.inputs =~= default_input().inputs);
    input
}

} // verus!
