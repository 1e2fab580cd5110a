//! Procedures that are described by their arguments: building such a procedure
//! makes its signature, registers it and defines it.

use crate::arena::BlockMap;
use crate::arena::CommentMap;
use crate::assembly::definition_node;
use crate::assembly::Graph;
use crate::assembly::graph_of;
use crate::assembly::note_spec;
use crate::assembly::prototype_spec;
use crate::assembly::reporter_node;
use crate::block::attach_note;
use crate::build_context::ProcRegistry;
use crate::build_context::register;
use crate::comment::CommentBuilder;
use crate::custom_block::assign_ids;
use crate::custom_block::CustomBlockInputType;
use crate::custom_block::CustomBlockInputTypeView;
use crate::custom_block::CustomBlockTy;
use crate::custom_block::emit_prototype;
use crate::custom_block::kinds_view;
use crate::custom_block::lemma_assign_ids_issues;
use crate::custom_block::make_definition;
use crate::custom_block::make_reporter;
use crate::custom_block::SignatureView;
use crate::document::Block;
use crate::document::BlockNormal;
use crate::document::BlockNormalView;
use crate::document::BlockView;
use crate::document::opt_uid_view;
use crate::freshness::lemma_note;
use crate::freshness::lemma_prototype;
use crate::freshness::lemma_settled_later;
use crate::freshness::settled;
use crate::freshness::stays_settled;
use crate::uid::Uid;
use crate::uid::uid_text;
use crate::uid::UidSource;
use crate::value::ValueWithBool;
use vstd::prelude::*;

verus! {

pub use crate::custom_block::CustomFuncCallBuilder;

/// One argument of a procedure, by kind, with its name.
#[derive(Debug, Clone, PartialEq)]
pub enum CustomFuncInputType {
    /// A word of the procedure's label.
    Text(String),
    /// An argument that takes a text or a number.
    StringOrNumber(String),
    /// An argument that takes a truth value.
    Boolean(String),
}

impl View for CustomFuncInputType {
    type V = CustomBlockInputTypeView;

    open spec fn view(&self) -> CustomBlockInputTypeView {
        match self {
            CustomFuncInputType::Text(name) => CustomBlockInputTypeView::Text(name@),
            CustomFuncInputType::StringOrNumber(name) => CustomBlockInputTypeView::StringOrNumber(
                name@,
            ),
            CustomFuncInputType::Boolean(name) => CustomBlockInputTypeView::Boolean(name@),
        }
    }
}

impl CustomFuncInputType {
    /// The same argument as a signature holds it.
    pub fn to_signature_arg(&self) -> (arg: CustomBlockInputType)
        ensures
            arg@ == self@,
    {
        match self {
            CustomFuncInputType::Text(name) => CustomBlockInputType::Text(name.clone()),
            CustomFuncInputType::StringOrNumber(name) => CustomBlockInputType::StringOrNumber(
                name.clone(),
            ),
            CustomFuncInputType::Boolean(name) => CustomBlockInputType::Boolean(name.clone()),
        }
    }
}

/// The models of a list of arguments.
pub open spec fn params_view(params: Seq<CustomFuncInputType>) -> Seq<CustomBlockInputTypeView> {
    params.map_values(|p: CustomFuncInputType| p@)
}

/// The signature of a new procedure with the given arguments, whose identifiers
/// are issued after `issued` earlier ones.
pub open spec fn new_signature(
    params: Seq<CustomBlockInputTypeView>,
    warp: bool,
    issued: nat,
) -> SignatureView {
    SignatureView { args: assign_ids(params, params.len() as int, issued).0, warp }
}

/// The number of identifiers issued once a new procedure has its signature.
pub open spec fn issued_after_signature(params: Seq<CustomBlockInputTypeView>, issued: nat) -> nat {
    assign_ids(params, params.len() as int, issued).1
}

fn signature_args(params: &Vec<CustomFuncInputType>) -> (args: Vec<CustomBlockInputType>)
    ensures
        kinds_view(args@) == params_view(params@),
{
    let mut args: Vec<CustomBlockInputType> = Vec::new();
    let mut i: usize = 0;
    assert(kinds_view(args@) =~= params_view(params@.take(0)));
    while i < params.len()
        invariant
            0 <= i <= params.len(),
            kinds_view(args@) == params_view(params@.take(i as int)),
        decreases params.len() - i,
    {
        let arg = params[i].to_signature_arg();
        proof {
            assert(kinds_view(args@.push(arg)) =~= kinds_view(args@).push(arg@));
            assert(params_view(params@.take(i + 1)) =~= params_view(params@.take(i as int)).push(
                params@[i as int]@,
            ));
        }
        args.push(arg);
        i = i + 1;
    }
    assert(params@.take(i as int) =~= params@);
    args
}

/// Makes the signature of a procedure with the arguments `params` and adds its
/// prototype and the reporters of its arguments to `stack`, below the definition
/// node `parent`.
///
/// Every argument that takes a value gets a fresh identifier, in order; then the
/// prototype gets one, then each reporter.  Gives the prototype's identifier and
/// the signature.
pub fn generate_func_input_block(
    parent: Uid,
    params: &Vec<CustomFuncInputType>,
    stack: &mut BlockMap,
    warp: bool,
    ids: &mut UidSource,
) -> (made: (Uid, CustomBlockTy))
    ensures
        made.1@ == new_signature(params_view(params@), warp, old(ids)@),
        (made.0@, Graph { issued: final(ids)@, blocks: final(stack)@, comments: Seq::empty() })
            == prototype_spec(
            made.1@,
            parent@,
            Graph {
                issued: issued_after_signature(params_view(params@), old(ids)@),
                blocks: old(stack)@,
                comments: Seq::empty(),
            },
        ),
        settled(old(stack)@, old(ids)@) ==> settled(final(stack)@, final(ids)@),
{
    proof {
        let kinds = params_view(params@);
        let signed = Graph {
            issued: issued_after_signature(kinds, ids@),
            blocks: stack@,
            comments: Seq::empty(),
        };
        lemma_assign_ids_issues(kinds, kinds.len() as int, ids@);
        if settled(stack@, ids@) {
            lemma_settled_later(stack@, ids@, signed.issued);
        }
        lemma_prototype(new_signature(kinds, warp, ids@), parent@, signed);
    }
    let signature = CustomBlockTy::new(signature_args(params), warp, ids);
    let none = CommentMap::new();
    let ghost middle = graph_of(*ids, *stack, none);
    let prototype = emit_prototype(&signature, &parent, stack, ids);
    proof {
        assert((prototype@, graph_of(*ids, *stack, none)) == prototype_spec(
            signature@,
            parent@,
            middle,
        ));
    }
    (prototype, signature)
}

/// Makes the reporter of an argument that takes a truth value, for the prototype
/// `parent`.  Gives the reporter's fresh identifier, the reporter, the token of
/// the argument in the procedure's code, and the argument's default.
pub fn generate_func_input_block_var_boolean(
    parent: String,
    name: String,
    ids: &mut UidSource,
) -> (made:
    (Uid, Block, String, ValueWithBool))
    ensures
        made.0@ == uid_text(old(ids)@),
        final(ids)@ == old(ids)@ + 1,
        made.1@ == BlockView::Normal(
            reporter_node(CustomBlockInputTypeView::Boolean(name@), parent@),
        ),
        made.2@ == CustomBlockInputTypeView::Boolean(name@).token(),
        made.3@ == CustomBlockInputTypeView::Boolean(name@).default_value(),
{
    let uid = ids.generate();
    let node = make_reporter(&CustomBlockInputType::Boolean(name), &Uid::new(parent));
    (uid, Block::Normal(node), "%b".to_owned(), ValueWithBool::Bool(false))
}

/// Makes the reporter of an argument that takes a text or a number, for the
/// prototype `parent`.  Gives the reporter's fresh identifier, the reporter, the
/// token of the argument in the procedure's code, and the argument's default.
pub fn generate_func_input_block_var_string_number(
    parent: Uid,
    name: String,
    ids: &mut UidSource,
) -> (made:
    (Uid, Block, String, ValueWithBool))
    ensures
        made.0@ == uid_text(old(ids)@),
        final(ids)@ == old(ids)@ + 1,
        made.1@ == BlockView::Normal(
            reporter_node(CustomBlockInputTypeView::StringOrNumber(name@), parent@),
        ),
        made.2@ == CustomBlockInputTypeView::StringOrNumber(name@).token(),
        made.3@ == CustomBlockInputTypeView::StringOrNumber(name@).default_value(),
{
    let uid = ids.generate();
    let node = make_reporter(&CustomBlockInputType::StringOrNumber(name), &parent);
    (uid, Block::Normal(node), "%s".to_owned(), ValueWithBool::Text(String::new()))
}

/// Describes a procedure by its arguments.
#[derive(Debug, Default, Clone, PartialEq)]
pub struct CustomFuncBuilder {
    pub comment: Option<CommentBuilder>,
    pub args: Vec<CustomFuncInputType>,
    pub warp: bool,
    pub x: Option<rs_sb3::value::Number>,
    pub y: Option<rs_sb3::value::Number>,
}

/// What building a procedure yields: its definition node, which is the top of
/// a script, its signature, and the state of the build.
pub open spec fn procedure_spec(builder: CustomFuncBuilder, my: Seq<char>, g: Graph) -> (
    BlockNormalView,
    SignatureView,
    Graph,
) {
    let params = params_view(builder.args@);
    let signature = new_signature(params, builder.warp, g.issued);
    let (prototype, g1) = prototype_spec(
        signature,
        my,
        Graph { issued: issued_after_signature(params, g.issued), ..g },
    );
    let (note, g2) = note_spec(builder.comment, my, g1);
    (
        BlockNormalView { top_level: true, ..definition_node(prototype, note, builder.x, builder.y) },
        signature,
        g2,
    )
}

impl CustomFuncBuilder {
    /// A procedure without arguments, with nothing set.
    pub fn new() -> (builder: CustomFuncBuilder)
        ensures
            builder.comment is None,
            builder.args@ == Seq::<CustomFuncInputType>::empty(),
            !builder.warp,
            builder.x is None,
            builder.y is None,
    {
        CustomFuncBuilder { comment: None, args: Vec::new(), warp: false, x: None, y: None }
    }

    /// Appends an argument.
    pub fn add_arg(&mut self, arg: CustomFuncInputType) -> (builder: &mut Self)
        ensures
            builder.args@ == old(self).args@.push(arg),
            *builder == (CustomFuncBuilder { args: builder.args, ..*old(self) }),
            *final(self) == *final(builder),
    {
        self.args.push(arg);
        self
    }

    pub fn set_comment(&mut self, comment: CommentBuilder) -> (builder: &mut Self)
        ensures
            *builder == (CustomFuncBuilder { comment: Some(comment), ..*old(self) }),
            *final(self) == *final(builder),
    {
        self.comment = Some(comment);
        self
    }

    pub fn set_args(&mut self, args: Vec<CustomFuncInputType>) -> (builder: &mut Self)
        ensures
            *builder == (CustomFuncBuilder { args, ..*old(self) }),
            *final(self) == *final(builder),
    {
        self.args = args;
        self
    }

    pub fn set_warp(&mut self, warp: bool) -> (builder: &mut Self)
        ensures
            *builder == (CustomFuncBuilder { warp, ..*old(self) }),
            *final(self) == *final(builder),
    {
        self.warp = warp;
        self
    }

    pub fn set_x(&mut self, x: rs_sb3::value::Number) -> (builder: &mut Self)
        ensures
            *builder == (CustomFuncBuilder { x: Some(x), ..*old(self) }),
            *final(self) == *final(builder),
    {
        self.x = Some(x);
        self
    }

    pub fn set_y(&mut self, y: rs_sb3::value::Number) -> (builder: &mut Self)
        ensures
            *builder == (CustomFuncBuilder { y: Some(y), ..*old(self) }),
            *final(self) == *final(builder),
    {
        self.y = Some(y);
        self
    }

    pub fn set_pos(&mut self, x: rs_sb3::value::Number, y: rs_sb3::value::Number) -> (builder:
        &mut Self)
        ensures
            *builder == (CustomFuncBuilder { x: Some(x), y: Some(y), ..*old(self) }),
            *final(self) == *final(builder),
    {
        self.x = Some(x);
        self.y = Some(y);
        self
    }

    /// Builds the procedure: makes its signature, adds its prototype and the
    /// reporters of its arguments to `final_stack` and its note to
    /// `comment_buff`, registers the signature under the procedure's name, and
    /// gives the definition node, which has the identifier `my_uid`.
    ///
    /// A signature that was registered under the same name before is replaced.
    /// Nodes and notes that stood under identifiers of their own, none of which
    /// `ids` may still issue, do so again afterwards.
    pub fn build(
        self,
        my_uid: &Uid,
        comment_buff: &mut CommentMap,
        final_stack: &mut BlockMap,
        registry: &mut ProcRegistry,
        ids: &mut UidSource,
    ) -> (node: BlockNormal)
        ensures
            ({
                let made = procedure_spec(
                    self,
                    my_uid@,
                    graph_of(*old(ids), *old(final_stack), *old(comment_buff)),
                );
                &&& node@ == made.0
                &&& final(registry)@ == register(old(registry)@, made.1)
                &&& graph_of(*final(ids), *final(final_stack), *final(comment_buff)) == made.2
            }),
            stays_settled(
                graph_of(*old(ids), *old(final_stack), *old(comment_buff)),
                graph_of(*final(ids), *final(final_stack), *final(comment_buff)),
            ),
    {
        let ghost start = graph_of(*ids, *final_stack, *comment_buff);
        proof {
            let params = params_view(self.args@);
            let signature = new_signature(params, self.warp, start.issued);
            let signed = Graph { issued: issued_after_signature(params, start.issued), ..start };
            lemma_assign_ids_issues(params, params.len() as int, start.issued);
            if settled(start.blocks, start.issued) {
                lemma_settled_later(start.blocks, start.issued, signed.issued);
            }
            if settled(start.comments, start.issued) {
                lemma_settled_later(start.comments, start.issued, signed.issued);
            }
            lemma_prototype(signature, my_uid@, signed);
            lemma_note(self.comment, my_uid@, prototype_spec(signature, my_uid@, signed).1);
        }
        let signature = CustomBlockTy::new(signature_args(&self.args), self.warp, ids);
        let ghost signed = graph_of(*ids, *final_stack, *comment_buff);
        let prototype = emit_prototype(&signature, my_uid, final_stack, ids);
        let ghost middle = graph_of(*ids, *final_stack, *comment_buff);
        proof {
            assert(signed == Graph {
                issued: issued_after_signature(params_view(self.args@), start.issued),
                ..start
            });
            assert((prototype@, middle) == prototype_spec(signature@, my_uid@, signed));
        }
        let comment = attach_note(&self.comment, my_uid, comment_buff, ids);
        proof {
            assert((opt_uid_view(comment), graph_of(*ids, *final_stack, *comment_buff))
                == note_spec(self.comment, my_uid@, middle));
        }
        let mut node = make_definition(prototype, comment, self.x, self.y);
        node.top_level = true;
        registry.register(signature);
        node
    }
}

} // verus!
