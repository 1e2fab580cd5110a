//! Stacks: blocks in the order in which they are chained.

use crate::arena::BlockMap;
use crate::arena::CommentMap;
use crate::arena::distinct_keys;
use crate::arena::has_key;
use crate::assembly::chain_fault;
use crate::assembly::chain_spec;
use crate::assembly::Graph;
use crate::assembly::graph_of;
use crate::assembly::nested_spec;
use crate::assembly::stack_fault;
use crate::assembly::stack_spec;
use crate::assembly::varlist_spec;
use crate::block::BlockBuilder;
use crate::block::BlockNormalBuilder;
use crate::block::BlockVarListBuilder;
use crate::block::inline_reporter;
use crate::block::place_in_graph;
use crate::build_context::ProcRegistry;
use crate::build_context::TargetContext;
use crate::custom_block::CustomBlockBuilder;
use crate::custom_block::CustomFuncCallBuilder;
use crate::document::Block;
use crate::document::opt_uid_view;
use crate::document::slot_view;
use crate::document::UidOrValue;
use crate::error::BuildError;
use crate::error::fault_view;
use crate::freshness::lemma_fresh_is_reserved;
use crate::freshness::lemma_settled_later;
use crate::freshness::lemma_stack_keeps_identifiers_unique;
use crate::freshness::settled;
use crate::laws::holds_chain_of;
use crate::laws::lemma_build_links_the_chain;
use crate::laws::lemma_build_puts_top_where_told;
use crate::laws::lemma_build_yields_one_script;
use crate::laws::one_script;
use crate::laws::top_stands_where_told;
use crate::layout::add_heights;
use crate::layout::BlockHeightData;
use crate::layout::blocks_height;
use crate::layout::clamp;
use crate::layout::stack_height;
use crate::likeness::like_stack;
use crate::uid::reserved;
use crate::uid::Uid;
use crate::uid::uid_text;
use crate::uid::UidSource;
use vstd::prelude::*;

verus! {

/// Describes a chain of blocks, the first block first.
#[derive(Debug, Default, PartialEq)]
pub struct StackBuilder {
    pub stack: Vec<BlockBuilder>,
}

/// Written by hand, since the builders hold each other and Verus takes no derived
/// `Clone` that goes round such a circle.  A copy is like what it was made from.
impl Clone for StackBuilder {
    fn clone(&self) -> (copy: StackBuilder)
        ensures
            like_stack(*self, copy),
    {
        self.duplicate()
    }
}

impl StackBuilder {
    /// A stack without blocks.
    pub fn new() -> (stack: StackBuilder)
        ensures
            stack.stack@ == Seq::<BlockBuilder>::empty(),
    {
        StackBuilder { stack: Vec::new() }
    }

    /// A stack that starts with a statement or an expression.
    pub fn start(block: BlockNormalBuilder) -> (stack: StackBuilder)
        ensures
            stack.stack@ == seq![BlockBuilder::Normal(block)],
    {
        StackBuilder::start_with_capacity(1, BlockBuilder::Normal(block))
    }

    /// A stack that consists of a reporter of a variable or a list.  Nothing can
    /// be chained to such a reporter.
    pub fn start_varlist(block: BlockVarListBuilder) -> (stack: StackBuilder)
        ensures
            stack.stack@ == seq![BlockBuilder::VarList(block)],
    {
        StackBuilder::start_with_capacity(1, BlockBuilder::VarList(block))
    }

    /// A stack of one block with room for `capacity` blocks.
    pub fn start_with_capacity(capacity: usize, block: BlockBuilder) -> (stack: StackBuilder)
        ensures
            stack.stack@ == seq![block],
    {
        let mut stack: Vec<BlockBuilder> = Vec::with_capacity(capacity);
        stack.push(block);
        StackBuilder { stack }
    }

    /// A stack without blocks with room for `capacity` blocks.
    pub fn with_capacity(capacity: usize) -> (stack: StackBuilder)
        ensures
            stack.stack@ == Seq::<BlockBuilder>::empty(),
    {
        StackBuilder { stack: Vec::with_capacity(capacity) }
    }

    /// This stack with the blocks of `next_stack` chained to its end.
    pub fn next(self, next_stack: StackBuilder) -> (stack: StackBuilder)
        ensures
            stack.stack@ == self.stack@ + next_stack.stack@,
    {
        let mut stack = self;
        let mut next_stack = next_stack;
        stack.stack.append(&mut next_stack.stack);
        stack
    }

    /// The first fault of the stack, in the order in which a build would meet it;
    /// `None` where the stack can be built.
    pub fn fault(&self, registry: &ProcRegistry) -> (fault: Option<BuildError>)
        ensures
            fault_view(fault) == stack_fault(*self, registry@),
        decreases *self,
    {
        if self.stack.len() == 0 {
            return Some(BuildError::EmptyStack);
        }
        if self.stack[0].is_reporter() {
            return None;
        }
        let mut i: usize = 0;
        while i < self.stack.len()
            invariant
                0 <= i <= self.stack.len(),
                self.stack.len() > 0,
                !(self.stack[0] is VarList),
                chain_fault(*self, 0, registry@) == chain_fault(*self, i as int, registry@),
            decreases self.stack.len() - i,
        {
            let here = if i > 0 && self.stack[i].is_reporter() {
                Some(BuildError::ReporterInChain)
            } else {
                self.stack[i].fault(registry)
            };
            match here {
                Some(fault) => {
                    return Some(fault);
                },
                None => {},
            }
            i = i + 1;
        }
        None
    }

    /// Builds the stack as a script of its own and gives its nodes.  The first
    /// block gets the identifier `first_block_uid`; every other node gets a fresh
    /// identifier from `ids`.  The notes are added to `comment_buff`.
    ///
    /// The first node is marked top-level and has a position, the origin where
    /// the builder gave none.  Every other node of the chain has the node before
    /// it as its parent, is not top-level and has no position; every node but the
    /// last has the node behind it as its `next`.  A stack that starts with
    /// a reporter of a variable or a list yields that reporter alone.
    ///
    /// Every node stands under an identifier of its own, and one stands under
    /// `first_block_uid`.  Where `first_block_uid` is none that `ids` may still
    /// issue, as is every identifier that `ids` has issued, the nodes are those of
    /// one script: the one under `first_block_uid` is its top, and no other is
    /// marked top-level.  An identifier that `ids` may still issue can be issued
    /// for a later node, which then takes the place of the first; use
    /// [`StackBuilder::build_script`] to have the first identifier drawn from
    /// `ids`.  Notes that stood under identifiers none of which `ids` may still
    /// issue do so again after the build.
    ///
    /// Where the stack has a fault, the fault is returned; then nothing was
    /// built, no identifier was issued and `comment_buff` is as it was.
    pub fn build(
        self,
        first_block_uid: &Uid,
        comment_buff: &mut CommentMap,
        target_context: &TargetContext,
        ids: &mut UidSource,
    ) -> (built: Result<BlockMap, BuildError>)
        ensures
            match built {
                Ok(blocks) => {
                    &&& stack_fault(self, target_context@.custom_blocks) is None
                    &&& graph_of(*final(ids), blocks, *final(comment_buff)) == stack_spec(
                        self,
                        first_block_uid@,
                        target_context@,
                        Graph {
                            issued: old(ids)@,
                            blocks: Seq::empty(),
                            comments: old(comment_buff)@,
                        },
                    )
                    &&& has_key(blocks@, first_block_uid@)
                    &&& distinct_keys(blocks@)
                    &&& !reserved(first_block_uid@, old(ids)@) ==> {
                        &&& one_script(blocks@, first_block_uid@)
                        &&& top_stands_where_told(blocks@, first_block_uid@, self)
                        &&& holds_chain_of(
                            blocks@,
                            self,
                            first_block_uid@,
                            target_context@,
                            Graph {
                                issued: old(ids)@,
                                blocks: Seq::empty(),
                                comments: old(comment_buff)@,
                            },
                        )
                    }
                    &&& settled(old(comment_buff)@, old(ids)@) ==> settled(
                        final(comment_buff)@,
                        final(ids)@,
                    )
                },
                Err(fault) => {
                    &&& stack_fault(self, target_context@.custom_blocks) == Some(fault@)
                    &&& final(ids)@ == old(ids)@
                    &&& final(comment_buff)@ == old(comment_buff)@
                },
            },
    {
        match self.fault(target_context.custom_blocks) {
            Some(fault) => Err(fault),
            None => {
                let mut blocks = BlockMap::new();
                proof {
                    let g = Graph {
                        issued: ids@,
                        blocks: Seq::empty(),
                        comments: comment_buff@,
                    };
                    lemma_stack_keeps_identifiers_unique(
                        self,
                        first_block_uid@,
                        target_context@,
                        g,
                    );
                    if !reserved(first_block_uid@, ids@) {
                        lemma_build_puts_top_where_told(
                            self,
                            first_block_uid@,
                            target_context@,
                            ids@,
                            comment_buff@,
                            target_context@.custom_blocks,
                        );
                        lemma_build_links_the_chain(
                            self,
                            first_block_uid@,
                            target_context@,
                            ids@,
                            comment_buff@,
                            target_context@.custom_blocks,
                        );
                        lemma_build_yields_one_script(
                            self,
                            first_block_uid@,
                            target_context@,
                            ids@,
                            comment_buff@,
                            target_context@.custom_blocks,
                        );
                    }
                }
                self.assemble(first_block_uid, comment_buff, &mut blocks, target_context, ids);
                let _ = blocks.len();
                Ok(blocks)
            },
        }
    }

    /// Builds the stack as a script of its own under a fresh identifier, and
    /// gives that identifier and the nodes.  The first block gets the next
    /// identifier from `ids`, every other node one after it.  The notes are added
    /// to `comment_buff`.
    ///
    /// The nodes are those of one script: each stands under an identifier of its
    /// own, the one under the identifier that is returned is its top, and no
    /// other node is marked top-level.  The top stands where the builder of the
    /// first block said, or at the origin where it gave no position.  Each block
    /// of the stack has a node of its own, and these are linked in the order of
    /// the stack through `next` and `parent`.  Notes that each stood under an identifier
    /// of their own, none of which `ids` may still issue, do so again after the
    /// build.
    ///
    /// Where the stack has a fault, the fault is returned; then nothing was
    /// built, no identifier was issued and `comment_buff` is as it was.
    pub fn build_script(
        self,
        comment_buff: &mut CommentMap,
        target_context: &TargetContext,
        ids: &mut UidSource,
    ) -> (built: Result<(Uid, BlockMap), BuildError>)
        ensures
            match built {
                Ok((first, blocks)) => {
                    &&& stack_fault(self, target_context@.custom_blocks) is None
                    &&& first@ == uid_text(old(ids)@)
                    &&& graph_of(*final(ids), blocks, *final(comment_buff)) == stack_spec(
                        self,
                        first@,
                        target_context@,
                        Graph {
                            issued: old(ids)@ + 1,
                            blocks: Seq::empty(),
                            comments: old(comment_buff)@,
                        },
                    )
                    &&& one_script(blocks@, first@)
                    &&& top_stands_where_told(blocks@, first@, self)
                    &&& holds_chain_of(
                        blocks@,
                        self,
                        first@,
                        target_context@,
                        Graph {
                            issued: old(ids)@ + 1,
                            blocks: Seq::empty(),
                            comments: old(comment_buff)@,
                        },
                    )
                    &&& settled(old(comment_buff)@, old(ids)@) ==> settled(
                        final(comment_buff)@,
                        final(ids)@,
                    )
                },
                Err(fault) => {
                    &&& stack_fault(self, target_context@.custom_blocks) == Some(fault@)
                    &&& final(ids)@ == old(ids)@
                    &&& final(comment_buff)@ == old(comment_buff)@
                },
            },
    {
        match self.fault(target_context.custom_blocks) {
            Some(fault) => Err(fault),
            None => {
                let first = ids.generate();
                let mut blocks = BlockMap::new();
                proof {
                    let g = Graph {
                        issued: ids@,
                        blocks: Seq::empty(),
                        comments: comment_buff@,
                    };
                    lemma_fresh_is_reserved(old(ids)@);
                    if settled(comment_buff@, old(ids)@) {
                        lemma_settled_later(comment_buff@, old(ids)@, ids@);
                    }
                    lemma_stack_keeps_identifiers_unique(self, first@, target_context@, g);
                    lemma_build_puts_top_where_told(
                        self,
                        first@,
                        target_context@,
                        ids@,
                        comment_buff@,
                        target_context@.custom_blocks,
                    );
                    lemma_build_links_the_chain(
                        self,
                        first@,
                        target_context@,
                        ids@,
                        comment_buff@,
                        target_context@.custom_blocks,
                    );
                    lemma_build_yields_one_script(
                        self,
                        first@,
                        target_context@,
                        ids@,
                        comment_buff@,
                        target_context@.custom_blocks,
                    );
                }
                self.assemble(&first, comment_buff, &mut blocks, target_context, ids);
                Ok((first, blocks))
            },
        }
    }

    /// Builds the stack as a script of its own into `final_stack`.
    pub(crate) fn assemble(
        &self,
        first_block_uid: &Uid,
        comment_buff: &mut CommentMap,
        final_stack: &mut BlockMap,
        target_context: &TargetContext,
        ids: &mut UidSource,
    )
        requires
            stack_fault(*self, target_context@.custom_blocks) is None,
        ensures
            graph_of(*final(ids), *final(final_stack), *final(comment_buff)) == stack_spec(
                *self,
                first_block_uid@,
                target_context@,
                graph_of(*old(ids), *old(final_stack), *old(comment_buff)),
            ),
        decreases *self, 1nat,
    {
        match &self.stack[0] {
            BlockBuilder::VarList(reporter) => {
                let ghost before = graph_of(*ids, *final_stack, *comment_buff);
                let top = reporter.assemble(first_block_uid, comment_buff, target_context, ids);
                proof {
                    assert((top@, graph_of(*ids, *final_stack, *comment_buff)) == varlist_spec(
                        *reporter,
                        first_block_uid@,
                        target_context@,
                        before,
                    ));
                }
                final_stack.insert(first_block_uid.clone(), Block::VarList(top));
            },
            _ => {
                self.assemble_chain(
                    first_block_uid,
                    &None,
                    comment_buff,
                    final_stack,
                    target_context,
                    ids,
                );
            },
        }
    }

    /// Builds the stack into a slot of the node `parent` and gives what the slot
    /// holds.
    pub(crate) fn assemble_nested(
        &self,
        parent: &Uid,
        comment_buff: &mut CommentMap,
        final_stack: &mut BlockMap,
        target_context: &TargetContext,
        ids: &mut UidSource,
    ) -> (slot: Option<UidOrValue>)
        requires
            stack_fault(*self, target_context@.custom_blocks) is None,
        ensures
            (slot_view(slot), graph_of(*final(ids), *final(final_stack), *final(comment_buff)))
                == nested_spec(
                *self,
                parent@,
                target_context@,
                graph_of(*old(ids), *old(final_stack), *old(comment_buff)),
            ),
        decreases *self, 1nat,
    {
        let first = ids.generate();
        match &self.stack[0] {
            BlockBuilder::VarList(reporter) => {
                let ghost before = graph_of(*ids, *final_stack, *comment_buff);
                let top = reporter.assemble(&first, comment_buff, target_context, ids);
                proof {
                    assert((top@, graph_of(*ids, *final_stack, *comment_buff)) == varlist_spec(
                        *reporter,
                        first@,
                        target_context@,
                        before,
                    ));
                }
                Some(UidOrValue::Value(inline_reporter(top)))
            },
            _ => {
                self.assemble_chain(
                    &first,
                    &Some(parent.clone()),
                    comment_buff,
                    final_stack,
                    target_context,
                    ids,
                );
                Some(UidOrValue::Uid(first))
            },
        }
    }

    /// Chains the blocks of the stack, the first under the identifier `first` and
    /// below `parent`.
    pub(crate) fn assemble_chain(
        &self,
        first: &Uid,
        parent: &Option<Uid>,
        comment_buff: &mut CommentMap,
        final_stack: &mut BlockMap,
        target_context: &TargetContext,
        ids: &mut UidSource,
    )
        requires
            chain_fault(*self, 0, target_context@.custom_blocks) is None,
        ensures
            graph_of(*final(ids), *final(final_stack), *final(comment_buff)) == chain_spec(
                *self,
                0,
                first@,
                opt_uid_view(*parent),
                target_context@,
                graph_of(*old(ids), *old(final_stack), *old(comment_buff)),
            ),
        decreases *self, 0nat,
    {
        let ghost goal = chain_spec(
            *self,
            0,
            first@,
            opt_uid_view(*parent),
            target_context@,
            graph_of(*ids, *final_stack, *comment_buff),
        );
        let mut my = first.clone();
        let mut above: Option<Uid> = match parent {
            Some(p) => Some(p.clone()),
            None => None,
        };
        let mut i: usize = 0;
        while i < self.stack.len()
            invariant
                0 <= i <= self.stack.len(),
                chain_fault(*self, i as int, target_context@.custom_blocks) is None,
                chain_spec(
                    *self,
                    i as int,
                    my@,
                    opt_uid_view(above),
                    target_context@,
                    graph_of(*ids, *final_stack, *comment_buff),
                ) == goal,
            decreases self.stack.len() - i,
        {
            let block = self.stack[i].assemble(&my, comment_buff, final_stack, target_context, ids);
            if i + 1 < self.stack.len() {
                let next = ids.generate();
                let placed = place_in_graph(block, &above, Some(next.clone()));
                final_stack.insert(my.clone(), placed);
                above = Some(my);
                my = next;
            } else {
                let placed = place_in_graph(block, &above, None);
                final_stack.insert(my.clone(), placed);
            }
            i = i + 1;
        }
    }

    /// Gives the first block the position (`x`, `y`).  A stack without blocks
    /// stays as it is.
    pub fn set_top_block_position(
        &mut self,
        x: rs_sb3::value::Number,
        y: rs_sb3::value::Number,
    ) -> (stack: &mut Self)
        ensures
            stack.stack@ == top_positioned(old(self).stack@, x, y),
            *final(self) == *final(stack),
    {
        if self.stack.len() > 0 {
            let ghost before = self.stack@;
            match &mut self.stack[0] {
                BlockBuilder::Normal(n) => {
                    n.x = Some(x);
                    n.y = Some(y);
                },
                BlockBuilder::VarList(vl) => {
                    vl.x = x;
                    vl.y = y;
                },
                BlockBuilder::CustomBlock(definition) => {
                    definition.x = Some(x);
                    definition.y = Some(y);
                },
                BlockBuilder::CustomBlockCall(call) => {
                    call.x = Some(x);
                    call.y = Some(y);
                },
            }
            assert(self.stack@ =~= top_positioned(before, x, y));
        }
        self
    }

    /// Estimates the height of the stack in layout units.  `is_input` says that
    /// the stack stands in an input as an expression.  The estimate depends on
    /// the builder and the heights in `data` alone, and is exact as far as 64
    /// bits hold it: it is `u64::MAX` where the height is larger.
    pub fn calc_block_height(&self, data: &BlockHeightData, is_input: bool) -> (height: u64)
        ensures
            height == clamp(stack_height(*self, *data, is_input)),
        decreases *self,
    {
        let mut height: u64 = 0;
        let mut i: usize = 0;
        while i < self.stack.len()
            invariant
                0 <= i <= self.stack.len(),
                clamp(height as nat + blocks_height(*self, i as int, *data, is_input)) == clamp(
                    blocks_height(*self, 0, *data, is_input),
                ),
            decreases self.stack.len() - i,
        {
            height = add_heights(height, self.stack[i].calc_block_height(data, is_input));
            i = i + 1;
        }
        if is_input {
            height
        } else {
            add_heights(height, data.block_bump)
        }
    }
}

/// A block with its position set to (`x`, `y`).
pub open spec fn positioned(
    block: BlockBuilder,
    x: rs_sb3::value::Number,
    y: rs_sb3::value::Number,
) -> BlockBuilder {
    match block {
        BlockBuilder::Normal(n) => BlockBuilder::Normal(
            BlockNormalBuilder { x: Some(x), y: Some(y), ..n },
        ),
        BlockBuilder::VarList(vl) => BlockBuilder::VarList(BlockVarListBuilder { x, y, ..vl }),
        BlockBuilder::CustomBlock(definition) => BlockBuilder::CustomBlock(
            CustomBlockBuilder { x: Some(x), y: Some(y), ..definition },
        ),
        BlockBuilder::CustomBlockCall(call) => BlockBuilder::CustomBlockCall(
            CustomFuncCallBuilder { x: Some(x), y: Some(y), ..call },
        ),
    }
}

/// Blocks whose first has its position set to (`x`, `y`).
pub open spec fn top_positioned(
    blocks: Seq<BlockBuilder>,
    x: rs_sb3::value::Number,
    y: rs_sb3::value::Number,
) -> Seq<BlockBuilder> {
    if blocks.len() == 0 {
        blocks
    } else {
        blocks.update(0, positioned(blocks[0], x, y))
    }
}

} // verus!
