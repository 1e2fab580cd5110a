//! The mathematical model of the height estimate that is used to lay scripts out
//! one below the other.  Heights are whole numbers of layout units.

use crate::block::BlockBuilder;
use crate::block::BlockInputBuilder;
use crate::block::StackOrValue;
use crate::stack::StackBuilder;
use vstd::prelude::*;

verus! {

/// The heights of the shapes that an estimate is made of.
#[derive(Debug, Clone, Copy, PartialEq, Eq)]
pub struct BlockHeightData {
    /// The height of an input that holds a literal.
    pub input_block_height: u64,
    /// What an expression in an input adds to the expression's own height.
    pub input_block_nest_height: u64,
    /// The height of a plain statement.
    pub block_height: u64,
    /// What a statement adds for each body of statements that it holds.
    pub block_nest_height: u64,
    /// The gap below a script.
    pub block_bump: u64,
    /// The height of the definition of a procedure.
    pub custom_block_height: u64,
    /// The height of a statement that starts a script on an event.
    pub event_block_height: u64,
}

impl Default for BlockHeightData {
    fn default() -> (data: BlockHeightData)
        ensures
            data == (BlockHeightData {
                input_block_height: 80,
                input_block_nest_height: 16,
                block_height: 96,
                block_nest_height: 64,
                block_bump: 16,
                custom_block_height: 184,
                event_block_height: 146,
            }),
    {
        BlockHeightData {
            input_block_height: 80,
            input_block_nest_height: 16,
            block_height: 96,
            block_nest_height: 64,
            block_bump: 16,
            custom_block_height: 184,
            event_block_height: 146,
        }
    }
}

/// Whether `text` starts with `prefix`.
pub open spec fn has_prefix(text: Seq<char>, prefix: Seq<char>) -> bool {
    prefix.len() <= text.len() && text.subrange(0, prefix.len() as int) == prefix
}

/// Whether an input of this name holds a body of statements.
pub open spec fn is_substack(name: Seq<char>) -> bool {
    has_prefix(name, "SUBSTACK"@)
}

/// Whether a statement of this operation starts a script: on an event, or when
/// a clone is made.
pub open spec fn starts_script(opcode: Seq<char>) -> bool {
    opcode == "control_start_as_clone"@ || has_prefix(opcode, "event_when"@)
}

/// The larger of two heights.
pub open spec fn taller(a: nat, b: nat) -> nat {
    if a >= b {
        a
    } else {
        b
    }
}

/// A height as far as 64 bits hold it.
pub open spec fn clamp(height: nat) -> u64 {
    if height <= u64::MAX {
        height as u64
    } else {
        u64::MAX
    }
}

/// The height that one slot of an expression input needs: that of a literal, or
/// that of the expression in it and what nesting adds.
pub open spec fn slot_height(slot: Option<StackOrValue>, data: BlockHeightData) -> nat
    decreases slot, 0nat,
{
    match slot {
        Some(StackOrValue::Stack(stack)) => stack_height(stack, data, true)
            + data.input_block_nest_height as nat,
        Some(StackOrValue::Value(_)) => data.input_block_height as nat,
        None => 0,
    }
}

/// The height of the tallest slot of an input from the `j`-th on.
pub open spec fn tallest_slot(input: BlockInputBuilder, j: int, data: BlockHeightData) -> nat
    decreases input, input.values.len() - j,
{
    if 0 <= j < input.values.len() {
        taller(slot_height(input.values[j], data), tallest_slot(input, j + 1, data))
    } else {
        0
    }
}

/// The height of the tallest slot among the named inputs from the `i`-th on that
/// hold expressions.  Inputs that hold bodies of statements do not count.
pub open spec fn tallest_input(
    inputs: Vec<(String, BlockInputBuilder)>,
    i: int,
    data: BlockHeightData,
) -> nat
    decreases inputs, inputs.len() - i,
{
    if 0 <= i < inputs.len() {
        taller(
            if is_substack(inputs[i].0@) {
                0
            } else {
                tallest_slot(inputs[i].1, 0, data)
            },
            tallest_input(inputs, i + 1, data),
        )
    } else {
        0
    }
}

/// The heights of the bodies of statements in the slots of an input from the
/// `j`-th on, added up.
pub open spec fn bodies_height(input: BlockInputBuilder, j: int, data: BlockHeightData) -> nat
    decreases input, input.values.len() - j,
{
    if 0 <= j < input.values.len() {
        (match input.values[j] {
            Some(StackOrValue::Stack(stack)) => stack_height(stack, data, false),
            _ => 0,
        }) + bodies_height(input, j + 1, data)
    } else {
        0
    }
}

/// What the named inputs from the `i`-th on that hold bodies of statements add
/// to a statement: for each of them what a body adds, and the heights of the
/// bodies.
pub open spec fn substacks_height(
    inputs: Vec<(String, BlockInputBuilder)>,
    i: int,
    data: BlockHeightData,
) -> nat
    decreases inputs, inputs.len() - i,
{
    if 0 <= i < inputs.len() {
        (if is_substack(inputs[i].0@) {
            data.block_nest_height as nat + bodies_height(inputs[i].1, 0, data)
        } else {
            0
        }) + substacks_height(inputs, i + 1, data)
    } else {
        0
    }
}

/// The height of one block.  `is_input` says that the block stands in an input as
/// an expression.
///
/// A block that starts a script has the height of such blocks whatever it
/// holds.  Any other statement or expression is as tall as a plain statement or
/// as its tallest expression input, whichever is more, and grows by its bodies
/// of statements; this is so in an input as well, where only the gap below the
/// stack is left out.  A definition has the height of definitions, a call that of
/// a plain statement or its tallest argument, a reporter of a variable or a list
/// that of a literal.
pub open spec fn block_height(builder: BlockBuilder, data: BlockHeightData, is_input: bool) -> nat
    decreases builder, 0nat,
{
    match builder {
        BlockBuilder::Normal(normal) => {
            if starts_script(normal.opcode@) {
                data.event_block_height as nat
            } else {
                taller(tallest_input(normal.inputs, 0, data), data.block_height as nat)
                    + substacks_height(normal.inputs, 0, data)
            }
        },
        BlockBuilder::CustomBlock(_) => data.custom_block_height as nat,
        BlockBuilder::CustomBlockCall(call) => taller(
            tallest_input(call.args, 0, data),
            data.block_height as nat,
        ),
        BlockBuilder::VarList(_) => data.input_block_height as nat,
    }
}

/// The heights of the blocks of a stack from the `i`-th on, added up.
pub open spec fn blocks_height(
    stack: StackBuilder,
    i: int,
    data: BlockHeightData,
    is_input: bool,
) -> nat
    decreases stack, stack.stack.len() - i,
{
    if 0 <= i < stack.stack.len() {
        block_height(stack.stack[i], data, is_input) + blocks_height(stack, i + 1, data, is_input)
    } else {
        0
    }
}

/// The height of a stack: the heights of its blocks added up, and the gap below
/// it unless the stack stands in an input as an expression.
pub open spec fn stack_height(stack: StackBuilder, data: BlockHeightData, is_input: bool) -> nat
    decreases stack, stack.stack.len() + 1,
{
    blocks_height(stack, 0, data, is_input) + if is_input {
        0
    } else {
        data.block_bump as nat
    }
}

/// Adds two heights as far as 64 bits hold the sum.
pub fn add_heights(a: u64, b: u64) -> (sum: u64)
    ensures
        sum == clamp((a + b) as nat),
{
    if a > u64::MAX - b {
        u64::MAX
    } else {
        a + b
    }
}

/// The larger of two heights.
pub fn taller_of(a: u64, b: u64) -> (max: u64)
    ensures
        max == taller(a as nat, b as nat),
{
    if a >= b {
        a
    } else {
        b
    }
}

/// Calls `str::starts_with` with a text as the pattern, which says whether the
/// pattern matches a prefix of the text.
#[verifier::external_body]
pub(crate) fn starts_with(text: &str, prefix: &str) -> (found: bool)
    ensures
        found == has_prefix(text@, prefix@),
{
    text.starts_with(prefix)
}

} // verus!
