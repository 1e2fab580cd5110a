//! Notes that can be attached to a node.

use crate::uid::Uid;
use crate::value::number_from_int;
use crate::value::whole_number;
use vstd::prelude::*;

verus! {

/// A note of the document.
#[derive(Debug, Clone, PartialEq)]
pub struct Comment {
    /// The node that the note is attached to.
    pub block_id: Option<Uid>,
    pub x: Option<rs_sb3::value::Number>,
    pub y: Option<rs_sb3::value::Number>,
    pub width: rs_sb3::value::Number,
    pub height: rs_sb3::value::Number,
    pub minimized: bool,
    pub text: String,
}

/// The model of a [`Comment`].
pub struct CommentView {
    pub block_id: Option<Seq<char>>,
    pub x: Option<rs_sb3::value::Number>,
    pub y: Option<rs_sb3::value::Number>,
    pub width: rs_sb3::value::Number,
    pub height: rs_sb3::value::Number,
    pub minimized: bool,
    pub text: Seq<char>,
}

impl View for Comment {
    type V = CommentView;

    open spec fn view(&self) -> CommentView {
        CommentView {
            block_id: match self.block_id {
                Some(id) => Some(id@),
                None => None,
            },
            x: self.x,
            y: self.y,
            width: self.width,
            height: self.height,
            minimized: self.minimized,
            text: self.text@,
        }
    }
}

/// Describes a note before it is attached to a node.
#[derive(Debug, Clone, PartialEq)]
pub struct CommentBuilder {
    pub x: Option<rs_sb3::value::Number>,
    pub y: Option<rs_sb3::value::Number>,
    pub width: rs_sb3::value::Number,
    pub height: rs_sb3::value::Number,
    pub minimized: bool,
    pub content: String,
}

impl CommentBuilder {
    /// A note of 200 by 200 units without a position, shown in full.
    pub fn new(content: String) -> (builder: CommentBuilder)
        ensures
            builder.content == content,
            builder.x is None,
            builder.y is None,
            builder.width == whole_number(200),
            builder.height == whole_number(200),
            !builder.minimized,
    {
        CommentBuilder {
            x: None,
            y: None,
            width: number_from_int(200),
            height: number_from_int(200),
            minimized: false,
            content,
        }
    }

    pub fn set_pos(
        &mut self,
        x: Option<rs_sb3::value::Number>,
        y: Option<rs_sb3::value::Number>,
    ) -> (builder: &mut Self)
        ensures
            *builder == (CommentBuilder { x, y, ..*old(self) }),
            *final(self) == *final(builder),
    {
        self.x = x;
        self.y = y;
        self
    }

    /// The note that the builder describes when it is attached to `block_id`.
    pub open spec fn attached_to(self, block_id: Seq<char>) -> CommentView {
        CommentView {
            block_id: Some(block_id),
            x: self.x,
            y: self.y,
            width: self.width,
            height: self.height,
            minimized: self.minimized,
            text: self.content@,
        }
    }

    /// The note that the builder describes, attached to nothing yet.
    pub fn build(&self) -> (comment: Comment)
        ensures
            comment@ == (CommentView { block_id: None, ..self.attached_to(Seq::empty()) }),
    {
        Comment {
            block_id: None,
            x: self.x,
            y: self.y,
            width: self.width,
            height: self.height,
            minimized: self.minimized,
            text: self.content.clone(),
        }
    }
}

} // verus!
