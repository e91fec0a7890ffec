//! Drawing commands: the vocabulary in which a frame is written down.
//!
//! A frame is a list of commands that a canvas carries out in order. The
//! commands hold plain values only, so a frame can be compared, stored or
//! replayed on any canvas.

use vstd::prelude::*;
use crate::color::Color;
use crate::geometry::{Line, Rect};

verus! {

/// One step of drawing a frame.
#[derive(Clone, Debug, PartialEq, Eq)]
pub enum DrawCommand {
    /// Fill the whole surface with `color`.
    Clear { color: Color },
    /// Stroke `line` in `color`.
    Line { color: Color, line: Line },
    /// Fill `rect` with `color`.
    FillRect { color: Color, rect: Rect },
    /// Render `label` as text in `color` and stretch it over exactly `rect`.
    Text { label: String, color: Color, rect: Rect },
    /// Publish the composed frame at once.
    Present,
}

/// The mathematical content of a [`DrawCommand`]: the same command with its
/// label as a sequence of characters.
pub enum DrawOp {
    Clear { color: Color },
    Line { color: Color, line: Line },
    FillRect { color: Color, rect: Rect },
    Text { label: Seq<char>, color: Color, rect: Rect },
    Present,
}

impl View for DrawCommand {
    type V = DrawOp;

    open spec fn view(&self) -> DrawOp {
        match self {
            DrawCommand::Clear { color } => DrawOp::Clear { color: *color },
            DrawCommand::Line { color, line } => DrawOp::Line { color: *color, line: *line },
            DrawCommand::FillRect { color, rect } => DrawOp::FillRect {
                color: *color,
                rect: *rect,
            },
            DrawCommand::Text { label, color, rect } => DrawOp::Text {
                label: label@,
                color: *color,
                rect: *rect,
            },
            DrawCommand::Present => DrawOp::Present,
        }
    }
}

impl DeepView for DrawCommand {
    type V = DrawOp;

    open spec fn deep_view(&self) -> DrawOp {
        self@
    }
}

} // verus!
