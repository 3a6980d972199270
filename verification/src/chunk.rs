//! One flag of a command and its value, which may be a template.

use crate::template::{has_format_spec, interpolate, interpolation, spec_has_format_spec};
use crate::timestamp::TargetTimeStamp;
use vstd::pervasive::unreached;
use vstd::prelude::*;

verus! {

/// The name by which a template asks for the second at which the clip starts.
pub const START: &'static str = "start";

/// The name by which a template asks for the second at which the clip ends.
pub const END: &'static str = "end";

/// Represents a key/value command segment.
#[derive(PartialEq, Clone, Debug)]
pub struct CommandChunk {
    /// Key for command
    pub flag: String,
    /// Value for command
    pub value: String,
}

/// A command segment by the characters of its two strings.
#[verifier::ext_equal]
pub struct ChunkView {
    pub flag: Seq<char>,
    pub value: Seq<char>,
}

impl View for CommandChunk {
    type V = ChunkView;

    open spec fn view(&self) -> ChunkView {
        ChunkView { flag: self.flag@, value: self.value@ }
    }
}

/// The value that `template` stands for within `target`: `{start}` and `{end}`
/// filled in with the two seconds of the window. `None` where the template holds
/// a format specification or cannot be filled in.
pub open spec fn rendered_value(template: Seq<char>, target: TargetTimeStamp) -> Option<Seq<char>> {
    if spec_has_format_spec(template) {
        None
    } else {
        interpolation(template, START@, target.start, END@, target.end)
    }
}

impl ChunkView {
    /// The segment with its value rendered for `target`, under the same flag.
    pub open spec fn formatted(self, target: TargetTimeStamp) -> Option<ChunkView> {
        match rendered_value(self.value, target) {
            Some(value) => Some(ChunkView { flag: self.flag, value }),
            None => None,
        }
    }
}

/// A segment that may be missing, by its characters.
pub open spec fn chunk_of(chunk: Option<CommandChunk>) -> Option<ChunkView> {
    match chunk {
        Some(chunk) => Some(chunk@),
        None => None,
    }
}

impl CommandChunk {
    /// The segment with the same flag and `value` in place of its own.
    pub fn with_value(&self, value: String) -> (chunk: Self)
        ensures
            chunk@ == (ChunkView { flag: self@.flag, value: value@ }),
    {
        Self { flag: self.flag.clone(), value }
    }

    /// Whether the value can be rendered for `target`.
    pub fn can_format(&self, target: &TargetTimeStamp) -> (possible: bool)
        ensures
            possible == self@.formatted(*target) is Some,
    {
        if has_format_spec(self.value.as_str()) {
            false
        } else {
            interpolate(self.value.as_str(), START, target.start, END, target.end).is_some()
        }
    }

    /// Returns `CommandChunk` with interpolated `start` and `end` for given `TargetTimeStamp`.
    pub fn format_chunk(&self, target: &TargetTimeStamp) -> (chunk: Self)
        requires
            self@.formatted(*target) is Some,
        ensures
            Some(chunk@) == self@.formatted(*target),
    {
        match interpolate(self.value.as_str(), START, target.start, END, target.end) {
            Some(value) => self.with_value(value),
            None => unreached(),
        }
    }

    /// `format_chunk` where the value can be rendered for `target`, `None` where
    /// it cannot.
    pub fn try_format_chunk(&self, target: &TargetTimeStamp) -> (chunk: Option<Self>)
        ensures
            chunk_of(chunk) == self@.formatted(*target),
    {
        if self.can_format(target) {
            Some(self.format_chunk(target))
        } else {
            None
        }
    }
}

/// Rendering is a function of the segment and the window: any two segments that
/// `format_chunk` may return for the same segment and the same window have the
/// same flag and the same value.
pub proof fn lemma_format_chunk_repeatable(
    chunk: CommandChunk,
    target: TargetTimeStamp,
    first: CommandChunk,
    second: CommandChunk,
)
    requires
        Some(first@) == chunk@.formatted(target),
        Some(second@) == chunk@.formatted(target),
    ensures
        first@ == second@,
{
}

} // verus!
