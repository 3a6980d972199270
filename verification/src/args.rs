//! The options that a clip is asked for with.

use vstd::prelude::*;

verus! {

/// What the user asks for: the video to read, the file to write, and where the
/// clip lies.
#[derive(Debug, Clone)]
pub struct Args {
    /// The path to the video that you intend to clip.
    pub input: String,
    /// The path for the final video output.
    pub output: String,
    /// The length in seconds of the final desired clip.
    pub duration: u32,
    /// Denote in seconds where the clip should begin.
    pub offset: u32,
}

/// The options by the characters of their paths.
#[verifier::ext_equal]
pub struct ArgsView {
    pub input: Seq<char>,
    pub output: Seq<char>,
    pub duration: u32,
    pub offset: u32,
}

impl View for Args {
    type V = ArgsView;

    open spec fn view(&self) -> ArgsView {
        ArgsView {
            input: self.input@,
            output: self.output@,
            duration: self.duration,
            offset: self.offset,
        }
    }
}

} // verus!
