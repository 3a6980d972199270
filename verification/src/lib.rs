//! Builds the command line that cuts a clip out of a video with `ffmpeg`.
//!
//! A [`TargetTimeStamp`] says where the clip lies, a [`CommandChunk`] is one
//! flag of the command with a value that may hold `{start}` and `{end}`, and a
//! [`ClipCommand`] puts them together and renders the argument list.

pub mod args;
pub mod chunk;
pub mod command;
pub mod template;
pub mod timestamp;

pub use chunk::CommandChunk;
pub use command::ClipCommand;
pub use timestamp::TargetTimeStamp;
