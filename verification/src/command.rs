//! The whole command: what to run, on which files, with which filters.

use crate::args::{Args, ArgsView};
use crate::chunk::{rendered_value, ChunkView, CommandChunk};
use crate::template::spec_has_format_spec;
use crate::timestamp::TargetTimeStamp;
use vstd::prelude::*;
use vstd::std_specs::convert::FromSpecImpl;

verus! {

/// The program that cuts the clip.
pub const EXECUTABLE: &'static str = "ffmpeg";

/// The flag that names the video to read.
pub const INPUT_FLAG: &'static str = "-i";

/// The flag of the filter on the video track.
pub const VIDEO_FILTER_FLAG: &'static str = "-vf";

/// The filter on the video track: it keeps the frames between the two seconds
/// and counts their time anew.
pub const VIDEO_FILTER: &'static str = "select='between(t,{start},{end})',setpts=N/FRAME_RATE/TB";

/// The flag of the filter on the audio track.
pub const AUDIO_FILTER_FLAG: &'static str = "-af";

/// The filter on the audio track: it keeps the samples between the two seconds
/// and counts their time anew.
pub const AUDIO_FILTER: &'static str = "aselect='between(t,{start},{end})',asetpts=N/SR/TB";

/// The flag kept with the output path. It is not rendered: `ffmpeg` takes the
/// output as its last argument, without a flag.
pub const OUTPUT_FLAG: &'static str = "-o";

/// The flag that lets `ffmpeg` write over a file that is already there.
pub const OVERWRITE_FLAG: &'static str = "-y";

/// Represents a cli command to extract a clip from a video.
#[derive(PartialEq, Clone, Debug)]
pub struct ClipCommand {
    /// Command name
    pub executable: String,
    /// Input file
    pub input: CommandChunk,
    /// Filter to be ran on video track
    pub video_filter: CommandChunk,
    /// Filter to be ran on audio track
    pub audio_filter: CommandChunk,
    /// Output file
    pub output: CommandChunk,
    /// Start and end timestamps
    pub target: TargetTimeStamp,
}

/// A command by the characters of its strings.
#[verifier::ext_equal]
pub struct CommandView {
    pub executable: Seq<char>,
    pub input: ChunkView,
    pub video_filter: ChunkView,
    pub audio_filter: ChunkView,
    pub output: ChunkView,
    pub target: TargetTimeStamp,
}

impl View for ClipCommand {
    type V = CommandView;

    open spec fn view(&self) -> CommandView {
        CommandView {
            executable: self.executable@,
            input: self.input@,
            video_filter: self.video_filter@,
            audio_filter: self.audio_filter@,
            output: self.output@,
            target: self.target,
        }
    }
}

impl CommandView {
    /// The command that `args` ask for: `ffmpeg` on the two paths, with the two
    /// filters of this library, over the window that the offset and the duration
    /// give.
    pub open spec fn from_args(args: ArgsView) -> CommandView {
        CommandView {
            executable: EXECUTABLE@,
            input: ChunkView { flag: INPUT_FLAG@, value: args.input },
            video_filter: ChunkView { flag: VIDEO_FILTER_FLAG@, value: VIDEO_FILTER@ },
            audio_filter: ChunkView { flag: AUDIO_FILTER_FLAG@, value: AUDIO_FILTER@ },
            output: ChunkView { flag: OUTPUT_FLAG@, value: args.output },
            target: TargetTimeStamp::spec_new(args.offset, args.duration),
        }
    }

    /// Both filters can be rendered for the window of the command.
    pub open spec fn can_render(self) -> bool {
        &&& self.video_filter.formatted(self.target) is Some
        &&& self.audio_filter.formatted(self.target) is Some
    }

    /// The arguments of the command, given its two filters as they were rendered:
    /// the input, the video filter and the audio filter, each as flag and value,
    /// then the flag to overwrite, then the output path alone.
    pub open spec fn arguments_with(self, video: ChunkView, audio: ChunkView) -> Seq<Seq<char>> {
        seq![
            self.input.flag,
            self.input.value,
            video.flag,
            video.value,
            audio.flag,
            audio.value,
            OVERWRITE_FLAG@,
            self.output.value,
        ]
    }

    /// The arguments of the command, its filters rendered for its window.
    pub open spec fn arguments(self) -> Seq<Seq<char>>
        recommends
            self.can_render(),
    {
        self.arguments_with(
            self.video_filter.formatted(self.target).unwrap(),
            self.audio_filter.formatted(self.target).unwrap(),
        )
    }
}

/// A `String` is known by its characters alone, so the conversion is stated on
/// views, by the postcondition of `from`, and not as an equation between commands.
impl FromSpecImpl<Args> for ClipCommand {
    open spec fn obeys_from_spec() -> bool {
        false
    }

    open spec fn from_spec(args: Args) -> ClipCommand {
        arbitrary()
    }
}

impl From<Args> for ClipCommand {
    fn from(args: Args) -> (command: Self)
        ensures
            command@ == CommandView::from_args(args@),
    {
        Self {
            executable: EXECUTABLE.to_string(),
            input: CommandChunk { flag: INPUT_FLAG.to_string(), value: args.input },
            video_filter: CommandChunk {
                flag: VIDEO_FILTER_FLAG.to_string(),
                value: VIDEO_FILTER.to_string(),
            },
            audio_filter: CommandChunk {
                flag: AUDIO_FILTER_FLAG.to_string(),
                value: AUDIO_FILTER.to_string(),
            },
            output: CommandChunk { flag: OUTPUT_FLAG.to_string(), value: args.output },
            target: TargetTimeStamp::new(args.offset, args.duration),
        }
    }
}

/// An argument list that may be missing, by the characters of its arguments.
pub open spec fn arguments_of(arguments: Option<Vec<String>>) -> Option<Seq<Seq<char>>> {
    match arguments {
        Some(arguments) => Some(arguments.deep_view()),
        None => None,
    }
}

impl ClipCommand {
    /// The argument list of the command, given its two filters as rendered
    /// segments.
    pub fn arguments_with(&self, video: CommandChunk, audio: CommandChunk) -> (arguments: Vec<
        String,
    >)
        ensures
            arguments.deep_view() == self@.arguments_with(video@, audio@),
    {
        let mut arguments: Vec<String> = Vec::new();
        arguments.push(self.input.flag.clone());
        arguments.push(self.input.value.clone());
        arguments.push(video.flag);
        arguments.push(video.value);
        arguments.push(audio.flag);
        arguments.push(audio.value);
        // Lets `ffmpeg` write over a file that already stands at the output path.
        arguments.push(OVERWRITE_FLAG.to_string());
        // `ffmpeg` has no flag for its output: the path goes last, on its own.
        arguments.push(self.output.value.clone());
        assert(arguments.deep_view() =~= self@.arguments_with(video@, audio@));
        arguments
    }

    /// Whether both filters can be rendered for the window of the command.
    pub fn can_render(&self) -> (possible: bool)
        ensures
            possible == self@.can_render(),
    {
        self.video_filter.can_format(&self.target) && self.audio_filter.can_format(&self.target)
    }

    /// Format and display the arguments as a list of strings.
    pub fn render_arguments(&self) -> (arguments: Vec<String>)
        requires
            self@.can_render(),
        ensures
            arguments.deep_view() == self@.arguments(),
    {
        let video = self.video_filter.format_chunk(&self.target);
        let audio = self.audio_filter.format_chunk(&self.target);
        self.arguments_with(video, audio)
    }

    /// `render_arguments` where both filters can be rendered, `None` where one of
    /// them cannot.
    pub fn try_render_arguments(&self) -> (arguments: Option<Vec<String>>)
        ensures
            arguments_of(arguments) == (if self@.can_render() {
                Some(self@.arguments())
            } else {
                None
            }),
    {
        if self.can_render() {
            Some(self.render_arguments())
        } else {
            None
        }
    }
}

/// Neither filter of this library holds a format specification: a command built
/// from options can be rendered wherever `interpolator` fills its filters in.
pub proof fn lemma_filters_hold_no_format_spec()
    ensures
        !spec_has_format_spec(VIDEO_FILTER@),
        !spec_has_format_spec(AUDIO_FILTER@),
{
    reveal_strlit("select='between(t,{start},{end})',setpts=N/FRAME_RATE/TB");
    reveal_strlit("aselect='between(t,{start},{end})',asetpts=N/SR/TB");
    assert forall|at: int| 0 <= at < VIDEO_FILTER@.len() implies VIDEO_FILTER@[at] != ':' by {}
    assert forall|at: int| 0 <= at < AUDIO_FILTER@.len() implies AUDIO_FILTER@[at] != ':' by {}
}

/// A command built from options renders to the same arguments every time: any
/// two lists that `render_arguments` may return for it hold the same strings in
/// the same order.
pub proof fn lemma_render_arguments_repeatable(
    args: Args,
    command: ClipCommand,
    first: Vec<String>,
    second: Vec<String>,
)
    requires
        command@ == CommandView::from_args(args@),
        first.deep_view() == command@.arguments(),
        second.deep_view() == command@.arguments(),
    ensures
        first.deep_view() == second.deep_view(),
{
}

/// The arguments of a command built from options, written out: the input path
/// under `-i`, the two filters of this library rendered for the window that the
/// offset and the duration give, `-y`, and the output path.
pub proof fn lemma_arguments_from_args(args: ArgsView)
    requires
        CommandView::from_args(args).can_render(),
    ensures
        CommandView::from_args(args).arguments() == seq![
            INPUT_FLAG@,
            args.input,
            VIDEO_FILTER_FLAG@,
            rendered_value(
                VIDEO_FILTER@,
                TargetTimeStamp::spec_new(args.offset, args.duration),
            ).unwrap(),
            AUDIO_FILTER_FLAG@,
            rendered_value(
                AUDIO_FILTER@,
                TargetTimeStamp::spec_new(args.offset, args.duration),
            ).unwrap(),
            OVERWRITE_FLAG@,
            args.output,
        ],
{
}

} // verus!
