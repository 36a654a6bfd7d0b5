//! The two invocations of the external encoder.

use crate::options::RunOptions;
use vstd::prelude::*;

verus! {

/// The encoder's program name, looked up on the executable search path.
pub const ENCODER: &'static str = "ffmpeg";

/// The scratch directory that holds the palette between the two passes.
pub const PALETTE_DIR: &'static str = "/tmp/gifer/";

/// The palette image: written by the first pass, read by the second.
pub const PALETTE_FILE: &'static str = "/tmp/gifer/palette.png";

/// Filter of the first pass: resample, scale down, collect a palette.
pub const PALETTE_FILTER: &'static str =
    "fps=30,scale=320:-1:flags=lanczos,palettegen=stats_mode=diff";

/// Filter graph of the second pass: resample and scale as before, then map
/// the colours onto the palette with dithering.
pub const ENCODE_FILTER: &'static str =
    "fps=30,scale=320:-1:flags=lanczos [x]; [x][1:v] paletteuse=dither=bayer:bayer_scale=5:diff_mode=rectangle";

/// One pass of the encoder.
#[derive(Debug, Clone, Copy, PartialEq, Eq, Structural)]
pub enum Stage {
    /// Builds the palette from the input video.
    Palette,
    /// Encodes the GIF from the input video and the palette.
    Encode,
}

impl Stage {
    /// The pass that follows this one, if any.
    pub open spec fn following(self) -> Option<Stage> {
        match self {
            Stage::Palette => Some(Stage::Encode),
            Stage::Encode => None,
        }
    }

    /// The pass that follows this one, if any.
    pub fn next(&self) -> (n: Option<Stage>)
        ensures
            n == self.following(),
    {
        match self {
            Stage::Palette => Some(Stage::Encode),
            Stage::Encode => None,
        }
    }
}

/// A program and the arguments it is started with, in order.
#[derive(Debug, PartialEq, Eq)]
pub struct Command {
    pub program: String,
    pub args: Vec<String>,
}

/// What a [`Command`] holds, as text.
pub struct CommandView {
    pub program: Seq<char>,
    pub args: Seq<Seq<char>>,
}

impl View for Command {
    type V = CommandView;

    open spec fn view(&self) -> CommandView {
        CommandView { program: self.program@, args: self.args.deep_view() }
    }
}

/// The first invocation: `-y -i <input> -vf <palette filter> <palette file>`.
pub open spec fn palette_invocation(input: Seq<char>) -> CommandView {
    CommandView {
        program: ENCODER@,
        args: seq!["-y"@, "-i"@, input, "-vf"@, PALETTE_FILTER@, PALETTE_FILE@],
    }
}

/// The second invocation:
/// `-y -i <input> -i <palette file> -lavfi <encode filter> <output>`.
pub open spec fn encode_invocation(input: Seq<char>, output: Seq<char>) -> CommandView {
    CommandView {
        program: ENCODER@,
        args: seq!["-y"@, "-i"@, input, "-i"@, PALETTE_FILE@, "-lavfi"@, ENCODE_FILTER@, output],
    }
}

/// The invocation of `stage` for a run with the given paths.
pub open spec fn invocation(stage: Stage, input: Seq<char>, output: Seq<char>) -> CommandView {
    match stage {
        Stage::Palette => palette_invocation(input),
        Stage::Encode => encode_invocation(input, output),
    }
}

/// The command that reads the input video and writes the palette image.
pub fn palette_command(opts: &RunOptions) -> (command: Command)
    ensures
        command@ == palette_invocation(opts.input@),
{
    let mut args: Vec<String> = Vec::new();
    args.push("-y".to_owned());
    args.push("-i".to_owned());
    args.push(opts.input.clone());
    args.push("-vf".to_owned());
    args.push(PALETTE_FILTER.to_owned());
    args.push(PALETTE_FILE.to_owned());
    let command = Command { program: ENCODER.to_owned(), args };
    assert(command@.args =~= palette_invocation(opts.input@).args);
    command
}

/// The command that reads the input video and the palette image and writes
/// the GIF.
pub fn encode_command(opts: &RunOptions) -> (command: Command)
    ensures
        command@ == encode_invocation(opts.input@, opts.output@),
{
    let mut args: Vec<String> = Vec::new();
    args.push("-y".to_owned());
    args.push("-i".to_owned());
    args.push(opts.input.clone());
    args.push("-i".to_owned());
    args.push(PALETTE_FILE.to_owned());
    args.push("-lavfi".to_owned());
    args.push(ENCODE_FILTER.to_owned());
    args.push(opts.output.clone());
    let command = Command { program: ENCODER.to_owned(), args };
    assert(command@.args =~= encode_invocation(opts.input@, opts.output@).args);
    command
}

/// The command of `stage`.
pub fn stage_command(stage: Stage, opts: &RunOptions) -> (command: Command)
    ensures
        command@ == invocation(stage, opts.input@, opts.output@),
{
    match stage {
        Stage::Palette => palette_command(opts),
        Stage::Encode => encode_command(opts),
    }
}

} // verus!
