//! The two paths of a run, and the checks that admit them.

use vstd::prelude::*;

verus! {

/// The paths of one run: the video to read and the GIF to write.
#[derive(Debug, PartialEq, Eq)]
pub struct RunOptions {
    /// The source video. It named a regular file when the options were made.
    pub input: String,
    /// The destination. Nothing is asked of it; an existing file is replaced.
    pub output: String,
}

/// What a [`RunOptions`] holds, as text.
pub struct RunOptionsView {
    pub input: Seq<char>,
    pub output: Seq<char>,
}

impl View for RunOptions {
    type V = RunOptionsView;

    open spec fn view(&self) -> RunOptionsView {
        RunOptionsView { input: self.input@, output: self.output@ }
    }
}

/// Why no [`RunOptions`] could be made.
#[derive(Debug, Clone, Copy, PartialEq, Eq, Structural)]
pub enum OptionsError {
    /// No input path was given.
    MissingInput,
    /// The input path is missing on disk or names something other than a
    /// regular file.
    InvalidInput,
    /// No output path was given.
    MissingOutput,
}

impl OptionsError {
    /// The text of [`OptionsError::message`].
    pub open spec fn message_text(self) -> Seq<char> {
        match self {
            OptionsError::MissingInput => "Failed to parse input arg"@,
            OptionsError::InvalidInput => "Input is not a valid file"@,
            OptionsError::MissingOutput => "Failed to parse output value"@,
        }
    }

    /// One line for the user.
    pub fn message(&self) -> (text: String)
        ensures
            text@ == self.message_text(),
    {
        match self {
            OptionsError::MissingInput => "Failed to parse input arg".to_owned(),
            OptionsError::InvalidInput => "Input is not a valid file".to_owned(),
            OptionsError::MissingOutput => "Failed to parse output value".to_owned(),
        }
    }
}

/// The decision of [`get_options`]. The input is looked at first: without one
/// nothing else is asked; with one that is no regular file the output is not
/// looked at.
pub open spec fn options_verdict(
    input: Option<Seq<char>>,
    input_is_file: bool,
    output: Option<Seq<char>>,
) -> Result<RunOptionsView, OptionsError> {
    match input {
        None => Err(OptionsError::MissingInput),
        Some(input) => if !input_is_file {
            Err(OptionsError::InvalidInput)
        } else {
            match output {
                None => Err(OptionsError::MissingOutput),
                Some(output) => Ok(RunOptionsView { input, output }),
            }
        },
    }
}

/// Makes the options of a run from the two arguments as parsed and from what
/// the filesystem said of the input path (`input_is_file`, which is not
/// consulted when there is no input).
///
/// Succeeds exactly when both paths are there and the input is a regular
/// file, and then keeps both paths as given.
pub fn get_options(
    input: Option<String>,
    input_is_file: bool,
    output: Option<String>,
) -> (r: Result<RunOptions, OptionsError>)
    ensures
        r is Ok <==> input is Some && input_is_file && output is Some,
        match options_verdict(input.deep_view(), input_is_file, output.deep_view()) {
            Ok(expected) => r is Ok && r->Ok_0@ == expected,
            Err(error) => r is Err && r->Err_0 == error,
        },
{
    match input {
        None => Err(OptionsError::MissingInput),
        Some(input) => {
            if !input_is_file {
                Err(OptionsError::InvalidInput)
            } else {
                match output {
                    None => Err(OptionsError::MissingOutput),
                    Some(output) => Ok(RunOptions { input, output }),
                }
            }
        },
    }
}

} // verus!
