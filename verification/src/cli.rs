//! The command line, described as data for whichever parser reads it.

use vstd::prelude::*;

verus! {

/// Name under which the input path is parsed.
pub const INPUT_ARG: &'static str = "input";

/// Name under which the output path is parsed.
pub const OUTPUT_ARG: &'static str = "output";

/// One argument that takes a value. With neither a long nor a short form
/// it is positional.
#[derive(Debug, PartialEq, Eq)]
pub struct ArgSpec {
    pub name: String,
    pub help: String,
    pub long: Option<String>,
    pub short: Option<char>,
    pub value_name: String,
    pub required: bool,
}

/// What an [`ArgSpec`] holds, as text.
pub struct ArgSpecView {
    pub name: Seq<char>,
    pub help: Seq<char>,
    pub long: Option<Seq<char>>,
    pub short: Option<char>,
    pub value_name: Seq<char>,
    pub required: bool,
}

impl View for ArgSpec {
    type V = ArgSpecView;

    open spec fn view(&self) -> ArgSpecView {
        ArgSpecView {
            name: self.name@,
            help: self.help@,
            long: self.long.deep_view(),
            short: self.short,
            value_name: self.value_name@,
            required: self.required,
        }
    }
}

/// The program's command line.
#[derive(Debug, PartialEq, Eq)]
pub struct CliSpec {
    pub name: String,
    pub version: String,
    pub about: String,
    pub author: String,
    /// Called without any argument, the program shows its usage and fails.
    pub help_when_empty: bool,
    /// The last positional argument can be given without the ones before it.
    pub allow_missing_positional: bool,
    /// The arguments, in the order in which positional ones are read.
    pub args: Vec<ArgSpec>,
}

/// What a [`CliSpec`] holds, as text.
pub struct CliSpecView {
    pub name: Seq<char>,
    pub version: Seq<char>,
    pub about: Seq<char>,
    pub author: Seq<char>,
    pub help_when_empty: bool,
    pub allow_missing_positional: bool,
    pub args: Seq<ArgSpecView>,
}

impl View for CliSpec {
    type V = CliSpecView;

    open spec fn view(&self) -> CliSpecView {
        CliSpecView {
            name: self.name@,
            version: self.version@,
            about: self.about@,
            author: self.author@,
            help_when_empty: self.help_when_empty,
            allow_missing_positional: self.allow_missing_positional,
            args: Seq::new(self.args@.len(), |i: int| self.args@[i]@),
        }
    }
}

/// The input path: required, given as `--input <INFILE>` or `-i <INFILE>`.
pub open spec fn input_arg() -> ArgSpecView {
    ArgSpecView {
        name: INPUT_ARG@,
        help: "Sets the input file to use"@,
        long: Some("input"@),
        short: Some('i'),
        value_name: "INFILE"@,
        required: true,
    }
}

/// The output path: required, positional, shown as `<OUTFILE>`.
pub open spec fn output_arg() -> ArgSpecView {
    ArgSpecView {
        name: OUTPUT_ARG@,
        help: "Sets the output file to write"@,
        long: None,
        short: None,
        value_name: "OUTFILE"@,
        required: true,
    }
}

/// The command line of the program in the given version: the input option,
/// then the output position; usage is shown when no argument is given.
pub open spec fn command_line(version: Seq<char>) -> CliSpecView {
    CliSpecView {
        name: "gifer"@,
        version,
        about: "Utility for creating web-friendly gifs."@,
        author: "Stevan Dedovic <stevan@dedovic.com>"@,
        help_when_empty: true,
        allow_missing_positional: true,
        args: seq![input_arg(), output_arg()],
    }
}

/// Describes the program's command line.
pub fn build_cli(version: &str) -> (cli: CliSpec)
    ensures
        cli@ == command_line(version@),
{
    let input = ArgSpec {
        name: INPUT_ARG.to_owned(),
        help: "Sets the input file to use".to_owned(),
        long: Some("input".to_owned()),
        short: Some('i'),
        value_name: "INFILE".to_owned(),
        required: true,
    };
    let output = ArgSpec {
        name: OUTPUT_ARG.to_owned(),
        help: "Sets the output file to write".to_owned(),
        long: None,
        short: None,
        value_name: "OUTFILE".to_owned(),
        required: true,
    };
    let mut args: Vec<ArgSpec> = Vec::new();
    args.push(input);
    args.push(output);
    let cli = CliSpec {
        name: "gifer".to_owned(),
        version: version.to_owned(),
        about: "Utility for creating web-friendly gifs.".to_owned(),
        author: "Stevan Dedovic <stevan@dedovic.com>".to_owned(),
        help_when_empty: true,
        allow_missing_positional: true,
        args,
    };
    assert(cli@.args =~= command_line(version@).args);
    cli
}

} // verus!
