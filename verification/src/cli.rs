//! The command line of the adapter.
//!
//! The adapter takes one flag, `--dreamseeker-exe`, followed by the path of
//! the executable that `launch` is to spawn. Nothing else is accepted, and
//! the flag must be given; given more than once, its last value counts.

use crate::strings::texts;
use vstd::prelude::*;
use vstd::string::*;

verus! {

/// The flag that names the debuggee's executable.
pub open spec fn exe_flag() -> Seq<char> {
    "--dreamseeker-exe"@
}

/// Why the command line was refused.
#[derive(Debug, PartialEq, Eq)]
pub enum CliError {
    /// The flag is the last argument: its value is missing.
    MissingValue,
    /// `argument` stands where the flag was expected, and is not the flag.
    UnknownArgument { argument: String },
    /// The flag is not given at all.
    MissingFlag,
}

/// What contracts say of a [`CliError`].
pub enum CliErrorView {
    MissingValue,
    UnknownArgument { argument: Seq<char> },
    MissingFlag,
}

impl View for CliError {
    type V = CliErrorView;

    open spec fn view(&self) -> CliErrorView {
        match self {
            CliError::MissingValue => CliErrorView::MissingValue,
            CliError::UnknownArgument { argument } => CliErrorView::UnknownArgument {
                argument: argument@,
            },
            CliError::MissingFlag => CliErrorView::MissingFlag,
        }
    }
}

impl CliErrorView {
    /// The text that tells the user of this error.
    pub open spec fn text(self) -> Seq<char> {
        match self {
            CliErrorView::MissingValue => "must specify a value for --dreamseeker-exe"@,
            CliErrorView::UnknownArgument { argument } => "unknown argument \""@ + argument
                + "\""@,
            CliErrorView::MissingFlag =>
                "must provide argument `--dreamseeker-exe path/to/dreamseeker.exe`"@,
        }
    }
}

impl CliError {
    /// The text that tells the user of this error.
    pub fn message(&self) -> (text: String)
        ensures
            text@ == self@.text(),
    {
        match self {
            CliError::MissingValue => String::from_str(
                "must specify a value for --dreamseeker-exe",
            ),
            CliError::UnknownArgument { argument } => {
                let mut text = String::from_str("unknown argument \"");
                text.append(argument.as_str());
                text.append("\"");
                text
            },
            CliError::MissingFlag => String::from_str(
                "must provide argument `--dreamseeker-exe path/to/dreamseeker.exe`",
            ),
        }
    }
}

/// What reading the arguments from position `from` on comes to, when
/// `found` is the value of the flag as read so far. The flag takes the
/// argument after it as its value; the first argument that stands where the
/// flag is expected and is not the flag ends the reading.
pub open spec fn read_from(args: Seq<Seq<char>>, from: int, found: Option<Seq<char>>) -> Result<
    Seq<char>,
    CliErrorView,
>
    decreases args.len() - from,
{
    if from < 0 || from >= args.len() {
        match found {
            Some(path) => Ok(path),
            None => Err(CliErrorView::MissingFlag),
        }
    } else if args[from] != exe_flag() {
        Err(CliErrorView::UnknownArgument { argument: args[from] })
    } else if from + 1 >= args.len() {
        Err(CliErrorView::MissingValue)
    } else {
        read_from(args, from + 2, Some(args[from + 1]))
    }
}

/// The path of the debuggee's executable that `args` give, or why they
/// give none. `args` are the arguments after the program's name.
pub open spec fn exe_of(args: Seq<Seq<char>>) -> Result<Seq<char>, CliErrorView> {
    read_from(args, 0, None)
}

/// Whether `args` are flag and value in turn up to position `end`.
pub open spec fn pairs_up_to(args: Seq<Seq<char>>, end: int) -> bool {
    &&& 0 <= end <= args.len()
    &&& end % 2 == 0
    &&& forall|i: int| 0 <= i < end && i % 2 == 0 ==> #[trigger] args[i] == exe_flag()
}

/// Reading from an even position with everything before it in pairs: the
/// reading succeeds exactly when the rest is in pairs too, and then gives
/// the last value, or `found` where nothing is left.
proof fn read_from_pairs(args: Seq<Seq<char>>, from: int, found: Option<Seq<char>>)
    requires
        pairs_up_to(args, from),
    ensures
        read_from(args, from, found) is Ok <==> pairs_up_to(args, args.len() as int) && (from
            < args.len() || found is Some),
        read_from(args, from, found) is Ok && from < args.len() ==> read_from(args, from, found)
            == Ok::<Seq<char>, CliErrorView>(args[args.len() - 1]),
        read_from(args, from, found) is Ok && from >= args.len() ==> Some(
            read_from(args, from, found)->Ok_0,
        ) == found,
    decreases args.len() - from,
{
    if from >= args.len() {
    } else if args[from] != exe_flag() {
    } else if from + 1 >= args.len() {
    } else {
        assert(pairs_up_to(args, from + 2));
        read_from_pairs(args, from + 2, Some(args[from + 1]));
    }
}

/// The command line is accepted exactly when it is made of one or more
/// pairs of the flag and a value, and the path it gives is then the last
/// value.
pub proof fn accepted_command_lines(args: Seq<Seq<char>>)
    ensures
        exe_of(args) is Ok <==> args.len() > 0 && pairs_up_to(args, args.len() as int),
        exe_of(args) is Ok ==> exe_of(args)->Ok_0 == args[args.len() - 1],
{
    read_from_pairs(args, 0, None);
}

/// A path or the reason there is none, as contracts see it.
pub open spec fn chosen_view(chosen: Result<String, CliError>) -> Result<Seq<char>, CliErrorView> {
    match chosen {
        Ok(path) => Ok(path@),
        Err(error) => Err(error@),
    }
}

/// Reads the path of the debuggee's executable off the arguments that
/// follow the program's name.
pub fn parse_args(args: &Vec<String>) -> (chosen: Result<String, CliError>)
    ensures
        chosen_view(chosen) == exe_of(texts(args@)),
{
    let flag = String::from_str("--dreamseeker-exe");
    let mut found: Option<String> = None;
    let mut i: usize = 0;
    while i < args.len()
        invariant
            i <= args.len(),
            flag@ == exe_flag(),
            exe_of(texts(args@)) == read_from(
                texts(args@),
                i as int,
                match found {
                    Some(path) => Some(path@),
                    None => None,
                },
            ),
        decreases args.len() - i,
    {
        if args[i] != flag {
            return Err(CliError::UnknownArgument { argument: args[i].clone() });
        }
        if i + 1 >= args.len() {
            return Err(CliError::MissingValue);
        }
        found = Some(args[i + 1].clone());
        i = i + 2;
    }
    match found {
        Some(path) => Ok(path),
        None => Err(CliError::MissingFlag),
    }
}

} // verus!
