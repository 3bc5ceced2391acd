//! The command line: what a launch is asked to do.

use crate::text::{chars_of, same_text};
use vstd::prelude::*;

verus! {

/// The version that the viewer reports of itself.
pub const VERSION: &'static str = "0.1.0";

/// What the viewer prints when it is asked for help.
pub const HELP_TEXT: &'static str = "glance - A minimal markdown viewer

USAGE:
    glance <file.md> [options]

OPTIONS:
    --help, -h       Show this help message
    --version, -v    Show version
    --no-truncate    Render entire file regardless of size
";

/// What a launch is asked to do.
#[derive(Debug)]
pub enum Invocation {
    /// Print the help text and leave.
    Help,
    /// Print the version and leave.
    Version,
    /// Show `file`, or start without a document.
    Run { file: Option<String>, no_truncate: bool },
}

/// What an invocation is, in mathematical terms.
pub enum InvocationModel {
    Help,
    Version,
    Run { file: Option<Seq<char>>, no_truncate: bool },
}

impl View for Invocation {
    type V = InvocationModel;

    open spec fn view(&self) -> InvocationModel {
        match self {
            Invocation::Help => InvocationModel::Help,
            Invocation::Version => InvocationModel::Version,
            Invocation::Run { file, no_truncate } => InvocationModel::Run {
                file: match file {
                    Some(path) => Some(path@),
                    None => None,
                },
                no_truncate: *no_truncate,
            },
        }
    }
}

/// The arguments as texts.
pub open spec fn argument_texts(args: Seq<String>) -> Seq<Seq<char>> {
    Seq::new(args.len(), |i: int| args[i]@)
}

/// Whether an argument is an option: it begins with two dashes.
pub open spec fn is_option(arg: Seq<char>) -> bool {
    arg.len() >= 2 && arg[0] == '-' && arg[1] == '-'
}

/// The first argument from position `from` on that is no option.
pub open spec fn first_file_from(args: Seq<Seq<char>>, from: int) -> Option<Seq<char>>
    decreases args.len() - from,
{
    if from < 0 || from >= args.len() {
        None
    } else if !is_option(args[from]) {
        Some(args[from])
    } else {
        first_file_from(args, from + 1)
    }
}

/// Whether any argument asks for large documents to be shown whole.
pub open spec fn asks_no_truncate(args: Seq<Seq<char>>) -> bool {
    exists|i: int| 0 <= i < args.len() && #[trigger] args[i] == "--no-truncate"@
}

/// What the arguments ask for. The first argument is the program's name.
///
/// Help or the version is asked for by the argument that follows the
/// program's name, and by no other. Otherwise the file is the first argument
/// after the program's name that is no option.
pub open spec fn invocation_of(args: Seq<Seq<char>>) -> InvocationModel {
    if args.len() > 1 && (args[1] == "--help"@ || args[1] == "-h"@) {
        InvocationModel::Help
    } else if args.len() > 1 && (args[1] == "--version"@ || args[1] == "-v"@) {
        InvocationModel::Version
    } else {
        InvocationModel::Run {
            file: first_file_from(args, 1),
            no_truncate: asks_no_truncate(args),
        }
    }
}

/// Decides whether an argument is an option.
pub fn argument_is_option(arg: &str) -> (r: bool)
    ensures
        r == is_option(arg@),
{
    let cs = chars_of(arg);
    cs.len() >= 2 && cs[0] == '-' && cs[1] == '-'
}

/// Reads the command line.
pub fn parse_args(args: &Vec<String>) -> (r: Invocation)
    ensures
        r@ == invocation_of(argument_texts(args@)),
{
    let ghost texts = argument_texts(args@);
    if args.len() > 1 {
        let first = args[1].as_str();
        proof {
            assert(texts[1] == args@[1]@);
        }
        if same_text(first, "--help") || same_text(first, "-h") {
            return Invocation::Help;
        }
        if same_text(first, "--version") || same_text(first, "-v") {
            return Invocation::Version;
        }
    }
    let mut no_truncate = false;
    let mut i: usize = 0;
    while i < args.len()
        invariant
            i <= args.len(),
            texts == argument_texts(args@),
            no_truncate <==> exists|j: int| 0 <= j < i && #[trigger] texts[j] == "--no-truncate"@,
        decreases args.len() - i,
    {
        proof {
            assert(texts[i as int] == args@[i as int]@);
        }
        if same_text(args[i].as_str(), "--no-truncate") {
            no_truncate = true;
        }
        i += 1;
    }
    let mut file: Option<String> = None;
    let mut k: usize = 1;
    while k < args.len() && file.is_none()
        invariant
            1 <= k,
            texts == argument_texts(args@),
            match file {
                Some(path) => first_file_from(texts, 1) == Some(path@),
                None => first_file_from(texts, 1) == first_file_from(texts, k as int),
            },
        decreases args.len() - k + (if file is None { 1int } else { 0int }),
    {
        proof {
            assert(texts[k as int] == args@[k as int]@);
        }
        if !argument_is_option(args[k].as_str()) {
            file = Some(args[k].clone());
        } else {
            k += 1;
        }
    }
    Invocation::Run { file, no_truncate }
}

} // verus!
