use vstd::prelude::*;

verus! {

/// The argument that names no file: empty, or `-`; the input is then read
/// from standard input.
pub open spec fn names_stdin(arg: Seq<char>) -> bool {
    arg.len() == 0 || arg == seq!['-']
}

/// The file to read, or `None` for standard input.
pub fn input_path(arg: &str) -> (r: Option<String>)
    ensures
        names_stdin(arg@) ==> r is None,
        !names_stdin(arg@) ==> (r matches Some(p) && p@ == arg@),
{
    let n = arg.unicode_len();
    if n == 0 {
        return None;
    }
    if n == 1 && arg.get_char(0) == '-' {
        proof {
            assert(arg@ =~= seq!['-']);
        }
        return None;
    }
    Some(String::from_str(arg))
}

/// How much diagnostic output to show.
#[derive(Debug, Clone, Copy, PartialEq, Eq, Structural)]
pub enum Verbosity {
    Off,
    Warn,
    Info,
    Debug,
    Trace,
}

/// The verbosity chosen by the quiet flag and the number of verbose flags.
pub open spec fn verbosity_of(quiet: bool, verbose: u8) -> Verbosity {
    if quiet {
        Verbosity::Off
    } else if verbose == 0 {
        Verbosity::Warn
    } else if verbose == 1 {
        Verbosity::Info
    } else if verbose == 2 {
        Verbosity::Debug
    } else {
        Verbosity::Trace
    }
}

/// Quiet silences everything; otherwise each verbose flag shows one more level,
/// from warnings up to traces.
pub fn log_verbosity(quiet: bool, verbose: u8) -> (r: Verbosity)
    ensures
        r == verbosity_of(quiet, verbose),
{
    if quiet {
        Verbosity::Off
    } else {
        match verbose {
            0 => Verbosity::Warn,
            1 => Verbosity::Info,
            2 => Verbosity::Debug,
            _ => Verbosity::Trace,
        }
    }
}

} // verus!
