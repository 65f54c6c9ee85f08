use crate::text::str_eq;
use vstd::prelude::*;

verus! {

/// The debug-mode flag on the command line.
pub open spec fn is_debug_flag(s: Seq<char>) -> bool {
    s == "--debug"@
}

/// The filename the first `n` arguments choose: the last one that is not
/// the debug flag, or the empty string if there is none.
pub open spec fn chosen_filename(args: Seq<String>, n: int) -> Seq<char>
    decreases n,
{
    if n <= 0 {
        Seq::empty()
    } else if is_debug_flag(args[n - 1]@) {
        chosen_filename(args, n - 1)
    } else {
        args[n - 1]@
    }
}

/// Whether any of the first `n` arguments is the debug flag.
pub open spec fn any_debug_flag(args: Seq<String>, n: int) -> bool
    decreases n,
{
    if n <= 0 {
        false
    } else {
        is_debug_flag(args[n - 1]@) || any_debug_flag(args, n - 1)
    }
}

/// What a run needs to know: the program image to load, and whether the run
/// goes through the debugger.
#[derive(Debug, PartialEq)]
pub struct Config {
    pub filename: String,
    pub debug: bool,
}

impl Config {
    /// Read the command line: the first argument is the program's own name;
    /// among the rest, `--debug` turns debug mode on and the last other
    /// argument is the image's filename. Fewer than two arguments are
    /// refused.
    pub fn with(args: &[String]) -> (r: Result<Self, &'static str>)
        ensures
            match r {
                Ok(config) => {
                    &&& args@.len() >= 2
                    &&& config.filename@ == chosen_filename(args@, args@.len() as int)
                    &&& config.debug == any_debug_flag(args@, args@.len() as int)
                },
                Err(e) => args@.len() < 2 && e@ == "not enough arguments"@,
            },
    {
        if args.len() < 2 {
            return Err("not enough arguments");
        }

        let mut filename = String::new();
        let mut debug = false;

        let mut i: usize = 0;
        while i < args.len()
            invariant
                i <= args@.len(),
                filename@ == chosen_filename(args@, i as int),
                debug == any_debug_flag(args@, i as int),
            decreases args@.len() - i,
        {
            if str_eq(args[i].as_str(), "--debug") {
                debug = true;
            } else {
                filename = args[i].clone();
            }
            i = i + 1;
        }

        Ok(Self { filename, debug })
    }
}

} // verus!
