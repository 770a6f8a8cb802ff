//! Command-line options of the player: an archive path and two flags.

use vstd::prelude::*;

use crate::text::str_eq;

verus! {

/// What the command line asked for.
#[derive(Debug)]
pub struct CliOptions {
    pub path: String,
    pub run_scripts: bool,
    pub summary_only: bool,
}

/// Whether one argument is a recognized flag.
pub open spec fn spec_flag_ok(a: Seq<char>) -> bool {
    a == "--run-scripts"@ || a == "--summary-only"@
}

/// Whether an argument list parses: a path first, then only recognized
/// flags.
pub open spec fn spec_cli_ok(args: Seq<Seq<char>>) -> bool {
    args.len() >= 1 && forall|i: int| 1 <= i < args.len() ==> spec_flag_ok(#[trigger] args[i])
}

/// Whether a flag occurs after the path.
pub open spec fn spec_has_flag(args: Seq<Seq<char>>, flag: Seq<char>) -> bool {
    exists|i: int| 1 <= i < args.len() && #[trigger] args[i] == flag
}

/// Parses the arguments after the program name: the archive path, then any
/// mix of `--run-scripts` and `--summary-only`. Anything else is an error.
pub fn parse_cli(args: &Vec<String>) -> (r: Result<CliOptions, String>)
    ensures
        r is Ok <==> spec_cli_ok(args@.map_values(|s: String| s@)),
        r is Ok ==> ({
            let views = args@.map_values(|s: String| s@);
            &&& r->Ok_0.path@ == views[0]
            &&& r->Ok_0.run_scripts == spec_has_flag(views, "--run-scripts"@)
            &&& r->Ok_0.summary_only == spec_has_flag(views, "--summary-only"@)
        }),
{
    let ghost views = args@.map_values(|s: String| s@);
    proof {
        reveal_strlit("--run-scripts");
        reveal_strlit("--summary-only");
    }
    if args.len() == 0 {
        return Err(
            String::from_str("Usage: crystal-runtime <scene.cgame> [--run-scripts] [--summary-only]"),
        );
    }
    let path = args[0].clone();
    let mut run_scripts = false;
    let mut summary_only = false;
    let n = args.len();
    let mut i: usize = 1;
    while i < n
        invariant
            1 <= i <= n,
            n == args@.len(),
            views == args@.map_values(|s: String| s@),
            forall|j: int| 1 <= j < i ==> spec_flag_ok(#[trigger] views[j]),
            run_scripts == (exists|j: int| 1 <= j < i && #[trigger] views[j] == "--run-scripts"@),
            summary_only == (exists|j: int|
                1 <= j < i && #[trigger] views[j] == "--summary-only"@),
        decreases n - i,
    {
        proof {
            reveal_strlit("--run-scripts");
            reveal_strlit("--summary-only");
            assert("--run-scripts"@.len() == 13);
            assert("--summary-only"@.len() == 14);
        }
        let arg = &args[i];
        proof {
            assert(views[i as int] == arg@);
        }
        if str_eq(arg.as_str(), "--run-scripts") {
            run_scripts = true;
            proof {
                assert(views[i as int] == "--run-scripts"@);
                assert(views[i as int] != "--summary-only"@);
            }
        } else if str_eq(arg.as_str(), "--summary-only") {
            summary_only = true;
            proof {
                assert(views[i as int] == "--summary-only"@);
                assert(views[i as int] != "--run-scripts"@);
            }
        } else {
            let mut message = String::from_str("Unknown argument: ");
            message.append(arg.as_str());
            message.append(". Expected --run-scripts or --summary-only");
            proof {
                assert(!spec_flag_ok(views[i as int]));
            }
            return Err(message);
        }
        i = i + 1;
    }
    Ok(CliOptions { path, run_scripts, summary_only })
}

} // verus!
