use vstd::prelude::*;

use crate::text::{chars_of, range_eq};

verus! {

/// How the application was started.
pub struct LaunchOptions {
    /// Started by the system at log-in, with the window hidden.
    pub start_in_background: bool,
    /// A file or folder to open first.
    pub start_path: Option<String>,
}

/// The argument with which the system starts the application at log-in.
pub open spec fn is_startup_arg(arg: Seq<char>) -> bool {
    arg == "--startup"@
}

/// Reads the command-line arguments that follow the program's name: `--startup` anywhere
/// asks for a hidden start, and the first other argument is the path to open.
pub fn parse_launch_options(args: &Vec<String>) -> (r: LaunchOptions)
    ensures
        r.start_in_background == exists|i: int|
            0 <= i < args@.len() && is_startup_arg(#[trigger] args@[i]@),
        r.start_path is None <==> forall|i: int|
            0 <= i < args@.len() ==> is_startup_arg(#[trigger] args@[i]@),
        r.start_path matches Some(p) ==> exists|i: int|
            0 <= i < args@.len() && !is_startup_arg(#[trigger] args@[i]@) && p@ == args@[i]@
                && forall|j: int| 0 <= j < i ==> is_startup_arg(#[trigger] args@[j]@),
{
    let flag = chars_of("--startup");
    let mut start_in_background = false;
    let mut start_path: Option<String> = None;
    let mut i: usize = 0;
    while i < args.len()
        invariant
            flag@ == "--startup"@,
            i <= args@.len(),
            start_in_background == exists|k: int| 0 <= k < i && is_startup_arg(#[trigger] args@[k]@),
            start_path is None <==> forall|k: int| 0 <= k < i ==> is_startup_arg(#[trigger] args@[k]@),
            start_path matches Some(p) ==> exists|k: int|
                0 <= k < i && !is_startup_arg(#[trigger] args@[k]@) && p@ == args@[k]@
                    && forall|j: int| 0 <= j < k ==> is_startup_arg(#[trigger] args@[j]@),
        decreases args@.len() - i,
    {
        let cs = chars_of(args[i].as_str());
        if range_eq(&cs, 0, cs.len(), &flag) {
            assert(cs@.subrange(0, cs@.len() as int) =~= cs@);
            start_in_background = true;
        } else {
            assert(cs@.subrange(0, cs@.len() as int) =~= cs@);
            if start_path.is_none() {
                start_path = Some(args[i].clone());
            }
        }
        i = i + 1;
    }
    LaunchOptions { start_in_background, start_path }
}

} // verus!
