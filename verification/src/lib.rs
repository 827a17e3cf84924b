//! Static complexity metrics for a source file of a C-family scripting
//! language: a cyclomatic-complexity count and the full Halstead metric
//! set, computed as pure functions of an already-parsed syntax tree, plus
//! the parsing front end that produces the tree and the physical line
//! count of the code.
pub mod ast;
pub mod cyclo;
pub mod halstead;
pub mod parse;
pub mod structs;

use vstd::prelude::*;
use vstd::string::StringExecFns;

use crate::ast::SourceUnit;
use crate::structs::HalsteadMetrics;

verus! {

/// Runs the two counters over one syntax tree — independently, with no
/// shared state — and returns the file-level cyclomatic complexity
/// together with the Halstead counts. Both are pure functions of the
/// tree.
pub fn analyze_file(module: &SourceUnit) -> (r: (usize, HalsteadMetrics))
    ensures
        r.0 == cyclo::spec_cyclo(*module),
        r.0 >= 1,
        r.1 == halstead::spec_metrics(*module),
{
    let cyclo = cyclo::cyclomatic_complexity(module);
    let halstead_metrics = halstead::analyze_module(module);
    (cyclo, halstead_metrics)
}

/// The flavour a file was parsed as, as shown in the warning.
pub open spec fn lang_name(use_tsx: bool) -> Seq<char> {
    if use_tsx {
        "j/tsx"@
    } else {
        "non-j/tsx"@
    }
}

/// The text of the wrong-flavour warning for `file` parsed as `use_tsx`.
pub open spec fn warn_message(file: Seq<char>, use_tsx: bool) -> Seq<char> {
    "File "@ + file + " was interpreted as "@ + lang_name(use_tsx)
        + " but seems to actually be "@ + lang_name(!use_tsx)
        + ". The file extension may be incorrect."@
}

/// Builds the warning that a file seems to be of the opposite syntax
/// flavour than the one it was parsed as. Emitting the warning is the
/// caller's concern.
pub fn warn_about_language(file_name: &str, use_tsx: bool) -> (msg: String)
    ensures
        msg@ == warn_message(file_name@, use_tsx),
{
    let tsx_name = if use_tsx {
        "j/tsx"
    } else {
        "non-j/tsx"
    };
    let opposite_tsx_name = if use_tsx {
        "non-j/tsx"
    } else {
        "j/tsx"
    };
    let mut msg = "File ".to_owned();
    msg.append(file_name);
    msg.append(" was interpreted as ");
    msg.append(tsx_name);
    msg.append(" but seems to actually be ");
    msg.append(opposite_tsx_name);
    msg.append(". The file extension may be incorrect.");
    proof {
        assert(msg@ =~= warn_message(file_name@, use_tsx));
    }
    msg
}

} // verus!
