//! The record types of the analysis: configuration, resolved
//! configuration, and the integer Halstead quantities of one file.
use vstd::prelude::*;

verus! {

/// Configuration as a caller hands it in, every field optional.
#[derive(Debug, Default)]
pub struct FtaConfigOptional {
    pub extensions: Option<Vec<String>>,
    pub exclude_filenames: Option<Vec<String>>,
    pub exclude_directories: Option<Vec<String>>,
    pub output_limit: Option<usize>,
    pub score_cap: Option<usize>,
    pub include_comments: Option<bool>,
    pub exclude_under: Option<usize>,
}

/// Configuration with every field resolved to a concrete value.
#[derive(Debug, Default)]
pub struct FtaConfigResolved {
    pub extensions: Vec<String>,
    pub exclude_filenames: Vec<String>,
    pub exclude_directories: Vec<String>,
    pub output_limit: usize,
    pub score_cap: usize,
    pub include_comments: bool,
    pub exclude_under: usize,
}

/// The Halstead counts of one compilation unit. The real-valued derived
/// estimates (volume, difficulty, effort, time, bugs) are fixed arithmetic
/// images of these integers and are computed by the reporting layer.
#[derive(Clone, Copy, PartialEq, Eq, Structural, Debug)]
pub struct HalsteadMetrics {
    pub uniq_operators: usize,
    pub uniq_operands: usize,
    pub total_operators: usize,
    pub total_operands: usize,
    pub program_length: usize,
    pub vocabulary_size: usize,
}

/// Resolves a partial configuration against the tool's defaults: every
/// field that was given is kept as given; every field that was not is
/// the default (extensions `.js .jsx .ts .tsx`; excluded filenames
/// `.d.ts .min.js .bundle.js`; excluded directories `/dist /bin /build`;
/// output limit 5000; score cap 1000; comment lines not counted;
/// exclude-under 6).
pub fn resolve_config(partial: FtaConfigOptional) -> (r: FtaConfigResolved)
    ensures
        partial.extensions is Some ==> r.extensions == partial.extensions->0,
        partial.extensions is None ==> r.extensions.deep_view() == seq![
            ".js"@,
            ".jsx"@,
            ".ts"@,
            ".tsx"@,
        ],
        partial.exclude_filenames is Some ==> r.exclude_filenames == partial.exclude_filenames->0,
        partial.exclude_filenames is None ==> r.exclude_filenames.deep_view() == seq![
            ".d.ts"@,
            ".min.js"@,
            ".bundle.js"@,
        ],
        partial.exclude_directories is Some ==> r.exclude_directories
            == partial.exclude_directories->0,
        partial.exclude_directories is None ==> r.exclude_directories.deep_view() == seq![
            "/dist"@,
            "/bin"@,
            "/build"@,
        ],
        r.output_limit == (if partial.output_limit is Some {
            partial.output_limit->0
        } else {
            5000usize
        }),
        r.score_cap == (if partial.score_cap is Some {
            partial.score_cap->0
        } else {
            1000usize
        }),
        r.include_comments == (if partial.include_comments is Some {
            partial.include_comments->0
        } else {
            false
        }),
        r.exclude_under == (if partial.exclude_under is Some {
            partial.exclude_under->0
        } else {
            6usize
        }),
{
    let FtaConfigOptional {
        extensions,
        exclude_filenames,
        exclude_directories,
        output_limit,
        score_cap,
        include_comments,
        exclude_under,
    } = partial;
    let extensions = match extensions {
        Some(v) => v,
        None => {
            let d = vec![".js".to_owned(), ".jsx".to_owned(), ".ts".to_owned(), ".tsx".to_owned()];
            proof {
                assert(d.deep_view() =~= seq![".js"@, ".jsx"@, ".ts"@, ".tsx"@]);
            }
            d
        },
    };
    let exclude_filenames = match exclude_filenames {
        Some(v) => v,
        None => {
            let d = vec![".d.ts".to_owned(), ".min.js".to_owned(), ".bundle.js".to_owned()];
            proof {
                assert(d.deep_view() =~= seq![".d.ts"@, ".min.js"@, ".bundle.js"@]);
            }
            d
        },
    };
    let exclude_directories = match exclude_directories {
        Some(v) => v,
        None => {
            let d = vec!["/dist".to_owned(), "/bin".to_owned(), "/build".to_owned()];
            proof {
                assert(d.deep_view() =~= seq!["/dist"@, "/bin"@, "/build"@]);
            }
            d
        },
    };
    FtaConfigResolved {
        extensions,
        exclude_filenames,
        exclude_directories,
        output_limit: match output_limit {
            Some(v) => v,
            None => 5000,
        },
        score_cap: match score_cap {
            Some(v) => v,
            None => 1000,
        },
        include_comments: match include_comments {
            Some(v) => v,
            None => false,
        },
        exclude_under: match exclude_under {
            Some(v) => v,
            None => 6,
        },
    }
}

} // verus!
