use fta::structs::{FtaConfigOptional, FtaConfigResolved};
use fta::structs::resolve_config;

#[test]
fn empty_config_resolves_to_defaults() {
    let resolved: FtaConfigResolved = resolve_config(FtaConfigOptional {
        extensions: None,
        exclude_filenames: None,
        exclude_directories: None,
        output_limit: None,
        score_cap: None,
        include_comments: None,
        exclude_under: None,
    });
    assert_eq!(resolved.extensions, vec![".js", ".jsx", ".ts", ".tsx"]);
    assert_eq!(resolved.exclude_filenames, vec![".d.ts", ".min.js", ".bundle.js"]);
    assert_eq!(resolved.exclude_directories, vec!["/dist", "/bin", "/build"]);
    assert_eq!(resolved.output_limit, 5000);
    assert_eq!(resolved.score_cap, 1000);
    assert!(!resolved.include_comments);
    assert_eq!(resolved.exclude_under, 6);
}

#[test]
fn given_fields_are_kept_as_given() {
    let resolved = resolve_config(FtaConfigOptional {
        extensions: Some(vec![".mts".to_owned()]),
        exclude_filenames: None,
        exclude_directories: Some(vec!["/out".to_owned()]),
        output_limit: Some(7),
        score_cap: Some(55),
        include_comments: Some(true),
        exclude_under: Some(2),
    });
    assert_eq!(resolved.extensions, vec![".mts"]);
    assert_eq!(resolved.exclude_filenames, vec![".d.ts", ".min.js", ".bundle.js"]);
    assert_eq!(resolved.exclude_directories, vec!["/out"]);
    assert_eq!(resolved.output_limit, 7);
    assert_eq!(resolved.score_cap, 55);
    assert!(resolved.include_comments);
    assert_eq!(resolved.exclude_under, 2);
}

#[test]
fn warning_names_both_language_flavours() {
    let msg = fta::warn_about_language("src/App.tsx", true);
    assert_eq!(
        msg,
        "File src/App.tsx was interpreted as j/tsx but seems to actually be non-j/tsx. \
         The file extension may be incorrect."
    );
    let msg = fta::warn_about_language("src/util.ts", false);
    assert_eq!(
        msg,
        "File src/util.ts was interpreted as non-j/tsx but seems to actually be j/tsx. \
         The file extension may be incorrect."
    );
}
