use fta::parse::parse_module;

#[test]
fn test_parse_module() {
    let ts_code = r#"
            function add(a: number, b: number): number {
                return a + b;
            }

            const myResult = add(23, 56);
            console.log(myResult); // 79
        "#;

    let (parsed_module, line_count) = parse_module(ts_code, true, false);

    assert!(parsed_module.is_ok(), "Failed to parse TypeScript code");
    assert_eq!(line_count, 5, "Incorrect line count");
}

#[test]
fn it_ignores_comments() {
    let ts_code = r#"
            /*
            Block comment with multiple lines.
            */
            function add(a: number, b: number): number {
                return a + b;
            }

            // line comment
            const myResult = add(23, 56);
            /* block comment with single line */
            console.log(myResult); // Trailing comments don't count towards the comment count.
        "#;

    let (parsed_module, line_count) = parse_module(ts_code, true, false);

    assert!(parsed_module.is_ok(), "Failed to parse TypeScript code");
    assert_eq!(line_count, 5, "Incorrect line count");
}

#[test]
fn comment_lines_count_when_comments_are_included() {
    let ts_code = "// leading comment\nlet x = 1;\n";

    let (parsed_without, count_without) = parse_module(ts_code, true, false);
    let (parsed_with, count_with) = parse_module(ts_code, true, true);

    assert!(parsed_without.is_ok());
    assert!(parsed_with.is_ok());
    assert_eq!(count_without, 1);
    assert_eq!(count_with, 2);
}

#[test]
fn empty_source_has_no_code_lines() {
    let (parsed_module, line_count) = parse_module("", true, false);
    assert!(parsed_module.is_ok());
    assert_eq!(line_count, 0);
}

#[test]
fn malformed_source_is_reported_as_an_error() {
    let (parsed_module, _line_count) = parse_module("const = ;", true, false);
    assert!(parsed_module.is_err());
}

#[test]
fn parsing_twice_gives_the_same_line_count() {
    let ts_code = "let a = 1;\n// note\nlet b = 2;\n";
    let (_, first) = parse_module(ts_code, true, false);
    let (_, second) = parse_module(ts_code, true, false);
    assert_eq!(first, second);
}
