//! Parsing front end: hands source text to the external parser and
//! computes the physical line count of the code.
//!
//! The parser itself is an external collaborator; the tree it produces is
//! carried through opaquely. What is computed here — and verified — is the
//! line count: the number of lines that hold at least one byte of code,
//! where whitespace never counts and comment bytes only count when
//! comment counting is switched on.
use vstd::prelude::*;
use vstd::string::StrSliceExecFns;
use vstd::string::StringSliceAdditionalSpecFns;

use swc_common::comments::SingleThreadedComments;
use swc_common::input::StringInput;
use swc_common::{FileName, SourceMap};
use swc_ecma_parser::{Parser, Syntax, TsSyntax};

verus! {

#[verifier::external_type_specification]
#[verifier::external_body]
pub struct ExModule(swc_ecma_ast::Module);

#[verifier::external_type_specification]
#[verifier::external_body]
pub struct ExParseError(swc_ecma_parser::error::Error);

/// The comment spans that the external lexer reports for this source and
/// syntax flavour: a set of half-open byte ranges, one per comment,
/// delimiters included. Positions count from 1, the lexer's numbering of
/// the first source byte. Lexing is deterministic, so the spans are a
/// function of the source bytes and the flavour alone.
pub uninterp spec fn comment_spans(src: Seq<u8>, tsx: bool) -> Set<(usize, usize)>;

/// Relies on swc_ecma_parser::Parser::parse_module for the syntax tree
/// and on swc_common::comments::SingleThreadedComments for the comments
/// the lexer collected; each comment's span is handed out as a byte
/// range. The spans come from hash maps, so only their set is promised.
#[verifier::external_body]
fn parse_with_comments(source: &str, use_tsx: bool) -> (r: (
    Result<swc_ecma_ast::Module, swc_ecma_parser::error::Error>,
    Vec<(usize, usize)>,
))
    ensures
        r.1@.to_set() == comment_spans(source.spec_bytes(), use_tsx),
{
    let cm = SourceMap::default();
    let fm = cm.new_source_file(FileName::Anon.into(), source.to_string());
    let comments = SingleThreadedComments::default();
    let syntax = Syntax::Typescript(TsSyntax { tsx: use_tsx, decorators: true, ..Default::default() });
    let mut parser = Parser::new(syntax, StringInput::from(&*fm), Some(&comments));
    let result = parser.parse_module();
    let mut spans: Vec<(usize, usize)> = Vec::new();
    let (leading, trailing) = comments.borrow_all();
    for list in leading.values().chain(trailing.values()) {
        for c in list {
            spans.push((c.span.lo.0 as usize, c.span.hi.0 as usize));
        }
    }
    (result, spans)
}

/// Whitespace bytes within a line: space, tab, carriage return.
pub open spec fn is_ws(b: u8) -> bool {
    b == 32 || b == 9 || b == 13
}

/// Whether the byte at 0-based index `i` lies inside one of the comment
/// spans (whose positions count from 1).
pub open spec fn in_spans(spans: Set<(usize, usize)>, i: int) -> bool {
    exists|p: (usize, usize)| spans.contains(p) && p.0 <= i + 1 < p.1
}

/// Whether the byte at index `i` counts as code: not whitespace, and not
/// part of a comment unless comments are being counted.
pub open spec fn counted_byte(
    bytes: Seq<u8>,
    spans: Set<(usize, usize)>,
    include_comments: bool,
    i: int,
) -> bool {
    !is_ws(bytes[i]) && (include_comments || !in_spans(spans, i))
}

/// The number of counted lines from byte index `i` on, given whether the
/// current line already holds a counted byte. A line break ends the
/// current line; the line counts exactly when some byte of it counted.
pub open spec fn count_lines_from(
    bytes: Seq<u8>,
    spans: Set<(usize, usize)>,
    include_comments: bool,
    i: int,
    cur_has_code: bool,
) -> nat
    recommends
        0 <= i <= bytes.len(),
    decreases bytes.len() - i,
{
    if i < 0 || i >= bytes.len() {
        if cur_has_code {
            1nat
        } else {
            0nat
        }
    } else if bytes[i] == 10 {
        (if cur_has_code {
            1nat
        } else {
            0nat
        }) + count_lines_from(bytes, spans, include_comments, i + 1, false)
    } else {
        count_lines_from(
            bytes,
            spans,
            include_comments,
            i + 1,
            cur_has_code || counted_byte(bytes, spans, include_comments, i),
        )
    }
}

/// The physical line count of the code: the number of lines with at
/// least one counted byte.
pub open spec fn code_line_count(
    bytes: Seq<u8>,
    spans: Set<(usize, usize)>,
    include_comments: bool,
) -> nat {
    count_lines_from(bytes, spans, include_comments, 0, false)
}

/// Whether the byte at index `i` lies inside one of `spans`.
#[verifier::loop_isolation(false)]
fn byte_commented(spans: &Vec<(usize, usize)>, i: usize) -> (r: bool)
    requires
        i < usize::MAX,
    ensures
        r == in_spans(spans@.to_set(), i as int),
{
    let mut j: usize = 0;
    while j < spans.len()
        invariant
            j <= spans.len(),
            forall|k: int| 0 <= k < j ==> !((#[trigger] spans@[k]).0 <= i + 1 < spans@[k].1),
        decreases spans.len() - j,
    {
        let (lo, hi) = spans[j];
        if lo <= i + 1 && i + 1 < hi {
            proof {
                assert(spans@.to_set().contains(spans@[j as int]));
            }
            return true;
        }
        j = j + 1;
    }
    proof {
        assert forall|p: (usize, usize)| spans@.to_set().contains(p) implies !(p.0 <= i + 1
            < p.1) by {
            let k = choose|k: int| 0 <= k < spans@.len() && spans@[k] == p;
        }
    }
    false
}

/// Counts the lines of `bytes` that hold at least one counted byte.
#[verifier::loop_isolation(false)]
fn count_code_lines(bytes: &Vec<u8>, spans: &Vec<(usize, usize)>, include_comments: bool) -> (r:
    usize)
    ensures
        r == code_line_count(bytes@, spans@.to_set(), include_comments),
{
    let ghost span_set = spans@.to_set();
    let mut count: usize = 0;
    let mut cur_has_code = false;
    let mut i: usize = 0;
    while i < bytes.len()
        invariant
            i <= bytes.len(),
            count <= i,
            cur_has_code ==> count < i,
            code_line_count(bytes@, span_set, include_comments) == count + count_lines_from(
                bytes@,
                span_set,
                include_comments,
                i as int,
                cur_has_code,
            ),
        decreases bytes.len() - i,
    {
        let b = bytes[i];
        if b == 10 {
            if cur_has_code {
                count = count + 1;
                cur_has_code = false;
            }
        } else if !(b == 32 || b == 9 || b == 13) {
            if include_comments {
                cur_has_code = true;
            } else if !byte_commented(spans, i) {
                cur_has_code = true;
            }
        }
        i = i + 1;
    }
    if cur_has_code {
        count = count + 1;
    }
    count
}

/// Parses one compilation unit with the external parser (TypeScript
/// flavour, optionally TSX) and returns the parser's verdict together
/// with the physical line count of the code, which is a pure function of
/// the source bytes, the collected comment spans and the comment toggle.
pub fn parse_module(source: &str, use_tsx: bool, include_comments: bool) -> (r: (
    Result<swc_ecma_ast::Module, swc_ecma_parser::error::Error>,
    usize,
))
    ensures
        r.1 == code_line_count(
            source.spec_bytes(),
            comment_spans(source.spec_bytes(), use_tsx),
            include_comments,
        ),
{
    let (result, spans) = parse_with_comments(source, use_tsx);
    let bytes = source.as_bytes_vec();
    let line_count = count_code_lines(&bytes, &spans, include_comments);
    (result, line_count)
}

} // verus!
