use vstd::prelude::*;

use swc_common::BytePos;
use swc_common::Spanned;
use swc_ecma_parser::EsSyntax;
use swc_ecma_parser::Parser;
use swc_ecma_parser::StringInput;
use swc_ecma_parser::Syntax;
use swc_ecma_parser::TsSyntax;
use vstd::string::StringSliceAdditionalSpecFns;

use crate::syntax::SyntaxDialect;

verus! {

/// Whether the parser accepts the text under the given grammar flags
/// (TypeScript or EcmaScript, with or without JSX): a function of the
/// text and the flags alone.
pub uninterp spec fn parses(code: Seq<char>, typescript: bool, jsx: bool) -> bool;

/// A rejection as the parser reports it: a byte offset into the text and
/// a message.
struct ParseIssue {
    offset: usize,
    message: String,
}

/// Relies on swc_ecma_parser::Parser::parse_module: the text is accepted,
/// with no fatal and no recovered error, exactly when it conforms to the
/// grammar the flags select; the outcome depends on the text and the
/// flags alone. A rejection carries a byte position within the text.
#[verifier::external_body]
fn parse_module_raw(code: &str, typescript: bool, jsx: bool) -> (r: Result<(), ParseIssue>)
    requires
        code.spec_bytes().len() <= u32::MAX as int,
    ensures
        (r is Ok) <==> parses(code@, typescript, jsx),
{
    let syntax = if typescript {
        Syntax::Typescript(TsSyntax { tsx: jsx, ..Default::default() })
    } else {
        Syntax::Es(EsSyntax { jsx, ..Default::default() })
    };
    let input = StringInput::new(code, BytePos(0), BytePos(code.len() as u32));
    let mut parser = Parser::new(syntax, input, None);
    let parsed = parser.parse_module();
    let recovered = parser.take_errors().into_iter().next().map_or(Ok(()), Err);
    parsed.and(recovered).map_err(
        |e| ParseIssue { offset: e.span().lo.0 as usize, message: e.kind().msg().into_owned() },
    )
}

/// A source position the parser rejected at, with the parser's message.
/// `line` and `column` are zero-based; `column` counts UTF-8 bytes.
#[derive(Clone, Debug)]
pub struct ParseError {
    pub line: usize,
    pub column: usize,
    pub message: String,
}

/// The number of newline bytes in the text.
pub open spec fn newline_count(bytes: Seq<u8>) -> nat
    decreases bytes.len(),
{
    if bytes.len() == 0 {
        0
    } else {
        newline_count(bytes.drop_last()) + if bytes.last() == 10u8 {
            1nat
        } else {
            0nat
        }
    }
}

/// The start of the line a byte offset falls on: the position right after
/// the last newline before it.
pub open spec fn line_start(bytes: Seq<u8>, off: int) -> int
    decreases off,
{
    if off <= 0 {
        0
    } else if bytes[off - 1] == 10u8 {
        off
    } else {
        line_start(bytes, off - 1)
    }
}

/// An offset past the end of the text locates the end.
pub open spec fn clip_offset(bytes: Seq<u8>, off: int) -> int {
    if off > bytes.len() {
        bytes.len() as int
    } else {
        off
    }
}

/// The zero-based line of a byte offset: how many newlines precede it.
pub open spec fn spec_line0(bytes: Seq<u8>, off: int) -> int {
    newline_count(bytes.take(clip_offset(bytes, off))) as int
}

/// The zero-based column of a byte offset: how far it sits from its
/// line's start, in bytes.
pub open spec fn spec_col0(bytes: Seq<u8>, off: int) -> int {
    clip_offset(bytes, off) - line_start(bytes, clip_offset(bytes, off))
}

/// Turns a byte offset into the zero-based line and column it falls on.
pub fn locate(code: &str, offset: usize) -> (r: (usize, usize))
    ensures
        r.0 as int == spec_line0(code.spec_bytes(), offset as int),
        r.1 as int == spec_col0(code.spec_bytes(), offset as int),
{
    let b = code.as_bytes();
    let end = if offset <= b.len() {
        offset
    } else {
        b.len()
    };
    let mut i: usize = 0;
    let mut nl: usize = 0;
    let mut ls: usize = 0;
    while i < end
        invariant
            end <= b@.len(),
            i <= end,
            nl as int == newline_count(b@.take(i as int)),
            ls as int == line_start(b@, i as int),
            nl <= i,
            ls <= i,
        decreases end - i,
    {
        proof {
            assert(b@.take(i + 1 as int).drop_last() =~= b@.take(i as int));
            assert(b@.take(i + 1 as int).last() == b@[i as int]);
        }
        if b[i] == 10u8 {
            nl = nl + 1;
            ls = i + 1;
        }
        i = i + 1;
    }
    (nl, end - ls)
}

/// Parses the text under the chosen dialect, only to learn whether it
/// conforms: `Ok` exactly when the parser accepts it, else the rejection's
/// position and message. No partial result comes out of a rejection.
pub fn check_parses(code: &str, dialect: &SyntaxDialect) -> (r: Result<(), ParseError>)
    requires
        code.spec_bytes().len() <= u32::MAX as int,
    ensures
        (r is Ok) <==> parses(code@, dialect.is_typescript(), dialect.jsx_enabled()),
{
    match parse_module_raw(code, dialect.typescript(), dialect.jsx()) {
        Ok(()) => Ok(()),
        Err(issue) => {
            let (line, column) = locate(code, issue.offset);
            Err(ParseError { line, column, message: issue.message })
        },
    }
}

} // verus!
