//! The lexical grammar, as spec functions: what token stream a source
//! text denotes.
//!
//! [`sp_scan`] is the reference lexer.  It walks the characters once,
//! emitting a token per step, counts lines, flags the two lexical errors
//! (an unexpected character, an unterminated string), and always ends the
//! stream with an end marker.  The executable scanner is proved to
//! produce exactly this.

use vstd::prelude::*;
use crate::numerics::parse_bits;
use crate::token::{SpecLiteral, SpecToken, TokenType};

verus! {

/// The result of scanning: the tokens, and whether any lexical error was
/// seen.
pub struct SpecScan {
    pub toks: Seq<SpecToken>,
    pub err: bool,
}

/// ASCII decimal digits.
pub open spec fn is_digit_c(c: char) -> bool {
    '0' <= c && c <= '9'
}

/// ASCII letters and the underscore: what may begin an identifier.
pub open spec fn is_alpha_c(c: char) -> bool {
    ('a' <= c && c <= 'z') || ('A' <= c && c <= 'Z') || c == '_'
}

/// What may continue an identifier.
pub open spec fn is_alnum_c(c: char) -> bool {
    is_alpha_c(c) || is_digit_c(c)
}

/// A line count grows by one per newline and saturates rather than wrap.
pub open spec fn sat_inc(line: u32) -> u32 {
    if line < u32::MAX {
        (line + 1) as u32
    } else {
        line
    }
}

/// The first position at or after `i` whose character no longer continues
/// an identifier.
pub open spec fn ident_end(s: Seq<char>, i: int) -> int
    decreases s.len() - i,
{
    if 0 <= i < s.len() && is_alnum_c(s[i]) {
        ident_end(s, i + 1)
    } else {
        i
    }
}

pub proof fn lemma_ident_end(s: Seq<char>, i: int)
    requires
        0 <= i <= s.len(),
    ensures
        i <= ident_end(s, i) <= s.len(),
    decreases s.len() - i,
{
    if i < s.len() && is_alnum_c(s[i]) {
        lemma_ident_end(s, i + 1);
    }
}

/// The first position at or after `i` whose character is not a digit.
pub open spec fn digits_end(s: Seq<char>, i: int) -> int
    decreases s.len() - i,
{
    if 0 <= i < s.len() && is_digit_c(s[i]) {
        digits_end(s, i + 1)
    } else {
        i
    }
}

pub proof fn lemma_digits_end(s: Seq<char>, i: int)
    requires
        0 <= i <= s.len(),
    ensures
        i <= digits_end(s, i) <= s.len(),
    decreases s.len() - i,
{
    if i < s.len() && is_digit_c(s[i]) {
        lemma_digits_end(s, i + 1);
    }
}

/// Where a number that starts at `i` ends: digits, then a fractional part
/// only when a point is directly followed by a digit.
pub open spec fn number_end(s: Seq<char>, i: int) -> int {
    let d = digits_end(s, i);
    if d < s.len() && s[d] == '.' && d + 1 < s.len() && is_digit_c(s[d + 1]) {
        digits_end(s, d + 2)
    } else {
        d
    }
}

/// How many fractional digits the number that starts at `i` has.
pub open spec fn frac_count(s: Seq<char>, i: int) -> int {
    let d = digits_end(s, i);
    if d < s.len() && s[d] == '.' && d + 1 < s.len() && is_digit_c(s[d + 1]) {
        digits_end(s, d + 2) - (d + 1)
    } else {
        0
    }
}

/// The first position at or after `i` that holds a newline (or the end):
/// where a line comment stops.
pub open spec fn comment_end(s: Seq<char>, i: int) -> int
    decreases s.len() - i,
{
    if 0 <= i < s.len() {
        if s[i] == '\n' {
            i
        } else {
            comment_end(s, i + 1)
        }
    } else {
        if i < 0 {
            0
        } else {
            s.len() as int
        }
    }
}

pub proof fn lemma_comment_end(s: Seq<char>, i: int)
    requires
        0 <= i <= s.len(),
    ensures
        i <= comment_end(s, i) <= s.len(),
    decreases s.len() - i,
{
    if i < s.len() && s[i] != '\n' {
        lemma_comment_end(s, i + 1);
    }
}

/// Walk a string literal from just after its opening quote: the position
/// of the closing quote (or the end, if there is none) and the line count
/// after any embedded newlines.
pub open spec fn string_scan(s: Seq<char>, i: int, line: u32) -> (int, u32)
    decreases s.len() - i,
{
    if 0 <= i < s.len() {
        if s[i] == '"' {
            (i, line)
        } else {
            string_scan(s, i + 1, if s[i] == '\n' {
                sat_inc(line)
            } else {
                line
            })
        }
    } else {
        if i < 0 {
            (0, line)
        } else {
            (s.len() as int, line)
        }
    }
}

pub proof fn lemma_string_scan(s: Seq<char>, i: int, line: u32)
    requires
        0 <= i <= s.len(),
    ensures
        i <= string_scan(s, i, line).0 <= s.len(),
    decreases s.len() - i,
{
    if i < s.len() && s[i] != '"' {
        lemma_string_scan(s, i + 1, if s[i] == '\n' {
            sat_inc(line)
        } else {
            line
        });
    }
}

/// The token kind an identifier lexeme denotes: a reserved keyword's
/// kind, or `Identifier`.
pub open spec fn keyword_of(s: Seq<char>) -> TokenType {
    if s == "and"@ {
        TokenType::And
    } else if s == "class"@ {
        TokenType::Class
    } else if s == "else"@ {
        TokenType::Else
    } else if s == "false"@ {
        TokenType::False
    } else if s == "for"@ {
        TokenType::For
    } else if s == "fun"@ {
        TokenType::Fun
    } else if s == "if"@ {
        TokenType::If
    } else if s == "nil"@ {
        TokenType::Nil
    } else if s == "or"@ {
        TokenType::Or
    } else if s == "print"@ {
        TokenType::Print
    } else if s == "return"@ {
        TokenType::Return
    } else if s == "super"@ {
        TokenType::Super
    } else if s == "this"@ {
        TokenType::This
    } else if s == "true"@ {
        TokenType::True
    } else if s == "var"@ {
        TokenType::Var
    } else if s == "while"@ {
        TokenType::While
    } else {
        TokenType::Identifier
    }
}

/// A token carrying no literal payload.
pub open spec fn plain_tok(tt: TokenType, lexeme: Seq<char>, line: u32) -> SpecToken {
    SpecToken { token_type: tt, lexeme, literal: Option::Some(SpecLiteral::Null), line }
}

/// The end marker.
pub open spec fn eof_tok(line: u32) -> SpecToken {
    plain_tok(TokenType::Eof, Seq::empty(), line)
}

/// Prepend a token to a scan result, folding in an error flag.
pub open spec fn scan_cons(t: SpecToken, e: bool, rest: SpecScan) -> SpecScan {
    SpecScan { toks: seq![t] + rest.toks, err: e || rest.err }
}

/// The kind a single-character token has, for the characters that form
/// one.
pub open spec fn single_kind(c: char) -> TokenType {
    if c == '(' {
        TokenType::LeftParen
    } else if c == ')' {
        TokenType::RightParen
    } else if c == '{' {
        TokenType::LeftBrace
    } else if c == '}' {
        TokenType::RightBrace
    } else if c == ',' {
        TokenType::Comma
    } else if c == '.' {
        TokenType::Dot
    } else if c == '-' {
        TokenType::Minus
    } else if c == '+' {
        TokenType::Plus
    } else if c == ';' {
        TokenType::Semicolon
    } else {
        TokenType::Star
    }
}

/// Whether `c` forms a token on its own.
pub open spec fn is_single(c: char) -> bool {
    c == '(' || c == ')' || c == '{' || c == '}' || c == ',' || c == '.' || c == '-' || c == '+'
        || c == ';' || c == '*'
}

/// The kinds of the four operators that may pair with `=`.
pub open spec fn pair_kinds(c: char) -> (TokenType, TokenType) {
    if c == '!' {
        (TokenType::Bang, TokenType::BangEqual)
    } else if c == '=' {
        (TokenType::Equal, TokenType::EqualEqual)
    } else if c == '<' {
        (TokenType::Less, TokenType::LessEqual)
    } else {
        (TokenType::Greater, TokenType::GreaterEqual)
    }
}

/// The reference lexer, from position `i` on.
pub open spec fn sp_scan(s: Seq<char>, i: int, line: u32) -> SpecScan
    decreases s.len() - i,
{
    if !(0 <= i < s.len()) {
        SpecScan { toks: seq![eof_tok(line)], err: false }
    } else {
        let c = s[i];
        if is_single(c) {
            scan_cons(
                plain_tok(single_kind(c), s.subrange(i, i + 1), line),
                false,
                sp_scan(s, i + 1, line),
            )
        } else if c == '!' || c == '=' || c == '<' || c == '>' {
            if i + 1 < s.len() && s[i + 1] == '=' {
                scan_cons(
                    plain_tok(pair_kinds(c).1, s.subrange(i, i + 2), line),
                    false,
                    sp_scan(s, i + 2, line),
                )
            } else {
                scan_cons(
                    plain_tok(pair_kinds(c).0, s.subrange(i, i + 1), line),
                    false,
                    sp_scan(s, i + 1, line),
                )
            }
        } else if c == '/' {
            if i + 1 < s.len() && s[i + 1] == '/' {
                let j = comment_end(s, i + 2);
                if i < j && j <= s.len() {
                    sp_scan(s, j, line)
                } else {
                    SpecScan { toks: seq![eof_tok(line)], err: false }
                }
            } else {
                scan_cons(
                    plain_tok(TokenType::Slash, s.subrange(i, i + 1), line),
                    false,
                    sp_scan(s, i + 1, line),
                )
            }
        } else if c == ' ' || c == '\r' || c == '\t' {
            sp_scan(s, i + 1, line)
        } else if c == '\n' {
            sp_scan(s, i + 1, sat_inc(line))
        } else if c == '"' {
            let (j, line2) = string_scan(s, i + 1, line);
            if j >= s.len() {
                SpecScan { toks: seq![eof_tok(line2)], err: true }
            } else {
                if j + 1 > i {
                    scan_cons(
                        SpecToken {
                            token_type: TokenType::StringLit,
                            lexeme: s.subrange(i, j + 1),
                            literal: Option::Some(SpecLiteral::String(s.subrange(i + 1, j))),
                            line: line2,
                        },
                        false,
                        sp_scan(s, j + 1, line2),
                    )
                } else {
                    SpecScan { toks: seq![eof_tok(line2)], err: true }
                }
            }
        } else if is_digit_c(c) {
            let e = number_end(s, i);
            if i < e && e <= s.len() {
                scan_cons(
                    SpecToken {
                        token_type: TokenType::Number,
                        lexeme: s.subrange(i, e),
                        literal: Option::Some(
                            SpecLiteral::Number(parse_bits(s.subrange(i, e)), frac_count(s, i)),
                        ),
                        line,
                    },
                    false,
                    sp_scan(s, e, line),
                )
            } else {
                SpecScan { toks: seq![eof_tok(line)], err: false }
            }
        } else if is_alpha_c(c) {
            let e = ident_end(s, i + 1);
            if i < e && e <= s.len() {
                scan_cons(
                    plain_tok(keyword_of(s.subrange(i, e)), s.subrange(i, e), line),
                    false,
                    sp_scan(s, e, line),
                )
            } else {
                SpecScan { toks: seq![eof_tok(line)], err: false }
            }
        } else {
            // An unexpected character: flagged, skipped, no token.
            let rest = sp_scan(s, i + 1, line);
            SpecScan { toks: rest.toks, err: true }
        }
    }
}

} // verus!
