//! Tokens: the unit of exchange between the scanner and the parser.

use vstd::prelude::*;

verus! {

/// The closed enumeration of token kinds: single-character punctuation,
/// one- and two-character operators, the three literal-bearing kinds,
/// the reserved keywords, and the end marker.
#[derive(Debug, Copy, Clone, PartialEq, Eq, Structural)]
pub enum TokenType {
    LeftParen,
    RightParen,
    LeftBrace,
    RightBrace,
    Comma,
    Dot,
    Minus,
    Plus,
    Semicolon,
    Slash,
    Star,
    Bang,
    BangEqual,
    Equal,
    EqualEqual,
    Greater,
    GreaterEqual,
    Less,
    LessEqual,
    Identifier,
    StringLit,
    Number,
    And,
    Class,
    Else,
    False,
    Fun,
    For,
    If,
    Nil,
    Or,
    Print,
    Return,
    Super,
    This,
    True,
    Var,
    While,
    Eof,
}

/// The parsed in-memory value of a literal token.  `Null` marks tokens that
/// carry no literal.  A number holds the IEEE binary64 bit pattern of its
/// value together with the count of fractional digits written in the source,
/// which the diagnostic printers use for canonical rendering.
#[derive(Debug, Clone)]
pub enum Literal {
    String(String),
    Number(u64, usize),
    Bool(bool),
    Null,
    Nil,
}

/// The ghost image of a `Literal`, with text as a sequence of characters.
pub enum SpecLiteral {
    String(Seq<char>),
    Number(u64, int),
    Bool(bool),
    Null,
    Nil,
}

impl View for Literal {
    type V = SpecLiteral;

    open spec fn view(&self) -> SpecLiteral {
        match self {
            Literal::String(s) => SpecLiteral::String(s@),
            Literal::Number(bits, frac) => SpecLiteral::Number(*bits, *frac as int),
            Literal::Bool(b) => SpecLiteral::Bool(*b),
            Literal::Null => SpecLiteral::Null,
            Literal::Nil => SpecLiteral::Nil,
        }
    }
}

impl Literal {
    /// An exact copy; written out so that verified callers know the copy
    /// equals the original.
    pub fn duplicate(&self) -> (r: Literal)
        ensures
            r@ == self@,
    {
        match self {
            Literal::String(s) => Literal::String(s.clone()),
            Literal::Number(bits, frac) => Literal::Number(*bits, *frac),
            Literal::Bool(b) => Literal::Bool(*b),
            Literal::Null => Literal::Null,
            Literal::Nil => Literal::Nil,
        }
    }
}

/// A token: its kind, the exact source substring it was read from, the
/// parsed literal (if any), and the 1-based source line it ends on.
#[derive(Debug, Clone)]
pub struct Token {
    pub token_type: TokenType,
    pub lexeme: String,
    pub literal: Option<Literal>,
    pub line: u32,
}

/// The ghost image of a `Token`.
pub struct SpecToken {
    pub token_type: TokenType,
    pub lexeme: Seq<char>,
    pub literal: Option<SpecLiteral>,
    pub line: u32,
}

impl View for Token {
    type V = SpecToken;

    open spec fn view(&self) -> SpecToken {
        SpecToken {
            token_type: self.token_type,
            lexeme: self.lexeme@,
            literal: match self.literal {
                Option::Some(l) => Option::Some(l@),
                Option::None => Option::None,
            },
            line: self.line,
        }
    }
}

impl Token {
    pub fn new(token_type: TokenType, lexeme: String, literal: Option<Literal>, line: u32) -> (t:
        Token)
        ensures
            t@ == (SpecToken { token_type, lexeme: lexeme@, literal: match literal {
                Option::Some(l) => Option::Some(l@),
                Option::None => Option::None,
            }, line }),
    {
        Token { token_type, lexeme, literal, line }
    }
}

/// Relies on `String`'s `FromIterator` over `char`: collecting characters
/// yields the string of exactly those characters.
#[verifier::external_body]
pub(crate) fn chars_to_string(v: &Vec<char>) -> (s: String)
    ensures
        s@ == v@,
{
    v.iter().collect()
}

} // verus!
