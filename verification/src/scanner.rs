//! The scanner: source characters to tokens, proved equal to the
//! reference lexer of [`crate::lexing`].

use vstd::prelude::*;
use crate::lexing::{comment_end, digits_end, eof_tok, frac_count, ident_end, is_alnum_c,
    is_alpha_c, is_digit_c, is_single, keyword_of, number_end, pair_kinds, plain_tok, sat_inc,
    scan_cons, single_kind, sp_scan, string_scan, lemma_comment_end, lemma_digits_end,
    lemma_ident_end, lemma_string_scan, SpecScan};
use crate::numerics::num_parse;
use crate::token::{chars_to_string, Literal, SpecToken, Token, TokenType};

verus! {

/// The characters of `source` from `from` (inclusive) to `to`
/// (exclusive).
fn substring_vec(source: &Vec<char>, from: usize, to: usize) -> (v: Vec<char>)
    requires
        from <= to <= source@.len(),
    ensures
        v@ == source@.subrange(from as int, to as int),
{
    let mut v: Vec<char> = Vec::new();
    let mut k = from;
    while k < to
        invariant
            from <= k <= to <= source@.len(),
            v@ =~= source@.subrange(from as int, k as int),
        decreases to - k,
    {
        v.push(source[k]);
        proof {
            assert(v@ =~= source@.subrange(from as int, k + 1));
        }
        k += 1;
    }
    proof {
        assert(v@ =~= source@.subrange(from as int, to as int));
    }
    v
}

/// The keyword kind of an identifier lexeme, or `Identifier`.
fn keyword_lookup(lex: &String) -> (tt: TokenType)
    ensures
        tt == keyword_of(lex@),
{
    if lex.eq(&String::from_str("and")) {
        TokenType::And
    } else if lex.eq(&String::from_str("class")) {
        TokenType::Class
    } else if lex.eq(&String::from_str("else")) {
        TokenType::Else
    } else if lex.eq(&String::from_str("false")) {
        TokenType::False
    } else if lex.eq(&String::from_str("for")) {
        TokenType::For
    } else if lex.eq(&String::from_str("fun")) {
        TokenType::Fun
    } else if lex.eq(&String::from_str("if")) {
        TokenType::If
    } else if lex.eq(&String::from_str("nil")) {
        TokenType::Nil
    } else if lex.eq(&String::from_str("or")) {
        TokenType::Or
    } else if lex.eq(&String::from_str("print")) {
        TokenType::Print
    } else if lex.eq(&String::from_str("return")) {
        TokenType::Return
    } else if lex.eq(&String::from_str("super")) {
        TokenType::Super
    } else if lex.eq(&String::from_str("this")) {
        TokenType::This
    } else if lex.eq(&String::from_str("true")) {
        TokenType::True
    } else if lex.eq(&String::from_str("var")) {
        TokenType::Var
    } else if lex.eq(&String::from_str("while")) {
        TokenType::While
    } else {
        TokenType::Identifier
    }
}

/// The scanner: a cursor over the source characters, the tokens read so
/// far, and the current 1-based line.
pub struct Scanner {
    pub tokens: Vec<Token>,
    pub current: usize,
    pub start: usize,
    pub line: u32,
}

impl Scanner {
    /// A scanner that has read nothing.
    pub open spec fn fresh(&self) -> bool {
        self.tokens@.len() == 0 && self.current == 0 && self.line == 1
    }

    pub fn new() -> (r: Scanner)
        ensures
            r.fresh(),
    {
        Scanner { tokens: Vec::new(), current: 0, start: 0, line: 1 }
    }

    /// Skip to the closing quote of a string whose opening quote is just
    /// behind the cursor, counting embedded newlines; reports whether the
    /// string was terminated.
    fn string_process(&mut self, source: &Vec<char>) -> (ok: bool)
        requires
            old(self).current <= source@.len(),
        ensures
            final(self).tokens == old(self).tokens,
            final(self).start == old(self).start,
            ({
                let (j, l2) = string_scan(source@, old(self).current as int, old(self).line);
                final(self).line == l2 && if ok {
                    j < source@.len() && final(self).current == j + 1
                } else {
                    j == source@.len() && final(self).current == source@.len()
                }
            }),
    {
        let n = source.len();
        while self.current < n && source[self.current] != '"'
            invariant
                self.current <= n,
                n == source@.len(),
                self.tokens == old(self).tokens,
                self.start == old(self).start,
                string_scan(source@, old(self).current as int, old(self).line) == string_scan(
                    source@,
                    self.current as int,
                    self.line,
                ),
            decreases n - self.current,
        {
            if source[self.current] == '\n' {
                if self.line < u32::MAX {
                    self.line = self.line + 1;
                }
            }
            self.current += 1;
        }
        if self.current >= n {
            false
        } else {
            self.current += 1;
            true
        }
    }

    /// Advance past the digits and any fractional part of a number whose
    /// first digit is just behind the cursor; yields the count of
    /// fractional digits.
    fn number_process(&mut self, source: &Vec<char>) -> (frac: usize)
        requires
            0 < old(self).current <= source@.len(),
            is_digit_c(source@[old(self).current - 1]),
        ensures
            final(self).tokens == old(self).tokens,
            final(self).start == old(self).start,
            final(self).line == old(self).line,
            final(self).current == number_end(source@, old(self).current - 1),
            frac == frac_count(source@, old(self).current - 1),
            final(self).current <= source@.len(),
            final(self).current >= old(self).current,
    {
        let ghost s0 = old(self).current - 1;
        let n = source.len();
        while self.current < n && source[self.current] >= '0' && source[self.current] <= '9'
            invariant
                self.current <= n,
                n == source@.len(),
                old(self).current <= self.current,
                self.tokens == old(self).tokens,
                self.start == old(self).start,
                self.line == old(self).line,
                digits_end(source@, s0) == digits_end(source@, self.current as int),
            decreases n - self.current,
        {
            self.current += 1;
        }
        let ghost d = digits_end(source@, s0);
        proof {
            assert(d == self.current as int);
            lemma_digits_end(source@, s0);
        }
        if self.current < n && source[self.current] == '.' && self.current + 1 < n && source[self.current
            + 1] >= '0' && source[self.current + 1] <= '9' {
            self.current += 1;
            let fs = self.current;
            while self.current < n && source[self.current] >= '0' && source[self.current] <= '9'
                invariant
                    self.current <= n,
                    n == source@.len(),
                    fs <= self.current,
                    fs == d + 1,
                    self.tokens == old(self).tokens,
                    self.start == old(self).start,
                    self.line == old(self).line,
                    digits_end(source@, d + 2) == digits_end(source@, self.current as int),
                decreases n - self.current,
            {
                self.current += 1;
            }
            proof {
                lemma_digits_end(source@, d + 2);
            }
            self.current - fs
        } else {
            0
        }
    }

    /// Advance past the remaining characters of an identifier.
    fn identifier(&mut self, source: &Vec<char>)
        requires
            old(self).current <= source@.len(),
        ensures
            final(self).tokens == old(self).tokens,
            final(self).start == old(self).start,
            final(self).line == old(self).line,
            final(self).current == ident_end(source@, old(self).current as int),
            old(self).current <= final(self).current <= source@.len(),
    {
        let n = source.len();
        while self.current < n && (('a' <= source[self.current] && source[self.current] <= 'z') || (
        'A' <= source[self.current] && source[self.current] <= 'Z') || source[self.current] == '_'
            || ('0' <= source[self.current] && source[self.current] <= '9'))
            invariant
                self.current <= n,
                n == source@.len(),
                old(self).current <= self.current,
                self.tokens == old(self).tokens,
                self.start == old(self).start,
                self.line == old(self).line,
                ident_end(source@, old(self).current as int) == ident_end(
                    source@,
                    self.current as int,
                ),
            decreases n - self.current,
        {
            self.current += 1;
        }
    }

    /// If the next character is `expected`, consume it.
    fn match_operator(&mut self, source: &Vec<char>, expected: char) -> (matched: bool)
        requires
            old(self).current <= source@.len(),
        ensures
            final(self).tokens == old(self).tokens,
            final(self).start == old(self).start,
            final(self).line == old(self).line,
            matched == (old(self).current < source@.len() && source@[old(self).current as int]
                == expected),
            final(self).current == if matched {
                old(self).current + 1
            } else {
                old(self).current as int
            },
    {
        if self.current >= source.len() || source[self.current] != expected {
            return false;
        }
        self.current += 1;
        true
    }

    /// Scan the whole source into `self.tokens`, ending with the end
    /// marker.  The tokens are exactly those of the reference lexer; on
    /// any lexical error the error code is set to 65.
    pub fn scan_tokens(&mut self, source: &Vec<char>, error_code: &mut u8)
        requires
            old(self).fresh(),
        ensures
            final(self).tokens@.map_values(|t: Token| t@) == sp_scan(source@, 0, 1).toks,
            *final(error_code) == if sp_scan(source@, 0, 1).err {
                65u8
            } else {
                *old(error_code)
            },
    {
        let ghost sv = source@;
        let ghost full = sp_scan(sv, 0, 1);
        let n = source.len();
        let mut had_err = false;
        while self.current < n
            invariant
                n == sv.len(),
                source@ == sv,
                self.current <= n,
                full.toks =~= self.tokens@.map_values(|t: Token| t@) + sp_scan(
                    sv,
                    self.current as int,
                    self.line,
                ).toks,
                full.err == (had_err || sp_scan(sv, self.current as int, self.line).err),
            decreases n - self.current,
        {
            let ghost c0 = self.current as int;
            let ghost l0 = self.line;
            let ghost done0 = self.tokens@.map_values(|t: Token| t@);
            let c = source[self.current];
            self.start = self.current;
            self.current += 1;
            if c == '(' || c == ')' || c == '{' || c == '}' || c == ',' || c == '.' || c == '-'
                || c == '+' || c == ';' || c == '*' {
                let tt = if c == '(' {
                    TokenType::LeftParen
                } else if c == ')' {
                    TokenType::RightParen
                } else if c == '{' {
                    TokenType::LeftBrace
                } else if c == '}' {
                    TokenType::RightBrace
                } else if c == ',' {
                    TokenType::Comma
                } else if c == '.' {
                    TokenType::Dot
                } else if c == '-' {
                    TokenType::Minus
                } else if c == '+' {
                    TokenType::Plus
                } else if c == ';' {
                    TokenType::Semicolon
                } else {
                    TokenType::Star
                };
                proof {
                    assert(tt == single_kind(c));
                }
                let lex = chars_to_string(&substring_vec(source, self.start, self.current));
                let t = Token::new(tt, lex, Option::Some(Literal::Null), self.line);
                self.tokens.push(t);
                proof {
                    assert(t@ == plain_tok(single_kind(c), sv.subrange(c0, c0 + 1), l0));
                    assert(sp_scan(sv, c0, l0) == scan_cons(
                        t@,
                        false,
                        sp_scan(sv, self.current as int, self.line),
                    ));
                    assert(self.tokens@.map_values(|tk: Token| tk@) =~= done0.push(t@));
                    assert(full.toks =~= self.tokens@.map_values(|tk: Token| tk@) + sp_scan(
                        sv,
                        self.current as int,
                        self.line,
                    ).toks);
                }
            } else if c == '!' || c == '=' || c == '<' || c == '>' {
                let two = self.match_operator(source, '=');
                let tt = if c == '!' {
                    if two {
                        TokenType::BangEqual
                    } else {
                        TokenType::Bang
                    }
                } else if c == '=' {
                    if two {
                        TokenType::EqualEqual
                    } else {
                        TokenType::Equal
                    }
                } else if c == '<' {
                    if two {
                        TokenType::LessEqual
                    } else {
                        TokenType::Less
                    }
                } else {
                    if two {
                        TokenType::GreaterEqual
                    } else {
                        TokenType::Greater
                    }
                };
                proof {
                    assert(tt == if two {
                        pair_kinds(c).1
                    } else {
                        pair_kinds(c).0
                    });
                }
                let lex = chars_to_string(&substring_vec(source, self.start, self.current));
                let t = Token::new(tt, lex, Option::Some(Literal::Null), self.line);
                self.tokens.push(t);
                proof {
                    assert(sp_scan(sv, c0, l0) == scan_cons(
                        t@,
                        false,
                        sp_scan(sv, self.current as int, self.line),
                    ));
                    assert(self.tokens@.map_values(|tk: Token| tk@) =~= done0.push(t@));
                    assert(full.toks =~= self.tokens@.map_values(|tk: Token| tk@) + sp_scan(
                        sv,
                        self.current as int,
                        self.line,
                    ).toks);
                }
            } else if c == '/' {
                if self.match_operator(source, '/') {
                    proof {
                        lemma_comment_end(sv, c0 + 2);
                    }
                    while self.current < n && source[self.current] != '\n'
                        invariant
                            self.current <= n,
                            n == sv.len(),
                            source@ == sv,
                            self.tokens@.map_values(|tk: Token| tk@) == done0,
                            self.line == l0,
                            comment_end(sv, c0 + 2) == comment_end(sv, self.current as int),
                        decreases n - self.current,
                    {
                        self.current += 1;
                    }
                    proof {
                        assert(self.current as int == comment_end(sv, c0 + 2));
                        assert(sp_scan(sv, c0, l0) == sp_scan(sv, self.current as int, self.line));
                    }
                } else {
                    let lex = chars_to_string(&substring_vec(source, self.start, self.current));
                    let t = Token::new(
                        TokenType::Slash,
                        lex,
                        Option::Some(Literal::Null),
                        self.line,
                    );
                    self.tokens.push(t);
                    proof {
                        assert(sp_scan(sv, c0, l0) == scan_cons(
                            t@,
                            false,
                            sp_scan(sv, self.current as int, self.line),
                        ));
                        assert(self.tokens@.map_values(|tk: Token| tk@) =~= done0.push(t@));
                        assert(full.toks =~= self.tokens@.map_values(|tk: Token| tk@) + sp_scan(
                            sv,
                            self.current as int,
                            self.line,
                        ).toks);
                    }
                }
            } else if c == ' ' || c == '\r' || c == '\t' {
            } else if c == '\n' {
                if self.line < u32::MAX {
                    self.line = self.line + 1;
                }
                proof {
                    assert(self.line == sat_inc(l0));
                }
            } else if c == '"' {
                proof {
                    lemma_string_scan(sv, c0 + 1, l0);
                }
                let ok = self.string_process(source);
                if ok {
                    let lex = chars_to_string(&substring_vec(source, self.start, self.current));
                    let inner = chars_to_string(
                        &substring_vec(source, self.start + 1, self.current - 1),
                    );
                    let t = Token::new(
                        TokenType::StringLit,
                        lex,
                        Option::Some(Literal::String(inner)),
                        self.line,
                    );
                    self.tokens.push(t);
                    proof {
                        assert(sp_scan(sv, c0, l0) == scan_cons(
                            t@,
                            false,
                            sp_scan(sv, self.current as int, self.line),
                        ));
                        assert(self.tokens@.map_values(|tk: Token| tk@) =~= done0.push(t@));
                        assert(full.toks =~= self.tokens@.map_values(|tk: Token| tk@) + sp_scan(
                            sv,
                            self.current as int,
                            self.line,
                        ).toks);
                    }
                } else {
                    had_err = true;
                    proof {
                        assert(sp_scan(sv, c0, l0).toks =~= sp_scan(
                            sv,
                            self.current as int,
                            self.line,
                        ).toks);
                        assert(sp_scan(sv, c0, l0).err);
                    }
                }
            } else if c >= '0' && c <= '9' {
                proof {
                    lemma_digits_end(sv, c0 + 1);
                }
                let frac = self.number_process(source);
                let lexvec = substring_vec(source, self.start, self.current);
                let bits = num_parse(&lexvec);
                let lex = chars_to_string(&lexvec);
                let t = Token::new(
                    TokenType::Number,
                    lex,
                    Option::Some(Literal::Number(bits, frac)),
                    self.line,
                );
                self.tokens.push(t);
                proof {
                    assert(digits_end(sv, c0) == digits_end(sv, c0 + 1));
                    assert(sp_scan(sv, c0, l0) == scan_cons(
                        t@,
                        false,
                        sp_scan(sv, self.current as int, self.line),
                    ));
                    assert(self.tokens@.map_values(|tk: Token| tk@) =~= done0.push(t@));
                    assert(full.toks =~= self.tokens@.map_values(|tk: Token| tk@) + sp_scan(
                        sv,
                        self.current as int,
                        self.line,
                    ).toks);
                }
            } else if ('a' <= c && c <= 'z') || ('A' <= c && c <= 'Z') || c == '_' {
                proof {
                    lemma_ident_end(sv, c0 + 1);
                }
                self.identifier(source);
                let lex = chars_to_string(&substring_vec(source, self.start, self.current));
                let tt = keyword_lookup(&lex);
                let t = Token::new(tt, lex, Option::Some(Literal::Null), self.line);
                self.tokens.push(t);
                proof {
                    assert(sp_scan(sv, c0, l0) == scan_cons(
                        t@,
                        false,
                        sp_scan(sv, self.current as int, self.line),
                    ));
                    assert(self.tokens@.map_values(|tk: Token| tk@) =~= done0.push(t@));
                    assert(full.toks =~= self.tokens@.map_values(|tk: Token| tk@) + sp_scan(
                        sv,
                        self.current as int,
                        self.line,
                    ).toks);
                }
            } else {
                had_err = true;
                proof {
                    assert(sp_scan(sv, c0, l0).toks =~= sp_scan(
                        sv,
                        self.current as int,
                        self.line,
                    ).toks);
                    assert(sp_scan(sv, c0, l0).err);
                }
            }
        }
        let t = Token::new(TokenType::Eof, String::new(), Option::Some(Literal::Null), self.line);
        self.tokens.push(t);
        proof {
            assert(t@ == eof_tok(self.line));
            assert(sp_scan(sv, self.current as int, self.line).toks =~= seq![eof_tok(self.line)]);
            assert(self.tokens@.map_values(|tk: Token| tk@) =~= full.toks);
        }
        if had_err {
            *error_code = 65;
        }
    }
}

} // verus!
