use vstd::prelude::*;

use crate::errors::{EvalError, EvalErrorModel, TokenKind};
use crate::num::double_of_decimal;
use crate::num::num_from_decimal;
use vstd::string::StrSliceExecFns;

verus! {

/// One lexical unit of an expression.  A numeric literal is carried as the
/// bit pattern of the double it denotes.
#[derive(Debug, Clone)]
pub enum Token {
    Number { bits: u64 },
    Ident { name: String },
    Plus,
    Minus,
    Star,
    Slash,
    Caret,
    LParen,
    RParen,
    Comma,
}

/// Mathematical model of `Token`: identifiers as character sequences.
pub enum TokenModel {
    Number { bits: u64 },
    Ident { name: Seq<char> },
    Plus,
    Minus,
    Star,
    Slash,
    Caret,
    LParen,
    RParen,
    Comma,
}

impl View for Token {
    type V = TokenModel;

    open spec fn view(&self) -> TokenModel {
        match *self {
            Token::Number { bits } => TokenModel::Number { bits },
            Token::Ident { name } => TokenModel::Ident { name: name@ },
            Token::Plus => TokenModel::Plus,
            Token::Minus => TokenModel::Minus,
            Token::Star => TokenModel::Star,
            Token::Slash => TokenModel::Slash,
            Token::Caret => TokenModel::Caret,
            Token::LParen => TokenModel::LParen,
            Token::RParen => TokenModel::RParen,
            Token::Comma => TokenModel::Comma,
        }
    }
}

/// The kind of a token model, for error reports.
pub open spec fn kind_of_model(t: TokenModel) -> TokenKind {
    match t {
        TokenModel::Number { .. } => TokenKind::Number,
        TokenModel::Ident { .. } => TokenKind::Identifier,
        TokenModel::Plus => TokenKind::Plus,
        TokenModel::Minus => TokenKind::Minus,
        TokenModel::Star => TokenKind::Star,
        TokenModel::Slash => TokenKind::Slash,
        TokenModel::Caret => TokenKind::Caret,
        TokenModel::LParen => TokenKind::LParen,
        TokenModel::RParen => TokenKind::RParen,
        TokenModel::Comma => TokenKind::Comma,
    }
}

pub fn kind_of(t: &Token) -> (k: TokenKind)
    ensures
        k == kind_of_model(t@),
{
    match t {
        Token::Number { .. } => TokenKind::Number,
        Token::Ident { .. } => TokenKind::Identifier,
        Token::Plus => TokenKind::Plus,
        Token::Minus => TokenKind::Minus,
        Token::Star => TokenKind::Star,
        Token::Slash => TokenKind::Slash,
        Token::Caret => TokenKind::Caret,
        Token::LParen => TokenKind::LParen,
        Token::RParen => TokenKind::RParen,
        Token::Comma => TokenKind::Comma,
    }
}

/// The deep view of a token sequence.
pub open spec fn models_of(v: Seq<Token>) -> Seq<TokenModel> {
    v.map_values(|t: Token| t@)
}

pub open spec fn is_ws(c: char) -> bool {
    c == ' ' || c == '\t' || c == '\n' || c == '\r'
}

pub open spec fn is_digit(c: char) -> bool {
    48 <= c as u32 && c as u32 <= 57
}

pub open spec fn is_alpha(c: char) -> bool {
    (65 <= c as u32 && c as u32 <= 90) || (97 <= c as u32 && c as u32 <= 122)
}

fn ws(c: char) -> (r: bool)
    ensures
        r == is_ws(c),
{
    c == ' ' || c == '\t' || c == '\n' || c == '\r'
}

fn digit(c: char) -> (r: bool)
    ensures
        r == is_digit(c),
{
    let u = c as u32;
    48 <= u && u <= 57
}

fn alpha(c: char) -> (r: bool)
    ensures
        r == is_alpha(c),
{
    let u = c as u32;
    (65 <= u && u <= 90) || (97 <= u && u <= 122)
}

/// First position at or after `pos` that does not hold a decimal digit.
pub open spec fn scan_digits(s: Seq<char>, pos: nat) -> nat
    decreases s.len() - pos,
    when pos <= s.len()
{
    if pos < s.len() && is_digit(s[pos as int]) {
        scan_digits(s, pos + 1)
    } else {
        pos
    }
}

/// First position at or after `pos` that does not hold a letter.
pub open spec fn scan_alpha(s: Seq<char>, pos: nat) -> nat
    decreases s.len() - pos,
    when pos <= s.len()
{
    if pos < s.len() && is_alpha(s[pos as int]) {
        scan_alpha(s, pos + 1)
    } else {
        pos
    }
}

pub proof fn lemma_scan_digits_bounds(s: Seq<char>, pos: nat)
    requires
        pos <= s.len(),
    ensures
        pos <= scan_digits(s, pos) <= s.len(),
    decreases s.len() - pos,
{
    if pos < s.len() && is_digit(s[pos as int]) {
        lemma_scan_digits_bounds(s, pos + 1);
    }
}

pub proof fn lemma_scan_alpha_bounds(s: Seq<char>, pos: nat)
    requires
        pos <= s.len(),
    ensures
        pos <= scan_alpha(s, pos) <= s.len(),
    decreases s.len() - pos,
{
    if pos < s.len() && is_alpha(s[pos as int]) {
        lemma_scan_alpha_bounds(s, pos + 1);
    }
}

/// End of the numeric literal that starts at `pos`: longest match of
/// digits, an optional fraction (`.` and digits), and an optional exponent
/// (`e`/`E`, an optional sign, and at least one digit; without a digit the
/// `e` is not part of the number).
pub open spec fn number_end(s: Seq<char>, pos: nat) -> nat {
    let p1 = scan_digits(s, pos);
    let p2 = if p1 < s.len() && s[p1 as int] == '.' {
        scan_digits(s, p1 + 1)
    } else {
        p1
    };
    if p2 < s.len() && (s[p2 as int] == 'e' || s[p2 as int] == 'E') {
        let q = if p2 + 1 < s.len() && (s[p2 + 1 as int] == '+' || s[p2 + 1 as int] == '-') {
            p2 + 2
        } else {
            p2 + 1
        };
        if q < s.len() && is_digit(s[q as int]) {
            scan_digits(s, q)
        } else {
            p2
        }
    } else {
        p2
    }
}

pub proof fn lemma_number_end_bounds(s: Seq<char>, pos: nat)
    requires
        pos < s.len(),
        is_digit(s[pos as int]),
    ensures
        pos < number_end(s, pos) <= s.len(),
{
    lemma_scan_digits_bounds(s, pos);
    let p1 = scan_digits(s, pos);
    assert(scan_digits(s, pos) == scan_digits(s, pos + 1));
    lemma_scan_digits_bounds(s, pos + 1);
    if p1 < s.len() && s[p1 as int] == '.' {
        lemma_scan_digits_bounds(s, p1 + 1);
    }
    let p2 = if p1 < s.len() && s[p1 as int] == '.' {
        scan_digits(s, p1 + 1)
    } else {
        p1
    };
    if p2 < s.len() && (s[p2 as int] == 'e' || s[p2 as int] == 'E') {
        let q = if p2 + 1 < s.len() && (s[p2 + 1 as int] == '+' || s[p2 + 1 as int] == '-') {
            p2 + 2
        } else {
            p2 + 1
        };
        if q < s.len() && is_digit(s[q as int]) {
            lemma_scan_digits_bounds(s, q);
            assert(scan_digits(s, q) == scan_digits(s, q + 1));
            lemma_scan_digits_bounds(s, q + 1);
        }
    }
}

/// The token that starts at position `pos`, which holds neither whitespace
/// nor the end of the text, and the position right after it.
pub open spec fn token_at(s: Seq<char>, pos: nat) -> Result<(TokenModel, nat), EvalErrorModel> {
    let c = s[pos as int];
    if is_digit(c) {
        let end = number_end(s, pos);
        match double_of_decimal(s.subrange(pos as int, end as int)) {
            Some(bits) => Ok((TokenModel::Number { bits }, end)),
            None => Err(EvalErrorModel::LexError { position: pos, found: c }),
        }
    } else if is_alpha(c) {
        let end = scan_alpha(s, pos);
        Ok((TokenModel::Ident { name: s.subrange(pos as int, end as int) }, end))
    } else if c == '+' {
        Ok((TokenModel::Plus, pos + 1))
    } else if c == '-' {
        Ok((TokenModel::Minus, pos + 1))
    } else if c == '*' {
        Ok((TokenModel::Star, pos + 1))
    } else if c == '/' {
        Ok((TokenModel::Slash, pos + 1))
    } else if c == '^' {
        Ok((TokenModel::Caret, pos + 1))
    } else if c == '(' {
        Ok((TokenModel::LParen, pos + 1))
    } else if c == ')' {
        Ok((TokenModel::RParen, pos + 1))
    } else if c == ',' {
        Ok((TokenModel::Comma, pos + 1))
    } else {
        Err(EvalErrorModel::LexError { position: pos, found: c })
    }
}

/// The token sequence of the text from `pos` on, or the first lexical
/// error.  Whitespace separates tokens and is skipped.
pub open spec fn lex_from(s: Seq<char>, pos: nat) -> Result<Seq<TokenModel>, EvalErrorModel>
    decreases s.len() - pos,
    when pos <= s.len()
{
    if pos >= s.len() {
        Ok(Seq::empty())
    } else if is_ws(s[pos as int]) {
        lex_from(s, pos + 1)
    } else {
        match token_at(s, pos) {
            Err(e) => Err(e),
            Ok((t, next)) => {
                let adv = if next <= pos {
                    pos + 1
                } else if next > s.len() {
                    s.len()
                } else {
                    next
                };
                match lex_from(s, adv) {
                    Err(e) => Err(e),
                    Ok(rest) => Ok(seq![t] + rest),
                }
            },
        }
    }
}

fn scan_digits_x(s: &str, pos: usize) -> (end: usize)
    requires
        pos <= s@.len(),
    ensures
        end as nat == scan_digits(s@, pos as nat),
        pos <= end <= s@.len(),
    decreases s@.len() - pos,
{
    if pos < s.unicode_len() && digit(s.get_char(pos)) {
        scan_digits_x(s, pos + 1)
    } else {
        pos
    }
}

fn scan_alpha_x(s: &str, pos: usize) -> (end: usize)
    requires
        pos <= s@.len(),
    ensures
        end as nat == scan_alpha(s@, pos as nat),
        pos <= end <= s@.len(),
    decreases s@.len() - pos,
{
    if pos < s.unicode_len() && alpha(s.get_char(pos)) {
        scan_alpha_x(s, pos + 1)
    } else {
        pos
    }
}

fn number_end_x(s: &str, pos: usize) -> (end: usize)
    requires
        pos < s@.len(),
        is_digit(s@[pos as int]),
    ensures
        end as nat == number_end(s@, pos as nat),
        pos < end <= s@.len(),
    decreases s@.len() - pos,
{
    proof {
        lemma_number_end_bounds(s@, pos as nat);
    }
    let n = s.unicode_len();
    let p1 = scan_digits_x(s, pos);
    let p2 = if p1 < n && s.get_char(p1) == '.' {
        scan_digits_x(s, p1 + 1)
    } else {
        p1
    };
    if p2 < n && (s.get_char(p2) == 'e' || s.get_char(p2) == 'E') {
        let q = if p2 + 1 < n && (s.get_char(p2 + 1) == '+' || s.get_char(p2 + 1) == '-') {
            p2 + 2
        } else {
            p2 + 1
        };
        if q < n && digit(s.get_char(q)) {
            scan_digits_x(s, q)
        } else {
            p2
        }
    } else {
        p2
    }
}

fn token_at_x(s: &str, pos: usize) -> (r: Result<(Token, usize), EvalError>)
    requires
        pos < s@.len(),
        s@.len() <= usize::MAX,
        !is_ws(s@[pos as int]),
    ensures
        r matches Ok(p) ==> token_at(s@, pos as nat) matches Ok(m) && m.0 == p.0@ && m.1 == p.1
            as nat,
        r matches Err(e) ==> token_at(s@, pos as nat) matches Err(me) && me == e@,
        r matches Ok(p) ==> pos < p.1 <= s@.len(),
{
    let c = s.get_char(pos);
    if digit(c) {
        let end = number_end_x(s, pos);
        let text = s.substring_char(pos, end);
        match num_from_decimal(text) {
            Some(bits) => Ok((Token::Number { bits }, end)),
            None => Err(EvalError::LexError { position: pos, found: c }),
        }
    } else if alpha(c) {
        let end = scan_alpha_x(s, pos);
        proof {
            assert(scan_alpha(s@, pos as nat) == scan_alpha(s@, pos as nat + 1));
            lemma_scan_alpha_bounds(s@, pos as nat + 1);
        }
        let text = s.substring_char(pos, end);
        Ok((Token::Ident { name: text.to_owned() }, end))
    } else if c == '+' {
        Ok((Token::Plus, pos + 1))
    } else if c == '-' {
        Ok((Token::Minus, pos + 1))
    } else if c == '*' {
        Ok((Token::Star, pos + 1))
    } else if c == '/' {
        Ok((Token::Slash, pos + 1))
    } else if c == '^' {
        Ok((Token::Caret, pos + 1))
    } else if c == '(' {
        Ok((Token::LParen, pos + 1))
    } else if c == ',' {
        Ok((Token::Comma, pos + 1))
    } else if c == ')' {
        Ok((Token::RParen, pos + 1))
    } else {
        Err(EvalError::LexError { position: pos, found: c })
    }
}

/// Split the input text into tokens, or report the first unrecognized
/// character and its offset.  A pure function of the text: the result is
/// exactly `lex_from(s@, 0)`.
pub fn tokenize(s: &str) -> (r: Result<Vec<Token>, EvalError>)
    ensures
        r matches Ok(v) ==> lex_from(s@, 0) matches Ok(m) && m == models_of(v@),
        r matches Err(e) ==> lex_from(s@, 0) matches Err(me) && me == e@,
{
    let n = s.unicode_len();
    let mut toks: Vec<Token> = Vec::new();
    let mut pos: usize = 0;
    loop
        invariant
            pos <= n,
            n as nat == s@.len(),
            lex_from(s@, pos as nat) matches Ok(rest) ==> lex_from(s@, 0) matches Ok(whole)
                && whole == models_of(toks@) + rest,
            lex_from(s@, pos as nat) matches Err(e) ==> lex_from(s@, 0) == Err::<
                Seq<TokenModel>,
                EvalErrorModel,
            >(e),
        decreases n - pos,
    {
        if pos >= n {
            proof {
                assert(lex_from(s@, pos as nat) == Ok::<Seq<TokenModel>, EvalErrorModel>(
                    Seq::empty(),
                ));
                assert(models_of(toks@) + Seq::<TokenModel>::empty() =~= models_of(toks@));
            }
            return Ok(toks);
        }
        let c = s.get_char(pos);
        if ws(c) {
            pos = pos + 1;
        } else {
            match token_at_x(s, pos) {
                Err(e) => {
                    return Err(e);
                },
                Ok((t, next)) => {
                    proof {
                        let m = token_at(s@, pos as nat);
                        let adv = if m->Ok_0.1 <= pos as nat {
                            pos as nat + 1
                        } else if m->Ok_0.1 > s@.len() {
                            s@.len()
                        } else {
                            m->Ok_0.1
                        };
                        assert(adv == next as nat);
                        assert(models_of(toks@.push(t)) =~= models_of(toks@) + seq![t@]);
                        if lex_from(s@, next as nat) is Ok {
                            let rest = lex_from(s@, next as nat)->Ok_0;
                            assert(lex_from(s@, pos as nat) matches Ok(w) && w == seq![t@]
                                + rest);
                            assert((models_of(toks@) + seq![t@]) + rest =~= models_of(toks@)
                                + (seq![t@] + rest));
                        }
                    }
                    toks.push(t);
                    pos = next;
                },
            }
        }
    }
}

} // verus!
