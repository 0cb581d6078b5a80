//! The lexer: turns rule text into a finite, ordered stream of lexemes, or
//! fails with a syntax error naming the offending position.
//!
//! Recognized: number literals (decimal, no redundant leading zeros, and
//! at most eighteen digits in all, so every literal's mantissa is held
//! exactly), boolean keywords, single- or double-quoted strings,
//! identifiers and dotted attribute paths, comparison/logical/additive
//! operators and parentheses.  Whitespace is insignificant.

use vstd::prelude::*;
use vstd::string::*;
use crate::errors::{RuleSyntaxError, Token, names_position};
use crate::number::{
    Decimal,
    MAX_SCALE,
    lemma_digits_combine,
    lemma_pow10_18,
    lemma_pow10_increases,
    lemma_pow10_pos,
    lemma_pow10_step,
    pow10,
    pow10_u64,
};
use crate::utils::keys_views;

verus! {

/// The abstract form of a lexeme: what the grammar sees.
pub enum SpecToken {
    Integer(int),
    Float { units: int, scale: nat },
    StrLit(Seq<char>),
    Symbol(Seq<char>),
    Attribute(Seq<Seq<char>>),
    True,
    False,
    And,
    Or,
    Not,
    EqEq,
    NotEq,
    Gt,
    Ge,
    Lt,
    Le,
    Plus,
    Minus,
    LParen,
    RParen,
}

/// A concrete lexeme kind, carrying literal values already parsed.
#[derive(Debug)]
pub enum TokKind {
    Integer(i64),
    Float(Decimal),
    StrLit(String),
    Symbol(String),
    Attribute(Vec<String>),
    True,
    False,
    And,
    Or,
    Not,
    EqEq,
    NotEq,
    Gt,
    Ge,
    Lt,
    Le,
    Plus,
    Minus,
    LParen,
    RParen,
}

/// A lexeme with its source position.
#[derive(Debug)]
pub struct Lexeme {
    pub kind: TokKind,
    pub lineno: usize,
    pub lexpos: usize,
}

impl View for TokKind {
    type V = SpecToken;

    open spec fn view(&self) -> SpecToken {
        match self {
            TokKind::Integer(i) => SpecToken::Integer(*i as int),
            TokKind::Float(d) => SpecToken::Float {
                units: d.spec_units(),
                scale: d.spec_scale(),
            },
            TokKind::StrLit(s) => SpecToken::StrLit(s@),
            TokKind::Symbol(s) => SpecToken::Symbol(s@),
            TokKind::Attribute(v) => SpecToken::Attribute(keys_views(v@)),
            TokKind::True => SpecToken::True,
            TokKind::False => SpecToken::False,
            TokKind::And => SpecToken::And,
            TokKind::Or => SpecToken::Or,
            TokKind::Not => SpecToken::Not,
            TokKind::EqEq => SpecToken::EqEq,
            TokKind::NotEq => SpecToken::NotEq,
            TokKind::Gt => SpecToken::Gt,
            TokKind::Ge => SpecToken::Ge,
            TokKind::Lt => SpecToken::Lt,
            TokKind::Le => SpecToken::Le,
            TokKind::Plus => SpecToken::Plus,
            TokKind::Minus => SpecToken::Minus,
            TokKind::LParen => SpecToken::LParen,
            TokKind::RParen => SpecToken::RParen,
        }
    }
}

impl View for Lexeme {
    type V = SpecToken;

    open spec fn view(&self) -> SpecToken {
        self.kind@
    }
}

/// The abstract forms of a lexeme stream.
pub open spec fn lexemes_views(toks: Seq<Lexeme>) -> Seq<SpecToken> {
    toks.map_values(|t: Lexeme| t@)
}

// ---------------------------------------------------------------------------
// Character classes
// ---------------------------------------------------------------------------
pub open spec fn is_ws(c: char) -> bool {
    c == ' ' || c == '\t' || c == '\r' || c == '\n'
}

pub open spec fn is_digit(c: char) -> bool {
    48 <= c as u32 <= 57
}

pub open spec fn digit_val(c: char) -> nat
    recommends
        is_digit(c),
{
    (c as u32 - 48) as nat
}

pub open spec fn is_ident_start(c: char) -> bool {
    (97 <= c as u32 <= 122) || (65 <= c as u32 <= 90) || c == '_'
}

pub open spec fn is_ident_char(c: char) -> bool {
    is_ident_start(c) || is_digit(c)
}

fn is_ws_exec(c: char) -> (r: bool)
    ensures
        r == is_ws(c),
{
    c == ' ' || c == '\t' || c == '\r' || c == '\n'
}

pub(crate) fn is_digit_exec(c: char) -> (r: bool)
    ensures
        r == is_digit(c),
{
    let u: u32 = c as u32;
    48 <= u && u <= 57
}

fn is_ident_start_exec(c: char) -> (r: bool)
    ensures
        r == is_ident_start(c),
{
    let u: u32 = c as u32;
    (97 <= u && u <= 122) || (65 <= u && u <= 90) || c == '_'
}

fn is_ident_char_exec(c: char) -> (r: bool)
    ensures
        r == is_ident_char(c),
{
    is_ident_start_exec(c) || is_digit_exec(c)
}

// ---------------------------------------------------------------------------
// Scanning ends: the first index where a character class stops
// ---------------------------------------------------------------------------
/// The first index at or after `i` that is not whitespace (or the length).
pub open spec fn ws_end(s: Seq<char>, i: nat) -> nat
    decreases s.len() - i,
{
    if i < s.len() && is_ws(s[i as int]) {
        ws_end(s, i + 1)
    } else {
        i
    }
}

/// The first index at or after `i` that is not a digit (or the length).
pub open spec fn digits_end(s: Seq<char>, i: nat) -> nat
    decreases s.len() - i,
{
    if i < s.len() && is_digit(s[i as int]) {
        digits_end(s, i + 1)
    } else {
        i
    }
}

/// The first index at or after `i` that is not an identifier character (or
/// the length).
pub open spec fn ident_end(s: Seq<char>, i: nat) -> nat
    decreases s.len() - i,
{
    if i < s.len() && is_ident_char(s[i as int]) {
        ident_end(s, i + 1)
    } else {
        i
    }
}

/// The first index at or after `i` holding the quote `q` (or the length).
pub open spec fn quote_end(s: Seq<char>, q: char, i: nat) -> nat
    decreases s.len() - i,
{
    if i < s.len() && s[i as int] != q {
        quote_end(s, q, i + 1)
    } else {
        i
    }
}

pub(crate) proof fn lemma_digits_end_bounds(s: Seq<char>, i: nat)
    requires
        i <= s.len(),
    ensures
        i <= digits_end(s, i) <= s.len(),
    decreases s.len() - i,
{
    if i < s.len() && is_digit(s[i as int]) {
        lemma_digits_end_bounds(s, i + 1);
    }
}

proof fn lemma_ident_end_bounds(s: Seq<char>, i: nat)
    requires
        i <= s.len(),
    ensures
        i <= ident_end(s, i) <= s.len(),
    decreases s.len() - i,
{
    if i < s.len() && is_ident_char(s[i as int]) {
        lemma_ident_end_bounds(s, i + 1);
    }
}

proof fn lemma_ws_end_bounds(s: Seq<char>, i: nat)
    requires
        i <= s.len(),
    ensures
        i <= ws_end(s, i) <= s.len(),
        ws_end(s, i) < s.len() ==> !is_ws(s[ws_end(s, i) as int]),
        ws_end(s, ws_end(s, i)) == ws_end(s, i),
    decreases s.len() - i,
{
    if i < s.len() && is_ws(s[i as int]) {
        lemma_ws_end_bounds(s, i + 1);
    }
}

// ---------------------------------------------------------------------------
// The value of a digit run
// ---------------------------------------------------------------------------
/// The numeric value of the digits `s[i..j]`, read in base ten.
pub open spec fn digits_value(s: Seq<char>, i: nat, j: nat) -> nat
    decreases j - i,
{
    if i < j {
        digits_value(s, i, (j - 1) as nat) * 10 + digit_val(s[j - 1])
    } else {
        0
    }
}

proof fn lemma_digits_value_bound(s: Seq<char>, i: nat, j: nat)
    requires
        i <= j,
        forall|k: int| i <= k < j ==> is_digit(s[k]),
    ensures
        digits_value(s, i, j) < pow10((j - i) as nat),
    decreases j - i,
{
    if i < j {
        lemma_digits_value_bound(s, i, (j - 1) as nat);
        lemma_pow10_step((j - 1 - i) as nat);
        assert(digit_val(s[j - 1]) <= 9);
    } else {
        lemma_pow10_pos(0);
    }
}

// ---------------------------------------------------------------------------
// The spec scanner, one token at a time
// ---------------------------------------------------------------------------
/// A number literal: digits, optionally a dot and more digits.  Redundant
/// leading zeros and more than eighteen total digits are refused; a literal
/// without a dot is an integer, one with a dot is a float.
pub open spec fn spec_scan_number(s: Seq<char>, i: nat) -> Option<(SpecToken, nat)>
    recommends
        i < s.len(),
        is_digit(s[i as int]),
{
    let j = digits_end(s, i);
    if s[i as int] == '0' && j > i + 1 {
        None
    } else if j < s.len() && s[j as int] == '.' {
        let k = digits_end(s, j + 1);
        if k == j + 1 {
            None
        } else if (j - i) + (k - j - 1) > 18 {
            None
        } else {
            Some(
                (
                    SpecToken::Float {
                        units: (digits_value(s, i, j) * pow10((k - j - 1) as nat)
                            + digits_value(s, (j + 1) as nat, k)) as int,
                        scale: (k - j - 1) as nat,
                    },
                    k,
                ),
            )
        }
    } else {
        if j - i > 18 {
            None
        } else {
            Some((SpecToken::Integer(digits_value(s, i, j) as int), j))
        }
    }
}

/// The dotted segments of an identifier or attribute path starting at `i`,
/// and the index just past them.
pub open spec fn spec_scan_segments(s: Seq<char>, i: nat) -> (Seq<Seq<char>>, nat)
    recommends
        i < s.len(),
        is_ident_start(s[i as int]),
    decreases s.len() - i,
{
    let j = ident_end(s, i);
    if j < s.len() && s[j as int] == '.' && j + 1 < s.len() && is_ident_start(s[j + 1 as int]) && i < j
        + 1 {
        let rest = spec_scan_segments(s, j + 1);
        (seq![s.subrange(i as int, j as int)] + rest.0, rest.1)
    } else {
        (seq![s.subrange(i as int, j as int)], j)
    }
}

/// A word: a keyword, a bare symbol, or a dotted attribute path.
pub open spec fn spec_scan_word(s: Seq<char>, i: nat) -> (SpecToken, nat)
    recommends
        i < s.len(),
        is_ident_start(s[i as int]),
{
    let sp = spec_scan_segments(s, i);
    if sp.0.len() == 1 {
        let w = sp.0[0];
        if w == "true"@ {
            (SpecToken::True, sp.1)
        } else if w == "false"@ {
            (SpecToken::False, sp.1)
        } else if w == "and"@ {
            (SpecToken::And, sp.1)
        } else if w == "or"@ {
            (SpecToken::Or, sp.1)
        } else if w == "not"@ {
            (SpecToken::Not, sp.1)
        } else {
            (SpecToken::Symbol(w), sp.1)
        }
    } else {
        (SpecToken::Attribute(sp.0), sp.1)
    }
}

/// A quoted string literal, without escape sequences; an unterminated
/// literal fails.
pub open spec fn spec_scan_string(s: Seq<char>, i: nat) -> Option<(SpecToken, nat)>
    recommends
        i < s.len(),
{
    let q = s[i as int];
    let e = quote_end(s, q, i + 1);
    if e < s.len() {
        Some((SpecToken::StrLit(s.subrange(i + 1 as int, e as int)), e + 1))
    } else {
        None
    }
}

/// One token scanned at position `i`, which must not hold whitespace, and
/// the position just past it; `None` is a lexical error at `i`.
pub open spec fn spec_scan_token(s: Seq<char>, i: nat) -> Option<(SpecToken, nat)>
    recommends
        i < s.len(),
{
    let c = s[i as int];
    if is_digit(c) {
        spec_scan_number(s, i)
    } else if is_ident_start(c) {
        Some(spec_scan_word(s, i))
    } else if c == '\'' || c == '"' {
        spec_scan_string(s, i)
    } else if c == '=' {
        if i + 1 < s.len() && s[i + 1 as int] == '=' {
            Some((SpecToken::EqEq, i + 2))
        } else {
            None
        }
    } else if c == '!' {
        if i + 1 < s.len() && s[i + 1 as int] == '=' {
            Some((SpecToken::NotEq, i + 2))
        } else {
            None
        }
    } else if c == '>' {
        if i + 1 < s.len() && s[i + 1 as int] == '=' {
            Some((SpecToken::Ge, i + 2))
        } else {
            Some((SpecToken::Gt, i + 1))
        }
    } else if c == '<' {
        if i + 1 < s.len() && s[i + 1 as int] == '=' {
            Some((SpecToken::Le, i + 2))
        } else {
            Some((SpecToken::Lt, i + 1))
        }
    } else if c == '+' {
        Some((SpecToken::Plus, i + 1))
    } else if c == '-' {
        Some((SpecToken::Minus, i + 1))
    } else if c == '(' {
        Some((SpecToken::LParen, i + 1))
    } else if c == ')' {
        Some((SpecToken::RParen, i + 1))
    } else {
        None
    }
}

/// The token stream of `s` from position `i` on: whitespace, then a token,
/// then the rest; `None` is a lexical error somewhere in the remainder.
pub open spec fn spec_tokenize_from(s: Seq<char>, i: nat) -> Option<Seq<SpecToken>>
    decreases s.len() - i,
{
    let w = ws_end(s, i);
    if w >= s.len() {
        Some(Seq::<SpecToken>::empty())
    } else if w < i {
        None
    } else {
        match spec_scan_token(s, w) {
            None => None,
            Some((t, j)) => {
                if j > w && j <= s.len() {
                    match spec_tokenize_from(s, j) {
                        None => None,
                        Some(rest) => Some(seq![t] + rest),
                    }
                } else {
                    None
                }
            },
        }
    }
}

/// The token stream of a whole rule text, if it lexes.
pub open spec fn spec_tokenize(s: Seq<char>) -> Option<Seq<SpecToken>> {
    spec_tokenize_from(s, 0)
}

// ---------------------------------------------------------------------------
// The exec scanner
// ---------------------------------------------------------------------------
/// Scans to the end of a digit run.
pub(crate) fn scan_digits(text: &str, i: usize) -> (j: usize)
    requires
        i <= text@.len(),
    ensures
        j == digits_end(text@, i as nat),
        i <= j <= text@.len(),
{
    let n: usize = text.unicode_len();
    let mut k: usize = i;
    while k < n && is_digit_exec(text.get_char(k))
        invariant
            i <= k <= n,
            n == text@.len(),
            digits_end(text@, i as nat) == digits_end(text@, k as nat),
        decreases n - k,
    {
        k = k + 1;
    }
    k
}

/// Scans to the end of an identifier.
fn scan_ident(text: &str, i: usize) -> (j: usize)
    requires
        i <= text@.len(),
    ensures
        j == ident_end(text@, i as nat),
        i <= j <= text@.len(),
{
    let n: usize = text.unicode_len();
    let mut k: usize = i;
    while k < n && is_ident_char_exec(text.get_char(k))
        invariant
            i <= k <= n,
            n == text@.len(),
            ident_end(text@, i as nat) == ident_end(text@, k as nat),
        decreases n - k,
    {
        k = k + 1;
    }
    k
}

/// Scans to the closing quote.
fn scan_quote(text: &str, q: char, i: usize) -> (j: usize)
    requires
        i <= text@.len(),
    ensures
        j == quote_end(text@, q, i as nat),
        i <= j <= text@.len(),
{
    let n: usize = text.unicode_len();
    let mut k: usize = i;
    while k < n && text.get_char(k) != q
        invariant
            i <= k <= n,
            n == text@.len(),
            quote_end(text@, q, i as nat) == quote_end(text@, q, k as nat),
        decreases n - k,
    {
        k = k + 1;
    }
    k
}

/// The value of the digit run `text[i..j]`, which must be short enough to
/// fit.
pub(crate) fn digits_to_u64(text: &str, i: usize, j: usize) -> (v: u64)
    requires
        i <= j <= text@.len(),
        j - i <= 18,
        forall|k: int| i <= k < j ==> is_digit(text@[k]),
    ensures
        v == digits_value(text@, i as nat, j as nat),
        v < pow10((j - i) as nat),
{
    proof {
        lemma_pow10_pos(0);
        lemma_pow10_18();
    }
    let mut acc: u64 = 0;
    let mut k: usize = i;
    while k < j
        invariant
            i <= k <= j,
            j <= text@.len(),
            j - i <= 18,
            forall|m: int| i <= m < j ==> is_digit(text@[m]),
            acc == digits_value(text@, i as nat, k as nat),
            acc < pow10((k - i) as nat),
        decreases j - k,
    {
        proof {
            lemma_pow10_step((k - i) as nat);
            lemma_pow10_increases(((k - i) + 1) as nat, 18);
            lemma_pow10_18();
        }
        let c = text.get_char(k);
        let d: u64 = (c as u32 - 48) as u64;
        acc = acc * 10 + d;
        k = k + 1;
    }
    acc
}

/// Scans a number literal starting at a digit.
fn scan_number(text: &str, i: usize, line: usize) -> (r: Result<(TokKind, usize), RuleSyntaxError>)
    requires
        i < text@.len(),
        is_digit(text@[i as int]),
    ensures
        match spec_scan_number(text@, i as nat) {
            Some((st, j)) => r matches Ok((k, jj)) && k@ == st && jj == j && jj > i && jj
                <= text@.len(),
            None => r matches Err(e) && names_position(e),
        },
{
    let n: usize = text.unicode_len();
    let j = scan_digits(text, i);
    proof {
        assert(digits_end(text@, i as nat) == digits_end(text@, (i + 1) as nat));
        lemma_digits_end_bounds(text@, (i + 1) as nat);
        assert(j > i);
        assert(forall|k: int| i <= k < j ==> is_digit(text@[k])) by {
            assert forall|k: int| i <= k < j implies is_digit(text@[k]) by {
                lemma_digits_run(text@, i as nat, k);
            }
        }
    }
    if text.get_char(i) == '0' && j > i + 1 {
        return Err(
            RuleSyntaxError::new(
                "invalid number literal (redundant leading zero)",
                Some(Token { lineno: line, lexpos: i }),
            ),
        );
    }
    if j < n && text.get_char(j) == '.' {
        let k = scan_digits(text, j + 1);
        proof {
            assert(forall|m: int| j + 1 <= m < k ==> is_digit(text@[m])) by {
                assert forall|m: int| j + 1 <= m < k implies is_digit(text@[m]) by {
                    lemma_digits_run(text@, (j + 1) as nat, m);
                }
            }
        }
        if k == j + 1 {
            return Err(
                RuleSyntaxError::new(
                    "invalid number literal (missing fraction digits)",
                    Some(Token { lineno: line, lexpos: i }),
                ),
            );
        }
        if (j - i) + (k - j - 1) > 18 {
            return Err(
                RuleSyntaxError::new(
                    "invalid number literal (too many digits)",
                    Some(Token { lineno: line, lexpos: i }),
                ),
            );
        }
        let int_part: u64 = digits_to_u64(text, i, j);
        let frac_part: u64 = digits_to_u64(text, j + 1, k);
        let scale: u32 = (k - j - 1) as u32;
        proof {
            lemma_digits_combine(
                digits_value(text@, i as nat, j as nat),
                digits_value(text@, (j + 1) as nat, k as nat),
                (j - i) as nat,
                scale as nat,
            );
            lemma_pow10_increases(((j - i) + scale) as nat, 18);
            lemma_pow10_18();
            lemma_pow10_pos(scale as nat);
            lemma_pow10_increases(scale as nat, 18);
        }
        let units: u64 = int_part * pow10_u64(scale) + frac_part;
        let d = Decimal::new(units as i64, scale);
        Ok((TokKind::Float(d), k))
    } else {
        if j - i > 18 {
            return Err(
                RuleSyntaxError::new(
                    "invalid number literal (too many digits)",
                    Some(Token { lineno: line, lexpos: i }),
                ),
            );
        }
        let v: u64 = digits_to_u64(text, i, j);
        proof {
            lemma_pow10_increases((j - i) as nat, 18);
            lemma_pow10_18();
        }
        Ok((TokKind::Integer(v as i64), j))
    }
}

/// Every index of a digit run up to its end holds a digit.
pub(crate) proof fn lemma_digits_run(s: Seq<char>, i: nat, k: int)
    requires
        i <= s.len(),
        i <= k < digits_end(s, i),
    ensures
        is_digit(s[k]),
    decreases s.len() - i,
{
    lemma_digits_end_bounds(s, i);
    if i < s.len() && is_digit(s[i as int]) {
        if k > i {
            lemma_digits_run(s, i + 1, k);
        }
    }
}

/// Every index of an identifier run up to its end holds an identifier
/// character.
proof fn lemma_ident_run(s: Seq<char>, i: nat, k: int)
    requires
        i <= s.len(),
        i <= k < ident_end(s, i),
    ensures
        is_ident_char(s[k]),
    decreases s.len() - i,
{
    lemma_ident_end_bounds(s, i);
    if i < s.len() && is_ident_char(s[i as int]) {
        if k > i {
            lemma_ident_run(s, i + 1, k);
        }
    }
}

/// Scans the dotted segments of a word.
fn scan_segments(text: &str, i: usize) -> (r: (Vec<String>, usize))
    requires
        i < text@.len(),
        is_ident_start(text@[i as int]),
    ensures
        keys_views(r.0@) == spec_scan_segments(text@, i as nat).0,
        r.1 == spec_scan_segments(text@, i as nat).1,
        i < r.1 <= text@.len(),
        r.0@.len() >= 1,
    decreases text@.len() - i,
{
    let n: usize = text.unicode_len();
    let j = scan_ident(text, i);
    proof {
        assert(ident_end(text@, i as nat) == ident_end(text@, (i + 1) as nat));
        lemma_ident_end_bounds(text@, (i + 1) as nat);
        assert(j > i);
    }
    let ghost sp = spec_scan_segments(text@, i as nat);
    if j < n {
        let cj = text.get_char(j);
        if cj == '.' && j + 1 < n {
            let cn = text.get_char(j + 1);
            if is_ident_start_exec(cn) {
                let rest = scan_segments(text, j + 1);
                let seg = String::from_str(text.substring_char(i, j));
                let mut segs = rest.0;
                segs.insert(0, seg);
                proof {
                    assert(keys_views(segs@) =~= seq![text@.subrange(i as int, j as int)]
                        + keys_views(segs@.drop_first()));
                    assert(segs@.drop_first() =~= rest.0@);
                }
                return (segs, rest.1);
            }
        }
    }
    let seg = String::from_str(text.substring_char(i, j));
    let mut segs: Vec<String> = Vec::new();
    segs.push(seg);
    proof {
        assert(keys_views(segs@) =~= seq![text@.subrange(i as int, j as int)]);
    }
    (segs, j)
}

/// Scans a word: keyword, symbol or attribute path.
fn scan_word(text: &str, i: usize) -> (r: (TokKind, usize))
    requires
        i < text@.len(),
        is_ident_start(text@[i as int]),
    ensures
        r.0@ == spec_scan_word(text@, i as nat).0,
        r.1 == spec_scan_word(text@, i as nat).1,
        i < r.1 <= text@.len(),
{
    let (mut segs, end) = scan_segments(text, i);
    if segs.len() == 1 {
        let seg = segs.remove(0);
        proof {
            assert(seg@ == spec_scan_segments(text@, i as nat).0[0]);
        }
        let kind = if crate::utils::str_equal(seg.as_str(), "true") {
            TokKind::True
        } else if crate::utils::str_equal(seg.as_str(), "false") {
            TokKind::False
        } else if crate::utils::str_equal(seg.as_str(), "and") {
            TokKind::And
        } else if crate::utils::str_equal(seg.as_str(), "or") {
            TokKind::Or
        } else if crate::utils::str_equal(seg.as_str(), "not") {
            TokKind::Not
        } else {
            TokKind::Symbol(seg)
        };
        (kind, end)
    } else {
        (TokKind::Attribute(segs), end)
    }
}

/// Scans one token at position `i`, which must not hold whitespace.
fn scan_token(text: &str, i: usize, line: usize) -> (r: Result<(Lexeme, usize), RuleSyntaxError>)
    requires
        i < text@.len(),
    ensures
        match spec_scan_token(text@, i as nat) {
            Some((st, j)) => r matches Ok((lex, jj)) && lex@ == st && jj == j && jj > i && jj
                <= text@.len(),
            None => r matches Err(e) && names_position(e),
        },
{
    let n: usize = text.unicode_len();
    let c = text.get_char(i);
    if is_digit_exec(c) {
        match scan_number(text, i, line) {
            Ok((kind, j)) => Ok((Lexeme { kind, lineno: line, lexpos: i }, j)),
            Err(e) => Err(e),
        }
    } else if is_ident_start_exec(c) {
        let (kind, j) = scan_word(text, i);
        Ok((Lexeme { kind, lineno: line, lexpos: i }, j))
    } else if c == '\'' || c == '"' {
        let e = scan_quote(text, c, i + 1);
        if e < n {
            let inner = String::from_str(text.substring_char(i + 1, e));
            Ok((Lexeme { kind: TokKind::StrLit(inner), lineno: line, lexpos: i }, e + 1))
        } else {
            let err = RuleSyntaxError::new("unterminated string literal", None);
            Err(err)
        }
    } else if c == '=' {
        if i + 1 < n && text.get_char(i + 1) == '=' {
            Ok((Lexeme { kind: TokKind::EqEq, lineno: line, lexpos: i }, i + 2))
        } else {
            Err(
                RuleSyntaxError::new("unrecognized character", Some(Token { lineno: line, lexpos: i })),
            )
        }
    } else if c == '!' {
        if i + 1 < n && text.get_char(i + 1) == '=' {
            Ok((Lexeme { kind: TokKind::NotEq, lineno: line, lexpos: i }, i + 2))
        } else {
            Err(
                RuleSyntaxError::new("unrecognized character", Some(Token { lineno: line, lexpos: i })),
            )
        }
    } else if c == '>' {
        if i + 1 < n && text.get_char(i + 1) == '=' {
            Ok((Lexeme { kind: TokKind::Ge, lineno: line, lexpos: i }, i + 2))
        } else {
            Ok((Lexeme { kind: TokKind::Gt, lineno: line, lexpos: i }, i + 1))
        }
    } else if c == '<' {
        if i + 1 < n && text.get_char(i + 1) == '=' {
            Ok((Lexeme { kind: TokKind::Le, lineno: line, lexpos: i }, i + 2))
        } else {
            Ok((Lexeme { kind: TokKind::Lt, lineno: line, lexpos: i }, i + 1))
        }
    } else if c == '+' {
        Ok((Lexeme { kind: TokKind::Plus, lineno: line, lexpos: i }, i + 1))
    } else if c == '-' {
        Ok((Lexeme { kind: TokKind::Minus, lineno: line, lexpos: i }, i + 1))
    } else if c == '(' {
        Ok((Lexeme { kind: TokKind::LParen, lineno: line, lexpos: i }, i + 1))
    } else if c == ')' {
        Ok((Lexeme { kind: TokKind::RParen, lineno: line, lexpos: i }, i + 1))
    } else {
        Err(RuleSyntaxError::new("unrecognized character", Some(Token { lineno: line, lexpos: i })))
    }
}

/// Skips whitespace, counting newlines; returns the next position and line.
fn skip_ws(text: &str, i: usize, line: usize) -> (r: (usize, usize))
    requires
        i <= text@.len(),
    ensures
        r.0 == ws_end(text@, i as nat),
        i <= r.0 <= text@.len(),
{
    let n: usize = text.unicode_len();
    let mut k: usize = i;
    let mut l: usize = line;
    while k < n && is_ws_exec(text.get_char(k))
        invariant
            i <= k <= n,
            n == text@.len(),
            ws_end(text@, i as nat) == ws_end(text@, k as nat),
        decreases n - k,
    {
        if text.get_char(k) == '\n' && l < usize::MAX {
            l = l + 1;
        }
        k = k + 1;
    }
    (k, l)
}

/// Unchanged whitespace skipping leaves the token stream unchanged: moving
/// the start of lexing to any point inside the leading whitespace run makes
/// no difference.
proof fn lemma_tokenize_from_ws(s: Seq<char>, i: nat, w: nat)
    requires
        i <= s.len(),
        i <= w <= ws_end(s, i),
        forall|k: int| i <= k < w ==> is_ws(s[k]),
    ensures
        spec_tokenize_from(s, i) == spec_tokenize_from(s, w),
    decreases w - i,
{
    lemma_ws_end_bounds(s, i);
    if i < w {
        assert(is_ws(s[i as int]));
        assert(ws_end(s, i) == ws_end(s, i + 1));
        lemma_tokenize_from_ws(s, i + 1, w);
        lemma_ws_end_bounds(s, i + 1);
        assert(ws_end(s, i) >= i);
        assert(ws_end(s, i + 1) >= i + 1);
    }
}

/// Tokenizes a whole rule text.
pub fn tokenize(text: &str) -> (r: Result<Vec<Lexeme>, RuleSyntaxError>)
    ensures
        match spec_tokenize(text@) {
            Some(sts) => r matches Ok(toks) && lexemes_views(toks@) == sts,
            None => r matches Err(e) && names_position(e),
        },
{
    let n: usize = text.unicode_len();
    let mut toks: Vec<Lexeme> = Vec::new();
    let mut i: usize = 0;
    let mut line: usize = 1;
    proof {
        assert(lexemes_views(toks@) =~= Seq::<SpecToken>::empty());
    }
    loop
        invariant
            i <= n,
            n == text@.len(),
            match spec_tokenize_from(text@, i as nat) {
                Some(rest) => spec_tokenize_from(text@, 0) == Some(lexemes_views(toks@) + rest),
                None => spec_tokenize_from(text@, 0) is None,
            },
        decreases n - i,
    {
        let ghost i0 = i as nat;
        let (w, nline) = skip_ws(text, i, line);
        line = nline;
        proof {
            assert forall|k: int| i0 <= k < w implies is_ws(text@[k]) by {
                lemma_ws_run(text@, i0, k);
            }
            lemma_tokenize_from_ws(text@, i0, w as nat);
        }
        if w >= n {
            proof {
                assert(ws_end(text@, w as nat) == w);
                assert(spec_tokenize_from(text@, w as nat) == Some(Seq::<SpecToken>::empty()));
                assert(lexemes_views(toks@) + Seq::<SpecToken>::empty() =~= lexemes_views(toks@));
            }
            return Ok(toks);
        }
        i = w;
        proof {
            lemma_ws_end_bounds(text@, i0);
            assert(ws_end(text@, i as nat) == i as nat);
        }
        match scan_token(text, i, line) {
            Err(e) => {
                proof {
                    assert(ws_end(text@, i as nat) == i as nat);
                    assert(spec_scan_token(text@, i as nat) is None);
                    assert(spec_tokenize_from(text@, i as nat) is None);
                }
                return Err(e);
            },
            Ok((lex, j)) => {
                proof {
                    assert(ws_end(text@, i as nat) == i as nat);
                    let st = spec_scan_token(text@, i as nat)->Some_0;
                    assert(st.0 == lex@ && st.1 == j as nat);
                    match spec_tokenize_from(text@, j as nat) {
                        Some(rest) => {
                            assert(spec_tokenize_from(text@, i as nat) == Some(seq![lex@] + rest));
                            assert(lexemes_views(toks@.push(lex)) =~= lexemes_views(toks@) + seq![
                                lex@,
                            ]);
                            assert((lexemes_views(toks@) + (seq![lex@] + rest)) =~= (lexemes_views(
                                toks@,
                            ) + seq![lex@]) + rest);
                        },
                        None => {
                            assert(spec_tokenize_from(text@, i as nat) is None);
                        },
                    }
                }
                toks.push(lex);
                i = j;
            },
        }
    }
}

/// Every index inside the leading whitespace run holds whitespace.
proof fn lemma_ws_run(s: Seq<char>, i: nat, k: int)
    requires
        i <= s.len(),
        i <= k < ws_end(s, i),
    ensures
        is_ws(s[k]),
    decreases s.len() - i,
{
    lemma_ws_end_bounds(s, i);
    if i < s.len() && is_ws(s[i as int]) {
        if k > i {
            lemma_ws_run(s, i + 1, k);
        }
    }
}

} // verus!
