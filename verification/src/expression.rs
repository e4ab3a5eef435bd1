//! Arithmetic expressions of the Expression node: tokens and a recursive-descent parser.
//!
//! Grammar (lowest precedence first):
//! `expr = term (('+' | '-') term)*`, `term = unary (('*' | '/' | '%') unary)*`,
//! `unary = '-' unary | atom`, `atom = number | '(' expr ')' | func '(' expr ')'
//! | func2 '(' expr ',' expr ')' | variable`, with `func` one of `sin cos abs sqrt` and
//! `func2` one of `min max`.  Numbers are runs of digits and dots with at most one dot and
//! at least one digit; they are kept as written.  Variables are numbered in order of first
//! appearance.
use vstd::prelude::*;
use vstd::string::StrSliceExecFns;
use crate::text::{push_char, push_decimal, decimal, chars_of};
use crate::bone::{first_index, lemma_first_index};
use crate::text::str_eq;

verus! {

/// `c` is an ASCII digit.
pub open spec fn is_digit(c: char) -> bool {
    '0' <= c <= '9'
}

/// `c` is an ASCII letter.
pub open spec fn is_alpha(c: char) -> bool {
    ('a' <= c <= 'z') || ('A' <= c <= 'Z')
}

/// `c` may occur in a number.
pub open spec fn is_number_char(c: char) -> bool {
    is_digit(c) || c == '.'
}

/// `c` may occur in an identifier after its first character.
pub open spec fn is_ident_char(c: char) -> bool {
    is_alpha(c) || is_digit(c) || c == '_'
}

/// `c` is one of the five operator characters.
pub open spec fn is_op_char(c: char) -> bool {
    c == '+' || c == '-' || c == '*' || c == '/' || c == '%'
}

/// End of the run of number characters starting at `i`.
pub open spec fn number_end(cs: Seq<char>, i: int) -> int
    decreases cs.len() - i,
{
    if 0 <= i < cs.len() && is_number_char(cs[i]) {
        number_end(cs, i + 1)
    } else {
        i
    }
}

/// End of the run of identifier characters starting at `i`.
pub open spec fn ident_end(cs: Seq<char>, i: int) -> int
    decreases cs.len() - i,
{
    if 0 <= i < cs.len() && is_ident_char(cs[i]) {
        ident_end(cs, i + 1)
    } else {
        i
    }
}

/// Number of `'.'` in `s`.
pub open spec fn dot_count(s: Seq<char>) -> nat
    decreases s.len(),
{
    if s.len() == 0 {
        0
    } else {
        dot_count(s.drop_last()) + if s.last() == '.' { 1nat } else { 0nat }
    }
}

/// A run of digits and dots reads as a number: at most one dot and at least one digit.
pub open spec fn valid_number(s: Seq<char>) -> bool {
    dot_count(s) <= 1 && exists|k: int| 0 <= k < s.len() && is_digit(#[trigger] s[k])
}

/// Abstract value of a token.
pub enum TokenV {
    Num(Seq<char>),
    Ident(Seq<char>),
    Op(char),
    LParen,
    RParen,
    Comma,
}

/// A lexical token of an expression.
#[derive(Debug)]
pub enum Token {
    Num(String),
    Ident(String),
    Op(char),
    LParen,
    RParen,
    Comma,
}

impl View for Token {
    type V = TokenV;

    open spec fn view(&self) -> TokenV {
        match self {
            Token::Num(s) => TokenV::Num(s@),
            Token::Ident(s) => TokenV::Ident(s@),
            Token::Op(c) => TokenV::Op(*c),
            Token::LParen => TokenV::LParen,
            Token::RParen => TokenV::RParen,
            Token::Comma => TokenV::Comma,
        }
    }
}

/// Abstract values of a sequence of tokens.
pub open spec fn tokens_view(s: Seq<Token>) -> Seq<TokenV> {
    s.map_values(|t: Token| t@)
}

/// A number token runs from `i` over number characters up to the first other character.
pub proof fn lemma_number_end(cs: Seq<char>, i: int)
    requires
        0 <= i <= cs.len(),
    ensures
        i <= number_end(cs, i) <= cs.len(),
        forall|k: int| i <= k < number_end(cs, i) ==> is_number_char(#[trigger] cs[k]),
        number_end(cs, i) < cs.len() ==> !is_number_char(cs[number_end(cs, i)]),
    decreases cs.len() - i,
{
    if i < cs.len() && is_number_char(cs[i]) {
        lemma_number_end(cs, i + 1);
    }
}

/// An identifier token runs from `i` over identifier characters up to the first other
/// character.
pub proof fn lemma_ident_end(cs: Seq<char>, i: int)
    requires
        0 <= i <= cs.len(),
    ensures
        i <= ident_end(cs, i) <= cs.len(),
        forall|k: int| i <= k < ident_end(cs, i) ==> is_ident_char(#[trigger] cs[k]),
        ident_end(cs, i) < cs.len() ==> !is_ident_char(cs[ident_end(cs, i)]),
    decreases cs.len() - i,
{
    if i < cs.len() && is_ident_char(cs[i]) {
        lemma_ident_end(cs, i + 1);
    }
}

/// `t` in front of a token list, errors passed through.
pub open spec fn prepend(t: TokenV, r: Result<Seq<TokenV>, Seq<char>>) -> Result<Seq<TokenV>, Seq<char>> {
    match r {
        Ok(ts) => Ok(seq![t] + ts),
        Err(e) => Err(e),
    }
}

/// Tokens of `cs[i..]`, or the message for the first character that starts no token.
pub open spec fn tokens_from(cs: Seq<char>, i: int) -> Result<Seq<TokenV>, Seq<char>>
    decreases cs.len() - i,
{
    if i < 0 || i >= cs.len() {
        Ok(Seq::empty())
    } else {
        let c = cs[i];
        if c == ' ' || c == '\t' || c == '\n' {
            tokens_from(cs, i + 1)
        } else if is_op_char(c) {
            prepend(TokenV::Op(c), tokens_from(cs, i + 1))
        } else if c == '(' {
            prepend(TokenV::LParen, tokens_from(cs, i + 1))
        } else if c == ')' {
            prepend(TokenV::RParen, tokens_from(cs, i + 1))
        } else if c == ',' {
            prepend(TokenV::Comma, tokens_from(cs, i + 1))
        } else if is_number_char(c) {
            let j = number_end(cs, i);
            proof { lemma_number_end(cs, i); }
            if valid_number(cs.subrange(i, j)) {
                prepend(TokenV::Num(cs.subrange(i, j)), tokens_from(cs, j))
            } else {
                Err("Invalid number: "@ + cs.subrange(i, j))
            }
        } else if is_alpha(c) || c == '_' {
            let j = ident_end(cs, i);
            proof { lemma_ident_end(cs, i); }
            prepend(TokenV::Ident(cs.subrange(i, j)), tokens_from(cs, j))
        } else {
            Err("Unexpected character: "@ + seq![c])
        }
    }
}

fn is_digit_exec(c: char) -> (r: bool)
    ensures
        r == is_digit(c),
{
    '0' <= c && c <= '9'
}

fn is_alpha_exec(c: char) -> (r: bool)
    ensures
        r == is_alpha(c),
{
    ('a' <= c && c <= 'z') || ('A' <= c && c <= 'Z')
}

/// The characters `cs[from..to]` as a string.
fn string_of(cs: &Vec<char>, from: usize, to: usize) -> (r: String)
    requires
        from <= to <= cs@.len(),
    ensures
        r@ == cs@.subrange(from as int, to as int),
{
    let mut s = String::new();
    let mut k = from;
    while k < to
        invariant
            from <= k <= to,
            to <= cs@.len(),
            s@ == cs@.subrange(from as int, k as int),
        decreases to - k,
    {
        push_char(&mut s, cs[k]);
        assert(cs@.subrange(from as int, k + 1) =~= cs@.subrange(from as int, k as int).push(cs@[k as int]));
        k += 1;
    }
    s
}

/// Whether `cs[from..to]` reads as a number.
fn check_number(cs: &Vec<char>, from: usize, to: usize) -> (r: bool)
    requires
        from <= to <= cs@.len(),
    ensures
        r == valid_number(cs@.subrange(from as int, to as int)),
{
    let ghost s = cs@.subrange(from as int, to as int);
    let mut dots: usize = 0;
    let mut digits: bool = false;
    let mut k = from;
    while k < to
        invariant
            from <= k <= to,
            to <= cs@.len(),
            s == cs@.subrange(from as int, to as int),
            dots as nat == dot_count(s.take(k - from)),
            dots <= k - from,
            digits == exists|m: int| 0 <= m < k - from && is_digit(#[trigger] s[m]),
        decreases to - k,
    {
        assert(s.take(k - from + 1).drop_last() =~= s.take(k - from));
        assert(s[k - from] == cs@[k as int]);
        if cs[k] == '.' {
            dots = dots + 1;
        }
        if is_digit_exec(cs[k]) {
            digits = true;
        }
        k += 1;
    }
    assert(s.take(to - from) =~= s);
    dots <= 1 && digits
}

/// Split an expression into tokens.
pub fn tokenize(input: &str) -> (r: Result<Vec<Token>, String>)
    ensures
        match tokens_from(input@, 0) {
            Ok(ts) => r is Ok && tokens_view(r->Ok_0@) == ts,
            Err(e) => r is Err && r->Err_0@ == e,
        },
{
    let cs = chars_of(input);
    let n = cs.len();
    let mut tokens: Vec<Token> = Vec::new();
    let mut i: usize = 0;
    while i < n
        invariant
            n == cs@.len(),
            cs@ == input@,
            i <= n,
            tokens_from(cs@, 0) == match tokens_from(cs@, i as int) {
                Ok(ts) => Ok(tokens_view(tokens@) + ts),
                Err(e) => Err(e),
            },
        decreases n - i,
    {
        let c = cs[i];
        let ghost before = tokens@;
        if c == ' ' || c == '\t' || c == '\n' {
            i += 1;
        } else if c == '+' || c == '-' || c == '*' || c == '/' || c == '%' {
            tokens.push(Token::Op(c));
            assert(tokens_view(tokens@) =~= tokens_view(before) + seq![TokenV::Op(c)]);
            proof { assert_seqs_assoc(tokens_view(before), seq![TokenV::Op(c)], tokens_from(cs@, i + 1)); }
            i += 1;
        } else if c == '(' {
            tokens.push(Token::LParen);
            assert(tokens_view(tokens@) =~= tokens_view(before) + seq![TokenV::LParen]);
            proof { assert_seqs_assoc(tokens_view(before), seq![TokenV::LParen], tokens_from(cs@, i + 1)); }
            i += 1;
        } else if c == ')' {
            tokens.push(Token::RParen);
            assert(tokens_view(tokens@) =~= tokens_view(before) + seq![TokenV::RParen]);
            proof { assert_seqs_assoc(tokens_view(before), seq![TokenV::RParen], tokens_from(cs@, i + 1)); }
            i += 1;
        } else if c == ',' {
            tokens.push(Token::Comma);
            assert(tokens_view(tokens@) =~= tokens_view(before) + seq![TokenV::Comma]);
            proof { assert_seqs_assoc(tokens_view(before), seq![TokenV::Comma], tokens_from(cs@, i + 1)); }
            i += 1;
        } else if is_digit_exec(c) || c == '.' {
            let start = i;
            proof { lemma_number_end(cs@, i as int); }
            while i < n && (is_digit_exec(cs[i]) || cs[i] == '.')
                invariant
                    n == cs@.len(),
                    start < n,
                    start <= i <= number_end(cs@, start as int),
                    number_end(cs@, start as int) <= n,
                    forall|k: int| start <= k < number_end(cs@, start as int) ==> is_number_char(#[trigger] cs@[k]),
                    number_end(cs@, start as int) < n ==> !is_number_char(cs@[number_end(cs@, start as int)]),
                decreases n - i,
            {
                i += 1;
            }
            if !check_number(&cs, start, i) {
                let mut msg = String::from_str("Invalid number: ");
                msg.append(string_of(&cs, start, i).as_str());
                return Err(msg);
            }
            let text = string_of(&cs, start, i);
            let ghost tv = TokenV::Num(text@);
            tokens.push(Token::Num(text));
            assert(tokens_view(tokens@) =~= tokens_view(before) + seq![tv]);
            proof { assert_seqs_assoc(tokens_view(before), seq![tv], tokens_from(cs@, i as int)); }
        } else if is_alpha_exec(c) || c == '_' {
            let start = i;
            proof { lemma_ident_end(cs@, i as int); }
            while i < n && (is_alpha_exec(cs[i]) || is_digit_exec(cs[i]) || cs[i] == '_')
                invariant
                    n == cs@.len(),
                    start < n,
                    start <= i <= ident_end(cs@, start as int),
                    ident_end(cs@, start as int) <= n,
                    forall|k: int| start <= k < ident_end(cs@, start as int) ==> is_ident_char(#[trigger] cs@[k]),
                    ident_end(cs@, start as int) < n ==> !is_ident_char(cs@[ident_end(cs@, start as int)]),
                decreases n - i,
            {
                i += 1;
            }
            let text = string_of(&cs, start, i);
            let ghost tv = TokenV::Ident(text@);
            tokens.push(Token::Ident(text));
            assert(tokens_view(tokens@) =~= tokens_view(before) + seq![tv]);
            proof { assert_seqs_assoc(tokens_view(before), seq![tv], tokens_from(cs@, i as int)); }
        } else {
            let mut msg = String::from_str("Unexpected character: ");
            push_char(&mut msg, c);
            assert(msg@ =~= "Unexpected character: "@ + seq![c]);
            return Err(msg);
        }
    }
    assert(tokens_view(tokens@) + Seq::<TokenV>::empty() =~= tokens_view(tokens@));
    Ok(tokens)
}

/// Associativity of concatenation in front of a token result.
proof fn assert_seqs_assoc(a: Seq<TokenV>, b: Seq<TokenV>, r: Result<Seq<TokenV>, Seq<char>>)
    ensures
        match r {
            Ok(ts) => (a + b) + ts == a + (b + ts),
            Err(_) => true,
        },
{
    if let Ok(ts) = r {
        assert((a + b) + ts =~= a + (b + ts));
    }
}


/// Binary operators.
#[derive(Debug, Clone, Copy, PartialEq, Eq)]
pub enum Op {
    Add,
    Sub,
    Mul,
    Div,
    Mod,
}

/// One-argument functions.
#[derive(Debug, Clone, Copy, PartialEq, Eq)]
pub enum Func {
    Sin,
    Cos,
    Abs,
    Sqrt,
}

/// Two-argument functions.
#[derive(Debug, Clone, Copy, PartialEq, Eq)]
pub enum Func2 {
    Min,
    Max,
}

/// Abstract value of an expression tree.
pub enum ExprV {
    Literal(Seq<char>),
    Var(nat),
    BinOp(Op, Box<ExprV>, Box<ExprV>),
    Neg(Box<ExprV>),
    Func(Func, Box<ExprV>),
    Func2(Func2, Box<ExprV>, Box<ExprV>),
}

/// Expression tree.  A literal keeps the number as written; a variable is an index into
/// the parsed variable list.
#[derive(Debug)]
pub enum Expr {
    Literal(String),
    Var(usize),
    BinOp(Op, Box<Expr>, Box<Expr>),
    Neg(Box<Expr>),
    Func(Func, Box<Expr>),
    Func2(Func2, Box<Expr>, Box<Expr>),
}

/// Abstract value of an expression tree.
pub open spec fn expr_view(e: Expr) -> ExprV
    decreases e,
{
    match e {
        Expr::Literal(s) => ExprV::Literal(s@),
        Expr::Var(i) => ExprV::Var(i as nat),
        Expr::BinOp(op, a, b) => ExprV::BinOp(op, Box::new(expr_view(*a)), Box::new(expr_view(*b))),
        Expr::Neg(a) => ExprV::Neg(Box::new(expr_view(*a))),
        Expr::Func(f, a) => ExprV::Func(f, Box::new(expr_view(*a))),
        Expr::Func2(f, a, b) => ExprV::Func2(f, Box::new(expr_view(*a)), Box::new(expr_view(*b))),
    }
}

impl View for Expr {
    type V = ExprV;

    open spec fn view(&self) -> ExprV {
        expr_view(*self)
    }
}

/// Abstract values of variable names.
pub open spec fn names_view(s: Seq<String>) -> Seq<Seq<char>> {
    s.map_values(|x: String| x@)
}

/// Outcome of parsing a phrase: the tree, the position after it and the variable names
/// known so far; or the error message.
pub type PhraseResult = Result<(ExprV, int, Seq<Seq<char>>), Seq<char>>;

/// The name is the given one.
pub open spec fn is_name(name: Seq<char>) -> spec_fn(Seq<char>) -> bool {
    |v: Seq<char>| v == name
}

/// Index of a variable: its first position in `vars`, or a new last position.
pub open spec fn lookup(vars: Seq<Seq<char>>, name: Seq<char>) -> (nat, Seq<Seq<char>>) {
    let k = first_index(vars, is_name(name));
    if k < vars.len() {
        (k as nat, vars)
    } else {
        (vars.len(), vars.push(name))
    }
}

/// Message for a token that cannot start an operand.
pub open spec fn unexpected(t: TokenV) -> Seq<char> {
    "Unexpected token: "@ + match t {
        TokenV::Op(c) => "Op('"@ + seq![c] + "')"@,
        TokenV::RParen => "RParen"@,
        TokenV::Comma => "Comma"@,
        TokenV::LParen => "LParen"@,
        TokenV::Num(s) => "Num"@,
        TokenV::Ident(s) => "Ident"@,
    }
}

/// The token at `pos` is the closing parenthesis.
pub open spec fn closes(t: Seq<TokenV>, pos: int) -> bool {
    0 <= pos < t.len() && t[pos] == TokenV::RParen
}

/// `expr` at `pos` (with at most `f` nested steps).
pub open spec fn p_expr(t: Seq<TokenV>, pos: int, vars: Seq<Seq<char>>, f: nat) -> PhraseResult
    decreases f, 0int,
{
    if f == 0 {
        Err(Seq::empty())
    } else {
        match p_term(t, pos, vars, (f - 1) as nat) {
            Ok((l, p, v)) => p_expr_rest(t, l, p, v, (f - 1) as nat),
            Err(e) => Err(e),
        }
    }
}

/// The `('+' | '-') term` repetitions after `left`.
pub open spec fn p_expr_rest(t: Seq<TokenV>, left: ExprV, pos: int, vars: Seq<Seq<char>>, f: nat) -> PhraseResult
    decreases f, 0int,
{
    if f == 0 {
        Err(Seq::empty())
    } else if 0 <= pos < t.len() && (t[pos] == TokenV::Op('+') || t[pos] == TokenV::Op('-')) {
        let op = if t[pos] == TokenV::Op('+') { Op::Add } else { Op::Sub };
        match p_term(t, pos + 1, vars, (f - 1) as nat) {
            Ok((r, p, v)) => p_expr_rest(t, ExprV::BinOp(op, Box::new(left), Box::new(r)), p, v, (f - 1) as nat),
            Err(e) => Err(e),
        }
    } else {
        Ok((left, pos, vars))
    }
}

/// `term` at `pos`.
pub open spec fn p_term(t: Seq<TokenV>, pos: int, vars: Seq<Seq<char>>, f: nat) -> PhraseResult
    decreases f, 0int,
{
    if f == 0 {
        Err(Seq::empty())
    } else {
        match p_unary(t, pos, vars, (f - 1) as nat) {
            Ok((l, p, v)) => p_term_rest(t, l, p, v, (f - 1) as nat),
            Err(e) => Err(e),
        }
    }
}

/// The `('*' | '/' | '%') unary` repetitions after `left`.
pub open spec fn p_term_rest(t: Seq<TokenV>, left: ExprV, pos: int, vars: Seq<Seq<char>>, f: nat) -> PhraseResult
    decreases f, 0int,
{
    if f == 0 {
        Err(Seq::empty())
    } else if 0 <= pos < t.len() && (t[pos] == TokenV::Op('*') || t[pos] == TokenV::Op('/') || t[pos] == TokenV::Op('%')) {
        let op = if t[pos] == TokenV::Op('*') { Op::Mul } else if t[pos] == TokenV::Op('/') { Op::Div } else { Op::Mod };
        match p_unary(t, pos + 1, vars, (f - 1) as nat) {
            Ok((r, p, v)) => p_term_rest(t, ExprV::BinOp(op, Box::new(left), Box::new(r)), p, v, (f - 1) as nat),
            Err(e) => Err(e),
        }
    } else {
        Ok((left, pos, vars))
    }
}

/// `unary` at `pos`.
pub open spec fn p_unary(t: Seq<TokenV>, pos: int, vars: Seq<Seq<char>>, f: nat) -> PhraseResult
    decreases f, 0int,
{
    if f == 0 {
        Err(Seq::empty())
    } else if 0 <= pos < t.len() && t[pos] == TokenV::Op('-') {
        match p_unary(t, pos + 1, vars, (f - 1) as nat) {
            Ok((e, p, v)) => Ok((ExprV::Neg(Box::new(e)), p, v)),
            Err(e) => Err(e),
        }
    } else {
        p_atom(t, pos, vars, (f - 1) as nat)
    }
}

/// One-argument function of that name.
pub open spec fn func_named(name: Seq<char>) -> Option<Func> {
    if name == "sin"@ {
        Some(Func::Sin)
    } else if name == "cos"@ {
        Some(Func::Cos)
    } else if name == "abs"@ {
        Some(Func::Abs)
    } else if name == "sqrt"@ {
        Some(Func::Sqrt)
    } else {
        None
    }
}

/// Two-argument function of that name.
pub open spec fn func2_named(name: Seq<char>) -> Option<Func2> {
    if name == "min"@ {
        Some(Func2::Min)
    } else if name == "max"@ {
        Some(Func2::Max)
    } else {
        None
    }
}

/// `atom` at `pos`.
pub open spec fn p_atom(t: Seq<TokenV>, pos: int, vars: Seq<Seq<char>>, f: nat) -> PhraseResult
    decreases f, 0int,
{
    if f == 0 {
        Err(Seq::empty())
    } else if pos < 0 || pos >= t.len() {
        Err("Unexpected end of expression"@)
    } else {
        match t[pos] {
            TokenV::Num(s) => Ok((ExprV::Literal(s), pos + 1, vars)),
            TokenV::LParen => match p_expr(t, pos + 1, vars, (f - 1) as nat) {
                Ok((e, p, v)) => if closes(t, p) { Ok((e, p + 1, v)) } else { Err("Expected ')'"@) },
                Err(e) => Err(e),
            },
            TokenV::Ident(name) => if pos + 1 < t.len() && t[pos + 1] == TokenV::LParen {
                if func_named(name) is Some {
                    match p_expr(t, pos + 2, vars, (f - 1) as nat) {
                        Ok((a, p, v)) => if closes(t, p) {
                            Ok((ExprV::Func(func_named(name)->0, Box::new(a)), p + 1, v))
                        } else {
                            Err("Expected ')'"@)
                        },
                        Err(e) => Err(e),
                    }
                } else if func2_named(name) is Some {
                    match p_expr(t, pos + 2, vars, (f - 1) as nat) {
                        Ok((a, p, v)) => if 0 <= p < t.len() && t[p] == TokenV::Comma {
                            match p_expr(t, p + 1, v, (f - 1) as nat) {
                                Ok((b, q, w)) => if closes(t, q) {
                                    Ok((ExprV::Func2(func2_named(name)->0, Box::new(a), Box::new(b)), q + 1, w))
                                } else {
                                    Err("Expected ')'"@)
                                },
                                Err(e) => Err(e),
                            }
                        } else {
                            Err("Expected ',' in function call"@)
                        },
                        Err(e) => Err(e),
                    }
                } else {
                    Err("Unknown function: "@ + name)
                }
            } else {
                Ok((ExprV::Var(lookup(vars, name).0), pos + 1, lookup(vars, name).1))
            },
            other => Err(unexpected(other)),
        }
    }
}

/// Steps enough for any phrase of `n` tokens.
pub open spec fn fuel_for(n: nat) -> nat {
    5 * n + 5
}

/// Result of parsing a whole expression: variable names in order of first appearance and
/// the tree; or the error message (of the tokenizer, the parser, or for tokens left over).
pub open spec fn parse_spec(input: Seq<char>) -> Result<(Seq<Seq<char>>, ExprV), Seq<char>> {
    match tokens_from(input, 0) {
        Err(e) => Err(e),
        Ok(t) => match p_expr(t, 0, Seq::empty(), fuel_for(t.len())) {
            Err(e) => Err(e),
            Ok((ast, p, vars)) => if p < t.len() {
                Err("Unexpected token at position "@ + decimal(p as nat))
            } else {
                Ok((vars, ast))
            },
        },
    }
}


/// Every variable index in the tree is below `n`.
pub open spec fn vars_below(e: ExprV, n: nat) -> bool
    decreases e,
{
    match e {
        ExprV::Literal(_) => true,
        ExprV::Var(i) => i < n,
        ExprV::BinOp(_, a, b) => vars_below(*a, n) && vars_below(*b, n),
        ExprV::Neg(a) => vars_below(*a, n),
        ExprV::Func(_, a) => vars_below(*a, n),
        ExprV::Func2(_, a, b) => vars_below(*a, n) && vars_below(*b, n),
    }
}

/// No name occurs twice.
pub open spec fn no_repeats(s: Seq<Seq<char>>) -> bool {
    forall|i: int, j: int| 0 <= i < j < s.len() ==> s[i] != s[j]
}

/// A phrase parsed with the names `vars` known before it keeps them as a prefix of the
/// names known after it, refers only to known names, and adds no name twice.
pub open spec fn phrase_ok(vars: Seq<Seq<char>>, r: PhraseResult) -> bool {
    match r {
        Ok((e, _, v)) => {
            &&& vars.len() <= v.len()
            &&& v.subrange(0, vars.len() as int) == vars
            &&& vars_below(e, v.len())
            &&& no_repeats(vars) ==> no_repeats(v)
        },
        Err(_) => true,
    }
}

proof fn lemma_vars_below_mono(e: ExprV, n: nat, m: nat)
    requires
        vars_below(e, n),
        n <= m,
    ensures
        vars_below(e, m),
    decreases e,
{
    match e {
        ExprV::BinOp(_, a, b) => {
            lemma_vars_below_mono(*a, n, m);
            lemma_vars_below_mono(*b, n, m);
        },
        ExprV::Neg(a) => lemma_vars_below_mono(*a, n, m),
        ExprV::Func(_, a) => lemma_vars_below_mono(*a, n, m),
        ExprV::Func2(_, a, b) => {
            lemma_vars_below_mono(*a, n, m);
            lemma_vars_below_mono(*b, n, m);
        },
        _ => {},
    }
}

/// Prefixes compose.
proof fn lemma_prefix_trans(a: Seq<Seq<char>>, b: Seq<Seq<char>>, c: Seq<Seq<char>>)
    requires
        a.len() <= b.len(),
        b.subrange(0, a.len() as int) == a,
        b.len() <= c.len(),
        c.subrange(0, b.len() as int) == b,
    ensures
        c.subrange(0, a.len() as int) == a,
{
    assert(c.subrange(0, a.len() as int) =~= b.subrange(0, a.len() as int));
}

/// Looking a name up keeps the known names as a prefix, gives an index below the new
/// count, and adds the name only when it was unknown.
proof fn lemma_lookup(vars: Seq<Seq<char>>, name: Seq<char>)
    ensures
        lookup(vars, name).0 < lookup(vars, name).1.len(),
        vars.len() <= lookup(vars, name).1.len(),
        lookup(vars, name).1.subrange(0, vars.len() as int) == vars,
        no_repeats(vars) ==> no_repeats(lookup(vars, name).1),
{
    let k = first_index(vars, is_name(name));
    crate::bone::lemma_first_index_range(vars, is_name(name));
    assert(vars.subrange(0, vars.len() as int) =~= vars);
    if k >= vars.len() {
        let w = vars.push(name);
        assert(w.subrange(0, vars.len() as int) =~= vars);
        assert forall|i: int| 0 <= i < vars.len() implies vars[i] != name by {
            if vars[i] == name {
                crate::bone::lemma_first_index_found(vars, is_name(name), i);
            }
        }
        assert forall|i: int, j: int| no_repeats(vars) && 0 <= i < j < w.len() implies w[i] != w[j] by {
            if j == vars.len() {
                assert(w[j] == name && w[i] == vars[i]);
            }
        }
    }
}

proof fn lemma_p_expr(t: Seq<TokenV>, pos: int, vars: Seq<Seq<char>>, f: nat)
    ensures
        phrase_ok(vars, p_expr(t, pos, vars, f)),
    decreases f,
{
    if f > 0 {
        lemma_p_term(t, pos, vars, (f - 1) as nat);
        if let Ok((l, p, v)) = p_term(t, pos, vars, (f - 1) as nat) {
            lemma_p_expr_rest(t, l, p, v, (f - 1) as nat);
            if let Ok((e, q, w)) = p_expr_rest(t, l, p, v, (f - 1) as nat) {
                lemma_prefix_trans(vars, v, w);
            }
        }
    }
}

proof fn lemma_p_expr_rest(t: Seq<TokenV>, left: ExprV, pos: int, vars: Seq<Seq<char>>, f: nat)
    requires
        vars_below(left, vars.len()),
    ensures
        phrase_ok(vars, p_expr_rest(t, left, pos, vars, f)),
    decreases f,
{
    assert(vars.subrange(0, vars.len() as int) =~= vars);
    if f > 0 && 0 <= pos < t.len() && (t[pos] == TokenV::Op('+') || t[pos] == TokenV::Op('-')) {
        let op = if t[pos] == TokenV::Op('+') { Op::Add } else { Op::Sub };
        lemma_p_term(t, pos + 1, vars, (f - 1) as nat);
        if let Ok((r, p, v)) = p_term(t, pos + 1, vars, (f - 1) as nat) {
            lemma_vars_below_mono(left, vars.len(), v.len());
            let l2 = ExprV::BinOp(op, Box::new(left), Box::new(r));
            lemma_p_expr_rest(t, l2, p, v, (f - 1) as nat);
            if let Ok((e, q, w)) = p_expr_rest(t, l2, p, v, (f - 1) as nat) {
                lemma_prefix_trans(vars, v, w);
            }
        }
    }
}

proof fn lemma_p_term(t: Seq<TokenV>, pos: int, vars: Seq<Seq<char>>, f: nat)
    ensures
        phrase_ok(vars, p_term(t, pos, vars, f)),
    decreases f,
{
    if f > 0 {
        lemma_p_unary(t, pos, vars, (f - 1) as nat);
        if let Ok((l, p, v)) = p_unary(t, pos, vars, (f - 1) as nat) {
            lemma_p_term_rest(t, l, p, v, (f - 1) as nat);
            if let Ok((e, q, w)) = p_term_rest(t, l, p, v, (f - 1) as nat) {
                lemma_prefix_trans(vars, v, w);
            }
        }
    }
}

proof fn lemma_p_term_rest(t: Seq<TokenV>, left: ExprV, pos: int, vars: Seq<Seq<char>>, f: nat)
    requires
        vars_below(left, vars.len()),
    ensures
        phrase_ok(vars, p_term_rest(t, left, pos, vars, f)),
    decreases f,
{
    assert(vars.subrange(0, vars.len() as int) =~= vars);
    if f > 0 && 0 <= pos < t.len() && (t[pos] == TokenV::Op('*') || t[pos] == TokenV::Op('/') || t[pos] == TokenV::Op('%')) {
        let op = if t[pos] == TokenV::Op('*') { Op::Mul } else if t[pos] == TokenV::Op('/') { Op::Div } else { Op::Mod };
        lemma_p_unary(t, pos + 1, vars, (f - 1) as nat);
        if let Ok((r, p, v)) = p_unary(t, pos + 1, vars, (f - 1) as nat) {
            lemma_vars_below_mono(left, vars.len(), v.len());
            let l2 = ExprV::BinOp(op, Box::new(left), Box::new(r));
            lemma_p_term_rest(t, l2, p, v, (f - 1) as nat);
            if let Ok((e, q, w)) = p_term_rest(t, l2, p, v, (f - 1) as nat) {
                lemma_prefix_trans(vars, v, w);
            }
        }
    }
}

proof fn lemma_p_unary(t: Seq<TokenV>, pos: int, vars: Seq<Seq<char>>, f: nat)
    ensures
        phrase_ok(vars, p_unary(t, pos, vars, f)),
    decreases f,
{
    if f > 0 {
        if 0 <= pos < t.len() && t[pos] == TokenV::Op('-') {
            lemma_p_unary(t, pos + 1, vars, (f - 1) as nat);
        } else {
            lemma_p_atom(t, pos, vars, (f - 1) as nat);
        }
    }
}

proof fn lemma_p_atom(t: Seq<TokenV>, pos: int, vars: Seq<Seq<char>>, f: nat)
    ensures
        phrase_ok(vars, p_atom(t, pos, vars, f)),
    decreases f,
{
    assert(vars.subrange(0, vars.len() as int) =~= vars);
    if f > 0 && 0 <= pos < t.len() {
        match t[pos] {
            TokenV::LParen => lemma_p_expr(t, pos + 1, vars, (f - 1) as nat),
            TokenV::Ident(name) => {
                if pos + 1 < t.len() && t[pos + 1] == TokenV::LParen {
                    lemma_p_expr(t, pos + 2, vars, (f - 1) as nat);
                    if func_named(name) is None && func2_named(name) is Some {
                        if let Ok((a, p, v)) = p_expr(t, pos + 2, vars, (f - 1) as nat) {
                            lemma_p_expr(t, p + 1, v, (f - 1) as nat);
                            if let Ok((b, q, w)) = p_expr(t, p + 1, v, (f - 1) as nat) {
                                lemma_prefix_trans(vars, v, w);
                                lemma_vars_below_mono(a, v.len(), w.len());
                            }
                        }
                    }
                } else {
                    lemma_lookup(vars, name);
                }
            },
            _ => {},
        }
    }
}

/// A parsed expression refers only to the variables it lists (each `Var` index is a
/// position in the variable list), and lists no variable twice.
pub proof fn law_parse_variables(input: Seq<char>)
    ensures
        parse_spec(input) matches Ok((vars, ast)) ==> vars_below(ast, vars.len()) && no_repeats(vars),
{
    if let Ok(t) = tokens_from(input, 0) {
        lemma_p_expr(t, 0, Seq::empty(), fuel_for(t.len()));
    }
}

/// The executable outcome `r` of a phrase, with the variable list `vars` after it, is the
/// outcome `s` of the grammar.
pub open spec fn same_outcome(r: Result<(Expr, usize), String>, vars: Seq<Seq<char>>, s: PhraseResult) -> bool {
    match s {
        Ok((e, p, v)) => match r {
            Ok((re, rp)) => re@ == e && rp as int == p && vars == v,
            Err(_) => false,
        },
        Err(m) => match r {
            Ok(_) => false,
            Err(rm) => rm@ == m,
        },
    }
}

/// Position after a successful phrase.
pub open spec fn end_of(r: Result<(Expr, usize), String>) -> int {
    match r {
        Ok((_, p)) => p as int,
        Err(_) => 0,
    }
}

/// Whether the token at `pos` is the operator `c`.
fn is_op_at(t: &Vec<Token>, pos: usize, c: char) -> (r: bool)
    ensures
        r == (pos < t@.len() && tokens_view(t@)[pos as int] == TokenV::Op(c)),
{
    if pos < t.len() {
        match &t[pos] {
            Token::Op(d) => *d == c,
            _ => false,
        }
    } else {
        false
    }
}

/// Whether the token at `pos` is a closing parenthesis.
fn closes_at(t: &Vec<Token>, pos: usize) -> (r: bool)
    ensures
        r == closes(tokens_view(t@), pos as int),
{
    if pos < t.len() {
        match &t[pos] {
            Token::RParen => true,
            _ => false,
        }
    } else {
        false
    }
}

/// Whether the token at `pos` is a comma.
fn comma_at(t: &Vec<Token>, pos: usize) -> (r: bool)
    ensures
        r == (pos < t@.len() && tokens_view(t@)[pos as int] == TokenV::Comma),
{
    if pos < t.len() {
        match &t[pos] {
            Token::Comma => true,
            _ => false,
        }
    } else {
        false
    }
}

/// Whether the token at `pos` is an opening parenthesis.
fn opens_at(t: &Vec<Token>, pos: usize) -> (r: bool)
    ensures
        r == (pos < t@.len() && tokens_view(t@)[pos as int] == TokenV::LParen),
{
    if pos < t.len() {
        match &t[pos] {
            Token::LParen => true,
            _ => false,
        }
    } else {
        false
    }
}

fn func_of(name: &String) -> (r: Option<Func>)
    ensures
        r == func_named(name@),
{
    let n = name.as_str();
    if str_eq(n, "sin") {
        Some(Func::Sin)
    } else if str_eq(n, "cos") {
        Some(Func::Cos)
    } else if str_eq(n, "abs") {
        Some(Func::Abs)
    } else if str_eq(n, "sqrt") {
        Some(Func::Sqrt)
    } else {
        None
    }
}

fn func2_of(name: &String) -> (r: Option<Func2>)
    ensures
        r == func2_named(name@),
{
    let n = name.as_str();
    if str_eq(n, "min") {
        Some(Func2::Min)
    } else if str_eq(n, "max") {
        Some(Func2::Max)
    } else {
        None
    }
}

/// Index of the variable `name`, appending it when it is new.
fn var_index(vars: &mut Vec<String>, name: &String) -> (r: usize)
    ensures
        (r as nat, names_view(final(vars)@)) == lookup(names_view(old(vars)@), name@),
{
    let ghost nv = names_view(vars@);
    let mut i: usize = 0;
    while i < vars.len()
        invariant
            i <= vars@.len(),
            nv == names_view(vars@),
            vars@ == old(vars)@,
            forall|k: int| 0 <= k < i ==> !is_name(name@)(#[trigger] nv[k]),
        decreases vars@.len() - i,
    {
        if vars[i] == *name {
            proof { lemma_first_index(nv, is_name(name@), i as int); }
            return i;
        }
        i += 1;
    }
    proof { lemma_first_index(nv, is_name(name@), i as int); }
    let k = vars.len();
    vars.push(name.clone());
    assert(names_view(vars@) =~= nv.push(name@));
    k
}

fn parse_expr(t: &Vec<Token>, pos: usize, vars: &mut Vec<String>, Ghost(f): Ghost<nat>) -> (r: Result<(Expr, usize), String>)
    requires
        pos <= t@.len(),
        f >= 5 * (t@.len() - pos) + 4,
    ensures
        same_outcome(r, names_view(final(vars)@), p_expr(tokens_view(t@), pos as int, names_view(old(vars)@), f)),
        r is Ok ==> pos < end_of(r) <= t@.len(),
    decreases f, 3int,
{
    match parse_term(t, pos, vars, Ghost((f - 1) as nat)) {
        Err(e) => Err(e),
        Ok((left, p)) => parse_expr_rest(t, left, p, vars, Ghost((f - 1) as nat)),
    }
}

fn parse_expr_rest(t: &Vec<Token>, left: Expr, pos: usize, vars: &mut Vec<String>, Ghost(f): Ghost<nat>) -> (r: Result<(Expr, usize), String>)
    requires
        pos <= t@.len(),
        f >= 5 * (t@.len() - pos) + 4,
    ensures
        same_outcome(r, names_view(final(vars)@), p_expr_rest(tokens_view(t@), left@, pos as int, names_view(old(vars)@), f)),
        r is Ok ==> pos <= end_of(r) <= t@.len(),
    decreases f, 3int,
{
    let _n = t.len();
    let add = is_op_at(t, pos, '+');
    let sub = is_op_at(t, pos, '-');
    if add || sub {
        let op = if add { Op::Add } else { Op::Sub };
        match parse_term(t, pos + 1, vars, Ghost((f - 1) as nat)) {
            Err(e) => Err(e),
            Ok((right, p)) => parse_expr_rest(t, Expr::BinOp(op, Box::new(left), Box::new(right)), p, vars, Ghost((f - 1) as nat)),
        }
    } else {
        Ok((left, pos))
    }
}

fn parse_term(t: &Vec<Token>, pos: usize, vars: &mut Vec<String>, Ghost(f): Ghost<nat>) -> (r: Result<(Expr, usize), String>)
    requires
        pos <= t@.len(),
        f >= 5 * (t@.len() - pos) + 3,
    ensures
        same_outcome(r, names_view(final(vars)@), p_term(tokens_view(t@), pos as int, names_view(old(vars)@), f)),
        r is Ok ==> pos < end_of(r) <= t@.len(),
    decreases f, 3int,
{
    match parse_unary(t, pos, vars, Ghost((f - 1) as nat)) {
        Err(e) => Err(e),
        Ok((left, p)) => parse_term_rest(t, left, p, vars, Ghost((f - 1) as nat)),
    }
}

fn parse_term_rest(t: &Vec<Token>, left: Expr, pos: usize, vars: &mut Vec<String>, Ghost(f): Ghost<nat>) -> (r: Result<(Expr, usize), String>)
    requires
        pos <= t@.len(),
        f >= 5 * (t@.len() - pos) + 3,
    ensures
        same_outcome(r, names_view(final(vars)@), p_term_rest(tokens_view(t@), left@, pos as int, names_view(old(vars)@), f)),
        r is Ok ==> pos <= end_of(r) <= t@.len(),
    decreases f, 3int,
{
    let _n = t.len();
    let mul = is_op_at(t, pos, '*');
    let div = is_op_at(t, pos, '/');
    let rem = is_op_at(t, pos, '%');
    if mul || div || rem {
        let op = if mul { Op::Mul } else if div { Op::Div } else { Op::Mod };
        match parse_unary(t, pos + 1, vars, Ghost((f - 1) as nat)) {
            Err(e) => Err(e),
            Ok((right, p)) => parse_term_rest(t, Expr::BinOp(op, Box::new(left), Box::new(right)), p, vars, Ghost((f - 1) as nat)),
        }
    } else {
        Ok((left, pos))
    }
}

fn parse_unary(t: &Vec<Token>, pos: usize, vars: &mut Vec<String>, Ghost(f): Ghost<nat>) -> (r: Result<(Expr, usize), String>)
    requires
        pos <= t@.len(),
        f >= 5 * (t@.len() - pos) + 2,
    ensures
        same_outcome(r, names_view(final(vars)@), p_unary(tokens_view(t@), pos as int, names_view(old(vars)@), f)),
        r is Ok ==> pos < end_of(r) <= t@.len(),
    decreases f, 3int,
{
    let _n = t.len();
    if is_op_at(t, pos, '-') {
        match parse_unary(t, pos + 1, vars, Ghost((f - 1) as nat)) {
            Err(e) => Err(e),
            Ok((inner, p)) => Ok((Expr::Neg(Box::new(inner)), p)),
        }
    } else {
        parse_atom(t, pos, vars, Ghost((f - 1) as nat))
    }
}

fn parse_atom(t: &Vec<Token>, pos: usize, vars: &mut Vec<String>, Ghost(f): Ghost<nat>) -> (r: Result<(Expr, usize), String>)
    requires
        pos <= t@.len(),
        f >= 5 * (t@.len() - pos) + 1,
    ensures
        same_outcome(r, names_view(final(vars)@), p_atom(tokens_view(t@), pos as int, names_view(old(vars)@), f)),
        r is Ok ==> pos < end_of(r) <= t@.len(),
    decreases f, 3int,
{
    if pos >= t.len() {
        return Err(String::from_str("Unexpected end of expression"));
    }
    assert(tokens_view(t@)[pos as int] == t@[pos as int]@);
    match &t[pos] {
        Token::Num(s) => Ok((Expr::Literal(s.clone()), pos + 1)),
        Token::LParen => {
            match parse_expr(t, pos + 1, vars, Ghost((f - 1) as nat)) {
                Err(e) => Err(e),
                Ok((inner, p)) => {
                    if closes_at(t, p) {
                        Ok((inner, p + 1))
                    } else {
                        Err(String::from_str("Expected ')'"))
                    }
                },
            }
        },
        Token::Ident(name) => {
            if opens_at(t, pos + 1) {
                match func_of(name) {
                    Some(fun) => {
                        match parse_expr(t, pos + 2, vars, Ghost((f - 1) as nat)) {
                            Err(e) => Err(e),
                            Ok((arg, p)) => {
                                if closes_at(t, p) {
                                    Ok((Expr::Func(fun, Box::new(arg)), p + 1))
                                } else {
                                    Err(String::from_str("Expected ')'"))
                                }
                            },
                        }
                    },
                    None => match func2_of(name) {
                        Some(fun) => {
                            match parse_expr(t, pos + 2, vars, Ghost((f - 1) as nat)) {
                                Err(e) => Err(e),
                                Ok((a, p)) => {
                                    if comma_at(t, p) {
                                        match parse_expr(t, p + 1, vars, Ghost((f - 1) as nat)) {
                                            Err(e) => Err(e),
                                            Ok((b, q)) => {
                                                if closes_at(t, q) {
                                                    Ok((Expr::Func2(fun, Box::new(a), Box::new(b)), q + 1))
                                                } else {
                                                    Err(String::from_str("Expected ')'"))
                                                }
                                            },
                                        }
                                    } else {
                                        Err(String::from_str("Expected ',' in function call"))
                                    }
                                },
                            }
                        },
                        None => {
                            let mut msg = String::from_str("Unknown function: ");
                            msg.append(name.as_str());
                            Err(msg)
                        },
                    },
                }
            } else {
                let k = var_index(vars, name);
                Ok((Expr::Var(k), pos + 1))
            }
        },
        Token::Op(c) => {
            let mut msg = String::from_str("Unexpected token: ");
            msg.append("Op('");
            push_char(&mut msg, *c);
            msg.append("')");
            assert(msg@ =~= unexpected(TokenV::Op(*c)));
            Err(msg)
        },
        Token::RParen => {
            let mut msg = String::from_str("Unexpected token: ");
            msg.append("RParen");
            assert(msg@ =~= unexpected(TokenV::RParen));
            Err(msg)
        },
        Token::Comma => {
            let mut msg = String::from_str("Unexpected token: ");
            msg.append("Comma");
            assert(msg@ =~= unexpected(TokenV::Comma));
            Err(msg)
        },
    }
}


/// A parsed expression: variable names in order of first appearance, and the tree.
#[derive(Debug)]
pub struct ParsedExpression {
    pub variables: Vec<String>,
    pub ast: Expr,
}

impl Default for ParsedExpression {
    /// No variables; the literal zero.
    fn default() -> (r: Self)
        ensures
            r.variables@.len() == 0,
            r.ast@ == ExprV::Literal(seq!['0']),
    {
        let zero = String::from_str("0");
        proof { reveal_strlit("0"); }
        assert(zero@ =~= seq!['0']);
        let ast = Expr::Literal(zero);
        assert(ast@ == ExprV::Literal(seq!['0']));
        ParsedExpression { variables: Vec::new(), ast }
    }
}

/// Parse an expression.  On success the variables are listed in order of first
/// appearance and each `Var` holds an index into that list; every failure of the
/// tokenizer or the grammar is reported with its message.
pub fn parse(input: &str) -> (r: Result<ParsedExpression, String>)
    ensures
        match parse_spec(input@) {
            Ok((vars, ast)) => r is Ok && names_view(r->Ok_0.variables@) == vars && r->Ok_0.ast@ == ast,
            Err(m) => r is Err && r->Err_0@ == m,
        },
{
    let tokens = match tokenize(input) {
        Ok(ts) => ts,
        Err(e) => return Err(e),
    };
    let mut vars: Vec<String> = Vec::new();
    proof { assert(names_view(vars@) =~= Seq::<Seq<char>>::empty()); }
    let ghost tv = tokens_view(tokens@);
    match parse_expr(&tokens, 0, &mut vars, Ghost(fuel_for(tv.len()))) {
        Err(e) => Err(e),
        Ok((ast, p)) => {
            if p < tokens.len() {
                let mut msg = String::from_str("Unexpected token at position ");
                push_decimal(&mut msg, p as u64);
                Err(msg)
            } else {
                Ok(ParsedExpression { variables: vars, ast })
            }
        },
    }
}


/// The token of a binary operator.
pub open spec fn op_token(op: Op) -> TokenV {
    match op {
        Op::Add => TokenV::Op('+'),
        Op::Sub => TokenV::Op('-'),
        Op::Mul => TokenV::Op('*'),
        Op::Div => TokenV::Op('/'),
        Op::Mod => TokenV::Op('%'),
    }
}

/// A multiplicative operator: `*`, `/` or `%`.
pub open spec fn is_mul_op(op: Op) -> bool {
    op is Mul || op is Div || op is Mod
}

/// An additive operator: `+` or `-`.
pub open spec fn is_add_op(op: Op) -> bool {
    op is Add || op is Sub
}

/// The tokens `n0 o0 n1 o1 ... nk` of numbers joined by operators.
pub open spec fn chain_tokens(nums: Seq<Seq<char>>, ops: Seq<Op>) -> Seq<TokenV> {
    Seq::new(2 * ops.len() + 1, |k: int| if k % 2 == 0 { TokenV::Num(nums[k / 2]) } else { op_token(ops[k / 2]) })
}

/// The tree that applies the first `i` operators from left to right:
/// `((n0 o0 n1) o1 n2) ...`.
pub open spec fn left_fold(nums: Seq<Seq<char>>, ops: Seq<Op>, i: int) -> ExprV
    decreases i,
{
    if i <= 0 {
        ExprV::Literal(nums[0])
    } else {
        ExprV::BinOp(ops[i - 1], Box::new(left_fold(nums, ops, i - 1)), Box::new(ExprV::Literal(nums[i])))
    }
}

/// A number token at `pos` is an operand on its own.
proof fn lemma_number_operand(t: Seq<TokenV>, pos: int, vars: Seq<Seq<char>>, f: nat, n: Seq<char>)
    requires
        0 <= pos < t.len(),
        t[pos] == TokenV::Num(n),
        f >= 2,
    ensures
        p_unary(t, pos, vars, f) == Ok::<(ExprV, int, Seq<Seq<char>>), Seq<char>>((ExprV::Literal(n), pos + 1, vars)),
{
    assert(p_atom(t, pos, vars, (f - 1) as nat) == Ok::<(ExprV, int, Seq<Seq<char>>), Seq<char>>((ExprV::Literal(n), pos + 1, vars)));
}

proof fn lemma_chain_at(nums: Seq<Seq<char>>, ops: Seq<Op>, i: int)
    requires
        nums.len() == ops.len() + 1,
        0 <= i <= ops.len(),
    ensures
        chain_tokens(nums, ops).len() == 2 * ops.len() + 1,
        chain_tokens(nums, ops)[2 * i] == TokenV::Num(nums[i]),
        i < ops.len() ==> chain_tokens(nums, ops)[2 * i + 1] == op_token(ops[i]),
{
    assert((2 * i) % 2 == 0 && (2 * i) / 2 == i);
    assert((2 * i + 1) % 2 == 1 && (2 * i + 1) / 2 == i);
}

proof fn lemma_term_chain(nums: Seq<Seq<char>>, ops: Seq<Op>, i: int, vars: Seq<Seq<char>>, f: nat)
    requires
        nums.len() == ops.len() + 1,
        forall|j: int| 0 <= j < ops.len() ==> is_mul_op(#[trigger] ops[j]),
        0 <= i <= ops.len(),
        f >= 3 * (ops.len() - i) + 1,
    ensures
        p_term_rest(chain_tokens(nums, ops), left_fold(nums, ops, i), 2 * i + 1, vars, f)
            == Ok::<(ExprV, int, Seq<Seq<char>>), Seq<char>>((left_fold(nums, ops, ops.len() as int), 2 * ops.len() + 1int, vars)),
    decreases ops.len() - i,
{
    let t = chain_tokens(nums, ops);
    lemma_chain_at(nums, ops, i);
    if i < ops.len() {
        lemma_chain_at(nums, ops, i + 1);
        assert(is_mul_op(ops[i]));
        lemma_number_operand(t, 2 * i + 2, vars, (f - 1) as nat, nums[i + 1]);
        lemma_term_chain(nums, ops, i + 1, vars, (f - 1) as nat);
    }
}

proof fn lemma_expr_chain(nums: Seq<Seq<char>>, ops: Seq<Op>, i: int, vars: Seq<Seq<char>>, f: nat)
    requires
        nums.len() == ops.len() + 1,
        forall|j: int| 0 <= j < ops.len() ==> is_add_op(#[trigger] ops[j]),
        0 <= i <= ops.len(),
        f >= 4 * (ops.len() - i) + 1,
    ensures
        p_expr_rest(chain_tokens(nums, ops), left_fold(nums, ops, i), 2 * i + 1, vars, f)
            == Ok::<(ExprV, int, Seq<Seq<char>>), Seq<char>>((left_fold(nums, ops, ops.len() as int), 2 * ops.len() + 1int, vars)),
    decreases ops.len() - i,
{
    let t = chain_tokens(nums, ops);
    lemma_chain_at(nums, ops, i);
    if i < ops.len() {
        lemma_chain_at(nums, ops, i + 1);
        assert(is_add_op(ops[i]));
        lemma_number_operand(t, 2 * i + 2, vars, (f - 2) as nat, nums[i + 1]);
        if i + 1 < ops.len() {
            assert(is_add_op(ops[i + 1]));
        }
        assert(p_term_rest(t, ExprV::Literal(nums[i + 1]), 2 * i + 3, vars, (f - 2) as nat)
            == Ok::<(ExprV, int, Seq<Seq<char>>), Seq<char>>((ExprV::Literal(nums[i + 1]), 2 * i + 3, vars)));
        assert(p_term(t, 2 * i + 2, vars, (f - 1) as nat)
            == Ok::<(ExprV, int, Seq<Seq<char>>), Seq<char>>((ExprV::Literal(nums[i + 1]), 2 * i + 3, vars)));
        lemma_expr_chain(nums, ops, i + 1, vars, (f - 1) as nat);
        assert(left_fold(nums, ops, i + 1)
            == ExprV::BinOp(ops[i], Box::new(left_fold(nums, ops, i)), Box::new(ExprV::Literal(nums[i + 1]))));
    }
}

/// Operators of one precedence level group from the left: an expression whose tokens
/// are numbers joined only by `*`, `/` and `%`, or only by `+` and `-`, parses to the
/// tree that applies the operators in order from left to right, so `8 / 4 / 2` is
/// `(8 / 4) / 2` and `a - b - c` is `(a - b) - c`.
pub proof fn law_parse_left_assoc(input: Seq<char>, nums: Seq<Seq<char>>, ops: Seq<Op>)
    requires
        nums.len() == ops.len() + 1,
        tokens_from(input, 0) == Ok::<Seq<TokenV>, Seq<char>>(chain_tokens(nums, ops)),
        (forall|j: int| 0 <= j < ops.len() ==> is_mul_op(#[trigger] ops[j]))
            || (forall|j: int| 0 <= j < ops.len() ==> is_add_op(#[trigger] ops[j])),
    ensures
        parse_spec(input) == Ok::<(Seq<Seq<char>>, ExprV), Seq<char>>((Seq::empty(), left_fold(nums, ops, ops.len() as int))),
{
    let t = chain_tokens(nums, ops);
    let n = ops.len() as int;
    let vars = Seq::<Seq<char>>::empty();
    let f = fuel_for(t.len());
    lemma_chain_at(nums, ops, 0);
    lemma_chain_at(nums, ops, n);
    lemma_number_operand(t, 0, vars, (f - 2) as nat, nums[0]);
    if forall|j: int| 0 <= j < ops.len() ==> is_mul_op(#[trigger] ops[j]) {
        lemma_term_chain(nums, ops, 0, vars, (f - 2) as nat);
        assert(p_term(t, 0, vars, (f - 1) as nat)
            == Ok::<(ExprV, int, Seq<Seq<char>>), Seq<char>>((left_fold(nums, ops, n), 2 * n + 1, vars)));
    } else {
        if n > 0 {
            assert(is_add_op(ops[0]));
        }
        assert(p_term_rest(t, ExprV::Literal(nums[0]), 1, vars, (f - 2) as nat)
            == Ok::<(ExprV, int, Seq<Seq<char>>), Seq<char>>((ExprV::Literal(nums[0]), 1, vars)));
        lemma_expr_chain(nums, ops, 0, vars, (f - 1) as nat);
    }
    assert(p_expr(t, 0, vars, f)
        == Ok::<(ExprV, int, Seq<Seq<char>>), Seq<char>>((left_fold(nums, ops, n), 2 * n + 1, vars)));
}


/// The end of the run of multiplicative operators starting at operator `i`: the first
/// position from `i` on that is past the last operator or holds an additive one.
pub open spec fn run_end(ops: Seq<Op>, i: int) -> int
    decreases ops.len() - i,
{
    if i >= ops.len() {
        ops.len() as int
    } else if is_add_op(ops[i]) {
        i
    } else {
        run_end(ops, i + 1)
    }
}

/// Where the product that number `i` belongs to starts: just after the last additive
/// operator before it, or at the first number.
pub open spec fn term_start(ops: Seq<Op>, i: int) -> int
    decreases i,
{
    if i <= 0 {
        0
    } else if is_add_op(ops[i - 1]) {
        i
    } else {
        term_start(ops, i - 1)
    }
}

/// Numbers `a ..= i` joined by their operators, applied from left to right.
pub open spec fn term_fold(nums: Seq<Seq<char>>, ops: Seq<Op>, a: int, i: int) -> ExprV
    decreases i - a,
{
    if i <= a {
        ExprV::Literal(nums[a])
    } else {
        ExprV::BinOp(ops[i - 1], Box::new(term_fold(nums, ops, a, i - 1)), Box::new(ExprV::Literal(nums[i])))
    }
}

/// The tree of numbers `0 ..= i` joined by their operators with the usual precedence:
/// the products (runs of `*`, `/`, `%`) are formed first, each from the left, and are
/// then added and subtracted from the left.
pub open spec fn prec_tree(nums: Seq<Seq<char>>, ops: Seq<Op>, i: int) -> ExprV
    decreases i,
{
    let a = term_start(ops, i);
    if a <= 0 || a > i {
        term_fold(nums, ops, 0, i)
    } else {
        ExprV::BinOp(ops[a - 1], Box::new(prec_tree(nums, ops, a - 1)), Box::new(term_fold(nums, ops, a, i)))
    }
}

proof fn lemma_run_end(ops: Seq<Op>, i: int)
    requires
        0 <= i <= ops.len(),
    ensures
        i <= run_end(ops, i) <= ops.len(),
        run_end(ops, i) < ops.len() ==> is_add_op(ops[run_end(ops, i)]),
        forall|k: int| i <= k < run_end(ops, i) ==> !is_add_op(#[trigger] ops[k]),
    decreases ops.len() - i,
{
    if i < ops.len() && !is_add_op(ops[i]) {
        lemma_run_end(ops, i + 1);
    }
}

proof fn lemma_term_start(ops: Seq<Op>, a: int, j: int)
    requires
        0 <= a <= j <= run_end(ops, a),
        a <= ops.len(),
        a == 0 || is_add_op(ops[a - 1]),
    ensures
        term_start(ops, j) == a,
    decreases j - a,
{
    lemma_run_end(ops, a);
    if j > a {
        lemma_term_start(ops, a, j - 1);
        assert(!is_add_op(ops[j - 1]));
    }
}

proof fn lemma_term_run(nums: Seq<Seq<char>>, ops: Seq<Op>, a: int, i: int, vars: Seq<Seq<char>>, f: nat)
    requires
        nums.len() == ops.len() + 1,
        0 <= a <= i <= ops.len(),
        f >= 3 * (ops.len() - i) + 1,
    ensures
        p_term_rest(chain_tokens(nums, ops), term_fold(nums, ops, a, i), 2 * i + 1, vars, f)
            == Ok::<(ExprV, int, Seq<Seq<char>>), Seq<char>>((term_fold(nums, ops, a, run_end(ops, i)), 2 * run_end(ops, i) + 1, vars)),
    decreases ops.len() - i,
{
    let t = chain_tokens(nums, ops);
    lemma_chain_at(nums, ops, i);
    if i < ops.len() && !is_add_op(ops[i]) {
        lemma_chain_at(nums, ops, i + 1);
        lemma_number_operand(t, 2 * i + 2, vars, (f - 1) as nat, nums[i + 1]);
        lemma_term_run(nums, ops, a, i + 1, vars, (f - 1) as nat);
        assert(term_fold(nums, ops, a, i + 1)
            == ExprV::BinOp(ops[i], Box::new(term_fold(nums, ops, a, i)), Box::new(ExprV::Literal(nums[i + 1]))));
    }
}

proof fn lemma_sum_run(nums: Seq<Seq<char>>, ops: Seq<Op>, a: int, vars: Seq<Seq<char>>, f: nat)
    requires
        nums.len() == ops.len() + 1,
        0 <= a <= ops.len(),
        a == 0 || is_add_op(ops[a - 1]),
        f >= 4 * (ops.len() - run_end(ops, a)) + 2,
    ensures
        p_expr_rest(chain_tokens(nums, ops), prec_tree(nums, ops, run_end(ops, a)), 2 * run_end(ops, a) + 1, vars, f)
            == Ok::<(ExprV, int, Seq<Seq<char>>), Seq<char>>((prec_tree(nums, ops, ops.len() as int), 2 * ops.len() + 1int, vars)),
    decreases ops.len() - a,
{
    let t = chain_tokens(nums, ops);
    lemma_run_end(ops, a);
    let e = run_end(ops, a);
    lemma_chain_at(nums, ops, e);
    if e < ops.len() {
        let b = e + 1;
        lemma_chain_at(nums, ops, b);
        lemma_run_end(ops, b);
        let e2 = run_end(ops, b);
        lemma_number_operand(t, 2 * b, vars, (f - 2) as nat, nums[b]);
        lemma_term_run(nums, ops, b, b, vars, (f - 2) as nat);
        assert(p_term(t, 2 * e + 2, vars, (f - 1) as nat)
            == Ok::<(ExprV, int, Seq<Seq<char>>), Seq<char>>((term_fold(nums, ops, b, e2), 2 * e2 + 1, vars)));
        lemma_term_start(ops, b, e2);
        assert(prec_tree(nums, ops, e2)
            == ExprV::BinOp(ops[e], Box::new(prec_tree(nums, ops, e)), Box::new(term_fold(nums, ops, b, e2))));
        lemma_sum_run(nums, ops, b, vars, (f - 1) as nat);
    }
}

/// Expressions of numbers and the five binary operators parse with the usual precedence:
/// `*`, `/` and `%` bind tighter than `+` and `-`, and operators of one precedence level
/// group from the left.  So `1 + 2 * 3` is `1 + (2 * 3)`, `8 / 4 / 2` is `(8 / 4) / 2`
/// and `6 - 2 * 3 + 1` is `(6 - (2 * 3)) + 1`.
pub proof fn law_parse_precedence(input: Seq<char>, nums: Seq<Seq<char>>, ops: Seq<Op>)
    requires
        nums.len() == ops.len() + 1,
        tokens_from(input, 0) == Ok::<Seq<TokenV>, Seq<char>>(chain_tokens(nums, ops)),
    ensures
        parse_spec(input) == Ok::<(Seq<Seq<char>>, ExprV), Seq<char>>((Seq::empty(), prec_tree(nums, ops, ops.len() as int))),
{
    let t = chain_tokens(nums, ops);
    let n = ops.len() as int;
    let vars = Seq::<Seq<char>>::empty();
    let f = fuel_for(t.len());
    lemma_chain_at(nums, ops, 0);
    lemma_chain_at(nums, ops, n);
    lemma_run_end(ops, 0);
    let e = run_end(ops, 0);
    lemma_number_operand(t, 0, vars, (f - 2) as nat, nums[0]);
    lemma_term_run(nums, ops, 0, 0, vars, (f - 2) as nat);
    lemma_term_start(ops, 0, e);
    assert(prec_tree(nums, ops, e) == term_fold(nums, ops, 0, e));
    lemma_sum_run(nums, ops, 0, vars, (f - 1) as nat);
    assert(p_expr(t, 0, vars, f)
        == Ok::<(ExprV, int, Seq<Seq<char>>), Seq<char>>((prec_tree(nums, ops, n), 2 * n + 1, vars)));
}

} // verus!
