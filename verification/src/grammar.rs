use vstd::prelude::*;
use crate::ast::{
    func_view, lblock_view, lfuncs_view, lprocs_view, program_view, proc_view, stmt_view,
    stmts_view, Block, BlockV, Condition, Event, Expression, Function, FunctionV, Message, Param,
    Procedure, ProcedureV, Program, ProgramV, Statement, StatementV, Value, ValueType,
    Variable,
};
use crate::error::{Error, ErrorKind, Expected};
use crate::parser::Parser;
use crate::position::{spec_extend, Located, Position};
use crate::token::{str_eq, Token};

verus! {

/// What a grammar rule yields from a token sequence at an index: the parsed
/// node and the index just past it, or the first failure with its kind and
/// optional position.
pub enum SpRes<T> {
    Good(T, int),
    Bad(ErrorKind, Option<Position>),
}

/// What demanding one concrete token yields: the token and the next index,
/// or the mismatch or end-of-input failure.
pub open spec fn sp_expect(toks: Seq<Located<Token>>, i: int, t: Token) -> SpRes<Located<Token>> {
    if i >= toks.len() {
        SpRes::Bad(ErrorKind::UnexpectedEndOfInput, None)
    } else if toks[i].item@ == t@ {
        SpRes::Good(toks[i], i + 1)
    } else {
        SpRes::Bad(
            ErrorKind::UnexpectedToken { expected: Expected::Tok(t), got: toks[i].item },
            Some(toks[i].pos),
        )
    }
}

/// An error of this run: the kind and position, on this run's file.
fn fail(parser: &Parser, kind: ErrorKind, pos: Option<Position>) -> (r: Error)
    ensures
        r == (Error { kind, path: parser.path, pos }),
{
    Error { kind, path: parser.path.clone(), pos }
}

/// The binary operators of the expression grammar.
#[derive(Debug, Clone, Copy, PartialEq, Eq, Structural)]
pub enum OpKind {
    Add,
    Sub,
    Mul,
    Div,
    Pow,
    Mod,
    Max,
    Min,
    Join,
    Index,
    Contains,
}

/// The binary operator a word denotes, if any.
pub open spec fn op_kind(w: Seq<char>) -> Option<OpKind> {
    if w == "+"@ {
        Some(OpKind::Add)
    } else if w == "-"@ {
        Some(OpKind::Sub)
    } else if w == "*"@ {
        Some(OpKind::Mul)
    } else if w == "/"@ {
        Some(OpKind::Div)
    } else if w == "^"@ {
        Some(OpKind::Pow)
    } else if w == "%"@ {
        Some(OpKind::Mod)
    } else if w == "max"@ {
        Some(OpKind::Max)
    } else if w == "min"@ {
        Some(OpKind::Min)
    } else if w == "join"@ {
        Some(OpKind::Join)
    } else if w == "index"@ {
        Some(OpKind::Index)
    } else if w == "contains"@ {
        Some(OpKind::Contains)
    } else {
        None
    }
}

fn op_lookup(w: &str) -> (r: Option<OpKind>)
    ensures
        r == op_kind(w@),
{
    if str_eq(w, "+") {
        Some(OpKind::Add)
    } else if str_eq(w, "-") {
        Some(OpKind::Sub)
    } else if str_eq(w, "*") {
        Some(OpKind::Mul)
    } else if str_eq(w, "/") {
        Some(OpKind::Div)
    } else if str_eq(w, "^") {
        Some(OpKind::Pow)
    } else if str_eq(w, "%") {
        Some(OpKind::Mod)
    } else if str_eq(w, "max") {
        Some(OpKind::Max)
    } else if str_eq(w, "min") {
        Some(OpKind::Min)
    } else if str_eq(w, "join") {
        Some(OpKind::Join)
    } else if str_eq(w, "index") {
        Some(OpKind::Index)
    } else if str_eq(w, "contains") {
        Some(OpKind::Contains)
    } else {
        None
    }
}

/// The expression node an operator builds from its two operands.
pub open spec fn mk_binary(k: OpKind, a: Located<Expression>, b: Located<Expression>) -> Expression {
    match k {
        OpKind::Add => Expression::Add(Box::new(a), Box::new(b)),
        OpKind::Sub => Expression::Sub(Box::new(a), Box::new(b)),
        OpKind::Mul => Expression::Mul(Box::new(a), Box::new(b)),
        OpKind::Div => Expression::Div(Box::new(a), Box::new(b)),
        OpKind::Pow => Expression::Pow(Box::new(a), Box::new(b)),
        OpKind::Mod => Expression::Mod(Box::new(a), Box::new(b)),
        OpKind::Max => Expression::Max(Box::new(a), Box::new(b)),
        OpKind::Min => Expression::Min(Box::new(a), Box::new(b)),
        OpKind::Join => Expression::Join(Box::new(a), Box::new(b)),
        OpKind::Index => Expression::Index(Box::new(a), Box::new(b)),
        OpKind::Contains => Expression::Contains(Box::new(a), Box::new(b)),
    }
}

fn binary_expr(k: OpKind, a: Located<Expression>, b: Located<Expression>) -> (r: Expression)
    ensures
        r == mk_binary(k, a, b),
{
    match k {
        OpKind::Add => Expression::Add(Box::new(a), Box::new(b)),
        OpKind::Sub => Expression::Sub(Box::new(a), Box::new(b)),
        OpKind::Mul => Expression::Mul(Box::new(a), Box::new(b)),
        OpKind::Div => Expression::Div(Box::new(a), Box::new(b)),
        OpKind::Pow => Expression::Pow(Box::new(a), Box::new(b)),
        OpKind::Mod => Expression::Mod(Box::new(a), Box::new(b)),
        OpKind::Max => Expression::Max(Box::new(a), Box::new(b)),
        OpKind::Min => Expression::Min(Box::new(a), Box::new(b)),
        OpKind::Join => Expression::Join(Box::new(a), Box::new(b)),
        OpKind::Index => Expression::Index(Box::new(a), Box::new(b)),
        OpKind::Contains => Expression::Contains(Box::new(a), Box::new(b)),
    }
}

/// The expression rule: a number, string or identifier leaf, or `(` operator
/// word, its operands, `)` in fully parenthesized prefix form. `substr` takes
/// three operands, every other operator two. The node's span runs from the
/// opening to the closing bracket.
pub open spec fn sp_expression(toks: Seq<Located<Token>>, i: int) -> SpRes<Located<Expression>>
    decreases toks.len() - i, 0int,
{
    if i >= toks.len() {
        SpRes::Bad(ErrorKind::UnexpectedEndOfInput, None)
    } else {
        let t = toks[i];
        match t.item {
            Token::Number(n) => SpRes::Good(
                Located { item: Expression::Number(n), pos: t.pos },
                i + 1,
            ),
            Token::String(s) => SpRes::Good(Located { item: Expression::String(s), pos: t.pos }, i + 1),
            Token::Word(w) => SpRes::Good(Located { item: Expression::ID(w), pos: t.pos }, i + 1),
            Token::ExprIn => {
                if i + 1 >= toks.len() {
                    SpRes::Bad(ErrorKind::UnexpectedEndOfInput, None)
                } else {
                    match toks[i + 1].item {
                        Token::Word(w) => {
                            if w@ == "substr"@ {
                                match sp_expression(toks, i + 2) {
                                    SpRes::Good(a, j) => if i + 2 < j && j <= toks.len() {
                                        match sp_expression(toks, j) {
                                            SpRes::Good(b, j2) => if j < j2 && j2 <= toks.len() {
                                                match sp_expression(toks, j2) {
                                                    SpRes::Good(c, j3) => match sp_expect(
                                                        toks,
                                                        j3,
                                                        Token::ExprOut,
                                                    ) {
                                                        SpRes::Good(cl, j4) => SpRes::Good(
                                                            Located {
                                                                item: Expression::SubString(
                                                                    Box::new(a),
                                                                    Box::new(b),
                                                                    Box::new(c),
                                                                ),
                                                                pos: spec_extend(t.pos, cl.pos),
                                                            },
                                                            j4,
                                                        ),
                                                        SpRes::Bad(k, p) => SpRes::Bad(k, p),
                                                    },
                                                    SpRes::Bad(k, p) => SpRes::Bad(k, p),
                                                }
                                            } else {
                                                SpRes::Bad(ErrorKind::UnexpectedEndOfInput, None)
                                            },
                                            SpRes::Bad(k, p) => SpRes::Bad(k, p),
                                        }
                                    } else {
                                        SpRes::Bad(ErrorKind::UnexpectedEndOfInput, None)
                                    },
                                    SpRes::Bad(k, p) => SpRes::Bad(k, p),
                                }
                            } else {
                                match op_kind(w@) {
                                    Some(k) => match sp_expression(toks, i + 2) {
                                        SpRes::Good(a, j) => if i + 2 < j && j <= toks.len() {
                                            match sp_expression(toks, j) {
                                                SpRes::Good(b, j2) => match sp_expect(
                                                    toks,
                                                    j2,
                                                    Token::ExprOut,
                                                ) {
                                                    SpRes::Good(cl, j3) => SpRes::Good(
                                                        Located {
                                                            item: mk_binary(k, a, b),
                                                            pos: spec_extend(t.pos, cl.pos),
                                                        },
                                                        j3,
                                                    ),
                                                    SpRes::Bad(k2, p) => SpRes::Bad(k2, p),
                                                },
                                                SpRes::Bad(k2, p) => SpRes::Bad(k2, p),
                                            }
                                        } else {
                                            SpRes::Bad(ErrorKind::UnexpectedEndOfInput, None)
                                        },
                                        SpRes::Bad(k2, p) => SpRes::Bad(k2, p),
                                    },
                                    None => SpRes::Bad(
                                        ErrorKind::UnexpectedToken {
                                            expected: Expected::Operator,
                                            got: toks[i + 1].item,
                                        },
                                        Some(toks[i + 1].pos),
                                    ),
                                }
                            }
                        },
                        _ => SpRes::Bad(
                            ErrorKind::UnexpectedToken {
                                expected: Expected::Operator,
                                got: toks[i + 1].item,
                            },
                            Some(toks[i + 1].pos),
                        ),
                    }
                }
            },
            _ => SpRes::Bad(
                ErrorKind::UnexpectedToken {
                    expected: Expected::Value(ValueType::Expression),
                    got: t.item,
                },
                Some(t.pos),
            ),
        }
    }
}

/// The comparators of the condition grammar, each over two expressions.
#[derive(Debug, Clone, Copy, PartialEq, Eq, Structural)]
pub enum CmpKind {
    EQ,
    NE,
    LT,
    GT,
    LE,
    GE,
}

/// The condition node a comparator builds from its two operands.
pub open spec fn mk_cmp(k: CmpKind, a: Located<Expression>, b: Located<Expression>) -> Condition {
    match k {
        CmpKind::EQ => Condition::EQ(a, b),
        CmpKind::NE => Condition::NE(a, b),
        CmpKind::LT => Condition::LT(a, b),
        CmpKind::GT => Condition::GT(a, b),
        CmpKind::LE => Condition::LE(a, b),
        CmpKind::GE => Condition::GE(a, b),
    }
}

fn cmp_cond(k: CmpKind, a: Located<Expression>, b: Located<Expression>) -> (r: Condition)
    ensures
        r == mk_cmp(k, a, b),
{
    match k {
        CmpKind::EQ => Condition::EQ(a, b),
        CmpKind::NE => Condition::NE(a, b),
        CmpKind::LT => Condition::LT(a, b),
        CmpKind::GT => Condition::GT(a, b),
        CmpKind::LE => Condition::LE(a, b),
        CmpKind::GE => Condition::GE(a, b),
    }
}

/// The tail of a comparison: its two expression operands and the closing
/// `>`, spanning from the opening bracket to it.
pub open spec fn sp_cmp_tail(
    toks: Seq<Located<Token>>,
    j0: int,
    open: Position,
    k: CmpKind,
) -> SpRes<Located<Condition>>
    decreases toks.len() - j0, 1int,
{
    if j0 >= toks.len() {
        SpRes::Bad(ErrorKind::UnexpectedEndOfInput, None)
    } else {
        match sp_expression(toks, j0) {
            SpRes::Good(a, j) => if j0 < j && j <= toks.len() {
                match sp_expression(toks, j) {
                    SpRes::Good(b, j2) => match sp_expect(toks, j2, Token::CondOut) {
                        SpRes::Good(cl, j3) => SpRes::Good(
                            Located { item: mk_cmp(k, a, b), pos: spec_extend(open, cl.pos) },
                            j3,
                        ),
                        SpRes::Bad(k2, p) => SpRes::Bad(k2, p),
                    },
                    SpRes::Bad(k2, p) => SpRes::Bad(k2, p),
                }
            } else {
                SpRes::Bad(ErrorKind::UnexpectedEndOfInput, None)
            },
            SpRes::Bad(k2, p) => SpRes::Bad(k2, p),
        }
    }
}

/// The condition rule: a boolean leaf, or `<` followed by `and`/`or` over
/// two conditions, `not` over one, or a comparator over two expressions, then
/// `>`. The comparators `=`, `<`, `>` are their own tokens; `<` or `>`
/// followed by `=` read as at-most and at-least; `!=` is the word of that
/// spelling.
pub open spec fn sp_condition(toks: Seq<Located<Token>>, i: int) -> SpRes<Located<Condition>>
    decreases toks.len() - i, 2int,
{
    if i >= toks.len() {
        SpRes::Bad(ErrorKind::UnexpectedEndOfInput, None)
    } else {
        let t = toks[i];
        match t.item {
            Token::Bool(b) => SpRes::Good(
                Located {
                    item: if b {
                        Condition::True
                    } else {
                        Condition::False
                    },
                    pos: t.pos,
                },
                i + 1,
            ),
            Token::CondIn => {
                if i + 1 >= toks.len() {
                    SpRes::Bad(ErrorKind::UnexpectedEndOfInput, None)
                } else {
                    match toks[i + 1].item {
                        Token::Word(w) => {
                            if w@ == "and"@ || w@ == "or"@ {
                                match sp_condition(toks, i + 2) {
                                    SpRes::Good(a, j) => if i + 2 < j && j <= toks.len() {
                                        match sp_condition(toks, j) {
                                            SpRes::Good(b, j2) => match sp_expect(
                                                toks,
                                                j2,
                                                Token::CondOut,
                                            ) {
                                                SpRes::Good(cl, j3) => SpRes::Good(
                                                    Located {
                                                        item: if w@ == "and"@ {
                                                            Condition::And(Box::new(a), Box::new(b))
                                                        } else {
                                                            Condition::Or(Box::new(a), Box::new(b))
                                                        },
                                                        pos: spec_extend(t.pos, cl.pos),
                                                    },
                                                    j3,
                                                ),
                                                SpRes::Bad(k, p) => SpRes::Bad(k, p),
                                            },
                                            SpRes::Bad(k, p) => SpRes::Bad(k, p),
                                        }
                                    } else {
                                        SpRes::Bad(ErrorKind::UnexpectedEndOfInput, None)
                                    },
                                    SpRes::Bad(k, p) => SpRes::Bad(k, p),
                                }
                            } else if w@ == "not"@ {
                                match sp_condition(toks, i + 2) {
                                    SpRes::Good(a, j) => match sp_expect(toks, j, Token::CondOut) {
                                        SpRes::Good(cl, j2) => SpRes::Good(
                                            Located {
                                                item: Condition::Not(Box::new(a)),
                                                pos: spec_extend(t.pos, cl.pos),
                                            },
                                            j2,
                                        ),
                                        SpRes::Bad(k, p) => SpRes::Bad(k, p),
                                    },
                                    SpRes::Bad(k, p) => SpRes::Bad(k, p),
                                }
                            } else if w@ == "!="@ {
                                sp_cmp_tail(toks, i + 2, t.pos, CmpKind::NE)
                            } else {
                                SpRes::Bad(
                                    ErrorKind::UnexpectedToken {
                                        expected: Expected::Comparator,
                                        got: toks[i + 1].item,
                                    },
                                    Some(toks[i + 1].pos),
                                )
                            }
                        },
                        Token::Equal => sp_cmp_tail(toks, i + 2, t.pos, CmpKind::EQ),
                        Token::CondIn => if (i + 2 < toks.len() && toks[i + 2].item matches
                            Token::Equal) {
                            sp_cmp_tail(toks, i + 3, t.pos, CmpKind::LE)
                        } else {
                            sp_cmp_tail(toks, i + 2, t.pos, CmpKind::LT)
                        },
                        Token::CondOut => if (i + 2 < toks.len() && toks[i + 2].item matches
                            Token::Equal) {
                            sp_cmp_tail(toks, i + 3, t.pos, CmpKind::GE)
                        } else {
                            sp_cmp_tail(toks, i + 2, t.pos, CmpKind::GT)
                        },
                        _ => SpRes::Bad(
                            ErrorKind::UnexpectedToken {
                                expected: Expected::Comparator,
                                got: toks[i + 1].item,
                            },
                            Some(toks[i + 1].pos),
                        ),
                    }
                }
            },
            _ => SpRes::Bad(
                ErrorKind::UnexpectedToken {
                    expected: Expected::Value(ValueType::Condition),
                    got: t.item,
                },
                Some(t.pos),
            ),
        }
    }
}

/// Parse the two expression operands and closing `>` of a comparison.
fn cmp_tail(parser: &mut Parser, open: Position, k: CmpKind) -> (r: Result<
    Located<Condition>,
    Error,
>)
    requires
        old(parser).wf(),
    ensures
        final(parser).wf(),
        final(parser).tokens == old(parser).tokens,
        final(parser).path == old(parser).path,
        final(parser).idx >= old(parser).idx,
        match r {
            Ok(node) => {
                &&& sp_cmp_tail(old(parser).tokens@, old(parser).idx as int, open, k)
                    == SpRes::Good(node, final(parser).idx as int)
                &&& final(parser).idx > old(parser).idx
            },
            Err(e) => {
                &&& sp_cmp_tail(old(parser).tokens@, old(parser).idx as int, open, k) matches
                    SpRes::Bad(k2, p) && e.kind == k2 && e.pos == p
                &&& e.path == old(parser).path
            },
        },
    decreases old(parser).tokens@.len() - old(parser).idx, 1int,
{
    let a = match Expression::parse(parser) {
        Ok(v) => v,
        Err(e) => {
            return Err(e);
        },
    };
    let b = match Expression::parse(parser) {
        Ok(v) => v,
        Err(e) => {
            return Err(e);
        },
    };
    let cl = match parser.token_expect(Token::CondOut) {
        Ok(v) => v,
        Err(e) => {
            return Err(e);
        },
    };
    let mut p = open;
    p.extend(&cl.pos);
    Ok(Located { item: cmp_cond(k, a, b), pos: p })
}

impl Condition {
    /// Parse one condition, exactly as `sp_condition` says.
    pub fn parse(parser: &mut Parser) -> (r: Result<Located<Condition>, Error>)
        requires
            old(parser).wf(),
        ensures
            final(parser).wf(),
            final(parser).tokens == old(parser).tokens,
            final(parser).path == old(parser).path,
            final(parser).idx >= old(parser).idx,
            match r {
                Ok(node) => {
                    &&& sp_condition(old(parser).tokens@, old(parser).idx as int)
                        == SpRes::Good(node, final(parser).idx as int)
                    &&& final(parser).idx > old(parser).idx
                },
                Err(e) => {
                    &&& sp_condition(old(parser).tokens@, old(parser).idx as int) matches
                        SpRes::Bad(k, p) && e.kind == k && e.pos == p
                    &&& e.path == old(parser).path
                },
            },
        decreases old(parser).tokens@.len() - old(parser).idx, 2int,
    {
        let t = match parser.token_check() {
            Ok(t) => t,
            Err(e) => {
                return Err(e);
            },
        };
        match t.item {
            Token::Bool(b) => Ok(
                Located {
                    item: if b {
                        Condition::True
                    } else {
                        Condition::False
                    },
                    pos: t.pos,
                },
            ),
            Token::CondIn => {
                let cmp_tok = match parser.token_check() {
                    Ok(t2) => t2,
                    Err(e) => {
                        return Err(e);
                    },
                };
                match cmp_tok.item {
                    Token::Word(w) => {
                        if str_eq(w.as_str(), "and") || str_eq(w.as_str(), "or") {
                            let a = match Self::parse(parser) {
                                Ok(v) => v,
                                Err(e) => {
                                    return Err(e);
                                },
                            };
                            let b = match Self::parse(parser) {
                                Ok(v) => v,
                                Err(e) => {
                                    return Err(e);
                                },
                            };
                            let cl = match parser.token_expect(Token::CondOut) {
                                Ok(v) => v,
                                Err(e) => {
                                    return Err(e);
                                },
                            };
                            let mut p = t.pos;
                            p.extend(&cl.pos);
                            let item = if str_eq(w.as_str(), "and") {
                                Condition::And(Box::new(a), Box::new(b))
                            } else {
                                Condition::Or(Box::new(a), Box::new(b))
                            };
                            Ok(Located { item, pos: p })
                        } else if str_eq(w.as_str(), "not") {
                            let a = match Self::parse(parser) {
                                Ok(v) => v,
                                Err(e) => {
                                    return Err(e);
                                },
                            };
                            let cl = match parser.token_expect(Token::CondOut) {
                                Ok(v) => v,
                                Err(e) => {
                                    return Err(e);
                                },
                            };
                            let mut p = t.pos;
                            p.extend(&cl.pos);
                            Ok(Located { item: Condition::Not(Box::new(a)), pos: p })
                        } else if str_eq(w.as_str(), "!=") {
                            cmp_tail(parser, t.pos, CmpKind::NE)
                        } else {
                            Err(
                                fail(
                                    parser,
                                    ErrorKind::UnexpectedToken {
                                        expected: Expected::Comparator,
                                        got: Token::Word(w),
                                    },
                                    Some(cmp_tok.pos),
                                ),
                            )
                        }
                    },
                    Token::Equal => cmp_tail(parser, t.pos, CmpKind::EQ),
                    Token::CondIn => {
                        let le = match parser.token_ref() {
                            Some(lt) => matches!(lt.item, Token::Equal),
                            None => false,
                        };
                        if le {
                            parser.token_skip(Token::Equal);
                            cmp_tail(parser, t.pos, CmpKind::LE)
                        } else {
                            cmp_tail(parser, t.pos, CmpKind::LT)
                        }
                    },
                    Token::CondOut => {
                        let ge = match parser.token_ref() {
                            Some(lt) => matches!(lt.item, Token::Equal),
                            None => false,
                        };
                        if ge {
                            parser.token_skip(Token::Equal);
                            cmp_tail(parser, t.pos, CmpKind::GE)
                        } else {
                            cmp_tail(parser, t.pos, CmpKind::GT)
                        }
                    },
                    other => Err(
                        fail(
                            parser,
                            ErrorKind::UnexpectedToken { expected: Expected::Comparator, got: other },
                            Some(cmp_tok.pos),
                        ),
                    ),
                }
            },
            other => Err(
                fail(
                    parser,
                    ErrorKind::UnexpectedToken {
                        expected: Expected::Value(ValueType::Condition),
                        got: other,
                    },
                    Some(t.pos),
                ),
            ),
        }
    }
}

/// The value rule: a condition where the lookahead starts one (a boolean
/// leaf or `<`), an expression otherwise.
pub open spec fn sp_value(toks: Seq<Located<Token>>, i: int) -> SpRes<Value>
    decreases toks.len() - i, 3int,
{
    if i >= toks.len() {
        SpRes::Bad(ErrorKind::UnexpectedEndOfInput, None)
    } else if (toks[i].item matches Token::Bool(_) || toks[i].item matches Token::CondIn) {
        match sp_condition(toks, i) {
            SpRes::Good(c, j) => SpRes::Good(Value::Cond(c), j),
            SpRes::Bad(k, p) => SpRes::Bad(k, p),
        }
    } else {
        match sp_expression(toks, i) {
            SpRes::Good(e, j) => SpRes::Good(Value::Expr(e), j),
            SpRes::Bad(k, p) => SpRes::Bad(k, p),
        }
    }
}

impl Value {
    /// Parse one value of either category, exactly as `sp_value` says.
    pub fn parse(parser: &mut Parser) -> (r: Result<Value, Error>)
        requires
            old(parser).wf(),
        ensures
            final(parser).wf(),
            final(parser).tokens == old(parser).tokens,
            final(parser).path == old(parser).path,
            final(parser).idx >= old(parser).idx,
            match r {
                Ok(v) => {
                    &&& sp_value(old(parser).tokens@, old(parser).idx as int)
                        == SpRes::Good(v, final(parser).idx as int)
                    &&& final(parser).idx > old(parser).idx
                },
                Err(e) => {
                    &&& sp_value(old(parser).tokens@, old(parser).idx as int) matches
                        SpRes::Bad(k, p) && e.kind == k && e.pos == p
                    &&& e.path == old(parser).path
                },
            },
        decreases old(parser).tokens@.len() - old(parser).idx, 3int,
    {
        let is_cond = match parser.token_ref() {
            Some(lt) => matches!(lt.item, Token::Bool(_)) || matches!(lt.item, Token::CondIn),
            None => {
                return Err(fail(parser, ErrorKind::UnexpectedEndOfInput, None));
            },
        };
        if is_cond {
            match Condition::parse(parser) {
                Ok(c) => Ok(Value::Cond(c)),
                Err(e) => Err(e),
            }
        } else {
            match Expression::parse(parser) {
                Ok(e) => Ok(Value::Expr(e)),
                Err(e) => Err(e),
            }
        }
    }
}

/// The statement rule: `[` a keyword and its arguments `]`. The keywords are
/// `set`, `if` (optionally with `else`), `repeat`, `while`, `loop`, `break`,
/// `next` and `return`; `set` and `return` take a value of either category,
/// decided by lookahead.
pub open spec fn sp_statement(toks: Seq<Located<Token>>, i: int) -> SpRes<Located<StatementV>>
    decreases toks.len() - i, 5int,
{
    match sp_expect(toks, i, Token::StatIn) {
        SpRes::Bad(k, p) => SpRes::Bad(k, p),
        SpRes::Good(open, i1) => if i1 >= toks.len() {
            SpRes::Bad(ErrorKind::UnexpectedEndOfInput, None)
        } else {
            match toks[i1].item {
                Token::Word(kw) => {
                    if kw@ == "set"@ {
                        if i + 2 >= toks.len() {
                            SpRes::Bad(ErrorKind::UnexpectedEndOfInput, None)
                        } else {
                            match toks[i + 2].item {
                                Token::Word(name) => match sp_value(toks, i + 3) {
                                    SpRes::Good(v, j) => match sp_expect(toks, j, Token::StatOut) {
                                        SpRes::Good(cl, j1) => SpRes::Good(
                                            Located {
                                                item: match v {
                                                    Value::Expr(e) => StatementV::SetExpression(
                                                        Located { item: name, pos: toks[i + 2].pos },
                                                        e,
                                                    ),
                                                    Value::Cond(c) => StatementV::SetCondition(
                                                        Located { item: name, pos: toks[i + 2].pos },
                                                        c,
                                                    ),
                                                },
                                                pos: spec_extend(open.pos, cl.pos),
                                            },
                                            j1,
                                        ),
                                        SpRes::Bad(k, p) => SpRes::Bad(k, p),
                                    },
                                    SpRes::Bad(k, p) => SpRes::Bad(k, p),
                                },
                                _ => SpRes::Bad(
                                    ErrorKind::UnexpectedToken {
                                        expected: Expected::Ident,
                                        got: toks[i + 2].item,
                                    },
                                    Some(toks[i + 2].pos),
                                ),
                            }
                        }
                    } else if kw@ == "if"@ {
                        match sp_condition(toks, i + 2) {
                            SpRes::Good(c, j) => if i < j && j <= toks.len() {
                                match sp_block(toks, j) {
                                    SpRes::Good(b, k) => if k < toks.len() && i < k && (toks[k].item
                                        matches Token::Word(ew) && ew@ == "else"@) {
                                        match sp_block(toks, k + 1) {
                                            SpRes::Good(b2, m) => match sp_expect(
                                                toks,
                                                m,
                                                Token::StatOut,
                                            ) {
                                                SpRes::Good(cl, m1) => SpRes::Good(
                                                    Located {
                                                        item: StatementV::IfElse(c, b, b2),
                                                        pos: spec_extend(open.pos, cl.pos),
                                                    },
                                                    m1,
                                                ),
                                                SpRes::Bad(k2, p) => SpRes::Bad(k2, p),
                                            },
                                            SpRes::Bad(k2, p) => SpRes::Bad(k2, p),
                                        }
                                    } else {
                                        match sp_expect(toks, k, Token::StatOut) {
                                            SpRes::Good(cl, k1) => SpRes::Good(
                                                Located {
                                                    item: StatementV::If(c, b),
                                                    pos: spec_extend(open.pos, cl.pos),
                                                },
                                                k1,
                                            ),
                                            SpRes::Bad(k2, p) => SpRes::Bad(k2, p),
                                        }
                                    },
                                    SpRes::Bad(k2, p) => SpRes::Bad(k2, p),
                                }
                            } else {
                                SpRes::Bad(ErrorKind::UnexpectedEndOfInput, None)
                            },
                            SpRes::Bad(k2, p) => SpRes::Bad(k2, p),
                        }
                    } else if kw@ == "repeat"@ {
                        match sp_expression(toks, i + 2) {
                            SpRes::Good(e, j) => if i < j && j <= toks.len() {
                                match sp_block(toks, j) {
                                    SpRes::Good(b, k) => match sp_expect(toks, k, Token::StatOut) {
                                        SpRes::Good(cl, k1) => SpRes::Good(
                                            Located {
                                                item: StatementV::Repeat(e, b),
                                                pos: spec_extend(open.pos, cl.pos),
                                            },
                                            k1,
                                        ),
                                        SpRes::Bad(k2, p) => SpRes::Bad(k2, p),
                                    },
                                    SpRes::Bad(k2, p) => SpRes::Bad(k2, p),
                                }
                            } else {
                                SpRes::Bad(ErrorKind::UnexpectedEndOfInput, None)
                            },
                            SpRes::Bad(k2, p) => SpRes::Bad(k2, p),
                        }
                    } else if kw@ == "while"@ {
                        match sp_condition(toks, i + 2) {
                            SpRes::Good(c, j) => if i < j && j <= toks.len() {
                                match sp_block(toks, j) {
                                    SpRes::Good(b, k) => match sp_expect(toks, k, Token::StatOut) {
                                        SpRes::Good(cl, k1) => SpRes::Good(
                                            Located {
                                                item: StatementV::While(c, b),
                                                pos: spec_extend(open.pos, cl.pos),
                                            },
                                            k1,
                                        ),
                                        SpRes::Bad(k2, p) => SpRes::Bad(k2, p),
                                    },
                                    SpRes::Bad(k2, p) => SpRes::Bad(k2, p),
                                }
                            } else {
                                SpRes::Bad(ErrorKind::UnexpectedEndOfInput, None)
                            },
                            SpRes::Bad(k2, p) => SpRes::Bad(k2, p),
                        }
                    } else if kw@ == "loop"@ {
                        match sp_block(toks, i + 2) {
                            SpRes::Good(b, k) => match sp_expect(toks, k, Token::StatOut) {
                                SpRes::Good(cl, k1) => SpRes::Good(
                                    Located {
                                        item: StatementV::Loop(b),
                                        pos: spec_extend(open.pos, cl.pos),
                                    },
                                    k1,
                                ),
                                SpRes::Bad(k2, p) => SpRes::Bad(k2, p),
                            },
                            SpRes::Bad(k2, p) => SpRes::Bad(k2, p),
                        }
                    } else if kw@ == "break"@ {
                        match sp_expect(toks, i + 2, Token::StatOut) {
                            SpRes::Good(cl, j) => SpRes::Good(
                                Located {
                                    item: StatementV::Break,
                                    pos: spec_extend(open.pos, cl.pos),
                                },
                                j,
                            ),
                            SpRes::Bad(k2, p) => SpRes::Bad(k2, p),
                        }
                    } else if kw@ == "next"@ {
                        match sp_expect(toks, i + 2, Token::StatOut) {
                            SpRes::Good(cl, j) => SpRes::Good(
                                Located { item: StatementV::Next, pos: spec_extend(open.pos, cl.pos) },
                                j,
                            ),
                            SpRes::Bad(k2, p) => SpRes::Bad(k2, p),
                        }
                    } else if kw@ == "return"@ {
                        match sp_value(toks, i + 2) {
                            SpRes::Good(v, j) => match sp_expect(toks, j, Token::StatOut) {
                                SpRes::Good(cl, j1) => SpRes::Good(
                                    Located {
                                        item: match v {
                                            Value::Expr(e) => StatementV::Return(e),
                                            Value::Cond(c) => StatementV::ReturnCondition(c),
                                        },
                                        pos: spec_extend(open.pos, cl.pos),
                                    },
                                    j1,
                                ),
                                SpRes::Bad(k2, p) => SpRes::Bad(k2, p),
                            },
                            SpRes::Bad(k2, p) => SpRes::Bad(k2, p),
                        }
                    } else {
                        SpRes::Bad(ErrorKind::UnknownSectionOrKeyword(kw), Some(toks[i1].pos))
                    }
                },
                _ => SpRes::Bad(
                    ErrorKind::UnexpectedToken { expected: Expected::Keyword, got: toks[i1].item },
                    Some(toks[i1].pos),
                ),
            }
        },
    }
}

/// The statements of a block, up to its closing `}`.
pub open spec fn sp_stmts(toks: Seq<Located<Token>>, i: int) -> SpRes<Seq<StatementV>>
    decreases toks.len() - i, 6int,
{
    if i >= toks.len() {
        SpRes::Bad(ErrorKind::UnexpectedEndOfInput, None)
    } else if (toks[i].item matches Token::BodyOut) {
        SpRes::Good(Seq::empty(), i)
    } else {
        match sp_statement(toks, i) {
            SpRes::Good(s, j) => if i < j && j <= toks.len() {
                match sp_stmts(toks, j) {
                    SpRes::Good(rest, k) => SpRes::Good(seq![s.item] + rest, k),
                    SpRes::Bad(k2, p) => SpRes::Bad(k2, p),
                }
            } else {
                SpRes::Bad(ErrorKind::UnexpectedEndOfInput, None)
            },
            SpRes::Bad(k2, p) => SpRes::Bad(k2, p),
        }
    }
}

/// The block rule: `{` statements `}`, spanning both braces.
pub open spec fn sp_block(toks: Seq<Located<Token>>, i: int) -> SpRes<BlockV>
    decreases toks.len() - i, 7int,
{
    match sp_expect(toks, i, Token::BodyIn) {
        SpRes::Bad(k, p) => SpRes::Bad(k, p),
        SpRes::Good(open, i1) => match sp_stmts(toks, i1) {
            SpRes::Good(ss, j) => match sp_expect(toks, j, Token::BodyOut) {
                SpRes::Good(cl, j1) => SpRes::Good(
                    BlockV { statements: ss, pos: spec_extend(open.pos, cl.pos) },
                    j1,
                ),
                SpRes::Bad(k2, p) => SpRes::Bad(k2, p),
            },
            SpRes::Bad(k2, p) => SpRes::Bad(k2, p),
        },
    }
}

/// Parse the statements of a block, exactly as `sp_stmts` says.
fn parse_stmts(parser: &mut Parser) -> (r: Result<Vec<Statement>, Error>)
    requires
        old(parser).wf(),
    ensures
        final(parser).wf(),
        final(parser).tokens == old(parser).tokens,
        final(parser).path == old(parser).path,
        final(parser).idx >= old(parser).idx,
        match r {
            Ok(v) => sp_stmts(old(parser).tokens@, old(parser).idx as int)
                == SpRes::Good(stmts_view(v@), final(parser).idx as int),
            Err(e) => {
                &&& sp_stmts(old(parser).tokens@, old(parser).idx as int) matches
                    SpRes::Bad(k, p) && e.kind == k && e.pos == p
                &&& e.path == old(parser).path
            },
        },
    decreases old(parser).tokens@.len() - old(parser).idx, 6int,
{
    let done = match parser.token_ref() {
        Some(lt) => matches!(lt.item, Token::BodyOut),
        None => {
            return Err(fail(parser, ErrorKind::UnexpectedEndOfInput, None));
        },
    };
    if done {
        return Ok(Vec::new());
    }
    let s = match Statement::parse(parser) {
        Ok(v) => v,
        Err(e) => {
            return Err(e);
        },
    };
    let mut rest = match parse_stmts(parser) {
        Ok(v) => v,
        Err(e) => {
            return Err(e);
        },
    };
    let ghost pre = rest@;
    let Located { item: s_item, pos: _ } = s;
    let mut out: Vec<Statement> = Vec::new();
    out.push(s_item);
    out.append(&mut rest);
    proof {
        assert(out@.subrange(1, out@.len() as int) =~= pre);
    }
    Ok(out)
}

/// A one-statement sequence views to the one statement's shape.
proof fn lemma_stmts_view_single(s: Statement)
    ensures
        stmts_view(seq![s]) == seq![stmt_view(s)],
{
    let ss = seq![s];
    assert(ss.len() == 1);
    assert(ss[0] == s);
    assert(ss.subrange(1, 1) =~= Seq::<Statement>::empty());
    assert(stmts_view(Seq::<Statement>::empty()) == Seq::<StatementV>::empty());
    assert(stmts_view(ss) == seq![stmt_view(s)] + Seq::<StatementV>::empty());
    assert(seq![stmt_view(s)] + Seq::<StatementV>::empty() =~= seq![stmt_view(s)]);
}

/// The variable rule, a `data` member: `(` name, optionally `=` and a full
/// initializer expression, `)`.
pub open spec fn sp_variable(toks: Seq<Located<Token>>, i: int) -> SpRes<Located<Variable>>
    decreases toks.len() - i, 1int,
{
    match sp_expect(toks, i, Token::ExprIn) {
        SpRes::Bad(k, p) => SpRes::Bad(k, p),
        SpRes::Good(open, i1) => if i1 >= toks.len() {
            SpRes::Bad(ErrorKind::UnexpectedEndOfInput, None)
        } else {
            match toks[i1].item {
                Token::Word(name) => if i + 2 < toks.len() && (toks[i + 2].item matches
                    Token::Equal) {
                    match sp_expression(toks, i + 3) {
                        SpRes::Good(e, j) => match sp_expect(toks, j, Token::ExprOut) {
                            SpRes::Good(cl, j1) => SpRes::Good(
                                Located {
                                    item: Variable {
                                        id: Located { item: name, pos: toks[i1].pos },
                                        value: Some(e),
                                    },
                                    pos: spec_extend(open.pos, cl.pos),
                                },
                                j1,
                            ),
                            SpRes::Bad(k, p) => SpRes::Bad(k, p),
                        },
                        SpRes::Bad(k, p) => SpRes::Bad(k, p),
                    }
                } else {
                    match sp_expect(toks, i + 2, Token::ExprOut) {
                        SpRes::Good(cl, j1) => SpRes::Good(
                            Located {
                                item: Variable {
                                    id: Located { item: name, pos: toks[i1].pos },
                                    value: None,
                                },
                                pos: spec_extend(open.pos, cl.pos),
                            },
                            j1,
                        ),
                        SpRes::Bad(k, p) => SpRes::Bad(k, p),
                    }
                },
                _ => SpRes::Bad(
                    ErrorKind::UnexpectedToken { expected: Expected::Ident, got: toks[i1].item },
                    Some(toks[i1].pos),
                ),
            }
        },
    }
}

/// The message rule, a `messages` member: `(` a bare name `)`.
pub open spec fn sp_message(toks: Seq<Located<Token>>, i: int) -> SpRes<Located<Message>> {
    match sp_expect(toks, i, Token::ExprIn) {
        SpRes::Bad(k, p) => SpRes::Bad(k, p),
        SpRes::Good(open, i1) => if i1 >= toks.len() {
            SpRes::Bad(ErrorKind::UnexpectedEndOfInput, None)
        } else {
            match toks[i1].item {
                Token::Word(name) => match sp_expect(toks, i + 2, Token::ExprOut) {
                    SpRes::Good(cl, j1) => SpRes::Good(
                        Located { item: Message(name), pos: spec_extend(open.pos, cl.pos) },
                        j1,
                    ),
                    SpRes::Bad(k, p) => SpRes::Bad(k, p),
                },
                _ => SpRes::Bad(
                    ErrorKind::UnexpectedToken { expected: Expected::Ident, got: toks[i1].item },
                    Some(toks[i1].pos),
                ),
            }
        },
    }
}

/// The parameter rule: a bracket pair fixing the value category, the name,
/// and optionally `=` and a default of that category.
pub open spec fn sp_param(toks: Seq<Located<Token>>, i: int) -> SpRes<Located<Param>>
    decreases toks.len() - i, 4int,
{
    if i >= toks.len() {
        SpRes::Bad(ErrorKind::UnexpectedEndOfInput, None)
    } else {
        match toks[i].item {
            Token::ExprIn => if i + 1 >= toks.len() {
                SpRes::Bad(ErrorKind::UnexpectedEndOfInput, None)
            } else {
                match toks[i + 1].item {
                    Token::Word(name) => if i + 2 < toks.len() && (toks[i + 2].item matches
                        Token::Equal) {
                        match sp_expression(toks, i + 3) {
                            SpRes::Good(e, j) => match sp_expect(toks, j, Token::ExprOut) {
                                SpRes::Good(cl, j1) => SpRes::Good(
                                    Located {
                                        item: Param {
                                            id: Located { item: name, pos: toks[i + 1].pos },
                                            typ: ValueType::Expression,
                                            default: Some(Value::Expr(e)),
                                        },
                                        pos: spec_extend(toks[i].pos, cl.pos),
                                    },
                                    j1,
                                ),
                                SpRes::Bad(k, p) => SpRes::Bad(k, p),
                            },
                            SpRes::Bad(k, p) => SpRes::Bad(k, p),
                        }
                    } else {
                        match sp_expect(toks, i + 2, Token::ExprOut) {
                            SpRes::Good(cl, j1) => SpRes::Good(
                                Located {
                                    item: Param {
                                        id: Located { item: name, pos: toks[i + 1].pos },
                                        typ: ValueType::Expression,
                                        default: None,
                                    },
                                    pos: spec_extend(toks[i].pos, cl.pos),
                                },
                                j1,
                            ),
                            SpRes::Bad(k, p) => SpRes::Bad(k, p),
                        }
                    },
                    _ => SpRes::Bad(
                        ErrorKind::UnexpectedToken {
                            expected: Expected::Ident,
                            got: toks[i + 1].item,
                        },
                        Some(toks[i + 1].pos),
                    ),
                }
            },
            Token::CondIn => if i + 1 >= toks.len() {
                SpRes::Bad(ErrorKind::UnexpectedEndOfInput, None)
            } else {
                match toks[i + 1].item {
                    Token::Word(name) => if i + 2 < toks.len() && (toks[i + 2].item matches
                        Token::Equal) {
                        match sp_condition(toks, i + 3) {
                            SpRes::Good(c, j) => match sp_expect(toks, j, Token::CondOut) {
                                SpRes::Good(cl, j1) => SpRes::Good(
                                    Located {
                                        item: Param {
                                            id: Located { item: name, pos: toks[i + 1].pos },
                                            typ: ValueType::Condition,
                                            default: Some(Value::Cond(c)),
                                        },
                                        pos: spec_extend(toks[i].pos, cl.pos),
                                    },
                                    j1,
                                ),
                                SpRes::Bad(k, p) => SpRes::Bad(k, p),
                            },
                            SpRes::Bad(k, p) => SpRes::Bad(k, p),
                        }
                    } else {
                        match sp_expect(toks, i + 2, Token::CondOut) {
                            SpRes::Good(cl, j1) => SpRes::Good(
                                Located {
                                    item: Param {
                                        id: Located { item: name, pos: toks[i + 1].pos },
                                        typ: ValueType::Condition,
                                        default: None,
                                    },
                                    pos: spec_extend(toks[i].pos, cl.pos),
                                },
                                j1,
                            ),
                            SpRes::Bad(k, p) => SpRes::Bad(k, p),
                        }
                    },
                    _ => SpRes::Bad(
                        ErrorKind::UnexpectedToken {
                            expected: Expected::Ident,
                            got: toks[i + 1].item,
                        },
                        Some(toks[i + 1].pos),
                    ),
                }
            },
            _ => SpRes::Bad(
                ErrorKind::UnexpectedToken { expected: Expected::OneOf, got: toks[i].item },
                Some(toks[i].pos),
            ),
        }
    }
}

/// A parameter list: parameters as long as the lookahead opens one.
pub open spec fn sp_params(toks: Seq<Located<Token>>, i: int) -> SpRes<Seq<Located<Param>>>
    decreases toks.len() - i, 5int,
{
    if i < toks.len() && (toks[i].item matches Token::ExprIn || toks[i].item matches
        Token::CondIn) {
        match sp_param(toks, i) {
            SpRes::Good(p, j) => if i < j && j <= toks.len() {
                match sp_params(toks, j) {
                    SpRes::Good(rest, k) => SpRes::Good(seq![p] + rest, k),
                    SpRes::Bad(k2, pp) => SpRes::Bad(k2, pp),
                }
            } else {
                SpRes::Bad(ErrorKind::UnexpectedEndOfInput, None)
            },
            SpRes::Bad(k2, pp) => SpRes::Bad(k2, pp),
        }
    } else {
        SpRes::Good(Seq::empty(), i)
    }
}

/// The event rule: a trigger and its handler block. The trigger vocabulary
/// has no members yet, so every attempt fails on the token found.
pub open spec fn sp_event(toks: Seq<Located<Token>>, i: int) -> SpRes<Located<Event>> {
    if i >= toks.len() {
        SpRes::Bad(ErrorKind::UnexpectedEndOfInput, None)
    } else {
        SpRes::Bad(
            ErrorKind::UnexpectedToken { expected: Expected::Trigger, got: toks[i].item },
            Some(toks[i].pos),
        )
    }
}

/// The procedure rule, a `procedures` member: the name, its parameters, and
/// its body block.
pub open spec fn sp_procedure(toks: Seq<Located<Token>>, i: int) -> SpRes<Located<ProcedureV>>
    decreases toks.len() - i, 8int,
{
    if i >= toks.len() {
        SpRes::Bad(ErrorKind::UnexpectedEndOfInput, None)
    } else {
        match toks[i].item {
            Token::Word(name) => match sp_params(toks, i + 1) {
                SpRes::Good(ps, j) => if i < j && j <= toks.len() {
                    match sp_block(toks, j) {
                        SpRes::Good(b, k) => SpRes::Good(
                            Located {
                                item: ProcedureV {
                                    id: Located { item: name, pos: toks[i].pos },
                                    params: ps,
                                    body: b.statements,
                                },
                                pos: spec_extend(toks[i].pos, b.pos),
                            },
                            k,
                        ),
                        SpRes::Bad(k2, p) => SpRes::Bad(k2, p),
                    }
                } else {
                    SpRes::Bad(ErrorKind::UnexpectedEndOfInput, None)
                },
                SpRes::Bad(k2, p) => SpRes::Bad(k2, p),
            },
            _ => SpRes::Bad(
                ErrorKind::UnexpectedToken { expected: Expected::Ident, got: toks[i].item },
                Some(toks[i].pos),
            ),
        }
    }
}

/// The rest of a function after its opening bracket: the name, the matching
/// closing bracket, the parameters, then a block body or a direct leaf value
/// of the declared return category, wrapped as that body's single return.
pub open spec fn sp_function_tail(
    toks: Seq<Located<Token>>,
    i1: int,
    open_pos: Position,
    rt: ValueType,
) -> SpRes<Located<FunctionV>>
    decreases toks.len() - i1, 8int,
{
    let close = match rt {
        ValueType::Expression => Token::ExprOut,
        ValueType::Condition => Token::CondOut,
    };
    if i1 >= toks.len() {
        SpRes::Bad(ErrorKind::UnexpectedEndOfInput, None)
    } else {
        match toks[i1].item {
            Token::Word(name) => match sp_expect(toks, i1 + 1, close) {
                SpRes::Good(_, i3) => match sp_params(toks, i3) {
                    SpRes::Good(ps, j) => if i1 < j && j <= toks.len() {
                        if j < toks.len() && (toks[j].item matches Token::BodyIn) {
                            match sp_block(toks, j) {
                                SpRes::Good(b, k) => SpRes::Good(
                                    Located {
                                        item: FunctionV {
                                            id: Located { item: name, pos: toks[i1].pos },
                                            params: ps,
                                            body: b.statements,
                                            return_type: rt,
                                        },
                                        pos: spec_extend(open_pos, b.pos),
                                    },
                                    k,
                                ),
                                SpRes::Bad(k2, p) => SpRes::Bad(k2, p),
                            }
                        } else {
                            match rt {
                                ValueType::Expression => match sp_expression(toks, j) {
                                    SpRes::Good(e, k) => SpRes::Good(
                                        Located {
                                            item: FunctionV {
                                                id: Located { item: name, pos: toks[i1].pos },
                                                params: ps,
                                                body: seq![StatementV::Return(e)],
                                                return_type: rt,
                                            },
                                            pos: spec_extend(open_pos, e.pos),
                                        },
                                        k,
                                    ),
                                    SpRes::Bad(k2, p) => SpRes::Bad(k2, p),
                                },
                                ValueType::Condition => match sp_condition(toks, j) {
                                    SpRes::Good(c, k) => SpRes::Good(
                                        Located {
                                            item: FunctionV {
                                                id: Located { item: name, pos: toks[i1].pos },
                                                params: ps,
                                                body: seq![StatementV::ReturnCondition(c)],
                                                return_type: rt,
                                            },
                                            pos: spec_extend(open_pos, c.pos),
                                        },
                                        k,
                                    ),
                                    SpRes::Bad(k2, p) => SpRes::Bad(k2, p),
                                },
                            }
                        }
                    } else {
                        SpRes::Bad(ErrorKind::UnexpectedEndOfInput, None)
                    },
                    SpRes::Bad(k2, p) => SpRes::Bad(k2, p),
                },
                SpRes::Bad(k2, p) => SpRes::Bad(k2, p),
            },
            _ => SpRes::Bad(
                ErrorKind::UnexpectedToken { expected: Expected::Ident, got: toks[i1].item },
                Some(toks[i1].pos),
            ),
        }
    }
}

/// The function rule, a `functions` member: the bracket pair around the name
/// fixes the return category, then the parameters and the body.
pub open spec fn sp_function(toks: Seq<Located<Token>>, i: int) -> SpRes<Located<FunctionV>>
    decreases toks.len() - i, 9int,
{
    if i >= toks.len() {
        SpRes::Bad(ErrorKind::UnexpectedEndOfInput, None)
    } else {
        match toks[i].item {
            Token::ExprIn => sp_function_tail(toks, i + 1, toks[i].pos, ValueType::Expression),
            Token::CondIn => sp_function_tail(toks, i + 1, toks[i].pos, ValueType::Condition),
            _ => SpRes::Bad(
                ErrorKind::UnexpectedToken { expected: Expected::OneOf, got: toks[i].item },
                Some(toks[i].pos),
            ),
        }
    }
}

impl Variable {
    /// Parse one variable declaration, exactly as `sp_variable` says.
    pub fn parse(parser: &mut Parser) -> (r: Result<Located<Variable>, Error>)
        requires
            old(parser).wf(),
        ensures
            final(parser).wf(),
            final(parser).tokens == old(parser).tokens,
            final(parser).path == old(parser).path,
            final(parser).idx >= old(parser).idx,
            match r {
                Ok(node) => {
                    &&& sp_variable(old(parser).tokens@, old(parser).idx as int)
                        == SpRes::Good(node, final(parser).idx as int)
                    &&& final(parser).idx > old(parser).idx
                },
                Err(e) => {
                    &&& sp_variable(old(parser).tokens@, old(parser).idx as int) matches
                        SpRes::Bad(k, p) && e.kind == k && e.pos == p
                    &&& e.path == old(parser).path
                },
            },
        decreases old(parser).tokens@.len() - old(parser).idx, 1int,
    {
        let open = match parser.token_expect(Token::ExprIn) {
            Ok(v) => v,
            Err(e) => {
                return Err(e);
            },
        };
        let name_tok = match parser.token_check() {
            Ok(v) => v,
            Err(e) => {
                return Err(e);
            },
        };
        match name_tok.item {
            Token::Word(name) => {
                let has_init = match parser.token_ref() {
                    Some(lt) => matches!(lt.item, Token::Equal),
                    None => false,
                };
                let value = if has_init {
                    let _ = parser.token();
                    match Expression::parse(parser) {
                        Ok(e) => Some(e),
                        Err(e) => {
                            return Err(e);
                        },
                    }
                } else {
                    None
                };
                let cl = match parser.token_expect(Token::ExprOut) {
                    Ok(v) => v,
                    Err(e) => {
                        return Err(e);
                    },
                };
                let mut p = open.pos;
                p.extend(&cl.pos);
                Ok(
                    Located {
                        item: Variable::new(Located { item: name, pos: name_tok.pos }, value),
                        pos: p,
                    },
                )
            },
            other => Err(
                fail(
                    parser,
                    ErrorKind::UnexpectedToken { expected: Expected::Ident, got: other },
                    Some(name_tok.pos),
                ),
            ),
        }
    }
}

impl Message {
    /// Parse one message declaration, exactly as `sp_message` says.
    pub fn parse(parser: &mut Parser) -> (r: Result<Located<Message>, Error>)
        requires
            old(parser).wf(),
        ensures
            final(parser).wf(),
            final(parser).tokens == old(parser).tokens,
            final(parser).path == old(parser).path,
            final(parser).idx >= old(parser).idx,
            match r {
                Ok(node) => {
                    &&& sp_message(old(parser).tokens@, old(parser).idx as int)
                        == SpRes::Good(node, final(parser).idx as int)
                    &&& final(parser).idx > old(parser).idx
                },
                Err(e) => {
                    &&& sp_message(old(parser).tokens@, old(parser).idx as int) matches
                        SpRes::Bad(k, p) && e.kind == k && e.pos == p
                    &&& e.path == old(parser).path
                },
            },
    {
        let open = match parser.token_expect(Token::ExprIn) {
            Ok(v) => v,
            Err(e) => {
                return Err(e);
            },
        };
        let name_tok = match parser.token_check() {
            Ok(v) => v,
            Err(e) => {
                return Err(e);
            },
        };
        match name_tok.item {
            Token::Word(name) => {
                let cl = match parser.token_expect(Token::ExprOut) {
                    Ok(v) => v,
                    Err(e) => {
                        return Err(e);
                    },
                };
                let mut p = open.pos;
                p.extend(&cl.pos);
                Ok(Located { item: Message::new(name), pos: p })
            },
            other => Err(
                fail(
                    parser,
                    ErrorKind::UnexpectedToken { expected: Expected::Ident, got: other },
                    Some(name_tok.pos),
                ),
            ),
        }
    }
}

impl Param {
    /// Parse one parameter, exactly as `sp_param` says.
    pub fn parse(parser: &mut Parser) -> (r: Result<Located<Param>, Error>)
        requires
            old(parser).wf(),
        ensures
            final(parser).wf(),
            final(parser).tokens == old(parser).tokens,
            final(parser).path == old(parser).path,
            final(parser).idx >= old(parser).idx,
            match r {
                Ok(node) => {
                    &&& sp_param(old(parser).tokens@, old(parser).idx as int)
                        == SpRes::Good(node, final(parser).idx as int)
                    &&& final(parser).idx > old(parser).idx
                },
                Err(e) => {
                    &&& sp_param(old(parser).tokens@, old(parser).idx as int) matches
                        SpRes::Bad(k, p) && e.kind == k && e.pos == p
                    &&& e.path == old(parser).path
                },
            },
        decreases old(parser).tokens@.len() - old(parser).idx, 4int,
    {
        let open = match parser.token_check() {
            Ok(v) => v,
            Err(e) => {
                return Err(e);
            },
        };
        let is_expr = match open.item {
            Token::ExprIn => true,
            Token::CondIn => false,
            other => {
                return Err(
                    fail(
                        parser,
                        ErrorKind::UnexpectedToken { expected: Expected::OneOf, got: other },
                        Some(open.pos),
                    ),
                );
            },
        };
        let name_tok = match parser.token_check() {
            Ok(v) => v,
            Err(e) => {
                return Err(e);
            },
        };
        match name_tok.item {
            Token::Word(name) => {
                let has_default = match parser.token_ref() {
                    Some(lt) => matches!(lt.item, Token::Equal),
                    None => false,
                };
                let default = if has_default {
                    let _ = parser.token();
                    if is_expr {
                        match Expression::parse(parser) {
                            Ok(e) => Some(Value::Expr(e)),
                            Err(e) => {
                                return Err(e);
                            },
                        }
                    } else {
                        match Condition::parse(parser) {
                            Ok(c) => Some(Value::Cond(c)),
                            Err(e) => {
                                return Err(e);
                            },
                        }
                    }
                } else {
                    None
                };
                let cl = match parser.token_expect(
                    if is_expr {
                        Token::ExprOut
                    } else {
                        Token::CondOut
                    },
                ) {
                    Ok(v) => v,
                    Err(e) => {
                        return Err(e);
                    },
                };
                let mut p = open.pos;
                p.extend(&cl.pos);
                Ok(
                    Located {
                        item: Param {
                            id: Located { item: name, pos: name_tok.pos },
                            typ: if is_expr {
                                ValueType::Expression
                            } else {
                                ValueType::Condition
                            },
                            default,
                        },
                        pos: p,
                    },
                )
            },
            other => Err(
                fail(
                    parser,
                    ErrorKind::UnexpectedToken { expected: Expected::Ident, got: other },
                    Some(name_tok.pos),
                ),
            ),
        }
    }
}

/// Parse a parameter list, exactly as `sp_params` says.
fn parse_params(parser: &mut Parser) -> (r: Result<Vec<Located<Param>>, Error>)
    requires
        old(parser).wf(),
    ensures
        final(parser).wf(),
        final(parser).tokens == old(parser).tokens,
        final(parser).path == old(parser).path,
        final(parser).idx >= old(parser).idx,
        match r {
            Ok(v) => sp_params(old(parser).tokens@, old(parser).idx as int)
                == SpRes::Good(v@, final(parser).idx as int),
            Err(e) => {
                &&& sp_params(old(parser).tokens@, old(parser).idx as int) matches
                    SpRes::Bad(k, p) && e.kind == k && e.pos == p
                &&& e.path == old(parser).path
            },
        },
    decreases old(parser).tokens@.len() - old(parser).idx, 5int,
{
    let starts = match parser.token_ref() {
        Some(lt) => matches!(lt.item, Token::ExprIn) || matches!(lt.item, Token::CondIn),
        None => false,
    };
    if !starts {
        return Ok(Vec::new());
    }
    let p0 = match Param::parse(parser) {
        Ok(v) => v,
        Err(e) => {
            return Err(e);
        },
    };
    let mut rest = match parse_params(parser) {
        Ok(v) => v,
        Err(e) => {
            return Err(e);
        },
    };
    let mut out: Vec<Located<Param>> = Vec::new();
    out.push(p0);
    out.append(&mut rest);
    Ok(out)
}

impl Event {
    /// Parse one event, exactly as `sp_event` says: with the trigger
    /// vocabulary still empty, every attempt fails on the token found.
    pub fn parse(parser: &mut Parser) -> (r: Result<Located<Event>, Error>)
        requires
            old(parser).wf(),
        ensures
            final(parser).wf(),
            final(parser).tokens == old(parser).tokens,
            final(parser).path == old(parser).path,
            final(parser).idx >= old(parser).idx,
            r is Err,
            match r {
                Ok(_) => false,
                Err(e) => {
                    &&& sp_event(old(parser).tokens@, old(parser).idx as int) matches
                        SpRes::Bad(k, p) && e.kind == k && e.pos == p
                    &&& e.path == old(parser).path
                },
            },
    {
        match parser.token_ref() {
            None => Err(fail(parser, ErrorKind::UnexpectedEndOfInput, None)),
            Some(lt) => {
                let got = lt.item.dup();
                let pos = lt.pos;
                Err(
                    fail(
                        parser,
                        ErrorKind::UnexpectedToken { expected: Expected::Trigger, got },
                        Some(pos),
                    ),
                )
            },
        }
    }
}

impl Procedure {
    /// Parse one procedure, exactly as `sp_procedure` says.
    pub fn parse(parser: &mut Parser) -> (r: Result<Located<Procedure>, Error>)
        requires
            old(parser).wf(),
        ensures
            final(parser).wf(),
            final(parser).tokens == old(parser).tokens,
            final(parser).path == old(parser).path,
            final(parser).idx >= old(parser).idx,
            match r {
                Ok(node) => {
                    &&& sp_procedure(old(parser).tokens@, old(parser).idx as int)
                        == SpRes::Good(
                        Located { item: proc_view(node.item), pos: node.pos },
                        final(parser).idx as int,
                    )
                    &&& final(parser).idx > old(parser).idx
                },
                Err(e) => {
                    &&& sp_procedure(old(parser).tokens@, old(parser).idx as int) matches
                        SpRes::Bad(k, p) && e.kind == k && e.pos == p
                    &&& e.path == old(parser).path
                },
            },
        decreases old(parser).tokens@.len() - old(parser).idx, 8int,
    {
        let name_tok = match parser.token_check() {
            Ok(v) => v,
            Err(e) => {
                return Err(e);
            },
        };
        match name_tok.item {
            Token::Word(name) => {
                let ps = match parse_params(parser) {
                    Ok(v) => v,
                    Err(e) => {
                        return Err(e);
                    },
                };
                let b = match Block::parse(parser) {
                    Ok(v) => v,
                    Err(e) => {
                        return Err(e);
                    },
                };
                let mut p = name_tok.pos;
                p.extend(&b.pos);
                Ok(
                    Located {
                        item: Procedure {
                            id: Located { item: name, pos: name_tok.pos },
                            params: ps,
                            body: b.item,
                        },
                        pos: p,
                    },
                )
            },
            other => Err(
                fail(
                    parser,
                    ErrorKind::UnexpectedToken { expected: Expected::Ident, got: other },
                    Some(name_tok.pos),
                ),
            ),
        }
    }
}

/// Parse the rest of a function after its consumed opening bracket, exactly
/// as `sp_function_tail` says.
#[verifier::rlimit(100)]
fn function_tail(parser: &mut Parser, open_pos: Position, rt: ValueType) -> (r: Result<
    Located<Function>,
    Error,
>)
    requires
        old(parser).wf(),
    ensures
        final(parser).wf(),
        final(parser).tokens == old(parser).tokens,
        final(parser).path == old(parser).path,
        final(parser).idx >= old(parser).idx,
        match r {
            Ok(node) => {
                &&& sp_function_tail(old(parser).tokens@, old(parser).idx as int, open_pos, rt)
                    == SpRes::Good(
                    Located { item: func_view(node.item), pos: node.pos },
                    final(parser).idx as int,
                )
                &&& final(parser).idx > old(parser).idx
            },
            Err(e) => {
                &&& sp_function_tail(old(parser).tokens@, old(parser).idx as int, open_pos, rt)
                    matches SpRes::Bad(k, p) && e.kind == k && e.pos == p
                &&& e.path == old(parser).path
            },
        },
    decreases old(parser).tokens@.len() - old(parser).idx, 8int,
{
    let name_tok = match parser.token_check() {
        Ok(v) => v,
        Err(e) => {
            return Err(e);
        },
    };
    match name_tok.item {
        Token::Word(name) => {
            let close = match rt {
                ValueType::Expression => Token::ExprOut,
                ValueType::Condition => Token::CondOut,
            };
            let _cl = match parser.token_expect(close) {
                Ok(v) => v,
                Err(e) => {
                    return Err(e);
                },
            };
            let ps = match parse_params(parser) {
                Ok(v) => v,
                Err(e) => {
                    return Err(e);
                },
            };
            let direct = match parser.token_ref() {
                Some(lt) => !matches!(lt.item, Token::BodyIn),
                None => true,
            };
            let id = Located { item: name, pos: name_tok.pos };
            if !direct {
                let b = match Block::parse(parser) {
                    Ok(v) => v,
                    Err(e) => {
                        return Err(e);
                    },
                };
                let mut p = open_pos;
                p.extend(&b.pos);
                Ok(
                    Located {
                        item: Function { id, params: ps, body: b.item, return_type: rt },
                        pos: p,
                    },
                )
            } else {
                match rt {
                    ValueType::Expression => {
                        let e0 = match Expression::parse(parser) {
                            Ok(v) => v,
                            Err(e) => {
                                return Err(e);
                            },
                        };
                        let mut p = open_pos;
                        p.extend(&e0.pos);
                        let ghost ev = e0;
                        let mut body: Vec<Statement> = Vec::new();
                        body.push(Statement::Return(e0));
                        proof {
                            assert(body@ =~= seq![Statement::Return(ev)]);
                            lemma_stmts_view_single(Statement::Return(ev));
                        }
                        Ok(
                            Located {
                                item: Function {
                                    id,
                                    params: ps,
                                    body: Block { statements: body },
                                    return_type: rt,
                                },
                                pos: p,
                            },
                        )
                    },
                    ValueType::Condition => {
                        let c0 = match Condition::parse(parser) {
                            Ok(v) => v,
                            Err(e) => {
                                return Err(e);
                            },
                        };
                        let mut p = open_pos;
                        p.extend(&c0.pos);
                        let ghost cv = c0;
                        let mut body: Vec<Statement> = Vec::new();
                        body.push(Statement::ReturnCondition(c0));
                        proof {
                            assert(body@ =~= seq![Statement::ReturnCondition(cv)]);
                            lemma_stmts_view_single(Statement::ReturnCondition(cv));
                        }
                        Ok(
                            Located {
                                item: Function {
                                    id,
                                    params: ps,
                                    body: Block { statements: body },
                                    return_type: rt,
                                },
                                pos: p,
                            },
                        )
                    },
                }
            }
        },
        other => Err(
            fail(
                parser,
                ErrorKind::UnexpectedToken { expected: Expected::Ident, got: other },
                Some(name_tok.pos),
            ),
        ),
    }
}

impl Function {
    /// Parse one function, exactly as `sp_function` says.
    pub fn parse(parser: &mut Parser) -> (r: Result<Located<Function>, Error>)
        requires
            old(parser).wf(),
        ensures
            final(parser).wf(),
            final(parser).tokens == old(parser).tokens,
            final(parser).path == old(parser).path,
            final(parser).idx >= old(parser).idx,
            match r {
                Ok(node) => {
                    &&& sp_function(old(parser).tokens@, old(parser).idx as int)
                        == SpRes::Good(
                        Located { item: func_view(node.item), pos: node.pos },
                        final(parser).idx as int,
                    )
                    &&& final(parser).idx > old(parser).idx
                },
                Err(e) => {
                    &&& sp_function(old(parser).tokens@, old(parser).idx as int) matches
                        SpRes::Bad(k, p) && e.kind == k && e.pos == p
                    &&& e.path == old(parser).path
                },
            },
        decreases old(parser).tokens@.len() - old(parser).idx, 9int,
    {
        let open = match parser.token_check() {
            Ok(v) => v,
            Err(e) => {
                return Err(e);
            },
        };
        match open.item {
            Token::ExprIn => function_tail(parser, open.pos, ValueType::Expression),
            Token::CondIn => function_tail(parser, open.pos, ValueType::Condition),
            other => Err(
                fail(
                    parser,
                    ErrorKind::UnexpectedToken { expected: Expected::OneOf, got: other },
                    Some(open.pos),
                ),
            ),
        }
    }
}

impl Statement {
    /// Parse one statement, exactly as `sp_statement` says.
    pub fn parse(parser: &mut Parser) -> (r: Result<Located<Statement>, Error>)
        requires
            old(parser).wf(),
        ensures
            final(parser).wf(),
            final(parser).tokens == old(parser).tokens,
            final(parser).path == old(parser).path,
            final(parser).idx >= old(parser).idx,
            match r {
                Ok(node) => {
                    &&& sp_statement(old(parser).tokens@, old(parser).idx as int)
                        == SpRes::Good(
                        Located { item: stmt_view(node.item), pos: node.pos },
                        final(parser).idx as int,
                    )
                    &&& final(parser).idx > old(parser).idx
                },
                Err(e) => {
                    &&& sp_statement(old(parser).tokens@, old(parser).idx as int) matches
                        SpRes::Bad(k, p) && e.kind == k && e.pos == p
                    &&& e.path == old(parser).path
                },
            },
        decreases old(parser).tokens@.len() - old(parser).idx, 5int,
    {
        let open = match parser.token_expect(Token::StatIn) {
            Ok(v) => v,
            Err(e) => {
                return Err(e);
            },
        };
        let kw_tok = match parser.token_check() {
            Ok(v) => v,
            Err(e) => {
                return Err(e);
            },
        };
        match kw_tok.item {
            Token::Word(kw) => {
                if str_eq(kw.as_str(), "set") {
                    let name_tok = match parser.token_check() {
                        Ok(v) => v,
                        Err(e) => {
                            return Err(e);
                        },
                    };
                    match name_tok.item {
                        Token::Word(name) => {
                            let v = match Value::parse(parser) {
                                Ok(v) => v,
                                Err(e) => {
                                    return Err(e);
                                },
                            };
                            let cl = match parser.token_expect(Token::StatOut) {
                                Ok(v) => v,
                                Err(e) => {
                                    return Err(e);
                                },
                            };
                            let mut p = open.pos;
                            p.extend(&cl.pos);
                            let id = Located { item: name, pos: name_tok.pos };
                            let item = match v {
                                Value::Expr(e) => Statement::SetExpression(id, e),
                                Value::Cond(c) => Statement::SetCondition(id, c),
                            };
                            Ok(Located { item, pos: p })
                        },
                        other => Err(
                            fail(
                                parser,
                                ErrorKind::UnexpectedToken { expected: Expected::Ident, got: other },
                                Some(name_tok.pos),
                            ),
                        ),
                    }
                } else if str_eq(kw.as_str(), "if") {
                    let c = match Condition::parse(parser) {
                        Ok(v) => v,
                        Err(e) => {
                            return Err(e);
                        },
                    };
                    let b = match Block::parse(parser) {
                        Ok(v) => v,
                        Err(e) => {
                            return Err(e);
                        },
                    };
                    let has_else = match parser.token_ref() {
                        Some(lt) => match &lt.item {
                            Token::Word(w) => str_eq(w.as_str(), "else"),
                            _ => false,
                        },
                        None => false,
                    };
                    if has_else {
                        let _ = parser.token();
                        let b2 = match Block::parse(parser) {
                            Ok(v) => v,
                            Err(e) => {
                                return Err(e);
                            },
                        };
                        let cl = match parser.token_expect(Token::StatOut) {
                            Ok(v) => v,
                            Err(e) => {
                                return Err(e);
                            },
                        };
                        let mut p = open.pos;
                        p.extend(&cl.pos);
                        Ok(Located { item: Statement::IfElse(c, b, b2), pos: p })
                    } else {
                        let cl = match parser.token_expect(Token::StatOut) {
                            Ok(v) => v,
                            Err(e) => {
                                return Err(e);
                            },
                        };
                        let mut p = open.pos;
                        p.extend(&cl.pos);
                        Ok(Located { item: Statement::If(c, b), pos: p })
                    }
                } else if str_eq(kw.as_str(), "repeat") {
                    let e0 = match Expression::parse(parser) {
                        Ok(v) => v,
                        Err(e) => {
                            return Err(e);
                        },
                    };
                    let b = match Block::parse(parser) {
                        Ok(v) => v,
                        Err(e) => {
                            return Err(e);
                        },
                    };
                    let cl = match parser.token_expect(Token::StatOut) {
                        Ok(v) => v,
                        Err(e) => {
                            return Err(e);
                        },
                    };
                    let mut p = open.pos;
                    p.extend(&cl.pos);
                    Ok(Located { item: Statement::Repeat(e0, b), pos: p })
                } else if str_eq(kw.as_str(), "while") {
                    let c = match Condition::parse(parser) {
                        Ok(v) => v,
                        Err(e) => {
                            return Err(e);
                        },
                    };
                    let b = match Block::parse(parser) {
                        Ok(v) => v,
                        Err(e) => {
                            return Err(e);
                        },
                    };
                    let cl = match parser.token_expect(Token::StatOut) {
                        Ok(v) => v,
                        Err(e) => {
                            return Err(e);
                        },
                    };
                    let mut p = open.pos;
                    p.extend(&cl.pos);
                    Ok(Located { item: Statement::While(c, b), pos: p })
                } else if str_eq(kw.as_str(), "loop") {
                    let b = match Block::parse(parser) {
                        Ok(v) => v,
                        Err(e) => {
                            return Err(e);
                        },
                    };
                    let cl = match parser.token_expect(Token::StatOut) {
                        Ok(v) => v,
                        Err(e) => {
                            return Err(e);
                        },
                    };
                    let mut p = open.pos;
                    p.extend(&cl.pos);
                    Ok(Located { item: Statement::Loop(b), pos: p })
                } else if str_eq(kw.as_str(), "break") {
                    let cl = match parser.token_expect(Token::StatOut) {
                        Ok(v) => v,
                        Err(e) => {
                            return Err(e);
                        },
                    };
                    let mut p = open.pos;
                    p.extend(&cl.pos);
                    Ok(Located { item: Statement::Break, pos: p })
                } else if str_eq(kw.as_str(), "next") {
                    let cl = match parser.token_expect(Token::StatOut) {
                        Ok(v) => v,
                        Err(e) => {
                            return Err(e);
                        },
                    };
                    let mut p = open.pos;
                    p.extend(&cl.pos);
                    Ok(Located { item: Statement::Next, pos: p })
                } else if str_eq(kw.as_str(), "return") {
                    let v = match Value::parse(parser) {
                        Ok(v) => v,
                        Err(e) => {
                            return Err(e);
                        },
                    };
                    let cl = match parser.token_expect(Token::StatOut) {
                        Ok(v) => v,
                        Err(e) => {
                            return Err(e);
                        },
                    };
                    let mut p = open.pos;
                    p.extend(&cl.pos);
                    let item = match v {
                        Value::Expr(e) => Statement::Return(e),
                        Value::Cond(c) => Statement::ReturnCondition(c),
                    };
                    Ok(Located { item, pos: p })
                } else {
                    Err(
                        fail(
                            parser,
                            ErrorKind::UnknownSectionOrKeyword(kw),
                            Some(kw_tok.pos),
                        ),
                    )
                }
            },
            other => Err(
                fail(
                    parser,
                    ErrorKind::UnexpectedToken { expected: Expected::Keyword, got: other },
                    Some(kw_tok.pos),
                ),
            ),
        }
    }
}

impl Block {
    /// Parse one block, exactly as `sp_block` says.
    pub fn parse(parser: &mut Parser) -> (r: Result<Located<Block>, Error>)
        requires
            old(parser).wf(),
        ensures
            final(parser).wf(),
            final(parser).tokens == old(parser).tokens,
            final(parser).path == old(parser).path,
            final(parser).idx >= old(parser).idx,
            match r {
                Ok(lb) => {
                    &&& sp_block(old(parser).tokens@, old(parser).idx as int)
                        == SpRes::Good(lblock_view(lb), final(parser).idx as int)
                    &&& final(parser).idx > old(parser).idx
                },
                Err(e) => {
                    &&& sp_block(old(parser).tokens@, old(parser).idx as int) matches
                        SpRes::Bad(k, p) && e.kind == k && e.pos == p
                    &&& e.path == old(parser).path
                },
            },
        decreases old(parser).tokens@.len() - old(parser).idx, 7int,
    {
        let open = match parser.token_expect(Token::BodyIn) {
            Ok(v) => v,
            Err(e) => {
                return Err(e);
            },
        };
        let ss = match parse_stmts(parser) {
            Ok(v) => v,
            Err(e) => {
                return Err(e);
            },
        };
        let cl = match parser.token_expect(Token::BodyOut) {
            Ok(v) => v,
            Err(e) => {
                return Err(e);
            },
        };
        let mut p = open.pos;
        p.extend(&cl.pos);
        Ok(Located { item: Block { statements: ss }, pos: p })
    }
}

impl Expression {
    /// Parse one expression, exactly as `sp_expression` says.
    pub fn parse(parser: &mut Parser) -> (r: Result<Located<Expression>, Error>)
        requires
            old(parser).wf(),
        ensures
            final(parser).wf(),
            final(parser).tokens == old(parser).tokens,
            final(parser).path == old(parser).path,
            final(parser).idx >= old(parser).idx,
            match r {
                Ok(node) => {
                    &&& sp_expression(old(parser).tokens@, old(parser).idx as int)
                        == SpRes::Good(node, final(parser).idx as int)
                    &&& final(parser).idx > old(parser).idx
                },
                Err(e) => {
                    &&& sp_expression(old(parser).tokens@, old(parser).idx as int) matches
                        SpRes::Bad(k, p) && e.kind == k && e.pos == p
                    &&& e.path == old(parser).path
                },
            },
        decreases old(parser).tokens@.len() - old(parser).idx, 0int,
    {
        let t = match parser.token_check() {
            Ok(t) => t,
            Err(e) => {
                return Err(e);
            },
        };
        match t.item {
            Token::Number(n) => Ok(Located { item: Expression::Number(n), pos: t.pos }),
            Token::String(s) => Ok(Located { item: Expression::String(s), pos: t.pos }),
            Token::Word(w) => Ok(Located { item: Expression::ID(w), pos: t.pos }),
            Token::ExprIn => {
                let op_tok = match parser.token_check() {
                    Ok(t2) => t2,
                    Err(e) => {
                        return Err(e);
                    },
                };
                match op_tok.item {
                    Token::Word(w) => {
                        if str_eq(w.as_str(), "substr") {
                            let a = match Self::parse(parser) {
                                Ok(v) => v,
                                Err(e) => {
                                    return Err(e);
                                },
                            };
                            let b = match Self::parse(parser) {
                                Ok(v) => v,
                                Err(e) => {
                                    return Err(e);
                                },
                            };
                            let c = match Self::parse(parser) {
                                Ok(v) => v,
                                Err(e) => {
                                    return Err(e);
                                },
                            };
                            let cl = match parser.token_expect(Token::ExprOut) {
                                Ok(v) => v,
                                Err(e) => {
                                    return Err(e);
                                },
                            };
                            let mut p = t.pos;
                            p.extend(&cl.pos);
                            Ok(
                                Located {
                                    item: Expression::SubString(Box::new(a), Box::new(b), Box::new(c)),
                                    pos: p,
                                },
                            )
                        } else {
                            match op_lookup(w.as_str()) {
                                Some(k) => {
                                    let a = match Self::parse(parser) {
                                        Ok(v) => v,
                                        Err(e) => {
                                            return Err(e);
                                        },
                                    };
                                    let b = match Self::parse(parser) {
                                        Ok(v) => v,
                                        Err(e) => {
                                            return Err(e);
                                        },
                                    };
                                    let cl = match parser.token_expect(Token::ExprOut) {
                                        Ok(v) => v,
                                        Err(e) => {
                                            return Err(e);
                                        },
                                    };
                                    let mut p = t.pos;
                                    p.extend(&cl.pos);
                                    Ok(Located { item: binary_expr(k, a, b), pos: p })
                                },
                                None => Err(
                                    fail(
                                        parser,
                                        ErrorKind::UnexpectedToken {
                                            expected: Expected::Operator,
                                            got: Token::Word(w),
                                        },
                                        Some(op_tok.pos),
                                    ),
                                ),
                            }
                        }
                    },
                    other => Err(
                        fail(
                            parser,
                            ErrorKind::UnexpectedToken { expected: Expected::Operator, got: other },
                            Some(op_tok.pos),
                        ),
                    ),
                }
            },
            other => Err(
                fail(
                    parser,
                    ErrorKind::UnexpectedToken {
                        expected: Expected::Value(ValueType::Expression),
                        got: other,
                    },
                    Some(t.pos),
                ),
            ),
        }
    }
}


/// The members of a `data` section, up to its closing `}`; each member may
/// be terminated by `;`.
pub open spec fn sp_variables(toks: Seq<Located<Token>>, i: int) -> SpRes<Seq<Located<Variable>>>
    decreases toks.len() - i, 10int,
{
    if i >= toks.len() {
        SpRes::Bad(ErrorKind::UnexpectedEndOfInput, None)
    } else if (toks[i].item matches Token::BodyOut) {
        SpRes::Good(Seq::empty(), i)
    } else {
        match sp_variable(toks, i) {
            SpRes::Good(m, j) => if i < j && j <= toks.len() {
                let j2 = if j < toks.len() && (toks[j].item matches Token::End) {
                    j + 1
                } else {
                    j
                };
                match sp_variables(toks, j2) {
                    SpRes::Good(rest, k) => SpRes::Good(seq![m] + rest, k),
                    SpRes::Bad(k2, p) => SpRes::Bad(k2, p),
                }
            } else {
                SpRes::Bad(ErrorKind::UnexpectedEndOfInput, None)
            },
            SpRes::Bad(k2, p) => SpRes::Bad(k2, p),
        }
    }
}

/// The members of a `messages` section.
pub open spec fn sp_messages(toks: Seq<Located<Token>>, i: int) -> SpRes<Seq<Located<Message>>>
    decreases toks.len() - i, 10int,
{
    if i >= toks.len() {
        SpRes::Bad(ErrorKind::UnexpectedEndOfInput, None)
    } else if (toks[i].item matches Token::BodyOut) {
        SpRes::Good(Seq::empty(), i)
    } else {
        match sp_message(toks, i) {
            SpRes::Good(m, j) => if i < j && j <= toks.len() {
                let j2 = if j < toks.len() && (toks[j].item matches Token::End) {
                    j + 1
                } else {
                    j
                };
                match sp_messages(toks, j2) {
                    SpRes::Good(rest, k) => SpRes::Good(seq![m] + rest, k),
                    SpRes::Bad(k2, p) => SpRes::Bad(k2, p),
                }
            } else {
                SpRes::Bad(ErrorKind::UnexpectedEndOfInput, None)
            },
            SpRes::Bad(k2, p) => SpRes::Bad(k2, p),
        }
    }
}

/// The members of an `events` section: only the empty section parses while
/// the trigger vocabulary has no members.
pub open spec fn sp_events(toks: Seq<Located<Token>>, i: int) -> SpRes<Seq<Located<Event>>>
    decreases toks.len() - i, 10int,
{
    if i >= toks.len() {
        SpRes::Bad(ErrorKind::UnexpectedEndOfInput, None)
    } else if (toks[i].item matches Token::BodyOut) {
        SpRes::Good(Seq::empty(), i)
    } else {
        match sp_event(toks, i) {
            SpRes::Good(m, j) => if i < j && j <= toks.len() {
                let j2 = if j < toks.len() && (toks[j].item matches Token::End) {
                    j + 1
                } else {
                    j
                };
                match sp_events(toks, j2) {
                    SpRes::Good(rest, k) => SpRes::Good(seq![m] + rest, k),
                    SpRes::Bad(k2, p) => SpRes::Bad(k2, p),
                }
            } else {
                SpRes::Bad(ErrorKind::UnexpectedEndOfInput, None)
            },
            SpRes::Bad(k2, p) => SpRes::Bad(k2, p),
        }
    }
}

/// The members of a `procedures` section.
pub open spec fn sp_procedures(toks: Seq<Located<Token>>, i: int) -> SpRes<
    Seq<Located<ProcedureV>>,
>
    decreases toks.len() - i, 10int,
{
    if i >= toks.len() {
        SpRes::Bad(ErrorKind::UnexpectedEndOfInput, None)
    } else if (toks[i].item matches Token::BodyOut) {
        SpRes::Good(Seq::empty(), i)
    } else {
        match sp_procedure(toks, i) {
            SpRes::Good(m, j) => if i < j && j <= toks.len() {
                let j2 = if j < toks.len() && (toks[j].item matches Token::End) {
                    j + 1
                } else {
                    j
                };
                match sp_procedures(toks, j2) {
                    SpRes::Good(rest, k) => SpRes::Good(seq![m] + rest, k),
                    SpRes::Bad(k2, p) => SpRes::Bad(k2, p),
                }
            } else {
                SpRes::Bad(ErrorKind::UnexpectedEndOfInput, None)
            },
            SpRes::Bad(k2, p) => SpRes::Bad(k2, p),
        }
    }
}

/// The members of a `functions` section.
pub open spec fn sp_functions(toks: Seq<Located<Token>>, i: int) -> SpRes<Seq<Located<FunctionV>>>
    decreases toks.len() - i, 10int,
{
    if i >= toks.len() {
        SpRes::Bad(ErrorKind::UnexpectedEndOfInput, None)
    } else if (toks[i].item matches Token::BodyOut) {
        SpRes::Good(Seq::empty(), i)
    } else {
        match sp_function(toks, i) {
            SpRes::Good(m, j) => if i < j && j <= toks.len() {
                let j2 = if j < toks.len() && (toks[j].item matches Token::End) {
                    j + 1
                } else {
                    j
                };
                match sp_functions(toks, j2) {
                    SpRes::Good(rest, k) => SpRes::Good(seq![m] + rest, k),
                    SpRes::Bad(k2, p) => SpRes::Bad(k2, p),
                }
            } else {
                SpRes::Bad(ErrorKind::UnexpectedEndOfInput, None)
            },
            SpRes::Bad(k2, p) => SpRes::Bad(k2, p),
        }
    }
}

/// Parse the members of a `data` section, exactly as `sp_variables` says.
fn parse_variables(parser: &mut Parser) -> (r: Result<Vec<Located<Variable>>, Error>)
    requires
        old(parser).wf(),
    ensures
        final(parser).wf(),
        final(parser).tokens == old(parser).tokens,
        final(parser).path == old(parser).path,
        final(parser).idx >= old(parser).idx,
        match r {
            Ok(v) => sp_variables(old(parser).tokens@, old(parser).idx as int)
                == SpRes::Good(v@, final(parser).idx as int),
            Err(e) => {
                &&& sp_variables(old(parser).tokens@, old(parser).idx as int) matches
                    SpRes::Bad(k, p) && e.kind == k && e.pos == p
                &&& e.path == old(parser).path
            },
        },
    decreases old(parser).tokens@.len() - old(parser).idx, 10int,
{
    let done = match parser.token_ref() {
        Some(lt) => matches!(lt.item, Token::BodyOut),
        None => {
            return Err(fail(parser, ErrorKind::UnexpectedEndOfInput, None));
        },
    };
    if done {
        return Ok(Vec::new());
    }
    let m = match Variable::parse(parser) {
        Ok(v) => v,
        Err(e) => {
            return Err(e);
        },
    };
    parser.token_skip(Token::End);
    let mut rest = match parse_variables(parser) {
        Ok(v) => v,
        Err(e) => {
            return Err(e);
        },
    };
    let mut out: Vec<Located<Variable>> = Vec::new();
    out.push(m);
    out.append(&mut rest);
    Ok(out)
}

/// Parse the members of a `messages` section, exactly as `sp_messages` says.
fn parse_messages(parser: &mut Parser) -> (r: Result<Vec<Located<Message>>, Error>)
    requires
        old(parser).wf(),
    ensures
        final(parser).wf(),
        final(parser).tokens == old(parser).tokens,
        final(parser).path == old(parser).path,
        final(parser).idx >= old(parser).idx,
        match r {
            Ok(v) => sp_messages(old(parser).tokens@, old(parser).idx as int)
                == SpRes::Good(v@, final(parser).idx as int),
            Err(e) => {
                &&& sp_messages(old(parser).tokens@, old(parser).idx as int) matches
                    SpRes::Bad(k, p) && e.kind == k && e.pos == p
                &&& e.path == old(parser).path
            },
        },
    decreases old(parser).tokens@.len() - old(parser).idx, 10int,
{
    let done = match parser.token_ref() {
        Some(lt) => matches!(lt.item, Token::BodyOut),
        None => {
            return Err(fail(parser, ErrorKind::UnexpectedEndOfInput, None));
        },
    };
    if done {
        return Ok(Vec::new());
    }
    let m = match Message::parse(parser) {
        Ok(v) => v,
        Err(e) => {
            return Err(e);
        },
    };
    parser.token_skip(Token::End);
    let mut rest = match parse_messages(parser) {
        Ok(v) => v,
        Err(e) => {
            return Err(e);
        },
    };
    let mut out: Vec<Located<Message>> = Vec::new();
    out.push(m);
    out.append(&mut rest);
    Ok(out)
}

/// Parse the members of an `events` section, exactly as `sp_events` says.
fn parse_events(parser: &mut Parser) -> (r: Result<Vec<Located<Event>>, Error>)
    requires
        old(parser).wf(),
    ensures
        final(parser).wf(),
        final(parser).tokens == old(parser).tokens,
        final(parser).path == old(parser).path,
        final(parser).idx >= old(parser).idx,
        match r {
            Ok(v) => sp_events(old(parser).tokens@, old(parser).idx as int)
                == SpRes::Good(v@, final(parser).idx as int),
            Err(e) => {
                &&& sp_events(old(parser).tokens@, old(parser).idx as int) matches
                    SpRes::Bad(k, p) && e.kind == k && e.pos == p
                &&& e.path == old(parser).path
            },
        },
    decreases old(parser).tokens@.len() - old(parser).idx, 10int,
{
    let done = match parser.token_ref() {
        Some(lt) => matches!(lt.item, Token::BodyOut),
        None => {
            return Err(fail(parser, ErrorKind::UnexpectedEndOfInput, None));
        },
    };
    if done {
        return Ok(Vec::new());
    }
    match Event::parse(parser) {
        Ok(_) => Ok(Vec::new()),
        Err(e) => Err(e),
    }
}

/// Parse the members of a `procedures` section, exactly as `sp_procedures`
/// says.
fn parse_procedures(parser: &mut Parser) -> (r: Result<Vec<Located<Procedure>>, Error>)
    requires
        old(parser).wf(),
    ensures
        final(parser).wf(),
        final(parser).tokens == old(parser).tokens,
        final(parser).path == old(parser).path,
        final(parser).idx >= old(parser).idx,
        match r {
            Ok(v) => sp_procedures(old(parser).tokens@, old(parser).idx as int)
                == SpRes::Good(lprocs_view(v@), final(parser).idx as int),
            Err(e) => {
                &&& sp_procedures(old(parser).tokens@, old(parser).idx as int) matches
                    SpRes::Bad(k, p) && e.kind == k && e.pos == p
                &&& e.path == old(parser).path
            },
        },
    decreases old(parser).tokens@.len() - old(parser).idx, 10int,
{
    let done = match parser.token_ref() {
        Some(lt) => matches!(lt.item, Token::BodyOut),
        None => {
            return Err(fail(parser, ErrorKind::UnexpectedEndOfInput, None));
        },
    };
    if done {
        return Ok(Vec::new());
    }
    let m = match Procedure::parse(parser) {
        Ok(v) => v,
        Err(e) => {
            return Err(e);
        },
    };
    parser.token_skip(Token::End);
    let mut rest = match parse_procedures(parser) {
        Ok(v) => v,
        Err(e) => {
            return Err(e);
        },
    };
    let ghost pre = rest@;
    let mut out: Vec<Located<Procedure>> = Vec::new();
    out.push(m);
    out.append(&mut rest);
    proof {
        assert(out@.subrange(1, out@.len() as int) =~= pre);
    }
    Ok(out)
}

/// Parse the members of a `functions` section, exactly as `sp_functions`
/// says.
fn parse_functions(parser: &mut Parser) -> (r: Result<Vec<Located<Function>>, Error>)
    requires
        old(parser).wf(),
    ensures
        final(parser).wf(),
        final(parser).tokens == old(parser).tokens,
        final(parser).path == old(parser).path,
        final(parser).idx >= old(parser).idx,
        match r {
            Ok(v) => sp_functions(old(parser).tokens@, old(parser).idx as int)
                == SpRes::Good(lfuncs_view(v@), final(parser).idx as int),
            Err(e) => {
                &&& sp_functions(old(parser).tokens@, old(parser).idx as int) matches
                    SpRes::Bad(k, p) && e.kind == k && e.pos == p
                &&& e.path == old(parser).path
            },
        },
    decreases old(parser).tokens@.len() - old(parser).idx, 10int,
{
    let done = match parser.token_ref() {
        Some(lt) => matches!(lt.item, Token::BodyOut),
        None => {
            return Err(fail(parser, ErrorKind::UnexpectedEndOfInput, None));
        },
    };
    if done {
        return Ok(Vec::new());
    }
    let m = match Function::parse(parser) {
        Ok(v) => v,
        Err(e) => {
            return Err(e);
        },
    };
    parser.token_skip(Token::End);
    let mut rest = match parse_functions(parser) {
        Ok(v) => v,
        Err(e) => {
            return Err(e);
        },
    };
    let ghost pre = rest@;
    let mut out: Vec<Located<Function>> = Vec::new();
    out.push(m);
    out.append(&mut rest);
    proof {
        assert(out@.subrange(1, out@.len() as int) =~= pre);
    }
    Ok(out)
}

/// Viewing located procedures distributes over concatenation.
proof fn lemma_lprocs_view_concat(a: Seq<Located<Procedure>>, b: Seq<Located<Procedure>>)
    ensures
        lprocs_view(a + b) == lprocs_view(a) + lprocs_view(b),
    decreases a,
{
    if a.len() == 0 {
        assert(a + b =~= b);
        assert(lprocs_view(a) + lprocs_view(b) =~= lprocs_view(b));
    } else {
        lemma_lprocs_view_concat(a.subrange(1, a.len() as int), b);
        assert((a + b).len() > 0);
        assert((a + b)[0] == a[0]);
        assert((a + b).subrange(1, (a + b).len() as int) =~= a.subrange(1, a.len() as int) + b);
        assert(lprocs_view(a + b) =~= lprocs_view(a) + lprocs_view(b));
    }
}

/// Viewing located functions distributes over concatenation.
proof fn lemma_lfuncs_view_concat(a: Seq<Located<Function>>, b: Seq<Located<Function>>)
    ensures
        lfuncs_view(a + b) == lfuncs_view(a) + lfuncs_view(b),
    decreases a,
{
    if a.len() == 0 {
        assert(a + b =~= b);
        assert(lfuncs_view(a) + lfuncs_view(b) =~= lfuncs_view(b));
    } else {
        lemma_lfuncs_view_concat(a.subrange(1, a.len() as int), b);
        assert((a + b).len() > 0);
        assert((a + b)[0] == a[0]);
        assert((a + b).subrange(1, (a + b).len() as int) =~= a.subrange(1, a.len() as int) + b);
        assert(lfuncs_view(a + b) =~= lfuncs_view(a) + lfuncs_view(b));
    }
}

/// The top-level rule from an accumulated program: the end of input closes
/// the program; a known section word opens `{` members `}` whose members are
/// appended, in order, to the section's list; anything else is the first
/// failure. The program's span accumulates each section's closing brace.
pub open spec fn sp_sections(
    toks: Seq<Located<Token>>,
    i: int,
    acc: ProgramV,
    pos: Position,
) -> SpRes<(ProgramV, Position)>
    decreases toks.len() - i, 11int,
{
    if i >= toks.len() {
        SpRes::Good((acc, pos), i)
    } else {
        match toks[i].item {
            Token::Word(w) => {
                if w@ == "data"@ {
                    match sp_expect(toks, i + 1, Token::BodyIn) {
                        SpRes::Good(_, i2) => match sp_variables(toks, i2) {
                            SpRes::Good(ms, j) => match sp_expect(toks, j, Token::BodyOut) {
                                SpRes::Good(cl, j1) => if i < j1 && j1 <= toks.len() {
                                    sp_sections(
                                        toks,
                                        j1,
                                        ProgramV { variables: acc.variables + ms, ..acc },
                                        spec_extend(pos, cl.pos),
                                    )
                                } else {
                                    SpRes::Bad(ErrorKind::UnexpectedEndOfInput, None)
                                },
                                SpRes::Bad(k, p) => SpRes::Bad(k, p),
                            },
                            SpRes::Bad(k, p) => SpRes::Bad(k, p),
                        },
                        SpRes::Bad(k, p) => SpRes::Bad(k, p),
                    }
                } else if w@ == "messages"@ {
                    match sp_expect(toks, i + 1, Token::BodyIn) {
                        SpRes::Good(_, i2) => match sp_messages(toks, i2) {
                            SpRes::Good(ms, j) => match sp_expect(toks, j, Token::BodyOut) {
                                SpRes::Good(cl, j1) => if i < j1 && j1 <= toks.len() {
                                    sp_sections(
                                        toks,
                                        j1,
                                        ProgramV { messages: acc.messages + ms, ..acc },
                                        spec_extend(pos, cl.pos),
                                    )
                                } else {
                                    SpRes::Bad(ErrorKind::UnexpectedEndOfInput, None)
                                },
                                SpRes::Bad(k, p) => SpRes::Bad(k, p),
                            },
                            SpRes::Bad(k, p) => SpRes::Bad(k, p),
                        },
                        SpRes::Bad(k, p) => SpRes::Bad(k, p),
                    }
                } else if w@ == "events"@ {
                    match sp_expect(toks, i + 1, Token::BodyIn) {
                        SpRes::Good(_, i2) => match sp_events(toks, i2) {
                            SpRes::Good(ms, j) => match sp_expect(toks, j, Token::BodyOut) {
                                SpRes::Good(cl, j1) => if i < j1 && j1 <= toks.len() {
                                    sp_sections(
                                        toks,
                                        j1,
                                        ProgramV { events: acc.events + ms, ..acc },
                                        spec_extend(pos, cl.pos),
                                    )
                                } else {
                                    SpRes::Bad(ErrorKind::UnexpectedEndOfInput, None)
                                },
                                SpRes::Bad(k, p) => SpRes::Bad(k, p),
                            },
                            SpRes::Bad(k, p) => SpRes::Bad(k, p),
                        },
                        SpRes::Bad(k, p) => SpRes::Bad(k, p),
                    }
                } else if w@ == "procedures"@ {
                    match sp_expect(toks, i + 1, Token::BodyIn) {
                        SpRes::Good(_, i2) => match sp_procedures(toks, i2) {
                            SpRes::Good(ms, j) => match sp_expect(toks, j, Token::BodyOut) {
                                SpRes::Good(cl, j1) => if i < j1 && j1 <= toks.len() {
                                    sp_sections(
                                        toks,
                                        j1,
                                        ProgramV { procedures: acc.procedures + ms, ..acc },
                                        spec_extend(pos, cl.pos),
                                    )
                                } else {
                                    SpRes::Bad(ErrorKind::UnexpectedEndOfInput, None)
                                },
                                SpRes::Bad(k, p) => SpRes::Bad(k, p),
                            },
                            SpRes::Bad(k, p) => SpRes::Bad(k, p),
                        },
                        SpRes::Bad(k, p) => SpRes::Bad(k, p),
                    }
                } else if w@ == "functions"@ {
                    match sp_expect(toks, i + 1, Token::BodyIn) {
                        SpRes::Good(_, i2) => match sp_functions(toks, i2) {
                            SpRes::Good(ms, j) => match sp_expect(toks, j, Token::BodyOut) {
                                SpRes::Good(cl, j1) => if i < j1 && j1 <= toks.len() {
                                    sp_sections(
                                        toks,
                                        j1,
                                        ProgramV { functions: acc.functions + ms, ..acc },
                                        spec_extend(pos, cl.pos),
                                    )
                                } else {
                                    SpRes::Bad(ErrorKind::UnexpectedEndOfInput, None)
                                },
                                SpRes::Bad(k, p) => SpRes::Bad(k, p),
                            },
                            SpRes::Bad(k, p) => SpRes::Bad(k, p),
                        },
                        SpRes::Bad(k, p) => SpRes::Bad(k, p),
                    }
                } else {
                    SpRes::Bad(ErrorKind::UnknownSectionOrKeyword(w), Some(toks[i].pos))
                }
            },
            _ => SpRes::Bad(
                ErrorKind::UnexpectedToken { expected: Expected::Section, got: toks[i].item },
                Some(toks[i].pos),
            ),
        }
    }
}

/// The empty program shape.
pub open spec fn sp_empty_program() -> ProgramV {
    ProgramV {
        variables: Seq::empty(),
        messages: Seq::empty(),
        events: Seq::empty(),
        procedures: Seq::empty(),
        functions: Seq::empty(),
    }
}

/// The program rule from the start: sections folded over the empty program
/// and the zero span.
pub open spec fn sp_program(toks: Seq<Located<Token>>, i: int) -> SpRes<(ProgramV, Position)> {
    sp_sections(
        toks,
        i,
        sp_empty_program(),
        Position { ln_start: 0, ln_end: 0, col_start: 0, col_end: 0 },
    )
}

/// Parse every remaining section into the accumulated program, exactly as
/// `sp_sections` says.
#[verifier::rlimit(100)]
fn parse_sections(parser: &mut Parser, program: &mut Program, pos: &mut Position) -> (r: Result<
    (),
    Error,
>)
    requires
        old(parser).wf(),
    ensures
        final(parser).wf(),
        final(parser).tokens == old(parser).tokens,
        final(parser).path == old(parser).path,
        final(parser).idx >= old(parser).idx,
        match r {
            Ok(_) => sp_sections(
                old(parser).tokens@,
                old(parser).idx as int,
                program_view(*old(program)),
                *old(pos),
            ) == SpRes::Good(
                (program_view(*final(program)), *final(pos)),
                final(parser).idx as int,
            ),
            Err(e) => {
                &&& sp_sections(
                    old(parser).tokens@,
                    old(parser).idx as int,
                    program_view(*old(program)),
                    *old(pos),
                ) matches SpRes::Bad(k, p) && e.kind == k && e.pos == p
                &&& e.path == old(parser).path
            },
        },
    decreases old(parser).tokens@.len() - old(parser).idx, 11int,
{
    let lt = match parser.token() {
        None => {
            return Ok(());
        },
        Some(lt) => lt,
    };
    match lt.item {
        Token::Word(w) => {
            if str_eq(w.as_str(), "data") {
                let _ = match parser.token_expect(Token::BodyIn) {
                    Ok(v) => v,
                    Err(e) => {
                        return Err(e);
                    },
                };
                let mut ms = match parse_variables(parser) {
                    Ok(v) => v,
                    Err(e) => {
                        return Err(e);
                    },
                };
                let cl = match parser.token_expect(Token::BodyOut) {
                    Ok(v) => v,
                    Err(e) => {
                        return Err(e);
                    },
                };
                program.variables.append(&mut ms);
                pos.extend(&cl.pos);
                parse_sections(parser, program, pos)
            } else if str_eq(w.as_str(), "messages") {
                let _ = match parser.token_expect(Token::BodyIn) {
                    Ok(v) => v,
                    Err(e) => {
                        return Err(e);
                    },
                };
                let mut ms = match parse_messages(parser) {
                    Ok(v) => v,
                    Err(e) => {
                        return Err(e);
                    },
                };
                let cl = match parser.token_expect(Token::BodyOut) {
                    Ok(v) => v,
                    Err(e) => {
                        return Err(e);
                    },
                };
                program.messages.append(&mut ms);
                pos.extend(&cl.pos);
                parse_sections(parser, program, pos)
            } else if str_eq(w.as_str(), "events") {
                let _ = match parser.token_expect(Token::BodyIn) {
                    Ok(v) => v,
                    Err(e) => {
                        return Err(e);
                    },
                };
                let mut ms = match parse_events(parser) {
                    Ok(v) => v,
                    Err(e) => {
                        return Err(e);
                    },
                };
                let cl = match parser.token_expect(Token::BodyOut) {
                    Ok(v) => v,
                    Err(e) => {
                        return Err(e);
                    },
                };
                program.events.append(&mut ms);
                pos.extend(&cl.pos);
                parse_sections(parser, program, pos)
            } else if str_eq(w.as_str(), "procedures") {
                let _ = match parser.token_expect(Token::BodyIn) {
                    Ok(v) => v,
                    Err(e) => {
                        return Err(e);
                    },
                };
                let mut ms = match parse_procedures(parser) {
                    Ok(v) => v,
                    Err(e) => {
                        return Err(e);
                    },
                };
                let cl = match parser.token_expect(Token::BodyOut) {
                    Ok(v) => v,
                    Err(e) => {
                        return Err(e);
                    },
                };
                proof {
                    lemma_lprocs_view_concat(program.procedures@, ms@);
                }
                program.procedures.append(&mut ms);
                pos.extend(&cl.pos);
                parse_sections(parser, program, pos)
            } else if str_eq(w.as_str(), "functions") {
                let _ = match parser.token_expect(Token::BodyIn) {
                    Ok(v) => v,
                    Err(e) => {
                        return Err(e);
                    },
                };
                let mut ms = match parse_functions(parser) {
                    Ok(v) => v,
                    Err(e) => {
                        return Err(e);
                    },
                };
                let cl = match parser.token_expect(Token::BodyOut) {
                    Ok(v) => v,
                    Err(e) => {
                        return Err(e);
                    },
                };
                proof {
                    lemma_lfuncs_view_concat(program.functions@, ms@);
                }
                program.functions.append(&mut ms);
                pos.extend(&cl.pos);
                parse_sections(parser, program, pos)
            } else {
                Err(fail(parser, ErrorKind::UnknownSectionOrKeyword(w), Some(lt.pos)))
            }
        },
        other => Err(
            fail(
                parser,
                ErrorKind::UnexpectedToken { expected: Expected::Section, got: other },
                Some(lt.pos),
            ),
        ),
    }
}

impl Program {
    /// Parse a whole program, exactly as `sp_program` says: every section's
    /// members land in its list in declaration order.
    pub fn parse(parser: &mut Parser) -> (r: Result<Located<Program>, Error>)
        requires
            old(parser).wf(),
        ensures
            final(parser).wf(),
            final(parser).tokens == old(parser).tokens,
            final(parser).path == old(parser).path,
            final(parser).idx >= old(parser).idx,
            match r {
                Ok(lp) => sp_program(old(parser).tokens@, old(parser).idx as int)
                    == SpRes::Good((program_view(lp.item), lp.pos), final(parser).idx as int),
                Err(e) => {
                    &&& sp_program(old(parser).tokens@, old(parser).idx as int) matches
                        SpRes::Bad(k, p) && e.kind == k && e.pos == p
                    &&& e.path == old(parser).path
                },
            },
    {
        let mut program = Program::new();
        let mut pos = Position::start();
        proof {
            assert(program_view(program) =~= sp_empty_program());
        }
        match parse_sections(parser, &mut program, &mut pos) {
            Ok(_) => Ok(Located { item: program, pos }),
            Err(e) => Err(e),
        }
    }
}

/// The boundary entry point of the parsing stage: build a cursor over the
/// token sequence and parse the whole program, exactly as `sp_program` says.
pub fn parse(path: &String, tokens: Vec<Located<Token>>) -> (r: Result<Located<Program>, Error>)
    ensures
        match r {
            Ok(lp) => sp_program(tokens@, 0) matches SpRes::Good(pv, _)
                && pv == (program_view(lp.item), lp.pos),
            Err(e) => {
                &&& sp_program(tokens@, 0) matches SpRes::Bad(k, p) && e.kind == k && e.pos == p
                &&& e.path == *path
            },
        },
{
    let mut parser = Parser::new(path.clone(), tokens);
    Program::parse(&mut parser)
}


/// A sequence is a prefix of itself.
proof fn lemma_prefix_refl<T>(a: Seq<T>)
    ensures
        a.is_prefix_of(a),
{
    assert(a.subrange(0, a.len() as int) =~= a);
}

/// A sequence is a prefix of anything it is extended to.
proof fn lemma_prefix_concat<T>(a: Seq<T>, b: Seq<T>)
    ensures
        a.is_prefix_of(a + b),
{
    assert((a + b).subrange(0, a.len() as int) =~= a);
}

/// Prefixes compose.
proof fn lemma_prefix_trans<T>(a: Seq<T>, b: Seq<T>, c: Seq<T>)
    requires
        a.is_prefix_of(b),
        b.is_prefix_of(c),
    ensures
        a.is_prefix_of(c),
{
    assert(c.subrange(0, a.len() as int) =~= a);
}

/// Every section list of `acc` stands, in order, at the front of the same
/// list of `pv`.
pub open spec fn sections_keep(acc: ProgramV, pv: ProgramV) -> bool {
    &&& acc.variables.is_prefix_of(pv.variables)
    &&& acc.messages.is_prefix_of(pv.messages)
    &&& acc.events.is_prefix_of(pv.events)
    &&& acc.procedures.is_prefix_of(pv.procedures)
    &&& acc.functions.is_prefix_of(pv.functions)
}

/// Order preservation: the top-level rule only ever appends declarations at
/// the tail of a section's list, so whatever program it is handed stays, in
/// declaration order, at the front of what it yields. With the empty program
/// handed in, the lists hold the members in declaration order.
pub proof fn lemma_sections_preserve_order(
    toks: Seq<Located<Token>>,
    i: int,
    acc: ProgramV,
    pos: Position,
)
    ensures
        sp_sections(toks, i, acc, pos) matches SpRes::Good(out, _) ==> sections_keep(acc, out.0),
    decreases toks.len() - i, 12int,
{
    if i >= toks.len() {
        lemma_prefix_refl(acc.variables);
        lemma_prefix_refl(acc.messages);
        lemma_prefix_refl(acc.events);
        lemma_prefix_refl(acc.procedures);
        lemma_prefix_refl(acc.functions);
    } else {
        match toks[i].item {
            Token::Word(w) => {
                if w@ == "data"@ {
                    if let SpRes::Good(_, i2) = sp_expect(toks, i + 1, Token::BodyIn) {
                        if let SpRes::Good(ms, j) = sp_variables(toks, i2) {
                            if let SpRes::Good(cl, j1) = sp_expect(toks, j, Token::BodyOut) {
                                if i < j1 && j1 <= toks.len() {
                                    let acc2 = ProgramV { variables: acc.variables + ms, ..acc };
                                    lemma_sections_preserve_order(
                                        toks,
                                        j1,
                                        acc2,
                                        spec_extend(pos, cl.pos),
                                    );
                                    if let SpRes::Good(out, _) = sp_sections(
                                        toks,
                                        j1,
                                        acc2,
                                        spec_extend(pos, cl.pos),
                                    ) {
                                        lemma_prefix_concat(acc.variables, ms);
                                        lemma_prefix_trans(
                                            acc.variables,
                                            acc2.variables,
                                            out.0.variables,
                                        );
                                    }
                                }
                            }
                        }
                    }
                } else if w@ == "messages"@ {
                    if let SpRes::Good(_, i2) = sp_expect(toks, i + 1, Token::BodyIn) {
                        if let SpRes::Good(ms, j) = sp_messages(toks, i2) {
                            if let SpRes::Good(cl, j1) = sp_expect(toks, j, Token::BodyOut) {
                                if i < j1 && j1 <= toks.len() {
                                    let acc2 = ProgramV { messages: acc.messages + ms, ..acc };
                                    lemma_sections_preserve_order(
                                        toks,
                                        j1,
                                        acc2,
                                        spec_extend(pos, cl.pos),
                                    );
                                    if let SpRes::Good(out, _) = sp_sections(
                                        toks,
                                        j1,
                                        acc2,
                                        spec_extend(pos, cl.pos),
                                    ) {
                                        lemma_prefix_concat(acc.messages, ms);
                                        lemma_prefix_trans(
                                            acc.messages,
                                            acc2.messages,
                                            out.0.messages,
                                        );
                                    }
                                }
                            }
                        }
                    }
                } else if w@ == "events"@ {
                    if let SpRes::Good(_, i2) = sp_expect(toks, i + 1, Token::BodyIn) {
                        if let SpRes::Good(ms, j) = sp_events(toks, i2) {
                            if let SpRes::Good(cl, j1) = sp_expect(toks, j, Token::BodyOut) {
                                if i < j1 && j1 <= toks.len() {
                                    let acc2 = ProgramV { events: acc.events + ms, ..acc };
                                    lemma_sections_preserve_order(
                                        toks,
                                        j1,
                                        acc2,
                                        spec_extend(pos, cl.pos),
                                    );
                                    if let SpRes::Good(out, _) = sp_sections(
                                        toks,
                                        j1,
                                        acc2,
                                        spec_extend(pos, cl.pos),
                                    ) {
                                        lemma_prefix_concat(acc.events, ms);
                                        lemma_prefix_trans(acc.events, acc2.events, out.0.events);
                                    }
                                }
                            }
                        }
                    }
                } else if w@ == "procedures"@ {
                    if let SpRes::Good(_, i2) = sp_expect(toks, i + 1, Token::BodyIn) {
                        if let SpRes::Good(ms, j) = sp_procedures(toks, i2) {
                            if let SpRes::Good(cl, j1) = sp_expect(toks, j, Token::BodyOut) {
                                if i < j1 && j1 <= toks.len() {
                                    let acc2 = ProgramV { procedures: acc.procedures + ms, ..acc };
                                    lemma_sections_preserve_order(
                                        toks,
                                        j1,
                                        acc2,
                                        spec_extend(pos, cl.pos),
                                    );
                                    if let SpRes::Good(out, _) = sp_sections(
                                        toks,
                                        j1,
                                        acc2,
                                        spec_extend(pos, cl.pos),
                                    ) {
                                        lemma_prefix_concat(acc.procedures, ms);
                                        lemma_prefix_trans(
                                            acc.procedures,
                                            acc2.procedures,
                                            out.0.procedures,
                                        );
                                    }
                                }
                            }
                        }
                    }
                } else if w@ == "functions"@ {
                    if let SpRes::Good(_, i2) = sp_expect(toks, i + 1, Token::BodyIn) {
                        if let SpRes::Good(ms, j) = sp_functions(toks, i2) {
                            if let SpRes::Good(cl, j1) = sp_expect(toks, j, Token::BodyOut) {
                                if i < j1 && j1 <= toks.len() {
                                    let acc2 = ProgramV { functions: acc.functions + ms, ..acc };
                                    lemma_sections_preserve_order(
                                        toks,
                                        j1,
                                        acc2,
                                        spec_extend(pos, cl.pos),
                                    );
                                    if let SpRes::Good(out, _) = sp_sections(
                                        toks,
                                        j1,
                                        acc2,
                                        spec_extend(pos, cl.pos),
                                    ) {
                                        lemma_prefix_concat(acc.functions, ms);
                                        lemma_prefix_trans(
                                            acc.functions,
                                            acc2.functions,
                                            out.0.functions,
                                        );
                                    }
                                }
                            }
                        }
                    }
                }
            },
            _ => {},
        }
    }
}


/// Determinism: what a token sequence parses to is a function of the
/// sequence alone, so re-parsing an identical token sequence yields the same
/// program or the same failure, and `Program::parse` returns exactly that
/// value.
pub proof fn lemma_parse_deterministic(toks1: Seq<Located<Token>>, toks2: Seq<Located<Token>>)
    requires
        toks1 == toks2,
    ensures
        sp_program(toks1, 0) == sp_program(toks2, 0),
{
}

} // verus!
