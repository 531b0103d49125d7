use vstd::prelude::*;
use crate::position::{Located, Position};

verus! {

/// The two value categories of the language, used wherever a slot may hold
/// either: numeric/string-valued expressions and boolean-valued conditions.
#[derive(Debug, Clone, Copy, PartialEq, Eq, Structural)]
pub enum ValueType {
    Expression,
    Condition,
}

/// A numeric/string-valued term, enclosed in `( .. )`. A numeric literal
/// keeps its digit text.
#[derive(Debug, PartialEq)]
pub enum Expression {
    ID(String),
    Number(String),
    String(String),
    Add(Box<Located<Expression>>, Box<Located<Expression>>),
    Sub(Box<Located<Expression>>, Box<Located<Expression>>),
    Mul(Box<Located<Expression>>, Box<Located<Expression>>),
    Div(Box<Located<Expression>>, Box<Located<Expression>>),
    Pow(Box<Located<Expression>>, Box<Located<Expression>>),
    Mod(Box<Located<Expression>>, Box<Located<Expression>>),
    Max(Box<Located<Expression>>, Box<Located<Expression>>),
    Min(Box<Located<Expression>>, Box<Located<Expression>>),
    Join(Box<Located<Expression>>, Box<Located<Expression>>),
    Index(Box<Located<Expression>>, Box<Located<Expression>>),
    SubString(
        Box<Located<Expression>>,
        Box<Located<Expression>>,
        Box<Located<Expression>>,
    ),
    Contains(Box<Located<Expression>>, Box<Located<Expression>>),
}

/// A boolean-valued term, enclosed in `< .. >`. Comparisons are always over
/// two expressions, never condition-to-condition.
#[derive(Debug, PartialEq)]
pub enum Condition {
    True,
    False,
    And(Box<Located<Condition>>, Box<Located<Condition>>),
    Or(Box<Located<Condition>>, Box<Located<Condition>>),
    Not(Box<Located<Condition>>),
    EQ(Located<Expression>, Located<Expression>),
    NE(Located<Expression>, Located<Expression>),
    LT(Located<Expression>, Located<Expression>),
    GT(Located<Expression>, Located<Expression>),
    LE(Located<Expression>, Located<Expression>),
    GE(Located<Expression>, Located<Expression>),
}

/// Either kind of value, for slots whose category is decided by lookahead.
#[derive(Debug, PartialEq)]
pub enum Value {
    Expr(Located<Expression>),
    Cond(Located<Condition>),
}

/// A single instruction, enclosed in `[ .. ]`.
#[derive(Debug, PartialEq)]
pub enum Statement {
    SetExpression(Located<String>, Located<Expression>),
    SetCondition(Located<String>, Located<Condition>),
    If(Located<Condition>, Located<Block>),
    IfElse(Located<Condition>, Located<Block>, Located<Block>),
    Repeat(Located<Expression>, Located<Block>),
    While(Located<Condition>, Located<Block>),
    Loop(Located<Block>),
    Break,
    Next,
    Return(Located<Expression>),
    ReturnCondition(Located<Condition>),
}

/// An ordered sequence of statements, enclosed in `{ .. }`.
#[derive(Debug, PartialEq)]
pub struct Block {
    pub statements: Vec<Statement>,
}

/// The trigger vocabulary of event handlers: an intentionally open extension
/// point with no concrete vocabulary yet, to be populated once a runtime
/// defines its triggers. No grammar rule produces one, so no event can be
/// parsed until the vocabulary gains members.
#[derive(Debug, PartialEq)]
#[non_exhaustive]
pub struct Trigger {}

/// A handler run by an external runtime when a matching trigger fires.
#[derive(Debug, PartialEq)]
pub struct Event {
    pub trigger: Trigger,
    pub body: Block,
}

/// A bare name declared in a `messages { }` section; it carries no payload.
#[derive(Debug, PartialEq)]
pub struct Message(pub String);

impl Message {
    pub fn new(label: String) -> (r: Self)
        ensures
            r == Message(label),
    {
        Message(label)
    }
}

/// A `data { }` member: a name with an optional initializer expression.
#[derive(Debug, PartialEq)]
pub struct Variable {
    pub id: Located<String>,
    pub value: Option<Located<Expression>>,
}

impl Variable {
    pub fn new(id: Located<String>, value: Option<Located<Expression>>) -> (r: Self)
        ensures
            r == (Variable { id, value }),
    {
        Variable { id, value }
    }
}

/// A parameter: its name, the value category fixed by its enclosing bracket
/// pair, and an optional default of that category.
#[derive(Debug, PartialEq)]
pub struct Param {
    pub id: Located<String>,
    pub typ: ValueType,
    pub default: Option<Value>,
}

/// A named, parameterized block without a return value.
#[derive(Debug, PartialEq)]
pub struct Procedure {
    pub id: Located<String>,
    pub params: Vec<Located<Param>>,
    pub body: Block,
}

/// A named, parameterized block whose final production is a value of the
/// declared return category.
#[derive(Debug, PartialEq)]
pub struct Function {
    pub id: Located<String>,
    pub params: Vec<Located<Param>>,
    pub body: Block,
    pub return_type: ValueType,
}

/// The root aggregate: each section's members in declaration order.
#[derive(Debug, PartialEq)]
pub struct Program {
    pub variables: Vec<Located<Variable>>,
    pub messages: Vec<Located<Message>>,
    pub events: Vec<Located<Event>>,
    pub procedures: Vec<Located<Procedure>>,
    pub functions: Vec<Located<Function>>,
}

impl Program {
    pub fn new() -> (r: Self)
        ensures
            r.variables@ == Seq::<Located<Variable>>::empty(),
            r.messages@ == Seq::<Located<Message>>::empty(),
            r.events@ == Seq::<Located<Event>>::empty(),
            r.procedures@ == Seq::<Located<Procedure>>::empty(),
            r.functions@ == Seq::<Located<Function>>::empty(),
    {
        Program {
            variables: Vec::new(),
            messages: Vec::new(),
            events: Vec::new(),
            procedures: Vec::new(),
            functions: Vec::new(),
        }
    }
}

/// The mathematical shape of a statement: blocks abstracted to statement
/// sequences with their spans.
pub enum StatementV {
    SetExpression(Located<String>, Located<Expression>),
    SetCondition(Located<String>, Located<Condition>),
    If(Located<Condition>, BlockV),
    IfElse(Located<Condition>, BlockV, BlockV),
    Repeat(Located<Expression>, BlockV),
    While(Located<Condition>, BlockV),
    Loop(BlockV),
    Break,
    Next,
    Return(Located<Expression>),
    ReturnCondition(Located<Condition>),
}

/// The mathematical shape of a located block.
pub struct BlockV {
    pub statements: Seq<StatementV>,
    pub pos: Position,
}

/// The shape of a statement sequence, elementwise.
pub open spec fn stmts_view(ss: Seq<Statement>) -> Seq<StatementV>
    decreases ss,
{
    if ss.len() == 0 {
        Seq::empty()
    } else {
        seq![stmt_view(ss[0])] + stmts_view(ss.subrange(1, ss.len() as int))
    }
}

/// The shape of a located block.
pub open spec fn lblock_view(b: Located<Block>) -> BlockV
    decreases b,
{
    BlockV { statements: stmts_view(b.item.statements@), pos: b.pos }
}

/// The shape of a statement.
pub open spec fn stmt_view(s: Statement) -> StatementV
    decreases s,
{
    match s {
        Statement::SetExpression(id, e) => StatementV::SetExpression(id, e),
        Statement::SetCondition(id, c) => StatementV::SetCondition(id, c),
        Statement::If(c, b) => StatementV::If(c, lblock_view(b)),
        Statement::IfElse(c, b, e) => StatementV::IfElse(c, lblock_view(b), lblock_view(e)),
        Statement::Repeat(e, b) => StatementV::Repeat(e, lblock_view(b)),
        Statement::While(c, b) => StatementV::While(c, lblock_view(b)),
        Statement::Loop(b) => StatementV::Loop(lblock_view(b)),
        Statement::Break => StatementV::Break,
        Statement::Next => StatementV::Next,
        Statement::Return(e) => StatementV::Return(e),
        Statement::ReturnCondition(c) => StatementV::ReturnCondition(c),
    }
}

/// The mathematical shape of a procedure: its parameter and statement
/// sequences.
pub struct ProcedureV {
    pub id: Located<String>,
    pub params: Seq<Located<Param>>,
    pub body: Seq<StatementV>,
}

/// The mathematical shape of a function.
pub struct FunctionV {
    pub id: Located<String>,
    pub params: Seq<Located<Param>>,
    pub body: Seq<StatementV>,
    pub return_type: ValueType,
}

/// The mathematical shape of a program.
pub struct ProgramV {
    pub variables: Seq<Located<Variable>>,
    pub messages: Seq<Located<Message>>,
    pub events: Seq<Located<Event>>,
    pub procedures: Seq<Located<ProcedureV>>,
    pub functions: Seq<Located<FunctionV>>,
}

/// The shape of a procedure.
pub open spec fn proc_view(p: Procedure) -> ProcedureV {
    ProcedureV { id: p.id, params: p.params@, body: stmts_view(p.body.statements@) }
}

/// The shape of a function.
pub open spec fn func_view(f: Function) -> FunctionV {
    FunctionV {
        id: f.id,
        params: f.params@,
        body: stmts_view(f.body.statements@),
        return_type: f.return_type,
    }
}

/// The shape of a located-procedure sequence, elementwise.
pub open spec fn lprocs_view(ps: Seq<Located<Procedure>>) -> Seq<Located<ProcedureV>>
    decreases ps,
{
    if ps.len() == 0 {
        Seq::empty()
    } else {
        seq![Located { item: proc_view(ps[0].item), pos: ps[0].pos }]
            + lprocs_view(ps.subrange(1, ps.len() as int))
    }
}

/// The shape of a located-function sequence, elementwise.
pub open spec fn lfuncs_view(fs: Seq<Located<Function>>) -> Seq<Located<FunctionV>>
    decreases fs,
{
    if fs.len() == 0 {
        Seq::empty()
    } else {
        seq![Located { item: func_view(fs[0].item), pos: fs[0].pos }]
            + lfuncs_view(fs.subrange(1, fs.len() as int))
    }
}

/// The shape of a program.
pub open spec fn program_view(p: Program) -> ProgramV {
    ProgramV {
        variables: p.variables@,
        messages: p.messages@,
        events: p.events@,
        procedures: lprocs_view(p.procedures@),
        functions: lfuncs_view(p.functions@),
    }
}

} // verus!
