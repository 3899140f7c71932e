//! The part of a module's syntax tree that boundary detection and splicing
//! read: the call expressions of each top-level statement, nested as they
//! are in the source, and the statement itself as an uninspected payload.

use vstd::prelude::*;

verus! {

/// What stands in callee position of a call expression.
#[derive(Clone, Debug, PartialEq, Eq)]
pub enum Callee {
    /// `super(..)`
    Super,
    /// `import(..)`
    Import,
    /// A bare identifier, such as `f` in `f(x)`.
    Ident(String),
    /// Any other expression: a member access, a computed callee, a call.
    Other,
}

/// A call expression: its callee, and the call expressions that occur
/// anywhere below it (in the callee or in the arguments), outermost first.
#[derive(Debug, PartialEq, Eq)]
pub struct CallExpr {
    pub callee: Callee,
    pub inner: Vec<CallExpr>,
}

/// A top-level statement. `item` is the statement as its owner holds it;
/// `calls` are the outermost call expressions that occur in it.
#[derive(Debug, PartialEq, Eq)]
pub struct Stmt<T> {
    pub item: T,
    pub calls: Vec<CallExpr>,
}

/// A source range, in byte positions.
#[derive(Clone, Copy, PartialEq, Eq, Structural, Debug)]
pub struct Span {
    pub lo: u32,
    pub hi: u32,
}

/// A module: an ordered list of top-level statements with its metadata.
#[derive(Debug, PartialEq, Eq)]
pub struct Module<T> {
    pub span: Span,
    pub body: Vec<Stmt<T>>,
    pub shebang: Option<String>,
}

/// What a parser hands back for a source text.
#[derive(Debug, PartialEq, Eq)]
pub enum Program<T> {
    /// A flat list of top-level statements.
    Module(Module<T>),
    /// Any other shape of program.
    Script,
}

/// The language that a source text is parsed as.
#[derive(Clone, Copy, PartialEq, Eq, Structural, Debug)]
pub enum ModuleType {
    Js,
    Jsx,
    Ts,
    Tsx,
}

/// The name of the registration hook, as a sequence of characters.
pub open spec fn refresh_reg_name() -> Seq<char> {
    "$RefreshReg$"@
}

impl Callee {
    /// The callee is a bare identifier named exactly like the registration hook.
    pub open spec fn is_refresh_reg(&self) -> bool {
        match self {
            Callee::Ident(name) => name@ == refresh_reg_name(),
            _ => false,
        }
    }
}

impl CallExpr {
    /// This call, or a call nested at any depth below it, calls the
    /// registration hook by its bare name.
    pub open spec fn registers(&self) -> bool
        decreases self,
    {
        self.callee.is_refresh_reg() || exists|i: int|
            0 <= i < self.inner@.len() && (#[trigger] self.inner@[i]).registers()
    }
}

/// One of the first `upto` calls of `calls` registers.
pub open spec fn any_registers(calls: Seq<CallExpr>, upto: int) -> bool
    recommends
        upto <= calls.len(),
{
    exists|i: int| 0 <= i < upto && (#[trigger] calls[i]).registers()
}

impl<T> Stmt<T> {
    /// Some call expression in this statement calls the registration hook.
    pub open spec fn registers(&self) -> bool {
        any_registers(self.calls@, self.calls@.len() as int)
    }
}

/// One of the first `upto` statements of `body` registers.
pub open spec fn any_stmt_registers<T>(body: Seq<Stmt<T>>, upto: int) -> bool
    recommends
        upto <= body.len(),
{
    exists|i: int| 0 <= i < upto && (#[trigger] body[i]).registers()
}

impl<T> Module<T> {
    /// The module is a refresh boundary: some call expression anywhere in
    /// it has the bare identifier `$RefreshReg$` as its callee.
    pub open spec fn is_refresh_boundary(&self) -> bool {
        any_stmt_registers(self.body@, self.body@.len() as int)
    }
}

} // verus!
