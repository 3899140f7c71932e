//! Boundary detection: one walk over every call expression of a module.

use vstd::prelude::*;
use vstd::string::StringExecFns;
use crate::ast::{Callee, CallExpr, Stmt, Module, any_registers, any_stmt_registers};

verus! {

/// Walks call expressions and remembers whether one of them called the
/// registration hook by its bare name.
#[derive(Clone, Copy, Debug, PartialEq, Eq, Structural)]
pub struct FoundReactRefreshVisitor {
    pub is_refresh_boundary: bool,
}

/// Whether `callee` is the bare identifier `$RefreshReg$`.
pub fn is_refresh_reg(callee: &Callee) -> (found: bool)
    ensures
        found == callee.is_refresh_reg(),
{
    match callee {
        Callee::Ident(name) => {
            let hook = String::from_str("$RefreshReg$");
            *name == hook
        },
        _ => false,
    }
}

impl FoundReactRefreshVisitor {
    /// A visitor that has seen nothing yet.
    pub fn new() -> (visitor: Self)
        ensures
            !visitor.is_refresh_boundary,
    {
        FoundReactRefreshVisitor { is_refresh_boundary: false }
    }

    /// Visits `call_expr` and every call nested below it. The flag is set
    /// if one of them registers, and is never cleared.
    pub fn visit_call_expr(&mut self, call_expr: &CallExpr)
        ensures
            final(self).is_refresh_boundary == (old(self).is_refresh_boundary
                || call_expr.registers()),
        decreases call_expr,
    {
        let ghost before = self.is_refresh_boundary;
        if is_refresh_reg(&call_expr.callee) {
            self.is_refresh_boundary = true;
        }
        self.visit_calls(&call_expr.inner);
    }

    /// Visits each call of `calls` in order, with all that is nested in them.
    pub fn visit_calls(&mut self, calls: &Vec<CallExpr>)
        ensures
            final(self).is_refresh_boundary == (old(self).is_refresh_boundary || any_registers(
                calls@,
                calls@.len() as int,
            )),
        decreases calls,
    {
        let ghost before = self.is_refresh_boundary;
        let mut i: usize = 0;
        while i < calls.len()
            invariant
                i <= calls.len(),
                self.is_refresh_boundary == (before || any_registers(calls@, i as int)),
            decreases calls.len() - i,
        {
            self.visit_call_expr(&calls[i]);
            i += 1;
        }
    }

    /// Visits every call expression of one statement.
    pub fn visit_stmt<T>(&mut self, stmt: &Stmt<T>)
        ensures
            final(self).is_refresh_boundary == (old(self).is_refresh_boundary
                || stmt.registers()),
    {
        self.visit_calls(&stmt.calls);
    }

    /// Visits every call expression of the module.
    pub fn visit_module<T>(&mut self, module: &Module<T>)
        ensures
            final(self).is_refresh_boundary == (old(self).is_refresh_boundary
                || module.is_refresh_boundary()),
    {
        let ghost before = self.is_refresh_boundary;
        let mut i: usize = 0;
        while i < module.body.len()
            invariant
                i <= module.body.len(),
                self.is_refresh_boundary == (before || any_stmt_registers(
                    module.body@,
                    i as int,
                )),
            decreases module.body.len() - i,
        {
            self.visit_stmt(&module.body[i]);
            i += 1;
        }
    }
}

/// Whether the module is a refresh boundary.
pub fn is_refresh_boundary<T>(module: &Module<T>) -> (found: bool)
    ensures
        found == module.is_refresh_boundary(),
{
    let mut visitor = FoundReactRefreshVisitor::new();
    visitor.visit_module(module);
    visitor.is_refresh_boundary
}

} // verus!
