//! The operator and scope kinds of the Gouda Scripting syntax tree.
//!
//! These are the parts of the tree that are plain tags; the node shapes that
//! carry expressions live with the host side of the crate.

use vstd::prelude::*;

verus! {

/// Variable scope for a declaration.
#[derive(Debug, Clone, Copy, PartialEq, Eq, Structural)]
pub enum VarScope {
    /// Lexically scoped to the enclosing block or handler; discarded when it ends.
    Local,
    /// Per-script, persisted across reloads and restarts.
    Global,
}

/// How an assignment combines with the current value.
#[derive(Debug, Clone, Copy, PartialEq, Eq, Structural)]
pub enum AssignOp {
    /// `=`: the new value replaces the current one.
    Replace,
    /// `+=`
    Add,
    /// `-=`
    Sub,
    /// `*=`
    Mul,
    /// `/=`
    Div,
}

/// A unary operator.
#[derive(Debug, Clone, Copy, PartialEq, Eq, Structural)]
pub enum UnaryOp {
    /// Arithmetic negation `-x`.
    Neg,
    /// Logical negation `!x` / `not x`.
    Not,
}

/// A binary operator.
#[derive(Debug, Clone, Copy, PartialEq, Eq, Structural)]
pub enum BinaryOp {
    Add,
    Sub,
    Mul,
    Div,
    Mod,
    /// Explicit string concatenation, if the grammar exposes one.
    Concat,
    Eq,
    Ne,
    Lt,
    Le,
    Gt,
    Ge,
}

/// A short-circuiting logical operator.
#[derive(Debug, Clone, Copy, PartialEq, Eq, Structural)]
pub enum LogicalOp {
    And,
    Or,
}

} // verus!
