//! Rewriting of suspension points. In an effect's variant of a body, each
//! `f(..).await` (for `async`) or `f(..)?` (for `try`) calls the effect's
//! variant of `f`: the callee's last path segment gets the effect as its
//! argument. In the plain variant the marker is dropped and the callee gets
//! `Effects::NONE`.

use vstd::prelude::*;
use crate::keyword::{KeywordKind, contains_kind, caps_name};
use crate::syntax::{Block, Expr, ExprList, Path, PathArgs, PathSegment, Stmt, StmtList, is_ident};

verus! {

/// Why a body could not be rewritten.
#[derive(Debug, Clone, Copy, PartialEq, Eq, Structural)]
pub enum RewriteError {
    /// `.await` or `?` stands on something other than a call.
    NotACall,
    /// `.await` or `?` stands on a call whose callee is not a path.
    NotAFunctionPath,
    /// The callee's last path segment already has generic arguments.
    ArgumentsGiven,
    /// An `if` on an effect's constant has no `else` branch.
    MissingElse,
    /// An `if` on an effect's constant has an `else` branch that is not a block.
    ElseNotBlock,
}

/// The diagnostic shown for a rewrite error.
pub open spec fn rewrite_message(e: RewriteError) -> Seq<char> {
    match e {
        RewriteError::NotACall => "only call expressions can be awaited or tried in maybe functions"@,
        RewriteError::NotAFunctionPath => "only calls of named functions can be awaited or tried in maybe functions"@,
        RewriteError::ArgumentsGiven => "an awaited or tried function cannot be given generic arguments"@,
        RewriteError::MissingElse => "an `if` on an effect needs an `else` block"@,
        RewriteError::ElseNotBlock => "the `else` of an `if` on an effect must be a block"@,
    }
}

impl RewriteError {
    /// The diagnostic shown for this error.
    pub fn message(&self) -> (r: &'static str)
        ensures
            r@ == rewrite_message(*self),
    {
        match self {
            RewriteError::NotACall => "only call expressions can be awaited or tried in maybe functions",
            RewriteError::NotAFunctionPath => "only calls of named functions can be awaited or tried in maybe functions",
            RewriteError::ArgumentsGiven => "an awaited or tried function cannot be given generic arguments",
            RewriteError::MissingElse => "an `if` on an effect needs an `else` block",
            RewriteError::ElseNotBlock => "the `else` of an `if` on an effect must be a block",
        }
    }
}

/// The callee `func` with `eff` as the arguments of its last segment.
pub open spec fn marked_func(func: Expr, eff: Option<KeywordKind>) -> Result<Expr, RewriteError> {
    match func {
        Expr::Path { qself, path } => if path.last.args is Empty {
            Ok(
                Expr::Path {
                    qself,
                    path: Path {
                        leading_colon: path.leading_colon,
                        prefix: path.prefix,
                        last: PathSegment { ident: path.last.ident, args: PathArgs::Effect(eff) },
                    },
                },
            )
        } else {
            Err(RewriteError::ArgumentsGiven)
        },
        _ => Err(RewriteError::NotAFunctionPath),
    }
}

/// The effect variant of an expression: every suspension point of an effect
/// in `ks`, at any depth, calls that effect's variant of its callee. The first
/// fault in source order is reported.
pub open spec fn effectify_expr(e: Expr, ks: Seq<KeywordKind>) -> Result<Expr, RewriteError>
    decreases e, 0nat,
{
    match e {
        Expr::Path { .. } => Ok(e),
        Expr::Call { func, args } => match effectify_expr(*func, ks) {
            Err(x) => Err(x),
            Ok(f) => match effectify_exprs(args, ks) {
                Err(x) => Err(x),
                Ok(a) => Ok(Expr::Call { func: Box::new(f), args: a }),
            },
        },
        Expr::Await(b) => match effectify_marker(*b, KeywordKind::Async, ks) {
            Err(x) => Err(x),
            Ok(b2) => Ok(Expr::Await(Box::new(b2))),
        },
        Expr::Try(b) => match effectify_marker(*b, KeywordKind::Try, ks) {
            Err(x) => Err(x),
            Ok(b2) => Ok(Expr::Try(Box::new(b2))),
        },
        Expr::If { cond, then_branch, else_branch } => match effectify_expr(*cond, ks) {
            Err(x) => Err(x),
            Ok(c) => match effectify_block(then_branch, ks) {
                Err(x) => Err(x),
                Ok(t) => match else_branch {
                    None => Ok(Expr::If { cond: Box::new(c), then_branch: t, else_branch: None }),
                    Some(b) => match effectify_expr(*b, ks) {
                        Err(x) => Err(x),
                        Ok(e2) => Ok(
                            Expr::If {
                                cond: Box::new(c),
                                then_branch: t,
                                else_branch: Some(Box::new(e2)),
                            },
                        ),
                    },
                },
            },
        },
        Expr::Block(b) => match effectify_block(b, ks) {
            Err(x) => Err(x),
            Ok(b2) => Ok(Expr::Block(b2)),
        },
        Expr::Async(b) => match effectify_block(b, ks) {
            Err(x) => Err(x),
            Ok(b2) => Ok(Expr::Async(b2)),
        },
        Expr::TryBlock(b) => match effectify_block(b, ks) {
            Err(x) => Err(x),
            Ok(b2) => Ok(Expr::TryBlock(b2)),
        },
        Expr::Other { kind, children } => match effectify_exprs(children, ks) {
            Err(x) => Err(x),
            Ok(c) => Ok(Expr::Other { kind, children: c }),
        },
    }
}

/// The operand `b` of a suspension point of effect `k`: when `ks` lists `k`,
/// `b` must be a call of a path, whose callee is marked with `k`; its
/// arguments are rewritten in turn.
pub open spec fn effectify_marker(b: Expr, k: KeywordKind, ks: Seq<KeywordKind>) -> Result<
    Expr,
    RewriteError,
>
    decreases b, 1nat,
{
    if !ks.contains(k) {
        effectify_expr(b, ks)
    } else {
        match b {
            Expr::Call { func, args } => match marked_func(*func, Some(k)) {
                Err(x) => Err(x),
                Ok(f) => match effectify_exprs(args, ks) {
                    Err(x) => Err(x),
                    Ok(a) => Ok(Expr::Call { func: Box::new(f), args: a }),
                },
            },
            _ => Err(RewriteError::NotACall),
        }
    }
}

pub open spec fn effectify_exprs(l: ExprList, ks: Seq<KeywordKind>) -> Result<ExprList, RewriteError>
    decreases l, 0nat,
{
    match l {
        ExprList::Nil => Ok(ExprList::Nil),
        ExprList::Cons(h, t) => match effectify_expr(*h, ks) {
            Err(x) => Err(x),
            Ok(h2) => match effectify_exprs(*t, ks) {
                Err(x) => Err(x),
                Ok(t2) => Ok(ExprList::Cons(Box::new(h2), Box::new(t2))),
            },
        },
    }
}

pub open spec fn effectify_block(b: Block, ks: Seq<KeywordKind>) -> Result<Block, RewriteError>
    decreases b, 0nat,
{
    match effectify_stmts(b.stmts, ks) {
        Err(x) => Err(x),
        Ok(s) => Ok(Block { stmts: s }),
    }
}

pub open spec fn effectify_stmts(l: StmtList, ks: Seq<KeywordKind>) -> Result<StmtList, RewriteError>
    decreases l, 0nat,
{
    match l {
        StmtList::Nil => Ok(StmtList::Nil),
        StmtList::Cons(h, t) => match effectify_stmt(*h, ks) {
            Err(x) => Err(x),
            Ok(h2) => match effectify_stmts(*t, ks) {
                Err(x) => Err(x),
                Ok(t2) => Ok(StmtList::Cons(Box::new(h2), Box::new(t2))),
            },
        },
    }
}

pub open spec fn effectify_stmt(s: Stmt, ks: Seq<KeywordKind>) -> Result<Stmt, RewriteError>
    decreases s, 0nat,
{
    match s {
        Stmt::Local { pat, init } => match init {
            None => Ok(Stmt::Local { pat, init: None }),
            Some(e) => match effectify_expr(*e, ks) {
                Err(x) => Err(x),
                Ok(e2) => Ok(Stmt::Local { pat, init: Some(Box::new(e2)) }),
            },
        },
        Stmt::Expr(e) => match effectify_expr(e, ks) {
            Err(x) => Err(x),
            Ok(e2) => Ok(Stmt::Expr(e2)),
        },
        Stmt::Semi(e) => match effectify_expr(e, ks) {
            Err(x) => Err(x),
            Ok(e2) => Ok(Stmt::Semi(e2)),
        },
        Stmt::Item(_) => Ok(s),
    }
}

fn mark_func(func: Expr, eff: Option<KeywordKind>) -> (r: Result<Expr, RewriteError>)
    ensures
        r == marked_func(func, eff),
{
    match func {
        Expr::Path { qself, path } => {
            if matches!(path.last.args, PathArgs::Empty) {
                let Path { leading_colon, prefix, last } = path;
                let last = PathSegment { ident: last.ident, args: PathArgs::Effect(eff) };
                Ok(Expr::Path { qself, path: Path { leading_colon, prefix, last } })
            } else {
                Err(RewriteError::ArgumentsGiven)
            }
        },
        _ => Err(RewriteError::NotAFunctionPath),
    }
}

/// Rewrites `e` into an effect's variant: see `effectify_expr`.
pub fn effectify(e: Expr, ks: &Vec<KeywordKind>) -> (r: Result<Expr, RewriteError>)
    ensures
        r == effectify_expr(e, ks@),
    decreases e, 0nat,
{
    match e {
        Expr::Path { qself, path } => Ok(Expr::Path { qself, path }),
        Expr::Call { func, args } => {
            let f = effectify(*func, ks)?;
            let a = effectify_list(args, ks)?;
            Ok(Expr::Call { func: Box::new(f), args: a })
        },
        Expr::Await(b) => {
            let b2 = effectify_in_marker(*b, KeywordKind::Async, ks)?;
            Ok(Expr::Await(Box::new(b2)))
        },
        Expr::Try(b) => {
            let b2 = effectify_in_marker(*b, KeywordKind::Try, ks)?;
            Ok(Expr::Try(Box::new(b2)))
        },
        Expr::If { cond, then_branch, else_branch } => {
            let c = effectify(*cond, ks)?;
            let t = effectify_in_block(then_branch, ks)?;
            match else_branch {
                None => Ok(Expr::If { cond: Box::new(c), then_branch: t, else_branch: None }),
                Some(b) => {
                    let e2 = effectify(*b, ks)?;
                    Ok(Expr::If { cond: Box::new(c), then_branch: t, else_branch: Some(Box::new(e2)) })
                },
            }
        },
        Expr::Block(b) => Ok(Expr::Block(effectify_in_block(b, ks)?)),
        Expr::Async(b) => Ok(Expr::Async(effectify_in_block(b, ks)?)),
        Expr::TryBlock(b) => Ok(Expr::TryBlock(effectify_in_block(b, ks)?)),
        Expr::Other { kind, children } => {
            let c = effectify_list(children, ks)?;
            Ok(Expr::Other { kind, children: c })
        },
    }
}

fn effectify_in_marker(b: Expr, k: KeywordKind, ks: &Vec<KeywordKind>) -> (r: Result<Expr, RewriteError>)
    ensures
        r == effectify_marker(b, k, ks@),
    decreases b, 1nat,
{
    if !contains_kind(ks, k) {
        effectify(b, ks)
    } else {
        match b {
            Expr::Call { func, args } => {
                let f = mark_func(*func, Some(k))?;
                let a = effectify_list(args, ks)?;
                Ok(Expr::Call { func: Box::new(f), args: a })
            },
            _ => Err(RewriteError::NotACall),
        }
    }
}

fn effectify_list(l: ExprList, ks: &Vec<KeywordKind>) -> (r: Result<ExprList, RewriteError>)
    ensures
        r == effectify_exprs(l, ks@),
    decreases l, 0nat,
{
    match l {
        ExprList::Nil => Ok(ExprList::Nil),
        ExprList::Cons(h, t) => {
            let h2 = effectify(*h, ks)?;
            let t2 = effectify_list(*t, ks)?;
            Ok(ExprList::Cons(Box::new(h2), Box::new(t2)))
        },
    }
}

fn effectify_in_block(b: Block, ks: &Vec<KeywordKind>) -> (r: Result<Block, RewriteError>)
    ensures
        r == effectify_block(b, ks@),
    decreases b, 0nat,
{
    let s = effectify_stmt_list(b.stmts, ks)?;
    Ok(Block { stmts: s })
}

fn effectify_stmt_list(l: StmtList, ks: &Vec<KeywordKind>) -> (r: Result<StmtList, RewriteError>)
    ensures
        r == effectify_stmts(l, ks@),
    decreases l, 0nat,
{
    match l {
        StmtList::Nil => Ok(StmtList::Nil),
        StmtList::Cons(h, t) => {
            let h2 = effectify_in_stmt(*h, ks)?;
            let t2 = effectify_stmt_list(*t, ks)?;
            Ok(StmtList::Cons(Box::new(h2), Box::new(t2)))
        },
    }
}

fn effectify_in_stmt(s: Stmt, ks: &Vec<KeywordKind>) -> (r: Result<Stmt, RewriteError>)
    ensures
        r == effectify_stmt(s, ks@),
    decreases s, 0nat,
{
    match s {
        Stmt::Local { pat, init } => match init {
            None => Ok(Stmt::Local { pat, init: None }),
            Some(e) => {
                let e2 = effectify(*e, ks)?;
                Ok(Stmt::Local { pat, init: Some(Box::new(e2)) })
            },
        },
        Stmt::Expr(e) => Ok(Stmt::Expr(effectify(e, ks)?)),
        Stmt::Semi(e) => Ok(Stmt::Semi(effectify(e, ks)?)),
        Stmt::Item(i) => Ok(Stmt::Item(i)),
    }
}

/// The plain variant of an expression: every suspension point of an effect
/// in `ks`, at any depth, is replaced by its operand, a call whose callee is
/// marked with `Effects::NONE`. The first fault in source order is reported.
pub open spec fn deeffectify_expr(e: Expr, ks: Seq<KeywordKind>) -> Result<Expr, RewriteError>
    decreases e,
{
    match e {
        Expr::Path { .. } => Ok(e),
        Expr::Call { func, args } => match deeffectify_expr(*func, ks) {
            Err(x) => Err(x),
            Ok(f) => match deeffectify_exprs(args, ks) {
                Err(x) => Err(x),
                Ok(a) => Ok(Expr::Call { func: Box::new(f), args: a }),
            },
        },
        Expr::Await(b) => if ks.contains(KeywordKind::Async) {
            deeffectify_operand(*b, ks)
        } else {
            match deeffectify_expr(*b, ks) {
                Err(x) => Err(x),
                Ok(b2) => Ok(Expr::Await(Box::new(b2))),
            }
        },
        Expr::Try(b) => if ks.contains(KeywordKind::Try) {
            deeffectify_operand(*b, ks)
        } else {
            match deeffectify_expr(*b, ks) {
                Err(x) => Err(x),
                Ok(b2) => Ok(Expr::Try(Box::new(b2))),
            }
        },
        Expr::If { cond, then_branch, else_branch } => match deeffectify_expr(*cond, ks) {
            Err(x) => Err(x),
            Ok(c) => match deeffectify_block(then_branch, ks) {
                Err(x) => Err(x),
                Ok(t) => match else_branch {
                    None => Ok(Expr::If { cond: Box::new(c), then_branch: t, else_branch: None }),
                    Some(b) => match deeffectify_expr(*b, ks) {
                        Err(x) => Err(x),
                        Ok(e2) => Ok(
                            Expr::If {
                                cond: Box::new(c),
                                then_branch: t,
                                else_branch: Some(Box::new(e2)),
                            },
                        ),
                    },
                },
            },
        },
        Expr::Block(b) => match deeffectify_block(b, ks) {
            Err(x) => Err(x),
            Ok(b2) => Ok(Expr::Block(b2)),
        },
        Expr::Async(b) => match deeffectify_block(b, ks) {
            Err(x) => Err(x),
            Ok(b2) => Ok(Expr::Async(b2)),
        },
        Expr::TryBlock(b) => match deeffectify_block(b, ks) {
            Err(x) => Err(x),
            Ok(b2) => Ok(Expr::TryBlock(b2)),
        },
        Expr::Other { kind, children } => match deeffectify_exprs(children, ks) {
            Err(x) => Err(x),
            Ok(c) => Ok(Expr::Other { kind, children: c }),
        },
    }
}

/// What a suspension point of an effect in `ks` becomes in the plain
/// variant: its operand `b`, which must be a call of a path, with the callee
/// marked with `Effects::NONE` and the arguments rewritten in turn.
pub open spec fn deeffectify_operand(b: Expr, ks: Seq<KeywordKind>) -> Result<Expr, RewriteError>
    decreases b,
{
    match b {
        Expr::Call { func, args } => match marked_func(*func, None) {
            Err(x) => Err(x),
            Ok(f) => match deeffectify_exprs(args, ks) {
                Err(x) => Err(x),
                Ok(a) => Ok(Expr::Call { func: Box::new(f), args: a }),
            },
        },
        _ => Err(RewriteError::NotACall),
    }
}

pub open spec fn deeffectify_exprs(l: ExprList, ks: Seq<KeywordKind>) -> Result<
    ExprList,
    RewriteError,
>
    decreases l,
{
    match l {
        ExprList::Nil => Ok(ExprList::Nil),
        ExprList::Cons(h, t) => match deeffectify_expr(*h, ks) {
            Err(x) => Err(x),
            Ok(h2) => match deeffectify_exprs(*t, ks) {
                Err(x) => Err(x),
                Ok(t2) => Ok(ExprList::Cons(Box::new(h2), Box::new(t2))),
            },
        },
    }
}

/// The plain variant of a block.
pub open spec fn deeffectify_block(b: Block, ks: Seq<KeywordKind>) -> Result<Block, RewriteError>
    decreases b,
{
    match deeffectify_stmts(b.stmts, ks) {
        Err(x) => Err(x),
        Ok(s) => Ok(Block { stmts: s }),
    }
}

pub open spec fn deeffectify_stmts(l: StmtList, ks: Seq<KeywordKind>) -> Result<
    StmtList,
    RewriteError,
>
    decreases l,
{
    match l {
        StmtList::Nil => Ok(StmtList::Nil),
        StmtList::Cons(h, t) => match deeffectify_stmt(*h, ks) {
            Err(x) => Err(x),
            Ok(h2) => match deeffectify_stmts(*t, ks) {
                Err(x) => Err(x),
                Ok(t2) => Ok(StmtList::Cons(Box::new(h2), Box::new(t2))),
            },
        },
    }
}

pub open spec fn deeffectify_stmt(s: Stmt, ks: Seq<KeywordKind>) -> Result<Stmt, RewriteError>
    decreases s,
{
    match s {
        Stmt::Local { pat, init } => match init {
            None => Ok(Stmt::Local { pat, init: None }),
            Some(e) => match deeffectify_expr(*e, ks) {
                Err(x) => Err(x),
                Ok(e2) => Ok(Stmt::Local { pat, init: Some(Box::new(e2)) }),
            },
        },
        Stmt::Expr(e) => match deeffectify_expr(e, ks) {
            Err(x) => Err(x),
            Ok(e2) => Ok(Stmt::Expr(e2)),
        },
        Stmt::Semi(e) => match deeffectify_expr(e, ks) {
            Err(x) => Err(x),
            Ok(e2) => Ok(Stmt::Semi(e2)),
        },
        Stmt::Item(_) => Ok(s),
    }
}

fn deeffectify_in_expr(e: Expr, ks: &Vec<KeywordKind>) -> (r: Result<Expr, RewriteError>)
    ensures
        r == deeffectify_expr(e, ks@),
    decreases e,
{
    match e {
        Expr::Path { qself, path } => Ok(Expr::Path { qself, path }),
        Expr::Call { func, args } => {
            let f = deeffectify_in_expr(*func, ks)?;
            let a = deeffectify_list(args, ks)?;
            Ok(Expr::Call { func: Box::new(f), args: a })
        },
        Expr::Await(b) => if contains_kind(ks, KeywordKind::Async) {
            deeffectify_in_operand(*b, ks)
        } else {
            Ok(Expr::Await(Box::new(deeffectify_in_expr(*b, ks)?)))
        },
        Expr::Try(b) => if contains_kind(ks, KeywordKind::Try) {
            deeffectify_in_operand(*b, ks)
        } else {
            Ok(Expr::Try(Box::new(deeffectify_in_expr(*b, ks)?)))
        },
        Expr::If { cond, then_branch, else_branch } => {
            let c = deeffectify_in_expr(*cond, ks)?;
            let t = deeffectify(then_branch, ks)?;
            match else_branch {
                None => Ok(Expr::If { cond: Box::new(c), then_branch: t, else_branch: None }),
                Some(b) => {
                    let e2 = deeffectify_in_expr(*b, ks)?;
                    Ok(Expr::If { cond: Box::new(c), then_branch: t, else_branch: Some(Box::new(e2)) })
                },
            }
        },
        Expr::Block(b) => Ok(Expr::Block(deeffectify(b, ks)?)),
        Expr::Async(b) => Ok(Expr::Async(deeffectify(b, ks)?)),
        Expr::TryBlock(b) => Ok(Expr::TryBlock(deeffectify(b, ks)?)),
        Expr::Other { kind, children } => {
            let c = deeffectify_list(children, ks)?;
            Ok(Expr::Other { kind, children: c })
        },
    }
}

fn deeffectify_in_operand(b: Expr, ks: &Vec<KeywordKind>) -> (r: Result<Expr, RewriteError>)
    ensures
        r == deeffectify_operand(b, ks@),
    decreases b,
{
    match b {
        Expr::Call { func, args } => {
            let f = mark_func(*func, None)?;
            let a = deeffectify_list(args, ks)?;
            Ok(Expr::Call { func: Box::new(f), args: a })
        },
        _ => Err(RewriteError::NotACall),
    }
}

fn deeffectify_list(l: ExprList, ks: &Vec<KeywordKind>) -> (r: Result<ExprList, RewriteError>)
    ensures
        r == deeffectify_exprs(l, ks@),
    decreases l,
{
    match l {
        ExprList::Nil => Ok(ExprList::Nil),
        ExprList::Cons(h, t) => {
            let h2 = deeffectify_in_expr(*h, ks)?;
            let t2 = deeffectify_list(*t, ks)?;
            Ok(ExprList::Cons(Box::new(h2), Box::new(t2)))
        },
    }
}

fn deeffectify_stmt_list(l: StmtList, ks: &Vec<KeywordKind>) -> (r: Result<StmtList, RewriteError>)
    ensures
        r == deeffectify_stmts(l, ks@),
    decreases l,
{
    match l {
        StmtList::Nil => Ok(StmtList::Nil),
        StmtList::Cons(h, t) => {
            let h2 = deeffectify_in_stmt(*h, ks)?;
            let t2 = deeffectify_stmt_list(*t, ks)?;
            Ok(StmtList::Cons(Box::new(h2), Box::new(t2)))
        },
    }
}

fn deeffectify_in_stmt(s: Stmt, ks: &Vec<KeywordKind>) -> (r: Result<Stmt, RewriteError>)
    ensures
        r == deeffectify_stmt(s, ks@),
    decreases s,
{
    match s {
        Stmt::Local { pat, init } => match init {
            None => Ok(Stmt::Local { pat, init: None }),
            Some(e) => {
                let e2 = deeffectify_in_expr(*e, ks)?;
                Ok(Stmt::Local { pat, init: Some(Box::new(e2)) })
            },
        },
        Stmt::Expr(e) => Ok(Stmt::Expr(deeffectify_in_expr(e, ks)?)),
        Stmt::Semi(e) => Ok(Stmt::Semi(deeffectify_in_expr(e, ks)?)),
        Stmt::Item(i) => Ok(Stmt::Item(i)),
    }
}

/// Rewrites a block into the plain variant: see `deeffectify_expr`.
pub fn deeffectify(b: Block, ks: &Vec<KeywordKind>) -> (r: Result<Block, RewriteError>)
    ensures
        r == deeffectify_block(b, ks@),
    decreases b,
{
    let s = deeffectify_stmt_list(b.stmts, ks)?;
    Ok(Block { stmts: s })
}

/// The body of effect `k`'s variant when nothing singles it out.
pub open spec fn effect_wrap(k: KeywordKind, b: Block) -> Expr {
    match k {
        KeywordKind::Async => Expr::Async(b),
        KeywordKind::Try => Expr::TryBlock(b),
    }
}

/// The effect in `ks` whose constant `cond` names, if any.
pub open spec fn gate_effect(cond: Expr, ks: Seq<KeywordKind>) -> Option<KeywordKind> {
    match cond {
        Expr::Path { qself, path } => if qself {
            None
        } else if ks.contains(KeywordKind::Async) && is_ident(path, caps_name(KeywordKind::Async)) {
            Some(KeywordKind::Async)
        } else if ks.contains(KeywordKind::Try) && is_ident(path, caps_name(KeywordKind::Try)) {
            Some(KeywordKind::Try)
        } else {
            None
        },
        _ => None,
    }
}

/// When `body` is exactly `if NAME { then } else ..`, with NAME the constant of
/// an effect in `ks`: that effect, the `then` block and the `else` branch.
pub open spec fn gated_if(body: Block, ks: Seq<KeywordKind>) -> Option<
    (KeywordKind, Block, Option<Box<Expr>>),
> {
    match body.stmts {
        StmtList::Cons(s, rest) => match *rest {
            StmtList::Nil => match *s {
                Stmt::Expr(e) => match e {
                    Expr::If { cond, then_branch, else_branch } => match gate_effect(*cond, ks) {
                        Some(k) => Some((k, then_branch, else_branch)),
                        None => None,
                    },
                    _ => None,
                },
                _ => None,
            },
            _ => None,
        },
        _ => None,
    }
}

/// The plain body and one body per effect of `ks`, in order. A body that is an
/// `if` on an effect's constant gives its `then` block to that effect and its
/// `else` block to the others and to the plain variant; any other body is
/// shared by all of them, wrapped in `async move` or `try` for each effect.
pub open spec fn split_spec(body: Block, ks: Seq<KeywordKind>) -> Result<
    (Block, Seq<Expr>),
    RewriteError,
> {
    match gated_if(body, ks) {
        None => Ok((body, Seq::new(ks.len(), |i: int| effect_wrap(ks[i], body)))),
        Some((k, then_b, els)) => match els {
            None => Err(RewriteError::MissingElse),
            Some(e) => match *e {
                Expr::Block(sync) => Ok(
                    (
                        sync,
                        Seq::new(
                            ks.len(),
                            |i: int|
                                if ks[i] == k {
                                    Expr::Block(then_b)
                                } else {
                                    effect_wrap(ks[i], sync)
                                },
                        ),
                    ),
                ),
                _ => Err(RewriteError::ElseNotBlock),
            },
        },
    }
}

fn wrap_for(k: KeywordKind, b: Block) -> (r: Expr)
    ensures
        r == effect_wrap(k, b),
{
    match k {
        KeywordKind::Async => Expr::Async(b),
        KeywordKind::Try => Expr::TryBlock(b),
    }
}

fn cond_effect(cond: &Expr, ks: &Vec<KeywordKind>) -> (r: Option<KeywordKind>)
    ensures
        r == gate_effect(*cond, ks@),
{
    match cond {
        Expr::Path { qself, path } => {
            if *qself {
                None
            } else if contains_kind(ks, KeywordKind::Async) && path.is_ident(
                KeywordKind::Async.all_caps_name(),
            ) {
                Some(KeywordKind::Async)
            } else if contains_kind(ks, KeywordKind::Try) && path.is_ident(
                KeywordKind::Try.all_caps_name(),
            ) {
                Some(KeywordKind::Try)
            } else {
                None
            }
        },
        _ => None,
    }
}

/// Splits a body into the plain body and one body per effect of `ks`: see
/// `split_spec`.
pub fn split_if_expression(body: Block, ks: &Vec<KeywordKind>) -> (r: Result<
    (Block, Vec<Expr>),
    RewriteError,
>)
    ensures
        match r {
            Ok((b, v)) => split_spec(body, ks@) == Ok::<(Block, Seq<Expr>), RewriteError>((b, v@)),
            Err(x) => split_spec(body, ks@) == Err::<(Block, Seq<Expr>), RewriteError>(x),
        },
{
    let gate: Option<KeywordKind> = match &body.stmts {
        StmtList::Cons(s, rest) => match &**rest {
            StmtList::Nil => match &**s {
                Stmt::Expr(Expr::If { cond, .. }) => cond_effect(cond, ks),
                _ => None,
            },
            _ => None,
        },
        _ => None,
    };
    match gate {
        None => {
            let mut bodies: Vec<Expr> = Vec::new();
            let mut i: usize = 0;
            while i < ks.len()
                invariant
                    i <= ks@.len(),
                    bodies@.len() == i,
                    forall|j: int| 0 <= j < i ==> bodies@[j] == effect_wrap(ks@[j], body),
                decreases ks.len() - i,
            {
                bodies.push(wrap_for(ks[i], body.copy()));
                i += 1;
            }
            assert(bodies@ =~= Seq::new(ks@.len(), |j: int| effect_wrap(ks@[j], body)));
            Ok((body, bodies))
        },
        Some(k) => {
            // `gate` is only set when the body is a single `if`.
            let StmtList::Cons(s, _) = body.stmts else {
                proof {
                    assert(false);
                }
                return Err(RewriteError::MissingElse);
            };
            let Stmt::Expr(Expr::If { then_branch, else_branch, .. }) = *s else {
                proof {
                    assert(false);
                }
                return Err(RewriteError::MissingElse);
            };
            let Some(e) = else_branch else {
                return Err(RewriteError::MissingElse);
            };
            let Expr::Block(sync) = *e else {
                return Err(RewriteError::ElseNotBlock);
            };
            let mut bodies: Vec<Expr> = Vec::new();
            let mut i: usize = 0;
            while i < ks.len()
                invariant
                    i <= ks@.len(),
                    bodies@.len() == i,
                    forall|j: int|
                        0 <= j < i ==> bodies@[j] == (if ks@[j] == k {
                            Expr::Block(then_branch)
                        } else {
                            effect_wrap(ks@[j], sync)
                        }),
                decreases ks.len() - i,
            {
                if ks[i] == k {
                    bodies.push(Expr::Block(then_branch.copy()));
                } else {
                    bodies.push(wrap_for(ks[i], sync.copy()));
                }
                i += 1;
            }
            assert(bodies@ =~= Seq::new(
                ks@.len(),
                |j: int|
                    if ks@[j] == k {
                        Expr::Block(then_branch)
                    } else {
                        effect_wrap(ks@[j], sync)
                    },
            ));
            Ok((sync, bodies))
        },
    }
}

/// Every suspension point of an effect in `ks` in `e`, at any depth, is a
/// call whose callee is marked with that effect.
pub open spec fn all_marked(e: Expr, ks: Seq<KeywordKind>) -> bool
    decreases e, 0nat,
{
    match e {
        Expr::Path { .. } => true,
        Expr::Call { func, args } => all_marked(*func, ks) && all_marked_list(args, ks),
        Expr::Await(b) => marker_marked(*b, KeywordKind::Async, ks),
        Expr::Try(b) => marker_marked(*b, KeywordKind::Try, ks),
        Expr::If { cond, then_branch, else_branch } => {
            &&& all_marked(*cond, ks)
            &&& all_marked_block(then_branch, ks)
            &&& match else_branch {
                None => true,
                Some(b) => all_marked(*b, ks),
            }
        },
        Expr::Block(b) => all_marked_block(b, ks),
        Expr::Async(b) => all_marked_block(b, ks),
        Expr::TryBlock(b) => all_marked_block(b, ks),
        Expr::Other { children, .. } => all_marked_list(children, ks),
    }
}

/// The operand of a suspension point of effect `k` is, when `ks` lists `k`,
/// a call of a path whose last segment carries `k`.
pub open spec fn marker_marked(b: Expr, k: KeywordKind, ks: Seq<KeywordKind>) -> bool
    decreases b, 1nat,
{
    if !ks.contains(k) {
        all_marked(b, ks)
    } else {
        match b {
            Expr::Call { func, args } => {
                &&& *func matches Expr::Path { path, .. } && path.last.args == PathArgs::Effect(
                    Some(k),
                )
                &&& all_marked_list(args, ks)
            },
            _ => false,
        }
    }
}

pub open spec fn all_marked_list(l: ExprList, ks: Seq<KeywordKind>) -> bool
    decreases l, 0nat,
{
    match l {
        ExprList::Nil => true,
        ExprList::Cons(h, t) => all_marked(*h, ks) && all_marked_list(*t, ks),
    }
}

pub open spec fn all_marked_block(b: Block, ks: Seq<KeywordKind>) -> bool
    decreases b, 0nat,
{
    all_marked_stmts(b.stmts, ks)
}

pub open spec fn all_marked_stmts(l: StmtList, ks: Seq<KeywordKind>) -> bool
    decreases l, 0nat,
{
    match l {
        StmtList::Nil => true,
        StmtList::Cons(h, t) => all_marked_stmt(*h, ks) && all_marked_stmts(*t, ks),
    }
}

pub open spec fn all_marked_stmt(s: Stmt, ks: Seq<KeywordKind>) -> bool
    decreases s, 0nat,
{
    match s {
        Stmt::Local { init, .. } => match init {
            None => true,
            Some(e) => all_marked(*e, ks),
        },
        Stmt::Expr(e) => all_marked(e, ks),
        Stmt::Semi(e) => all_marked(e, ks),
        Stmt::Item(_) => true,
    }
}

/// An effect variant is fully marked: when rewriting `e` succeeds, every
/// suspension point of an effect in `ks` in the result calls that effect's
/// variant of its callee.
pub proof fn lemma_effectify_marks_all(e: Expr, ks: Seq<KeywordKind>)
    requires
        effectify_expr(e, ks) is Ok,
    ensures
        all_marked(effectify_expr(e, ks)->Ok_0, ks),
    decreases e, 0nat,
{
    match e {
        Expr::Path { .. } => {},
        Expr::Call { func, args } => {
            lemma_effectify_marks_all(*func, ks);
            lemma_effectify_list_marks_all(args, ks);
        },
        Expr::Await(b) => lemma_effectify_marker_marks(*b, KeywordKind::Async, ks),
        Expr::Try(b) => lemma_effectify_marker_marks(*b, KeywordKind::Try, ks),
        Expr::If { cond, then_branch, else_branch } => {
            lemma_effectify_marks_all(*cond, ks);
            lemma_effectify_block_marks_all(then_branch, ks);
            match else_branch {
                None => {},
                Some(b) => lemma_effectify_marks_all(*b, ks),
            }
        },
        Expr::Block(b) => lemma_effectify_block_marks_all(b, ks),
        Expr::Async(b) => lemma_effectify_block_marks_all(b, ks),
        Expr::TryBlock(b) => lemma_effectify_block_marks_all(b, ks),
        Expr::Other { children, .. } => lemma_effectify_list_marks_all(children, ks),
    }
}

proof fn lemma_effectify_marker_marks(b: Expr, k: KeywordKind, ks: Seq<KeywordKind>)
    requires
        effectify_marker(b, k, ks) is Ok,
    ensures
        marker_marked(effectify_marker(b, k, ks)->Ok_0, k, ks),
    decreases b, 1nat,
{
    if !ks.contains(k) {
        lemma_effectify_marks_all(b, ks);
    } else {
        match b {
            Expr::Call { args, .. } => lemma_effectify_list_marks_all(args, ks),
            _ => {},
        }
    }
}

proof fn lemma_effectify_list_marks_all(l: ExprList, ks: Seq<KeywordKind>)
    requires
        effectify_exprs(l, ks) is Ok,
    ensures
        all_marked_list(effectify_exprs(l, ks)->Ok_0, ks),
    decreases l, 0nat,
{
    match l {
        ExprList::Nil => {},
        ExprList::Cons(h, t) => {
            lemma_effectify_marks_all(*h, ks);
            lemma_effectify_list_marks_all(*t, ks);
        },
    }
}

proof fn lemma_effectify_block_marks_all(b: Block, ks: Seq<KeywordKind>)
    requires
        effectify_block(b, ks) is Ok,
    ensures
        all_marked_block(effectify_block(b, ks)->Ok_0, ks),
    decreases b, 0nat,
{
    lemma_effectify_stmts_marks_all(b.stmts, ks);
}

proof fn lemma_effectify_stmts_marks_all(l: StmtList, ks: Seq<KeywordKind>)
    requires
        effectify_stmts(l, ks) is Ok,
    ensures
        all_marked_stmts(effectify_stmts(l, ks)->Ok_0, ks),
    decreases l, 0nat,
{
    match l {
        StmtList::Nil => {},
        StmtList::Cons(h, t) => {
            lemma_effectify_stmt_marks_all(*h, ks);
            lemma_effectify_stmts_marks_all(*t, ks);
        },
    }
}

proof fn lemma_effectify_stmt_marks_all(s: Stmt, ks: Seq<KeywordKind>)
    requires
        effectify_stmt(s, ks) is Ok,
    ensures
        all_marked_stmt(effectify_stmt(s, ks)->Ok_0, ks),
    decreases s, 0nat,
{
    match s {
        Stmt::Local { init, .. } => match init {
            None => {},
            Some(e) => lemma_effectify_marks_all(*e, ks),
        },
        Stmt::Expr(e) => lemma_effectify_marks_all(e, ks),
        Stmt::Semi(e) => lemma_effectify_marks_all(e, ks),
        Stmt::Item(_) => {},
    }
}

/// No suspension point of an effect in `ks` is left in `e`, at any depth.
pub open spec fn unmarked(e: Expr, ks: Seq<KeywordKind>) -> bool
    decreases e,
{
    match e {
        Expr::Path { .. } => true,
        Expr::Call { func, args } => unmarked(*func, ks) && unmarked_list(args, ks),
        Expr::Await(b) => !ks.contains(KeywordKind::Async) && unmarked(*b, ks),
        Expr::Try(b) => !ks.contains(KeywordKind::Try) && unmarked(*b, ks),
        Expr::If { cond, then_branch, else_branch } => {
            &&& unmarked(*cond, ks)
            &&& unmarked_block(then_branch, ks)
            &&& match else_branch {
                None => true,
                Some(b) => unmarked(*b, ks),
            }
        },
        Expr::Block(b) => unmarked_block(b, ks),
        Expr::Async(b) => unmarked_block(b, ks),
        Expr::TryBlock(b) => unmarked_block(b, ks),
        Expr::Other { children, .. } => unmarked_list(children, ks),
    }
}

pub open spec fn unmarked_list(l: ExprList, ks: Seq<KeywordKind>) -> bool
    decreases l,
{
    match l {
        ExprList::Nil => true,
        ExprList::Cons(h, t) => unmarked(*h, ks) && unmarked_list(*t, ks),
    }
}

pub open spec fn unmarked_block(b: Block, ks: Seq<KeywordKind>) -> bool
    decreases b,
{
    unmarked_stmts(b.stmts, ks)
}

pub open spec fn unmarked_stmts(l: StmtList, ks: Seq<KeywordKind>) -> bool
    decreases l,
{
    match l {
        StmtList::Nil => true,
        StmtList::Cons(h, t) => unmarked_stmt(*h, ks) && unmarked_stmts(*t, ks),
    }
}

pub open spec fn unmarked_stmt(s: Stmt, ks: Seq<KeywordKind>) -> bool
    decreases s,
{
    match s {
        Stmt::Local { init, .. } => match init {
            None => true,
            Some(e) => unmarked(*e, ks),
        },
        Stmt::Expr(e) => unmarked(e, ks),
        Stmt::Semi(e) => unmarked(e, ks),
        Stmt::Item(_) => true,
    }
}

proof fn lemma_deeffectify_expr_unmarks(e: Expr, ks: Seq<KeywordKind>)
    requires
        deeffectify_expr(e, ks) is Ok,
    ensures
        unmarked(deeffectify_expr(e, ks)->Ok_0, ks),
    decreases e,
{
    match e {
        Expr::Path { .. } => {},
        Expr::Call { func, args } => {
            lemma_deeffectify_expr_unmarks(*func, ks);
            lemma_deeffectify_list_unmarks(args, ks);
        },
        Expr::Await(b) => if ks.contains(KeywordKind::Async) {
            lemma_deeffectify_operand_unmarks(*b, ks);
        } else {
            lemma_deeffectify_expr_unmarks(*b, ks);
        },
        Expr::Try(b) => if ks.contains(KeywordKind::Try) {
            lemma_deeffectify_operand_unmarks(*b, ks);
        } else {
            lemma_deeffectify_expr_unmarks(*b, ks);
        },
        Expr::If { cond, then_branch, else_branch } => {
            lemma_deeffectify_expr_unmarks(*cond, ks);
            lemma_deeffectify_unmarks(then_branch, ks);
            match else_branch {
                None => {},
                Some(b) => lemma_deeffectify_expr_unmarks(*b, ks),
            }
        },
        Expr::Block(b) => lemma_deeffectify_unmarks(b, ks),
        Expr::Async(b) => lemma_deeffectify_unmarks(b, ks),
        Expr::TryBlock(b) => lemma_deeffectify_unmarks(b, ks),
        Expr::Other { children, .. } => lemma_deeffectify_list_unmarks(children, ks),
    }
}

proof fn lemma_deeffectify_operand_unmarks(b: Expr, ks: Seq<KeywordKind>)
    requires
        deeffectify_operand(b, ks) is Ok,
    ensures
        unmarked(deeffectify_operand(b, ks)->Ok_0, ks),
    decreases b,
{
    match b {
        Expr::Call { func, args } => {
            let f = marked_func(*func, None)->Ok_0;
            assert(unmarked(f, ks));
            lemma_deeffectify_list_unmarks(args, ks);
        },
        _ => {},
    }
}

proof fn lemma_deeffectify_list_unmarks(l: ExprList, ks: Seq<KeywordKind>)
    requires
        deeffectify_exprs(l, ks) is Ok,
    ensures
        unmarked_list(deeffectify_exprs(l, ks)->Ok_0, ks),
    decreases l,
{
    match l {
        ExprList::Nil => {},
        ExprList::Cons(h, t) => {
            lemma_deeffectify_expr_unmarks(*h, ks);
            lemma_deeffectify_list_unmarks(*t, ks);
        },
    }
}

proof fn lemma_deeffectify_stmts_unmarks(l: StmtList, ks: Seq<KeywordKind>)
    requires
        deeffectify_stmts(l, ks) is Ok,
    ensures
        unmarked_stmts(deeffectify_stmts(l, ks)->Ok_0, ks),
    decreases l,
{
    match l {
        StmtList::Nil => {},
        StmtList::Cons(h, t) => {
            lemma_deeffectify_stmt_unmarks(*h, ks);
            lemma_deeffectify_stmts_unmarks(*t, ks);
        },
    }
}

proof fn lemma_deeffectify_stmt_unmarks(s: Stmt, ks: Seq<KeywordKind>)
    requires
        deeffectify_stmt(s, ks) is Ok,
    ensures
        unmarked_stmt(deeffectify_stmt(s, ks)->Ok_0, ks),
    decreases s,
{
    match s {
        Stmt::Local { init, .. } => match init {
            None => {},
            Some(e) => lemma_deeffectify_expr_unmarks(*e, ks),
        },
        Stmt::Expr(e) => lemma_deeffectify_expr_unmarks(e, ks),
        Stmt::Semi(e) => lemma_deeffectify_expr_unmarks(e, ks),
        Stmt::Item(_) => {},
    }
}

/// The plain variant drops its markers: when rewriting a block into the
/// plain variant succeeds, no suspension point of an effect in `ks` is left
/// in it, at any depth.
pub proof fn lemma_deeffectify_unmarks(b: Block, ks: Seq<KeywordKind>)
    requires
        deeffectify_block(b, ks) is Ok,
    ensures
        unmarked_block(deeffectify_block(b, ks)->Ok_0, ks),
    decreases b,
{
    lemma_deeffectify_stmts_unmarks(b.stmts, ks);
}

} // verus!

