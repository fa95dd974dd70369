//! The part of a function body that effect rewriting reads: calls, paths,
//! `.await`, `?`, `if`, blocks and statements. Every other expression form
//! is kept as an opaque node with its sub-expressions in source order.
//!
//! Sequences are cons-lists, so that specifications can build trees.

use vstd::prelude::*;
use crate::keyword::KeywordKind;

verus! {

/// A sequence of expressions, as a cons-list.
#[derive(Debug)]
pub enum ExprList {
    Nil,
    Cons(Box<Expr>, Box<ExprList>),
}

impl ExprList {
    pub open spec fn to_seq(&self) -> Seq<Expr>
        decreases self,
    {
        match self {
            ExprList::Nil => Seq::empty(),
            ExprList::Cons(head, tail) => seq![**head].add(tail.to_seq()),
        }
    }

    /// The list holding the elements of `v` in order.
    pub fn from_vec(v: Vec<Expr>) -> (r: ExprList)
        ensures
            r.to_seq() == v@,
    {
        let mut v = v;
        let ghost orig = v@;
        let mut r = ExprList::Nil;
        while v.len() > 0
            invariant
                orig == v@.add(r.to_seq()),
            decreases v.len(),
        {
            let x = v.pop().unwrap();
            r = ExprList::Cons(Box::new(x), Box::new(r));
            assert(orig =~= v@.add(r.to_seq()));
        }
        assert(orig =~= r.to_seq());
        r
    }
}

/// A sequence of statements, as a cons-list.
#[derive(Debug)]
pub enum StmtList {
    Nil,
    Cons(Box<Stmt>, Box<StmtList>),
}

impl StmtList {
    pub open spec fn to_seq(&self) -> Seq<Stmt>
        decreases self,
    {
        match self {
            StmtList::Nil => Seq::empty(),
            StmtList::Cons(head, tail) => seq![**head].add(tail.to_seq()),
        }
    }

    /// The list holding the elements of `v` in order.
    pub fn from_vec(v: Vec<Stmt>) -> (r: StmtList)
        ensures
            r.to_seq() == v@,
    {
        let mut v = v;
        let ghost orig = v@;
        let mut r = StmtList::Nil;
        while v.len() > 0
            invariant
                orig == v@.add(r.to_seq()),
            decreases v.len(),
        {
            let x = v.pop().unwrap();
            r = StmtList::Cons(Box::new(x), Box::new(r));
            assert(orig =~= v@.add(r.to_seq()));
        }
        assert(orig =~= r.to_seq());
        r
    }
}

/// A sequence of path segments, as a cons-list.
#[derive(Debug)]
pub enum SegmentList {
    Nil,
    Cons(Box<PathSegment>, Box<SegmentList>),
}

impl SegmentList {
    pub open spec fn to_seq(&self) -> Seq<PathSegment>
        decreases self,
    {
        match self {
            SegmentList::Nil => Seq::empty(),
            SegmentList::Cons(head, tail) => seq![**head].add(tail.to_seq()),
        }
    }

    /// The list holding the elements of `v` in order.
    pub fn from_vec(v: Vec<PathSegment>) -> (r: SegmentList)
        ensures
            r.to_seq() == v@,
    {
        let mut v = v;
        let ghost orig = v@;
        let mut r = SegmentList::Nil;
        while v.len() > 0
            invariant
                orig == v@.add(r.to_seq()),
            decreases v.len(),
        {
            let x = v.pop().unwrap();
            r = SegmentList::Cons(Box::new(x), Box::new(r));
            assert(orig =~= v@.add(r.to_seq()));
        }
        assert(orig =~= r.to_seq());
        r
    }
}

/// What stands between `<` and `>` after a path segment.
#[derive(Debug)]
pub enum PathArgs {
    /// No arguments.
    Empty,
    /// `::<{Effects::ASYNC}>`, `::<{Effects::TRY}>`, or `::<{Effects::NONE}>` for `None`.
    Effect(Option<KeywordKind>),
    /// Arguments written in the source, as text.
    Written(String),
}

/// One segment of a path, such as `sleep` or `Vec::<u8>`.
#[derive(Debug)]
pub struct PathSegment {
    pub ident: String,
    pub args: PathArgs,
}

/// A path: its segments are `prefix` followed by `last`, so it is never empty.
#[derive(Debug)]
pub struct Path {
    pub leading_colon: bool,
    pub prefix: SegmentList,
    pub last: PathSegment,
}

/// An expression.
#[derive(Debug)]
pub enum Expr {
    /// A path expression; `qself` is set for `<T as Trait>::name`.
    Path { qself: bool, path: Path },
    /// `func(args..)`.
    Call { func: Box<Expr>, args: ExprList },
    /// `base.await`.
    Await(Box<Expr>),
    /// `expr?`.
    Try(Box<Expr>),
    /// `if cond { .. } else ..`.
    If { cond: Box<Expr>, then_branch: Block, else_branch: Option<Box<Expr>> },
    /// `{ .. }`.
    Block(Block),
    /// `async move { .. }`.
    Async(Block),
    /// `try { .. }`.
    TryBlock(Block),
    /// Any other form, named by `kind`, with its sub-expressions.
    Other { kind: String, children: ExprList },
}

/// A block: its statements, the last of which may be a trailing expression.
#[derive(Debug)]
pub struct Block {
    pub stmts: StmtList,
}

/// A statement.
#[derive(Debug)]
pub enum Stmt {
    /// `let pat = init;`, the pattern as text.
    Local { pat: String, init: Option<Box<Expr>> },
    /// An expression without a semicolon.
    Expr(Expr),
    /// An expression followed by a semicolon.
    Semi(Expr),
    /// A nested item, as text; rewriting leaves it as it is.
    Item(String),
}

/// `path` is the single identifier `name`.
pub open spec fn is_ident(path: Path, name: Seq<char>) -> bool {
    &&& !path.leading_colon
    &&& path.prefix is Nil
    &&& path.last.args is Empty
    &&& path.last.ident@ == name
}

impl PathArgs {
    pub fn copy(&self) -> (r: PathArgs)
        ensures
            r == *self,
    {
        match self {
            PathArgs::Empty => PathArgs::Empty,
            PathArgs::Effect(k) => PathArgs::Effect(*k),
            PathArgs::Written(s) => PathArgs::Written(s.clone()),
        }
    }
}

impl PathSegment {
    pub fn copy(&self) -> (r: PathSegment)
        ensures
            r == *self,
    {
        PathSegment { ident: self.ident.clone(), args: self.args.copy() }
    }
}

fn copy_segments(l: &SegmentList) -> (r: SegmentList)
    ensures
        r == *l,
    decreases l,
{
    match l {
        SegmentList::Nil => SegmentList::Nil,
        SegmentList::Cons(h, t) => SegmentList::Cons(Box::new(h.copy()), Box::new(copy_segments(t))),
    }
}

impl Path {
    pub fn copy(&self) -> (r: Path)
        ensures
            r == *self,
    {
        Path {
            leading_colon: self.leading_colon,
            prefix: copy_segments(&self.prefix),
            last: self.last.copy(),
        }
    }

    /// Whether this path is the single identifier `name`.
    pub fn is_ident(&self, name: &str) -> (r: bool)
        ensures
            r == is_ident(*self, name@),
    {
        if self.leading_colon {
            return false;
        }
        if !matches!(self.prefix, SegmentList::Nil) {
            return false;
        }
        if !matches!(self.last.args, PathArgs::Empty) {
            return false;
        }
        let n = name.to_owned();
        self.last.ident == n
    }
}

impl Expr {
    /// A deep copy.
    pub fn copy(&self) -> (r: Expr)
        ensures
            r == *self,
        decreases self,
    {
        match self {
            Expr::Path { qself, path } => Expr::Path { qself: *qself, path: path.copy() },
            Expr::Call { func, args } => Expr::Call {
                func: Box::new(func.copy()),
                args: copy_exprs(args),
            },
            Expr::Await(b) => Expr::Await(Box::new(b.copy())),
            Expr::Try(b) => Expr::Try(Box::new(b.copy())),
            Expr::If { cond, then_branch, else_branch } => {
                let c = cond.copy();
                let t = then_branch.copy();
                let e = match else_branch {
                    None => None,
                    Some(b) => Some(Box::new(b.copy())),
                };
                Expr::If { cond: Box::new(c), then_branch: t, else_branch: e }
            },
            Expr::Block(b) => Expr::Block(b.copy()),
            Expr::Async(b) => Expr::Async(b.copy()),
            Expr::TryBlock(b) => Expr::TryBlock(b.copy()),
            Expr::Other { kind, children } => Expr::Other {
                kind: kind.clone(),
                children: copy_exprs(children),
            },
        }
    }
}

fn copy_exprs(l: &ExprList) -> (r: ExprList)
    ensures
        r == *l,
    decreases l,
{
    match l {
        ExprList::Nil => ExprList::Nil,
        ExprList::Cons(h, t) => ExprList::Cons(Box::new(h.copy()), Box::new(copy_exprs(t))),
    }
}

impl Block {
    /// A deep copy.
    pub fn copy(&self) -> (r: Block)
        ensures
            r == *self,
        decreases self,
    {
        Block { stmts: copy_stmts(&self.stmts) }
    }
}

fn copy_stmts(l: &StmtList) -> (r: StmtList)
    ensures
        r == *l,
    decreases l,
{
    match l {
        StmtList::Nil => StmtList::Nil,
        StmtList::Cons(h, t) => StmtList::Cons(Box::new(h.copy()), Box::new(copy_stmts(t))),
    }
}

impl Stmt {
    /// A deep copy.
    pub fn copy(&self) -> (r: Stmt)
        ensures
            r == *self,
        decreases self,
    {
        match self {
            Stmt::Local { pat, init } => {
                let i = match init {
                    None => None,
                    Some(e) => Some(Box::new(e.copy())),
                };
                Stmt::Local { pat: pat.clone(), init: i }
            },
            Stmt::Expr(e) => Stmt::Expr(e.copy()),
            Stmt::Semi(e) => Stmt::Semi(e.copy()),
            Stmt::Item(s) => Stmt::Item(s.clone()),
        }
    }
}

} // verus!
