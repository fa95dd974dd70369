//! What the `maybe` attribute makes of an item. A function becomes a helper
//! trait with one implementation for its effect and one for the plain
//! variant, whose bodies are the rewritten parts of the original body. A
//! trait's `maybe(async)` methods come to return an associated type each.

use vstd::prelude::*;
use vstd::string::StringExecFns;
use crate::keyword::{KeywordKind, Token, error_message, parse_keywords, parse_keywords_spec};
use crate::rewrite::{
    RewriteError,
    deeffectify,
    deeffectify_block,
    effectify,
    effectify_expr,
    rewrite_message,
    split_if_expression,
    split_spec,
};
use crate::syntax::{Block, Expr};

verus! {

/// A parameter of a function.
#[derive(Debug)]
pub enum FnArg {
    /// `self`, `&self` or `&mut self`.
    SelfParam,
    /// `name: Type`.
    Ident(String),
    /// Any other pattern, as text.
    Pattern(String),
}

/// A function given to the `maybe` attribute.
#[derive(Debug)]
pub struct ItemFn {
    pub is_async: bool,
    pub ident: String,
    pub inputs: Vec<FnArg>,
    /// The written return type; `None` for `()`.
    pub output: Option<String>,
    pub body: Block,
}

/// How a variant's return type is formed from the function's return type.
#[derive(Debug, Clone, Copy, PartialEq, Eq, Structural)]
pub enum RetKind {
    /// The return type itself.
    Plain,
    /// `impl std::future::Future<Output = T>`.
    Future,
    /// `<T as std::ops::Try>::Output`.
    TryOutput,
}

/// A variant's return type: `kind` applied to the function's return type `ty`.
#[derive(Debug)]
pub struct RetType {
    pub kind: RetKind,
    pub ty: String,
}

/// The expansion of a `maybe` function.
#[derive(Debug)]
pub struct FnExpansion {
    /// The name of the module that holds the helper trait: the function's name.
    pub mod_name: String,
    /// The arguments with which the function calls the helper trait.
    pub call_args: Vec<String>,
    /// The effect of the one effect variant.
    pub effect: KeywordKind,
    pub effect_ret: RetType,
    pub effect_body: Expr,
    pub plain_ret: RetType,
    pub plain_body: Block,
}

/// Why a function or trait cannot be expanded.
#[derive(Debug, Clone, Copy, PartialEq, Eq, Structural)]
pub enum ExpandError {
    /// The attribute does not name exactly one keyword.
    KeywordCount,
    /// The function is already `async`.
    AsyncFn,
    /// A marked trait method is already `async`.
    AsyncMethod,
    /// A parameter is neither `self` nor a plain name.
    UnsupportedPattern,
    /// The body cannot be rewritten.
    Rewrite(RewriteError),
    /// A method's attribute does not parse.
    Attr(crate::keyword::AttrError),
    /// A method's attribute names another effect than `async`.
    OnlyAsync,
    /// A marked method has a default body.
    DefaultBody,
    /// A marked method's `self` already has a named lifetime.
    NamedSelfLifetime,
}

impl ExpandError {
    /// The diagnostic shown for this error.
    pub fn message(&self) -> (r: &'static str)
        ensures
            r@ == match *self {
                ExpandError::KeywordCount => "`maybe` currently only supports exactly one keyword"@,
                ExpandError::AsyncFn => "maybe_async functions can't also be `async`"@,
                ExpandError::AsyncMethod => "maybe_async methods can't also be `async`"@,
                ExpandError::UnsupportedPattern => "maybe functions only take `self` and plainly named parameters"@,
                ExpandError::Rewrite(e) => rewrite_message(e),
                ExpandError::Attr(e) => error_message(e),
                ExpandError::OnlyAsync => "only `maybe(async)` is supported on trait methods"@,
                ExpandError::DefaultBody => "cannot specify `async` methods with default bodies in `maybe_async` traits"@,
                ExpandError::NamedSelfLifetime => "`self` parameter already has a named lifetime"@,
            },
    {
        match self {
            ExpandError::KeywordCount => "`maybe` currently only supports exactly one keyword",
            ExpandError::AsyncFn => "maybe_async functions can't also be `async`",
            ExpandError::AsyncMethod => "maybe_async methods can't also be `async`",
            ExpandError::UnsupportedPattern => "maybe functions only take `self` and plainly named parameters",
            ExpandError::Rewrite(e) => e.message(),
            ExpandError::Attr(e) => e.message(),
            ExpandError::OnlyAsync => "only `maybe(async)` is supported on trait methods",
            ExpandError::DefaultBody => "cannot specify `async` methods with default bodies in `maybe_async` traits",
            ExpandError::NamedSelfLifetime => "`self` parameter already has a named lifetime",
        }
    }
}

/// The name by which a parameter is passed on, if it has one.
pub open spec fn arg_name(a: FnArg) -> Option<Seq<char>> {
    match a {
        FnArg::SelfParam => Some("self"@),
        FnArg::Ident(s) => Some(s@),
        FnArg::Pattern(_) => None,
    }
}

/// The function's return type as text.
pub open spec fn ret_text(output: Option<String>) -> Seq<char> {
    match output {
        None => "()"@,
        Some(t) => t@,
    }
}

/// The effect variant's return type.
pub open spec fn effect_ret_kind(k: KeywordKind) -> RetKind {
    match k {
        KeywordKind::Async => RetKind::Future,
        KeywordKind::Try => RetKind::Plain,
    }
}

/// The plain variant's return type.
pub open spec fn plain_ret_kind(k: KeywordKind) -> RetKind {
    match k {
        KeywordKind::Async => RetKind::Plain,
        KeywordKind::Try => RetKind::TryOutput,
    }
}

fn call_arg(a: &FnArg) -> (r: Option<String>)
    ensures
        match r {
            Some(s) => arg_name(*a) == Some(s@),
            None => arg_name(*a) is None,
        },
{
    match a {
        FnArg::SelfParam => Some("self".to_owned()),
        FnArg::Ident(s) => Some(s.clone()),
        FnArg::Pattern(_) => None,
    }
}

fn ret_string(output: &Option<String>) -> (r: String)
    ensures
        r@ == ret_text(*output),
{
    match output {
        None => "()".to_owned(),
        Some(t) => t.clone(),
    }
}

/// Expands a function for the keywords `ks`. The checks come in this order:
/// exactly one keyword, not `async`, parameters that can be passed on; then
/// the body is split, the plain body rewritten, and the effect body rewritten.
pub fn maybe_fn(item: ItemFn, ks: &Vec<KeywordKind>) -> (r: Result<FnExpansion, ExpandError>)
    ensures
        ks@.len() != 1 ==> r == Err::<FnExpansion, ExpandError>(ExpandError::KeywordCount),
        ks@.len() == 1 && item.is_async ==> r == Err::<FnExpansion, ExpandError>(
            ExpandError::AsyncFn,
        ),
        ks@.len() == 1 && !item.is_async && (exists|i: int|
            0 <= i < item.inputs@.len() && arg_name(#[trigger] item.inputs@[i]) is None) ==> r
            == Err::<FnExpansion, ExpandError>(ExpandError::UnsupportedPattern),
        ks@.len() == 1 && !item.is_async && (forall|i: int|
            0 <= i < item.inputs@.len() ==> arg_name(#[trigger] item.inputs@[i]) is Some) ==> {
            let k = ks@[0];
            match split_spec(item.body, ks@) {
                Err(x) => r == Err::<FnExpansion, ExpandError>(ExpandError::Rewrite(x)),
                Ok((sync, bodies)) => match deeffectify_block(sync, ks@) {
                    Err(x) => r == Err::<FnExpansion, ExpandError>(ExpandError::Rewrite(x)),
                    Ok(plain) => match effectify_expr(bodies[0], ks@) {
                        Err(x) => r == Err::<FnExpansion, ExpandError>(ExpandError::Rewrite(x)),
                        Ok(eff) => r matches Ok(x) && {
                            &&& x.mod_name@ == item.ident@
                            &&& x.call_args@.len() == item.inputs@.len()
                            &&& forall|i: int|
                                0 <= i < item.inputs@.len() ==> arg_name(item.inputs@[i])
                                    == Some(#[trigger] x.call_args@[i]@)
                            &&& x.effect == k
                            &&& x.effect_ret.kind == effect_ret_kind(k)
                            &&& x.effect_ret.ty@ == ret_text(item.output)
                            &&& x.effect_body == eff
                            &&& x.plain_ret.kind == plain_ret_kind(k)
                            &&& x.plain_ret.ty@ == ret_text(item.output)
                            &&& x.plain_body == plain
                        },
                    },
                },
            }
        },
{
    if ks.len() != 1 {
        return Err(ExpandError::KeywordCount);
    }
    if item.is_async {
        return Err(ExpandError::AsyncFn);
    }
    let k = ks[0];
    let mut call_args: Vec<String> = Vec::new();
    let mut i: usize = 0;
    while i < item.inputs.len()
        invariant
            i <= item.inputs@.len(),
            ks@.len() == 1,
            !item.is_async,
            call_args@.len() == i,
            forall|j: int|
                0 <= j < i ==> arg_name(item.inputs@[j]) == Some(#[trigger] call_args@[j]@),
            forall|j: int| 0 <= j < i ==> arg_name(#[trigger] item.inputs@[j]) is Some,
        decreases item.inputs.len() - i,
    {
        match call_arg(&item.inputs[i]) {
            Some(s) => call_args.push(s),
            None => {
                return Err(ExpandError::UnsupportedPattern);
            },
        }
        i += 1;
    }
    let effect_ret = RetType { kind: if k == KeywordKind::Async {
        RetKind::Future
    } else {
        RetKind::Plain
    }, ty: ret_string(&item.output) };
    let plain_ret = RetType { kind: if k == KeywordKind::Async {
        RetKind::Plain
    } else {
        RetKind::TryOutput
    }, ty: ret_string(&item.output) };
    let (sync, mut bodies) = match split_if_expression(item.body, ks) {
        Ok(p) => p,
        Err(x) => {
            return Err(ExpandError::Rewrite(x));
        },
    };
    let plain_body = match deeffectify(sync, ks) {
        Ok(b) => b,
        Err(x) => {
            return Err(ExpandError::Rewrite(x));
        },
    };
    let body = bodies.remove(0);
    let effect_body = match effectify(body, ks) {
        Ok(b) => b,
        Err(x) => {
            return Err(ExpandError::Rewrite(x));
        },
    };
    Ok(
        FnExpansion {
            mod_name: item.ident,
            call_args,
            effect: k,
            effect_ret,
            effect_body,
            plain_ret,
            plain_body,
        },
    )
}

/// How a method takes `self`.
#[derive(Debug)]
pub enum SelfKind {
    /// No `self` parameter.
    NoSelf,
    /// `self` or `mut self`.
    ByValue,
    /// `&self` or `&mut self`, with its lifetime if one is named.
    ByRef { lifetime: Option<String> },
}

/// A method declared in a trait.
#[derive(Debug)]
pub struct TraitMethod {
    pub ident: String,
    /// The arguments of the method's `maybe` attribute, if it has one.
    pub maybe_attr: Option<Vec<Token>>,
    pub is_async: bool,
    pub has_default: bool,
    pub self_kind: SelfKind,
    /// Whether the method's generics begin with the lifetime `'a`.
    pub ret_lifetime: bool,
    /// The written return type; `None` for `()`.
    pub output: Option<String>,
}

/// An item of a trait.
#[derive(Debug)]
pub enum TraitItem {
    Method(TraitMethod),
    /// Any other item, as text.
    Other(String),
}

/// An associated type `type name<'a> = ty where Self: 'a;`.
#[derive(Debug)]
pub struct AssocRet {
    pub name: String,
    pub ty: String,
}

/// An item of an expanded trait.
#[derive(Debug)]
pub enum ExpandedItem {
    /// An item that the expansion leaves as it is.
    Kept(TraitItem),
    /// A method that was marked `maybe(async)`, rewritten to return its
    /// associated type `ret`, which follows the trait's items.
    Marked { method: TraitMethod, ret: AssocRet },
}

/// The first thing that keeps a trait item from being expanded, if any.
pub open spec fn item_fault(item: TraitItem) -> Option<ExpandError> {
    match item {
        TraitItem::Other(_) => None,
        TraitItem::Method(m) => match m.maybe_attr {
            None => None,
            Some(toks) => match parse_keywords_spec(toks@) {
                Err(e) => Some(ExpandError::Attr(e)),
                Ok(ks) => if ks != seq![KeywordKind::Async] {
                    Some(ExpandError::OnlyAsync)
                } else if m.is_async {
                    Some(ExpandError::AsyncMethod)
                } else if m.has_default {
                    Some(ExpandError::DefaultBody)
                } else if m.self_kind matches SelfKind::ByRef { lifetime: Some(_) } {
                    Some(ExpandError::NamedSelfLifetime)
                } else {
                    None
                },
            },
        },
    }
}

/// What a trait item becomes when it has no fault: an unmarked item is kept;
/// a marked method loses its attribute, gains the lifetime `'a`, lends it to
/// `&self`, and returns `Self::<name>_ret<'a>`, the associated type being
/// the method's former return type.
pub open spec fn expanded_item(item: TraitItem, r: ExpandedItem) -> bool {
    match item {
        TraitItem::Method(m) => if m.maybe_attr is Some {
            r matches ExpandedItem::Marked { method, ret } && {
                &&& method.ident == m.ident
                &&& method.maybe_attr is None
                &&& method.is_async == m.is_async
                &&& method.has_default == m.has_default
                &&& method.ret_lifetime
                &&& method.output matches Some(o) && o@ == "Self::"@ + m.ident@ + "_ret<'a>"@
                &&& match m.self_kind {
                    SelfKind::ByRef { .. } => method.self_kind matches SelfKind::ByRef {
                        lifetime: Some(l),
                    } && l@ == "'a"@,
                    _ => method.self_kind == m.self_kind,
                }
                &&& ret.name@ == m.ident@ + "_ret"@
                &&& ret.ty@ == ret_text(m.output)
            }
        } else {
            r == ExpandedItem::Kept(item)
        },
        TraitItem::Other(_) => r == ExpandedItem::Kept(item),
    }
}

fn expand_item(item: TraitItem) -> (r: Result<ExpandedItem, ExpandError>)
    ensures
        match r {
            Ok(x) => item_fault(item) is None && expanded_item(item, x),
            Err(e) => item_fault(item) == Some(e),
        },
{
    let m = match item {
        TraitItem::Other(s) => {
            return Ok(ExpandedItem::Kept(TraitItem::Other(s)));
        },
        TraitItem::Method(m) => m,
    };
    let TraitMethod { ident, maybe_attr, is_async, has_default, self_kind, ret_lifetime, output } =
        m;
    let toks = match maybe_attr {
        None => {
            return Ok(
                ExpandedItem::Kept(
                    TraitItem::Method(
                        TraitMethod {
                            ident,
                            maybe_attr: None,
                            is_async,
                            has_default,
                            self_kind,
                            ret_lifetime,
                            output,
                        },
                    ),
                ),
            );
        },
        Some(t) => t,
    };
    let ks = match parse_keywords(&toks) {
        Ok(ks) => ks,
        Err(e) => {
            return Err(ExpandError::Attr(e));
        },
    };
    if ks.len() != 1 || ks[0] != KeywordKind::Async {
        assert(ks@ != seq![KeywordKind::Async]);
        return Err(ExpandError::OnlyAsync);
    }
    assert(ks@ =~= seq![KeywordKind::Async]);
    if is_async {
        return Err(ExpandError::AsyncMethod);
    }
    if has_default {
        return Err(ExpandError::DefaultBody);
    }
    let self_kind = match self_kind {
        SelfKind::ByRef { lifetime } => match lifetime {
            Some(_) => {
                return Err(ExpandError::NamedSelfLifetime);
            },
            None => SelfKind::ByRef { lifetime: Some("'a".to_owned()) },
        },
        other => other,
    };
    let name = ident.clone().concat("_ret");
    let out = "Self::".to_owned().concat(name.as_str()).concat("<'a>");
    proof {
        reveal_strlit("_ret");
        reveal_strlit("<'a>");
        reveal_strlit("_ret<'a>");
        assert(out@ =~= "Self::"@ + ident@ + "_ret<'a>"@);
    }
    let ty = ret_string(&output);
    Ok(
        ExpandedItem::Marked {
            method: TraitMethod {
                ident,
                maybe_attr: None,
                is_async,
                has_default,
                self_kind,
                ret_lifetime: true,
                output: Some(out),
            },
            ret: AssocRet { name, ty },
        },
    )
}

/// The fault of the first trait item that has one.
pub open spec fn first_fault(items: Seq<TraitItem>) -> Option<ExpandError>
    decreases items.len(),
{
    if items.len() == 0 {
        None
    } else {
        match item_fault(items[0]) {
            Some(e) => Some(e),
            None => first_fault(items.drop_first()),
        }
    }
}

/// Expands a trait given to the `maybe` attribute with the keywords `ks`:
/// the attribute must name exactly one keyword; then each item in order,
/// stopping at the first fault.
pub fn maybe_async_trait(items: Vec<TraitItem>, ks: &Vec<KeywordKind>) -> (r: Result<
    Vec<ExpandedItem>,
    ExpandError,
>)
    ensures
        ks@.len() != 1 ==> r == Err::<Vec<ExpandedItem>, ExpandError>(ExpandError::KeywordCount),
        ks@.len() == 1 && r is Ok ==> first_fault(items@) is None,
        r is Ok ==> r->Ok_0@.len() == items@.len(),
        r is Ok ==> forall|i: int|
            0 <= i < items@.len() ==> expanded_item(items@[i], #[trigger] r->Ok_0@[i]),
        ks@.len() == 1 && r is Err ==> first_fault(items@) == Some(r->Err_0),
{
    if ks.len() != 1 {
        return Err(ExpandError::KeywordCount);
    }
    let ghost orig = items@;
    let mut rest = items;
    let mut out: Vec<ExpandedItem> = Vec::new();
    while rest.len() > 0
        invariant
            out@.len() + rest@.len() == orig.len(),
            rest@ == orig.subrange(out@.len() as int, orig.len() as int),
            first_fault(orig) == first_fault(rest@),
            orig == items@,
            ks@.len() == 1,
            forall|j: int| 0 <= j < out@.len() ==> expanded_item(orig[j], #[trigger] out@[j]),
        decreases rest.len(),
    {
        let ghost before = rest@;
        let item = rest.remove(0);
        assert(rest@ =~= before.drop_first());
        match expand_item(item) {
            Ok(x) => out.push(x),
            Err(e) => {
                return Err(e);
            },
        }
        assert(rest@ =~= orig.subrange(out@.len() as int, orig.len() as int));
    }
    Ok(out)
}

} // verus!
