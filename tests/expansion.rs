use maybe_async_channel::expand::{
    maybe_async_trait, maybe_fn, ExpandError, ExpandedItem, FnArg, ItemFn, RetKind, SelfKind,
    TraitItem, TraitMethod,
};
use maybe_async_channel::keyword::{keyword_tokens, parse_keywords, AttrError, KeywordKind, Token};
use maybe_async_channel::rewrite::{
    deeffectify, effectify, split_if_expression, RewriteError,
};
use maybe_async_channel::syntax::{
    Block, Expr, ExprList, Path, PathArgs, PathSegment, SegmentList, Stmt, StmtList,
};

fn seg(name: &str, args: PathArgs) -> PathSegment {
    PathSegment { ident: name.to_string(), args }
}

fn path_with(name: &str, args: PathArgs) -> Expr {
    Expr::Path {
        qself: false,
        path: Path { leading_colon: false, prefix: SegmentList::Nil, last: seg(name, args) },
    }
}

fn path(name: &str) -> Expr {
    path_with(name, PathArgs::Empty)
}

fn call_of(func: Expr, args: Vec<Expr>) -> Expr {
    Expr::Call { func: Box::new(func), args: ExprList::from_vec(args) }
}

fn call(name: &str, args: Vec<Expr>) -> Expr {
    call_of(path(name), args)
}

fn marked(name: &str, eff: Option<KeywordKind>, args: Vec<Expr>) -> Expr {
    call_of(path_with(name, PathArgs::Effect(eff)), args)
}

fn block(stmts: Vec<Stmt>) -> Block {
    Block { stmts: StmtList::from_vec(stmts) }
}

fn let_(pat: &str, e: Expr) -> Stmt {
    Stmt::Local { pat: pat.to_string(), init: Some(Box::new(e)) }
}

fn awaited(e: Expr) -> Expr {
    Expr::Await(Box::new(e))
}

fn tried(e: Expr) -> Expr {
    Expr::Try(Box::new(e))
}

fn dbg<T: std::fmt::Debug>(x: &T) -> String {
    format!("{:?}", x)
}

fn ident(s: &str) -> Token {
    Token::Ident(s.to_string())
}

fn gated(name: &str, then_b: Block, else_b: Option<Expr>) -> Block {
    block(vec![Stmt::Expr(Expr::If {
        cond: Box::new(path(name)),
        then_branch: then_b,
        else_branch: else_b.map(Box::new),
    })])
}

fn empty_fn(name: &str, is_async: bool, body: Block) -> ItemFn {
    ItemFn { is_async, ident: name.to_string(), inputs: vec![], output: None, body }
}

#[test]
fn maybe_sleep_sync_call() {
    let x = maybe_fn(empty_fn("sleep", false, block(vec![])), &vec![KeywordKind::Async]).unwrap();
    assert_eq!(x.mod_name, "sleep");
    assert!(x.call_args.is_empty());
    assert_eq!(x.plain_ret.kind, RetKind::Plain);
    assert_eq!(x.plain_ret.ty, "()");
    assert_eq!(dbg(&x.plain_body), dbg(&block(vec![])));
}

#[test]
fn maybe_sleep_async_call() {
    let x = maybe_fn(empty_fn("sleep", false, block(vec![])), &vec![KeywordKind::Async]).unwrap();
    assert_eq!(x.effect, KeywordKind::Async);
    assert_eq!(x.effect_ret.kind, RetKind::Future);
    assert_eq!(x.effect_ret.ty, "()");
    assert_eq!(dbg(&x.effect_body), dbg(&Expr::Async(block(vec![]))));
}

#[test]
fn async_fn_is_refused() {
    let r = maybe_fn(empty_fn("sleep", true, block(vec![])), &vec![KeywordKind::Async]);
    assert_eq!(r.err(), Some(ExpandError::AsyncFn));
}

#[test]
fn keyword_count_is_checked_first() {
    let ks = vec![KeywordKind::Async, KeywordKind::Try];
    assert_eq!(maybe_fn(empty_fn("f", true, block(vec![])), &ks).err(), Some(ExpandError::KeywordCount));
    assert_eq!(maybe_fn(empty_fn("f", false, block(vec![])), &vec![]).err(), Some(ExpandError::KeywordCount));
}

#[test]
fn call_args_are_names() {
    let item = ItemFn {
        is_async: false,
        ident: "send".to_string(),
        inputs: vec![FnArg::SelfParam, FnArg::Ident("msg".to_string())],
        output: Some("Result<(), E>".to_string()),
        body: block(vec![]),
    };
    let x = maybe_fn(item, &vec![KeywordKind::Try]).unwrap();
    assert_eq!(x.call_args, vec!["self".to_string(), "msg".to_string()]);
    assert_eq!(x.effect_ret.kind, RetKind::Plain);
    assert_eq!(x.plain_ret.kind, RetKind::TryOutput);
    assert_eq!(x.plain_ret.ty, "Result<(), E>");
    assert_eq!(dbg(&x.effect_body), dbg(&Expr::TryBlock(block(vec![]))));
}

#[test]
fn pattern_argument_is_refused() {
    let item = ItemFn {
        is_async: false,
        ident: "f".to_string(),
        inputs: vec![FnArg::Ident("a".to_string()), FnArg::Pattern("(x, y)".to_string())],
        output: None,
        body: block(vec![]),
    };
    assert_eq!(maybe_fn(item, &vec![KeywordKind::Async]).err(), Some(ExpandError::UnsupportedPattern));
}

#[test]
fn sleep_and_print_rewrites_the_await() {
    let body = block(vec![let_("_", awaited(call("sleep", vec![path("dur")])))]);
    let x = maybe_fn(empty_fn("sleep_and_print", false, body), &vec![KeywordKind::Async]).unwrap();
    let plain = block(vec![let_("_", marked("sleep", None, vec![path("dur")]))]);
    assert_eq!(dbg(&x.plain_body), dbg(&plain));
    let eff = Expr::Async(block(vec![let_(
        "_",
        awaited(marked("sleep", Some(KeywordKind::Async), vec![path("dur")])),
    )]));
    assert_eq!(dbg(&x.effect_body), dbg(&eff));
}

#[test]
fn mk_box_and_print_rewrites_the_question_mark() {
    let body = block(vec![let_("_", tried(call("mk_box", vec![])))]);
    let x = maybe_fn(empty_fn("mk_box_and_print", false, body), &vec![KeywordKind::Try]).unwrap();
    let plain = block(vec![let_("_", marked("mk_box", None, vec![]))]);
    assert_eq!(dbg(&x.plain_body), dbg(&plain));
    let eff = Expr::TryBlock(block(vec![let_("_", tried(marked("mk_box", Some(KeywordKind::Try), vec![])))]));
    assert_eq!(dbg(&x.effect_body), dbg(&eff));
}

#[test]
fn gated_sleep_splits_branches() {
    let then_b = block(vec![Stmt::Expr(call("Sleepy", vec![path("deadline")]))]);
    let else_b = block(vec![Stmt::Expr(call("thread_sleep", vec![path("dur")]))]);
    let body = gated("ASYNC", then_b, Some(Expr::Block(else_b)));
    let x = maybe_fn(empty_fn("sleep", false, body), &vec![KeywordKind::Async]).unwrap();
    let else_again = block(vec![Stmt::Expr(call("thread_sleep", vec![path("dur")]))]);
    assert_eq!(dbg(&x.plain_body), dbg(&else_again));
    let then_again = block(vec![Stmt::Expr(call("Sleepy", vec![path("deadline")]))]);
    assert_eq!(dbg(&x.effect_body), dbg(&Expr::Block(then_again)));
}

#[test]
fn split_with_unlisted_constant_is_not_gated() {
    let body = gated("TRY", block(vec![]), Some(Expr::Block(block(vec![]))));
    let copy = gated("TRY", block(vec![]), Some(Expr::Block(block(vec![]))));
    let (sync, bodies) = split_if_expression(body, &vec![KeywordKind::Async]).unwrap();
    assert_eq!(dbg(&sync), dbg(&copy));
    assert_eq!(bodies.len(), 1);
    assert_eq!(dbg(&bodies[0]), dbg(&Expr::Async(copy)));
}

#[test]
fn split_without_else_fails() {
    let body = gated("ASYNC", block(vec![]), None);
    assert_eq!(split_if_expression(body, &vec![KeywordKind::Async]).err(), Some(RewriteError::MissingElse));
}

#[test]
fn split_with_else_if_fails() {
    let inner = Expr::If { cond: Box::new(path("c")), then_branch: block(vec![]), else_branch: None };
    let body = gated("ASYNC", block(vec![]), Some(inner));
    assert_eq!(split_if_expression(body, &vec![KeywordKind::Async]).err(), Some(RewriteError::ElseNotBlock));
}

#[test]
fn split_per_effect_in_order() {
    let ks = vec![KeywordKind::Try, KeywordKind::Async];
    let body = gated("ASYNC", block(vec![Stmt::Semi(path("a"))]), Some(Expr::Block(block(vec![]))));
    let (sync, bodies) = split_if_expression(body, &ks).unwrap();
    assert_eq!(dbg(&sync), dbg(&block(vec![])));
    assert_eq!(dbg(&bodies[0]), dbg(&Expr::TryBlock(block(vec![]))));
    assert_eq!(dbg(&bodies[1]), dbg(&Expr::Block(block(vec![Stmt::Semi(path("a"))]))));
}

#[test]
fn await_on_non_call_fails() {
    let e = awaited(path("fut"));
    assert_eq!(effectify(e, &vec![KeywordKind::Async]).err(), Some(RewriteError::NotACall));
}

#[test]
fn await_on_non_path_callee_fails() {
    let e = awaited(call_of(Expr::Other { kind: "paren".to_string(), children: ExprList::from_vec(vec![path("f")]) }, vec![]));
    assert_eq!(effectify(e, &vec![KeywordKind::Async]).err(), Some(RewriteError::NotAFunctionPath));
}

#[test]
fn await_on_call_with_arguments_fails() {
    let e = awaited(call_of(path_with("f", PathArgs::Written("u8".to_string())), vec![]));
    assert_eq!(effectify(e, &vec![KeywordKind::Async]).err(), Some(RewriteError::ArgumentsGiven));
}

#[test]
fn unlisted_marker_is_left_alone() {
    let e = tried(path("x"));
    let r = effectify(e, &vec![KeywordKind::Async]).unwrap();
    assert_eq!(dbg(&r), dbg(&tried(path("x"))));
}

#[test]
fn nested_awaits_are_all_marked() {
    let e = call("outer", vec![Expr::Other {
        kind: "binary".to_string(),
        children: ExprList::from_vec(vec![awaited(call("a", vec![])), awaited(call("b", vec![awaited(call("c", vec![]))]))]),
    }]);
    let r = effectify(e, &vec![KeywordKind::Async]).unwrap();
    let a = Some(KeywordKind::Async);
    let expected = call("outer", vec![Expr::Other {
        kind: "binary".to_string(),
        children: ExprList::from_vec(vec![awaited(marked("a", a, vec![])), awaited(marked("b", a, vec![awaited(marked("c", a, vec![]))]))]),
    }]);
    assert_eq!(dbg(&r), dbg(&expected));
}

#[test]
fn first_fault_in_order_is_reported() {
    let e = call("f", vec![awaited(call_of(path_with("g", PathArgs::Written("T".to_string())), vec![])), awaited(path("x"))]);
    assert_eq!(effectify(e, &vec![KeywordKind::Async]).err(), Some(RewriteError::ArgumentsGiven));
}

#[test]
fn plain_variant_rewrites_markers_at_any_depth() {
    let nested = call("f", vec![awaited(call("g", vec![path("x")]))]);
    let gated = Expr::If {
        cond: Box::new(path("c")),
        then_branch: block(vec![Stmt::Semi(awaited(call("k", vec![])))]),
        else_branch: None,
    };
    let b = block(vec![
        Stmt::Semi(awaited(call("h", vec![]))),
        Stmt::Expr(nested),
        Stmt::Semi(gated),
        Stmt::Item("fn z() {}".to_string()),
    ]);
    let r = deeffectify(b, &vec![KeywordKind::Async]).unwrap();
    let expected = block(vec![
        Stmt::Semi(marked("h", None, vec![])),
        Stmt::Expr(call("f", vec![marked("g", None, vec![path("x")])])),
        Stmt::Semi(Expr::If {
            cond: Box::new(path("c")),
            then_branch: block(vec![Stmt::Semi(marked("k", None, vec![]))]),
            else_branch: None,
        }),
        Stmt::Item("fn z() {}".to_string()),
    ]);
    assert_eq!(dbg(&r), dbg(&expected));
}

#[test]
fn plain_variant_keeps_unlisted_markers() {
    let b = block(vec![Stmt::Semi(call("f", vec![tried(call("g", vec![]))]))]);
    let r = deeffectify(b, &vec![KeywordKind::Async]).unwrap();
    let expected = block(vec![Stmt::Semi(call("f", vec![tried(call("g", vec![]))]))]);
    assert_eq!(dbg(&r), dbg(&expected));
}

#[test]
fn plain_variant_rewrites_nested_markers_in_operands() {
    let b = block(vec![Stmt::Semi(awaited(call("a", vec![awaited(call("b", vec![]))])))]);
    let r = deeffectify(b, &vec![KeywordKind::Async]).unwrap();
    let expected = block(vec![Stmt::Semi(marked("a", None, vec![marked("b", None, vec![])]))]);
    assert_eq!(dbg(&r), dbg(&expected));
}

#[test]
fn trait_keyword_count_is_checked() {
    let items = vec![TraitItem::Other("type Item;".to_string())];
    let ks = vec![KeywordKind::Async, KeywordKind::Try];
    assert_eq!(maybe_async_trait(items, &ks).err(), Some(ExpandError::KeywordCount));
    let items = vec![TraitItem::Other("type Item;".to_string())];
    assert_eq!(maybe_async_trait(items, &vec![]).err(), Some(ExpandError::KeywordCount));
}

#[test]
fn plain_variant_reports_bad_marker() {
    let b = block(vec![Stmt::Semi(tried(path("x")))]);
    assert_eq!(deeffectify(b, &vec![KeywordKind::Try]).err(), Some(RewriteError::NotACall));
}

#[test]
fn parse_single_and_pair() {
    assert_eq!(parse_keywords(&vec![ident("async")]), Ok(vec![KeywordKind::Async]));
    let toks = vec![ident("async"), Token::Punct(','), ident("try")];
    assert_eq!(parse_keywords(&toks), Ok(vec![KeywordKind::Async, KeywordKind::Try]));
}

#[test]
fn parse_errors() {
    assert_eq!(parse_keywords(&vec![]), Err(AttrError::UnknownKeyword(0)));
    assert_eq!(parse_keywords(&vec![ident("await")]), Err(AttrError::UnknownKeyword(0)));
    let dup = vec![ident("try"), Token::Punct(','), ident("try")];
    assert_eq!(parse_keywords(&dup), Err(AttrError::DuplicateKeyword(2)));
    assert_eq!(parse_keywords(&vec![ident("async"), ident("try")]), Err(AttrError::ExpectedComma(1)));
    assert_eq!(parse_keywords(&vec![ident("async"), Token::Punct(',')]), Err(AttrError::UnknownKeyword(2)));
    assert_eq!(parse_keywords(&vec![Token::Other]), Err(AttrError::UnknownKeyword(0)));
}

#[test]
fn keyword_names() {
    assert_eq!(KeywordKind::Async.all_caps_name(), "ASYNC");
    assert_eq!(KeywordKind::Try.all_caps_name(), "TRY");
    assert_eq!(KeywordKind::Async.name(), "async");
    assert_eq!(AttrError::DuplicateKeyword(0).message(), "duplicate keyword");
}

fn method(name: &str, attr: Option<Vec<Token>>, self_kind: SelfKind) -> TraitMethod {
    TraitMethod {
        ident: name.to_string(),
        maybe_attr: attr,
        is_async: false,
        has_default: false,
        self_kind,
        ret_lifetime: false,
        output: Some("Option<Self::Item>".to_string()),
    }
}

#[test]
fn trait_method_gets_its_return_type() {
    let items = vec![
        TraitItem::Other("type Item;".to_string()),
        TraitItem::Method(method("next", Some(vec![ident("async")]), SelfKind::ByRef { lifetime: None })),
        TraitItem::Method(method("size_hint", None, SelfKind::ByRef { lifetime: None })),
    ];
    let out = maybe_async_trait(items, &vec![KeywordKind::Async]).unwrap();
    assert_eq!(out.len(), 3);
    assert!(matches!(&out[0], ExpandedItem::Kept(TraitItem::Other(s)) if s == "type Item;"));
    match &out[1] {
        ExpandedItem::Marked { method, ret } => {
            assert_eq!(method.ident, "next");
            assert!(method.maybe_attr.is_none());
            assert!(method.ret_lifetime);
            assert_eq!(method.output.as_deref(), Some("Self::next_ret<'a>"));
            assert!(matches!(&method.self_kind, SelfKind::ByRef { lifetime: Some(l) } if l == "'a"));
            assert_eq!(ret.name, "next_ret");
            assert_eq!(ret.ty, "Option<Self::Item>");
        }
        _ => panic!("the marked method must be rewritten"),
    }
    assert!(matches!(&out[2], ExpandedItem::Kept(TraitItem::Method(m)) if m.ident == "size_hint" && !m.ret_lifetime));
}

#[test]
fn trait_method_faults() {
    let named = method("next", Some(vec![ident("async")]), SelfKind::ByRef { lifetime: Some("'b".to_string()) });
    assert_eq!(maybe_async_trait(vec![TraitItem::Method(named)], &vec![KeywordKind::Async]).err(), Some(ExpandError::NamedSelfLifetime));
    let mut with_default = method("next", Some(vec![ident("async")]), SelfKind::ByValue);
    with_default.has_default = true;
    assert_eq!(maybe_async_trait(vec![TraitItem::Method(with_default)], &vec![KeywordKind::Async]).err(), Some(ExpandError::DefaultBody));
    let try_attr = method("next", Some(vec![ident("try")]), SelfKind::NoSelf);
    assert_eq!(maybe_async_trait(vec![TraitItem::Method(try_attr)], &vec![KeywordKind::Async]).err(), Some(ExpandError::OnlyAsync));
    let bad_attr = method("next", Some(vec![]), SelfKind::NoSelf);
    assert_eq!(maybe_async_trait(vec![TraitItem::Method(bad_attr)], &vec![KeywordKind::Async]).err(), Some(ExpandError::Attr(AttrError::UnknownKeyword(0))));
    let mut is_async = method("next", Some(vec![ident("async")]), SelfKind::NoSelf);
    is_async.is_async = true;
    assert_eq!(maybe_async_trait(vec![TraitItem::Method(is_async)], &vec![KeywordKind::Async]).err(), Some(ExpandError::AsyncMethod));
}

#[test]
fn trait_first_fault_wins() {
    let mut first = method("a", Some(vec![ident("async")]), SelfKind::NoSelf);
    first.has_default = true;
    let second = method("b", Some(vec![ident("try")]), SelfKind::NoSelf);
    let items = vec![TraitItem::Method(method("ok", Some(vec![ident("async")]), SelfKind::ByValue)), TraitItem::Method(first), TraitItem::Method(second)];
    assert_eq!(maybe_async_trait(items, &vec![KeywordKind::Async]).err(), Some(ExpandError::DefaultBody));
}

#[test]
fn unit_return_becomes_unit_type() {
    let mut m = method("run", Some(vec![ident("async")]), SelfKind::ByValue);
    m.output = None;
    let out = maybe_async_trait(vec![TraitItem::Method(m)], &vec![KeywordKind::Async]).unwrap();
    match &out[0] {
        ExpandedItem::Marked { method, ret } => {
            assert!(matches!(method.self_kind, SelfKind::ByValue));
            assert_eq!(ret.ty, "()");
        }
        _ => panic!("the marked method must be rewritten"),
    }
}

#[test]
fn keyword_tokens_round_trip() {
    let ks = vec![KeywordKind::Try, KeywordKind::Async];
    let toks = keyword_tokens(&ks);
    assert_eq!(toks, vec![ident("try"), Token::Punct(','), ident("async")]);
    assert_eq!(parse_keywords(&toks), Ok(ks));
    assert!(keyword_tokens(&vec![]).is_empty());
}

#[test]
fn plain_fault_comes_before_effect_fault() {
    let then_b = block(vec![Stmt::Semi(awaited(call_of(path_with("g", PathArgs::Written("<u8>".to_string())), vec![])))]);
    let else_b = block(vec![Stmt::Semi(call("f", vec![awaited(path("x"))]))]);
    let body = gated("ASYNC", then_b, Some(Expr::Block(else_b)));
    let r = maybe_fn(empty_fn("h", false, body), &vec![KeywordKind::Async]);
    assert_eq!(r.err(), Some(ExpandError::Rewrite(RewriteError::NotACall)));
}

#[test]
fn gated_then_branch_fault_shows_only_in_effect_variant() {
    let then_b = block(vec![Stmt::Semi(awaited(path("x")))]);
    let body = gated("ASYNC", then_b, Some(Expr::Block(block(vec![]))));
    let r = maybe_fn(empty_fn("h", false, body), &vec![KeywordKind::Async]);
    assert_eq!(r.err(), Some(ExpandError::Rewrite(RewriteError::NotACall)));
    let then_b = block(vec![Stmt::Semi(awaited(call_of(path_with("g", PathArgs::Written("<u8>".to_string())), vec![])))]);
    let body = gated("ASYNC", then_b, Some(Expr::Block(block(vec![]))));
    let r = maybe_fn(empty_fn("h", false, body), &vec![KeywordKind::Async]);
    assert_eq!(r.err(), Some(ExpandError::Rewrite(RewriteError::ArgumentsGiven)));
}

#[test]
fn expand_error_messages() {
    assert_eq!(ExpandError::KeywordCount.message(), "`maybe` currently only supports exactly one keyword");
    assert_eq!(ExpandError::AsyncFn.message(), "maybe_async functions can't also be `async`");
    assert_eq!(ExpandError::AsyncMethod.message(), "maybe_async methods can't also be `async`");
    assert_eq!(ExpandError::Rewrite(RewriteError::MissingElse).message(), RewriteError::MissingElse.message());
    assert_eq!(ExpandError::Attr(AttrError::ExpectedComma(1)).message(), "expected `,`");
}
