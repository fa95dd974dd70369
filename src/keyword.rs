//! The effect keywords and the grammar of the `maybe` attribute's arguments:
//! a non-empty, comma-separated list of distinct keywords (`async, try`).

use vstd::prelude::*;

verus! {

/// An effect that a `maybe` function or trait can be made generic over.
#[derive(Debug, Clone, Copy, PartialEq, Eq, Structural)]
pub enum KeywordKind {
    /// Suspension: the effect variant is an `async` block awaited by the caller.
    Async,
    /// Error propagation: the effect variant is a `try` block.
    Try,
}

/// The name of the effect's constant, as it appears in `if ASYNC { .. }`
/// and in `Effects::ASYNC`.
pub open spec fn caps_name(k: KeywordKind) -> Seq<char> {
    match k {
        KeywordKind::Async => "ASYNC"@,
        KeywordKind::Try => "TRY"@,
    }
}

/// The keyword as written in source.
pub open spec fn source_name(k: KeywordKind) -> Seq<char> {
    match k {
        KeywordKind::Async => "async"@,
        KeywordKind::Try => "try"@,
    }
}

impl KeywordKind {
    /// The upper-case name of this effect's constant.
    pub fn all_caps_name(&self) -> (r: &'static str)
        ensures
            r@ == caps_name(*self),
    {
        match self {
            KeywordKind::Async => "ASYNC",
            KeywordKind::Try => "TRY",
        }
    }

    /// The keyword as written in source.
    pub fn name(&self) -> (r: &'static str)
        ensures
            r@ == source_name(*self),
    {
        match self {
            KeywordKind::Async => "async",
            KeywordKind::Try => "try",
        }
    }
}

/// One token of an attribute's argument list.
#[derive(Debug, PartialEq, Eq)]
pub enum Token {
    /// An identifier or keyword, such as `async`.
    Ident(String),
    /// A punctuation character, such as `,`.
    Punct(char),
    /// A literal or a delimited group.
    Other,
}

/// Why an attribute's argument list was rejected. Each variant carries the
/// index of the offending token (the length of the list where it ran out).
#[derive(Debug, Clone, Copy, PartialEq, Eq, Structural)]
pub enum AttrError {
    /// Expected `async` or `try` here.
    UnknownKeyword(usize),
    /// This keyword was already given.
    DuplicateKeyword(usize),
    /// Expected `,` between two keywords.
    ExpectedComma(usize),
}

impl AttrError {
    /// The diagnostic shown for this error.
    pub fn message(&self) -> (r: &'static str)
        ensures
            r@ == error_message(*self),
    {
        match self {
            AttrError::UnknownKeyword(_) => "unknown keyword, expected `async` or `try`",
            AttrError::DuplicateKeyword(_) => "duplicate keyword",
            AttrError::ExpectedComma(_) => "expected `,`",
        }
    }
}

/// The diagnostic shown for an argument-list error.
pub open spec fn error_message(e: AttrError) -> Seq<char> {
    match e {
        AttrError::UnknownKeyword(_) => "unknown keyword, expected `async` or `try`"@,
        AttrError::DuplicateKeyword(_) => "duplicate keyword"@,
        AttrError::ExpectedComma(_) => "expected `,`"@,
    }
}

/// The effect that a token names, if any.
pub open spec fn keyword_of(t: Token) -> Option<KeywordKind> {
    match t {
        Token::Ident(s) => if s@ == "async"@ {
            Some(KeywordKind::Async)
        } else if s@ == "try"@ {
            Some(KeywordKind::Try)
        } else {
            None
        },
        _ => None,
    }
}

pub open spec fn is_comma(t: Token) -> bool {
    t == Token::Punct(',')
}

/// Reads keywords from position `i` on, `acc` being those read so far:
/// a keyword, then either the end or a comma and the rest.
pub open spec fn parse_from(toks: Seq<Token>, i: int, acc: Seq<KeywordKind>) -> Result<
    Seq<KeywordKind>,
    AttrError,
>
    decreases toks.len() - i,
{
    if i < 0 || i >= toks.len() {
        Err(AttrError::UnknownKeyword(i as usize))
    } else {
        match keyword_of(toks[i]) {
            None => Err(AttrError::UnknownKeyword(i as usize)),
            Some(k) => if acc.contains(k) {
                Err(AttrError::DuplicateKeyword(i as usize))
            } else if i + 1 == toks.len() {
                Ok(acc.push(k))
            } else if !is_comma(toks[i + 1]) {
                Err(AttrError::ExpectedComma((i + 1) as usize))
            } else {
                parse_from(toks, i + 2, acc.push(k))
            },
        }
    }
}

/// The keywords that an argument list gives, or the first thing wrong with it.
pub open spec fn parse_keywords_spec(toks: Seq<Token>) -> Result<Seq<KeywordKind>, AttrError> {
    parse_from(toks, 0, Seq::empty())
}

fn token_keyword(t: &Token) -> (r: Option<KeywordKind>)
    ensures
        r == keyword_of(*t),
{
    match t {
        Token::Ident(s) => {
            let async_kw = "async".to_owned();
            let try_kw = "try".to_owned();
            if *s == async_kw {
                Some(KeywordKind::Async)
            } else if *s == try_kw {
                Some(KeywordKind::Try)
            } else {
                None
            }
        },
        _ => None,
    }
}

pub(crate) fn contains_kind(ks: &Vec<KeywordKind>, k: KeywordKind) -> (r: bool)
    ensures
        r == ks@.contains(k),
{
    let mut i: usize = 0;
    while i < ks.len()
        invariant
            0 <= i <= ks.len(),
            forall|j: int| 0 <= j < i ==> ks@[j] != k,
        decreases ks.len() - i,
    {
        if ks[i] == k {
            return true;
        }
        i += 1;
    }
    false
}

/// Parses the argument list of a `maybe` attribute.
pub fn parse_keywords(toks: &Vec<Token>) -> (r: Result<Vec<KeywordKind>, AttrError>)
    ensures
        match r {
            Ok(ks) => parse_keywords_spec(toks@) == Ok::<Seq<KeywordKind>, AttrError>(ks@),
            Err(e) => parse_keywords_spec(toks@) == Err::<Seq<KeywordKind>, AttrError>(e),
        },
{
    let mut acc: Vec<KeywordKind> = Vec::new();
    let mut i: usize = 0;
    loop
        invariant
            0 <= i <= toks@.len(),
            parse_keywords_spec(toks@) == parse_from(toks@, i as int, acc@),
        decreases toks@.len() - i,
    {
        if i >= toks.len() {
            return Err(AttrError::UnknownKeyword(i));
        }
        match token_keyword(&toks[i]) {
            None => {
                return Err(AttrError::UnknownKeyword(i));
            },
            Some(k) => {
                if contains_kind(&acc, k) {
                    return Err(AttrError::DuplicateKeyword(i));
                }
                acc.push(k);
                if i + 1 == toks.len() {
                    return Ok(acc);
                }
                let comma = match &toks[i + 1] {
                    Token::Punct(c) => *c == ',',
                    _ => false,
                };
                if !comma {
                    return Err(AttrError::ExpectedComma(i + 1));
                }
                i += 2;
            },
        }
    }
}

/// `toks` lists the keywords `ks`, separated by commas.
pub open spec fn lists_keywords(toks: Seq<Token>, ks: Seq<KeywordKind>) -> bool {
    &&& ks.len() > 0
    &&& toks.len() == 2 * ks.len() - 1
    &&& forall|i: int| 0 <= i < ks.len() ==> keyword_of(#[trigger] toks[2 * i]) == Some(ks[i])
    &&& forall|i: int| 0 <= i < ks.len() - 1 ==> is_comma(#[trigger] toks[2 * i + 1])
}

/// The tokens of an argument list naming `ks`: `async, try`.
pub fn keyword_tokens(ks: &Vec<KeywordKind>) -> (r: Vec<Token>)
    ensures
        ks@.len() == 0 ==> r@.len() == 0,
        ks@.len() > 0 ==> lists_keywords(r@, ks@),
{
    let mut r: Vec<Token> = Vec::new();
    let mut i: usize = 0;
    while i < ks.len()
        invariant
            i <= ks@.len(),
            i == 0 ==> r@.len() == 0,
            i > 0 ==> lists_keywords(r@, ks@.take(i as int)),
        decreases ks.len() - i,
    {
        let ghost before = r@;
        if i > 0 {
            r.push(Token::Punct(','));
        }
        let name = ks[i].name().to_owned();
        proof {
            reveal_strlit("async");
            reveal_strlit("try");
            assert("async"@.len() == 5 && "try"@.len() == 3);
            assert(name@ == source_name(ks@[i as int]));
            assert(keyword_of(Token::Ident(name)) == Some(ks@[i as int]));
        }
        r.push(Token::Ident(name));
        proof {
            let ks2 = ks@.take(i as int + 1);
            assert forall|j: int| 0 <= j < ks2.len() implies keyword_of(#[trigger] r@[2 * j])
                == Some(ks2[j]) by {
                if j < i {
                    assert(r@[2 * j] == before[2 * j]);
                    assert(ks2[j] == ks@.take(i as int)[j]);
                } else {
                    assert(r@[2 * j] == r@.last());
                }
            }
            assert forall|j: int| 0 <= j < ks2.len() - 1 implies is_comma(#[trigger] r@[2 * j + 1]) by {
                if j < i - 1 {
                    assert(r@[2 * j + 1] == before[2 * j + 1]);
                }
            }
        }
        i += 1;
    }
    proof {
        assert(ks@.take(ks@.len() as int) =~= ks@);
    }
    r
}

proof fn lemma_parse_from_listed(toks: Seq<Token>, ks: Seq<KeywordKind>, j: int)
    requires
        lists_keywords(toks, ks),
        ks.no_duplicates(),
        0 <= j < ks.len(),
    ensures
        parse_from(toks, 2 * j, ks.take(j)) == Ok::<Seq<KeywordKind>, AttrError>(ks),
    decreases ks.len() - j,
{
    assert(keyword_of(toks[2 * j]) == Some(ks[j]));
    assert(!ks.take(j).contains(ks[j])) by {
        if ks.take(j).contains(ks[j]) {
            let m = choose|m: int| 0 <= m < j && ks.take(j)[m] == ks[j];
            assert(ks[m] == ks[j]);
        }
    }
    assert(ks.take(j).push(ks[j]) =~= ks.take(j + 1));
    if j == ks.len() - 1 {
        assert(ks.take(j + 1) =~= ks);
    } else {
        assert(is_comma(toks[2 * j + 1]));
        lemma_parse_from_listed(toks, ks, j + 1);
        assert(2 * (j + 1) == 2 * j + 2);
    }
}

/// Parsing the tokens that list distinct keywords, separated by commas,
/// gives back those keywords: the attribute's arguments round-trip through
/// `keyword_tokens` and `parse_keywords`.
pub proof fn lemma_parse_listed_keywords(toks: Seq<Token>, ks: Seq<KeywordKind>)
    requires
        lists_keywords(toks, ks),
        ks.no_duplicates(),
    ensures
        parse_keywords_spec(toks) == Ok::<Seq<KeywordKind>, AttrError>(ks),
{
    assert(ks.take(0) =~= Seq::<KeywordKind>::empty());
    lemma_parse_from_listed(toks, ks, 0);
}

} // verus!
