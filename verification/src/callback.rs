//! The macro token rewriter. Certain numeric constants in the solver's
//! headers are defined with an explicit type cast in front of the literal
//! (parenthesis, type keyword, parenthesis, literal), which a binding
//! generator cannot translate into a typed constant declaration. For macro
//! names registered as targets, the rewriter deletes that cast-shaped token
//! triple, leaving the bare literal; every other macro, and every sequence
//! not of that shape, passes through unmodified.

use vstd::prelude::*;
use crate::strutil::str_eq;
use vstd::string::StringExecFns;

verus! {

/// Token classes distinguished by the rewriter, mirroring the classes that
/// the header parser reports for the tokens of a macro definition.
#[derive(Clone, Copy, Debug, PartialEq, Eq, Structural)]
pub enum TokenKind {
    Punctuation,
    Keyword,
    Identifier,
    Literal,
    Comment,
}

/// One raw token of a macro definition.
#[derive(Clone, Debug, PartialEq, Eq)]
pub struct Token {
    pub kind: TokenKind,
    pub raw: Vec<u8>,
}

/// ASCII code of `(`.
pub const OPEN_PAREN: u8 = 40;

/// ASCII code of `)`.
pub const CLOSE_PAREN: u8 = 41;

/// The token is the punctuation `(`.
pub open spec fn is_open_paren(t: Token) -> bool {
    t.kind == TokenKind::Punctuation && t.raw@.len() == 1 && t.raw@[0] == OPEN_PAREN
}

/// The token is the punctuation `)`.
pub open spec fn is_close_paren(t: Token) -> bool {
    t.kind == TokenKind::Punctuation && t.raw@.len() == 1 && t.raw@[0] == CLOSE_PAREN
}

/// A cast-shaped window at position `i`: `(`, a language keyword, `)`,
/// immediately followed by a literal. The bracketed token must be a keyword
/// — a parenthesized identifier is grouping, not a cast, and is never
/// touched.
pub open spec fn is_cast_window(ts: Seq<Token>, i: int) -> bool {
    &&& 0 <= i
    &&& i + 4 <= ts.len()
    &&& is_open_paren(ts[i])
    &&& ts[i + 1].kind == TokenKind::Keyword
    &&& is_close_paren(ts[i + 2])
    &&& ts[i + 3].kind == TokenKind::Literal
}

/// The position of the first cast-shaped window at or after `i`, if any.
pub open spec fn first_cast_window_from(ts: Seq<Token>, i: int) -> Option<int>
    decreases ts.len() + 4 - i,
{
    if i + 4 > ts.len() {
        None
    } else if is_cast_window(ts, i) {
        Some(i)
    } else {
        first_cast_window_from(ts, i + 1)
    }
}

/// The position of the first cast-shaped window of the sequence, if any.
pub open spec fn first_cast_window(ts: Seq<Token>) -> Option<int> {
    first_cast_window_from(ts, 0)
}

/// The sequence with the three cast tokens at position `p` deleted.
pub open spec fn strip_window(ts: Seq<Token>, p: int) -> Seq<Token> {
    ts.subrange(0, p) + ts.subrange(p + 3, ts.len() as int)
}

/// What the rewriter leaves of a registered macro's token sequence.
pub open spec fn rewritten(ts: Seq<Token>) -> Seq<Token> {
    match first_cast_window(ts) {
        Some(p) => strip_window(ts, p),
        None => ts,
    }
}

proof fn lemma_first_cast_window_none(ts: Seq<Token>, i: int)
    requires
        forall|k: int| !is_cast_window(ts, k),
        0 <= i,
    ensures
        first_cast_window_from(ts, i) is None,
    decreases ts.len() + 4 - i,
{
    if i + 4 > ts.len() {
    } else {
        lemma_first_cast_window_none(ts, i + 1);
    }
}

/// The rewrite fires only on a cast-shaped window — `(`, a language
/// keyword, `)`, a literal. A sequence without one, a parenthesized
/// identifier among them, comes back unchanged even for a registered
/// macro.
pub proof fn lemma_no_window_no_rewrite(ts: Seq<Token>)
    requires
        forall|k: int| !is_cast_window(ts, k),
    ensures
        rewritten(ts) == ts,
{
    lemma_first_cast_window_none(ts, 0);
}

proof fn lemma_first_cast_window_sound(ts: Seq<Token>, i: int, p: int)
    requires
        0 <= i,
        first_cast_window_from(ts, i) == Some(p),
    ensures
        is_cast_window(ts, p),
        i <= p,
    decreases ts.len() + 4 - i,
{
    if i + 4 > ts.len() {
    } else if is_cast_window(ts, i) {
    } else {
        lemma_first_cast_window_sound(ts, i + 1, p);
    }
}

fn token_is_open_paren(t: &Token) -> (r: bool)
    ensures
        r == is_open_paren(*t),
{
    t.kind == TokenKind::Punctuation && t.raw.len() == 1 && t.raw[0] == OPEN_PAREN
}

fn token_is_close_paren(t: &Token) -> (r: bool)
    ensures
        r == is_close_paren(*t),
{
    t.kind == TokenKind::Punctuation && t.raw.len() == 1 && t.raw[0] == CLOSE_PAREN
}

fn find_cast_window(tokens: &Vec<Token>) -> (r: Option<usize>)
    ensures
        match r {
            Some(p) => first_cast_window(tokens@) == Some(p as int),
            None => first_cast_window(tokens@) is None,
        },
{
    if tokens.len() < 4 {
        return None;
    }
    let mut i: usize = 0;
    while i <= tokens.len() - 4
        invariant
            tokens@.len() >= 4,
            i <= tokens@.len() - 3,
            first_cast_window(tokens@) == first_cast_window_from(tokens@, i as int),
        decreases tokens@.len() - i,
    {
        if token_is_open_paren(&tokens[i]) && tokens[i + 1].kind == TokenKind::Keyword
            && token_is_close_paren(&tokens[i + 2]) && tokens[i + 3].kind == TokenKind::Literal {
            return Some(i);
        }
        i = i + 1;
    }
    None
}

/// Strips cast-shaped prefixes from registered preprocessor constants. The
/// header parser hands every macro definition it meets to [`Self::modify_macro`];
/// only the names registered through [`Self::target`] are ever rewritten.
#[derive(Debug)]
pub struct DeriveCastedConstant {
    targets: Vec<String>,
}

impl DeriveCastedConstant {
    /// The set of registered macro names.
    pub closed spec fn target_set(&self) -> Set<Seq<char>> {
        self.targets.deep_view().to_set()
    }

    /// A rewriter with no registered targets.
    pub fn new() -> (r: DeriveCastedConstant)
        ensures
            r.target_set() == Set::<Seq<char>>::empty(),
    {
        let r = DeriveCastedConstant { targets: Vec::new() };
        proof {
            assert(r.target_set() =~= Set::<Seq<char>>::empty());
        }
        r
    }

    /// Registers `name` as a rewrite target.
    pub fn target(self, name: &str) -> (r: DeriveCastedConstant)
        ensures
            r.target_set() == self.target_set().insert(name@),
    {
        let mut targets = self.targets;
        targets.push(String::from_str(name));
        let r = DeriveCastedConstant { targets };
        proof {
            let old_names = self.targets.deep_view();
            let new_names = r.targets.deep_view();
            assert(new_names =~= old_names.push(name@));
            assert forall|s: Seq<char>| new_names.to_set().contains(s)
                <==> self.target_set().insert(name@).contains(s) by {
                if new_names.contains(s) {
                    let k = choose|k: int| 0 <= k < new_names.len() && new_names[k] == s;
                    if k < old_names.len() {
                        assert(old_names[k] == s);
                    }
                }
                if old_names.contains(s) {
                    let k = choose|k: int| 0 <= k < old_names.len() && old_names[k] == s;
                    assert(new_names[k] == s);
                }
                if s == name@ {
                    assert(new_names[new_names.len() - 1] == s);
                }
            }
            assert(r.target_set() =~= self.target_set().insert(name@));
        }
        r
    }

    /// `name` is a registered target.
    fn is_target(&self, name: &str) -> (r: bool)
        ensures
            r == self.target_set().contains(name@),
    {
        let mut i: usize = 0;
        while i < self.targets.len()
            invariant
                i <= self.targets@.len(),
                forall|j: int| 0 <= j < i ==> self.targets.deep_view()[j] != name@,
            decreases self.targets@.len() - i,
        {
            if str_eq(self.targets[i].as_str(), name) {
                proof {
                    assert(self.targets.deep_view()[i as int] == name@);
                }
                return true;
            }
            i = i + 1;
        }
        proof {
            if self.target_set().contains(name@) {
                let k = choose|k: int|
                    0 <= k < self.targets.deep_view().len() && self.targets.deep_view()[k]
                        == name@;
                assert(self.targets.deep_view()[k] != name@);
            }
        }
        false
    }

    /// Invoked once per macro definition met while parsing headers. For a
    /// registered name whose token sequence holds a cast-shaped window, the
    /// first parenthesis/keyword/parenthesis triple standing before a
    /// literal is deleted, leaving the bare literal in place; every other
    /// sequence, and every unregistered macro, is left unchanged.
    pub fn modify_macro(&self, name: &str, tokens: &mut Vec<Token>)
        ensures
            self.target_set().contains(name@) ==> final(tokens)@ == rewritten(old(tokens)@),
            !self.target_set().contains(name@) ==> final(tokens)@ == old(tokens)@,
    {
        if !self.is_target(name) {
            return;
        }
        match find_cast_window(tokens) {
            Some(p) => {
                proof {
                    lemma_first_cast_window_sound(tokens@, 0, p as int);
                }
                tokens.remove(p);
                tokens.remove(p);
                tokens.remove(p);
                proof {
                    assert(tokens@ =~= strip_window(old(tokens)@, p as int));
                }
            },
            None => {},
        }
    }
}

} // verus!
