use vstd::prelude::*;
use crate::error::{Error, ErrorKind, Expected};
use crate::position::Located;
use crate::token::Token;

verus! {

/// The consumable token cursor: the full token sequence of one run and an
/// index into it. Consumption only ever moves the index forward, so a run is
/// linear in the input size.
pub struct Parser {
    pub path: String,
    pub tokens: Vec<Located<Token>>,
    pub idx: usize,
}

impl Parser {
    /// The cursor is inside its token sequence.
    pub open spec fn wf(&self) -> bool {
        self.idx <= self.tokens@.len()
    }

    pub fn new(path: String, tokens: Vec<Located<Token>>) -> (r: Parser)
        ensures
            r.path == path,
            r.tokens == tokens,
            r.idx == 0,
            r.wf(),
    {
        Parser { path, tokens, idx: 0 }
    }

    /// Consume and return the next token, or nothing at the end of input.
    pub fn token(&mut self) -> (r: Option<Located<Token>>)
        requires
            old(self).wf(),
        ensures
            final(self).wf(),
            final(self).path == old(self).path,
            final(self).tokens == old(self).tokens,
            old(self).idx < old(self).tokens@.len() ==> {
                &&& r == Some(old(self).tokens@[old(self).idx as int])
                &&& final(self).idx == old(self).idx + 1
            },
            old(self).idx >= old(self).tokens@.len() ==> {
                &&& r == None::<Located<Token>>
                &&& final(self).idx == old(self).idx
            },
    {
        if self.idx < self.tokens.len() {
            let t = &self.tokens[self.idx];
            let out = Located { item: t.item.dup(), pos: t.pos };
            self.idx = self.idx + 1;
            Some(out)
        } else {
            None
        }
    }

    /// Look at the next token without consuming it.
    pub fn token_ref(&self) -> (r: Option<&Located<Token>>)
        requires
            self.wf(),
        ensures
            match r {
                Some(t) => {
                    &&& self.idx < self.tokens@.len()
                    &&& *t == self.tokens@[self.idx as int]
                },
                None => self.idx >= self.tokens@.len(),
            },
    {
        if self.idx < self.tokens.len() {
            Some(&self.tokens[self.idx])
        } else {
            None
        }
    }

    /// Consume the next token, failing with a positionless end-of-input error
    /// if the sequence is exhausted.
    pub fn token_check(&mut self) -> (r: Result<Located<Token>, Error>)
        requires
            old(self).wf(),
        ensures
            final(self).wf(),
            final(self).path == old(self).path,
            final(self).tokens == old(self).tokens,
            old(self).idx < old(self).tokens@.len() ==> {
                &&& r == Ok::<Located<Token>, Error>(old(self).tokens@[old(self).idx as int])
                &&& final(self).idx == old(self).idx + 1
            },
            old(self).idx >= old(self).tokens@.len() ==> {
                &&& r == Err::<Located<Token>, Error>(
                    Error {
                        kind: ErrorKind::UnexpectedEndOfInput,
                        path: old(self).path,
                        pos: None,
                    },
                )
                &&& final(self).idx == old(self).idx
            },
    {
        match self.token() {
            Some(t) => Ok(t),
            None => Err(Error { kind: ErrorKind::UnexpectedEndOfInput, path: self.path.clone(), pos: None }),
        }
    }

    /// Consume the next token and demand that it equal `expect`, failing with
    /// the expected and found categories and the found position otherwise.
    pub fn token_expect(&mut self, expect: Token) -> (r: Result<Located<Token>, Error>)
        requires
            old(self).wf(),
        ensures
            final(self).wf(),
            final(self).path == old(self).path,
            final(self).tokens == old(self).tokens,
            old(self).idx >= old(self).tokens@.len() ==> {
                &&& r == Err::<Located<Token>, Error>(
                    Error {
                        kind: ErrorKind::UnexpectedEndOfInput,
                        path: old(self).path,
                        pos: None,
                    },
                )
                &&& final(self).idx == old(self).idx
            },
            old(self).idx < old(self).tokens@.len() ==> {
                &&& final(self).idx == old(self).idx + 1
                &&& if old(self).tokens@[old(self).idx as int].item@ == expect@ {
                    r == Ok::<Located<Token>, Error>(old(self).tokens@[old(self).idx as int])
                } else {
                    r == Err::<Located<Token>, Error>(
                        Error {
                            kind: ErrorKind::UnexpectedToken {
                                expected: Expected::Tok(expect),
                                got: old(self).tokens@[old(self).idx as int].item,
                            },
                            path: old(self).path,
                            pos: Some(old(self).tokens@[old(self).idx as int].pos),
                        },
                    )
                }
            },
    {
        let t = match self.token_check() {
            Ok(t) => t,
            Err(e) => {
                return Err(e);
            },
        };
        if t.item.same(&expect) {
            Ok(t)
        } else {
            Err(
                Error {
                    kind: ErrorKind::UnexpectedToken { expected: Expected::Tok(expect), got: t.item },
                    path: self.path.clone(),
                    pos: Some(t.pos),
                },
            )
        }
    }

    /// Whether some token of `expects` has the same shape as `t`.
    pub open spec fn spec_one_of(expects: Seq<Token>, t: Token) -> bool {
        exists|i: int| 0 <= i < expects.len() && expects[i]@ == t@
    }

    /// Consume the next token and demand that it equal one of `expects`.
    pub fn token_expects(&mut self, expects: Vec<Token>) -> (r: Result<Located<Token>, Error>)
        requires
            old(self).wf(),
        ensures
            final(self).wf(),
            final(self).path == old(self).path,
            final(self).tokens == old(self).tokens,
            old(self).idx >= old(self).tokens@.len() ==> {
                &&& r == Err::<Located<Token>, Error>(
                    Error {
                        kind: ErrorKind::UnexpectedEndOfInput,
                        path: old(self).path,
                        pos: None,
                    },
                )
                &&& final(self).idx == old(self).idx
            },
            old(self).idx < old(self).tokens@.len() ==> {
                &&& final(self).idx == old(self).idx + 1
                &&& if Self::spec_one_of(expects@, old(self).tokens@[old(self).idx as int].item) {
                    r == Ok::<Located<Token>, Error>(old(self).tokens@[old(self).idx as int])
                } else {
                    r == Err::<Located<Token>, Error>(
                        Error {
                            kind: ErrorKind::UnexpectedToken {
                                expected: Expected::OneOf,
                                got: old(self).tokens@[old(self).idx as int].item,
                            },
                            path: old(self).path,
                            pos: Some(old(self).tokens@[old(self).idx as int].pos),
                        },
                    )
                }
            },
    {
        let t = match self.token_check() {
            Ok(t) => t,
            Err(e) => {
                return Err(e);
            },
        };
        let mut i: usize = 0;
        let mut found = false;
        while i < expects.len()
            invariant
                i <= expects@.len(),
                found == exists|k: int| 0 <= k < i && expects@[k]@ == t.item@,
            decreases expects@.len() - i,
        {
            if t.item.same(&expects[i]) {
                found = true;
            }
            i += 1;
        }
        if found {
            Ok(t)
        } else {
            Err(
                Error {
                    kind: ErrorKind::UnexpectedToken { expected: Expected::OneOf, got: t.item },
                    path: self.path.clone(),
                    pos: Some(t.pos),
                },
            )
        }
    }

    /// Consume the next token only if it equals `expect`; otherwise do
    /// nothing.
    pub fn token_skip(&mut self, expect: Token)
        requires
            old(self).wf(),
        ensures
            final(self).wf(),
            final(self).path == old(self).path,
            final(self).tokens == old(self).tokens,
            if old(self).idx < old(self).tokens@.len()
                && old(self).tokens@[old(self).idx as int].item@ == expect@ {
                final(self).idx == old(self).idx + 1
            } else {
                final(self).idx == old(self).idx
            },
    {
        if self.idx < self.tokens.len() {
            if self.tokens[self.idx].item.same(&expect) {
                self.idx = self.idx + 1;
            }
        }
    }
}

} // verus!
