use vstd::prelude::*;
use crate::position::Located;

verus! {

/// The closed set of lexical categories. A number keeps its literal digit
/// text: the grammar only carries numeric literals through, so the token
/// stores exactly the characters scanned.
#[derive(Debug, Clone, PartialEq)]
pub enum Token {
    Word(String),
    Number(String),
    Bool(bool),
    String(String),
    /// `;`
    End,
    /// `,`
    Sep,
    /// `:`
    Rep,
    /// `=`
    Equal,
    /// `(`
    ExprIn,
    /// `)`
    ExprOut,
    /// `<`
    CondIn,
    /// `>`
    CondOut,
    /// `[`
    StatIn,
    /// `]`
    StatOut,
    /// `{`
    BodyIn,
    /// `}`
    BodyOut,
}

/// The mathematical shape of a token: text payloads abstracted to character
/// sequences.
pub enum TokenV {
    Word(Seq<char>),
    Number(Seq<char>),
    Bool(bool),
    String(Seq<char>),
    End,
    Sep,
    Rep,
    Equal,
    ExprIn,
    ExprOut,
    CondIn,
    CondOut,
    StatIn,
    StatOut,
    BodyIn,
    BodyOut,
}

impl View for Token {
    type V = TokenV;

    open spec fn view(&self) -> TokenV {
        match self {
            Token::Word(w) => TokenV::Word(w@),
            Token::Number(n) => TokenV::Number(n@),
            Token::Bool(b) => TokenV::Bool(*b),
            Token::String(s) => TokenV::String(s@),
            Token::End => TokenV::End,
            Token::Sep => TokenV::Sep,
            Token::Rep => TokenV::Rep,
            Token::Equal => TokenV::Equal,
            Token::ExprIn => TokenV::ExprIn,
            Token::ExprOut => TokenV::ExprOut,
            Token::CondIn => TokenV::CondIn,
            Token::CondOut => TokenV::CondOut,
            Token::StatIn => TokenV::StatIn,
            Token::StatOut => TokenV::StatOut,
            Token::BodyIn => TokenV::BodyIn,
            Token::BodyOut => TokenV::BodyOut,
        }
    }
}

impl View for Located<Token> {
    type V = Located<TokenV>;

    open spec fn view(&self) -> Located<TokenV> {
        Located { item: self.item@, pos: self.pos }
    }
}

/// `a@ == b@`, decided by comparing lengths and then characters.
pub fn str_eq(a: &str, b: &str) -> (r: bool)
    ensures
        r == (a@ == b@),
{
    let alen = a.unicode_len();
    let blen = b.unicode_len();
    if alen != blen {
        return false;
    }
    let mut i: usize = 0;
    while i < alen
        invariant
            a@.len() == alen,
            b@.len() == blen,
            alen == blen,
            i <= alen,
            forall|k: int| 0 <= k < i ==> a@[k] == b@[k],
        decreases alen - i,
    {
        if a.get_char(i) != b.get_char(i) {
            return false;
        }
        i += 1;
    }
    proof {
        assert(a@ =~= b@);
    }
    true
}

/// What classifying a scanned word yields: the two boolean keywords become
/// `Bool` tokens, every other word is an identifier.
pub open spec fn spec_from_word(w: Seq<char>) -> TokenV {
    if w == "true"@ {
        TokenV::Bool(true)
    } else if w == "false"@ {
        TokenV::Bool(false)
    } else {
        TokenV::Word(w)
    }
}

impl Token {
    /// Classify a scanned word through the keyword table.
    pub fn from_word(word: String) -> (r: Token)
        ensures
            r@ == spec_from_word(word@),
    {
        if str_eq(word.as_str(), "true") {
            Token::Bool(true)
        } else if str_eq(word.as_str(), "false") {
            Token::Bool(false)
        } else {
            Token::Word(word)
        }
    }

    /// An exact structural copy.
    pub fn dup(&self) -> (r: Token)
        ensures
            r == *self,
    {
        match self {
            Token::Word(w) => Token::Word(w.clone()),
            Token::Number(n) => Token::Number(n.clone()),
            Token::Bool(b) => Token::Bool(*b),
            Token::String(s) => Token::String(s.clone()),
            Token::End => Token::End,
            Token::Sep => Token::Sep,
            Token::Rep => Token::Rep,
            Token::Equal => Token::Equal,
            Token::ExprIn => Token::ExprIn,
            Token::ExprOut => Token::ExprOut,
            Token::CondIn => Token::CondIn,
            Token::CondOut => Token::CondOut,
            Token::StatIn => Token::StatIn,
            Token::StatOut => Token::StatOut,
            Token::BodyIn => Token::BodyIn,
            Token::BodyOut => Token::BodyOut,
        }
    }

    /// Whether two tokens are structurally equal, up to the view of their
    /// text payloads.
    pub fn same(&self, other: &Token) -> (r: bool)
        ensures
            r == (self@ == other@),
    {
        match (self, other) {
            (Token::Word(a), Token::Word(b)) => str_eq(a.as_str(), b.as_str()),
            (Token::Number(a), Token::Number(b)) => str_eq(a.as_str(), b.as_str()),
            (Token::Bool(a), Token::Bool(b)) => *a == *b,
            (Token::String(a), Token::String(b)) => str_eq(a.as_str(), b.as_str()),
            (Token::End, Token::End) => true,
            (Token::Sep, Token::Sep) => true,
            (Token::Rep, Token::Rep) => true,
            (Token::Equal, Token::Equal) => true,
            (Token::ExprIn, Token::ExprIn) => true,
            (Token::ExprOut, Token::ExprOut) => true,
            (Token::CondIn, Token::CondIn) => true,
            (Token::CondOut, Token::CondOut) => true,
            (Token::StatIn, Token::StatIn) => true,
            (Token::StatOut, Token::StatOut) => true,
            (Token::BodyIn, Token::BodyIn) => true,
            (Token::BodyOut, Token::BodyOut) => true,
            _ => false,
        }
    }

    /// The human-readable category of a token, for diagnostics.
    pub fn name(&self) -> (r: &'static str)
        ensures
            r@ == spec_name(self@),
    {
        match self {
            Token::Word(_) => "identifier",
            Token::Number(_) => "number",
            Token::Bool(_) => "boolean",
            Token::String(_) => "string",
            Token::End => "';'",
            Token::Sep => "','",
            Token::Rep => "':'",
            Token::Equal => "'='",
            Token::ExprIn => "'('",
            Token::ExprOut => "')'",
            Token::CondIn => "'<'",
            Token::CondOut => "'>'",
            Token::StatIn => "'['",
            Token::StatOut => "']'",
            Token::BodyIn => "'{'",
            Token::BodyOut => "'}'",
        }
    }
}

/// The category name of each token shape.
pub open spec fn spec_name(t: TokenV) -> Seq<char> {
    match t {
        TokenV::Word(_) => "identifier"@,
        TokenV::Number(_) => "number"@,
        TokenV::Bool(_) => "boolean"@,
        TokenV::String(_) => "string"@,
        TokenV::End => "';'"@,
        TokenV::Sep => "','"@,
        TokenV::Rep => "':'"@,
        TokenV::Equal => "'='"@,
        TokenV::ExprIn => "'('"@,
        TokenV::ExprOut => "')'"@,
        TokenV::CondIn => "'<'"@,
        TokenV::CondOut => "'>'"@,
        TokenV::StatIn => "'['"@,
        TokenV::StatOut => "']'"@,
        TokenV::BodyIn => "'{'"@,
        TokenV::BodyOut => "'}'"@,
    }
}

/// The literal text a token was scanned from: a string literal carries its
/// two quotes around the content the token keeps.
pub open spec fn sp_token_literal(t: TokenV) -> Seq<char> {
    match t {
        TokenV::Word(w) => w,
        TokenV::Number(n) => n,
        TokenV::Bool(b) => if b {
            "true"@
        } else {
            "false"@
        },
        TokenV::String(c) => seq!['"'] + c + seq!['"'],
        TokenV::End => seq![';'],
        TokenV::Sep => seq![','],
        TokenV::Rep => seq![':'],
        TokenV::Equal => seq!['='],
        TokenV::ExprIn => seq!['('],
        TokenV::ExprOut => seq![')'],
        TokenV::CondIn => seq!['<'],
        TokenV::CondOut => seq!['>'],
        TokenV::StatIn => seq!['['],
        TokenV::StatOut => seq![']'],
        TokenV::BodyIn => seq!['{'],
        TokenV::BodyOut => seq!['}'],
    }
}


impl Token {
    /// The source text this token stands for: what printing the token
    /// yields, with a string literal carrying its two quotes.
    pub fn text(&self) -> (r: String)
        ensures
            r@ == sp_token_literal(self@),
    {
        match self {
            Token::Word(w) => w.clone(),
            Token::Number(n) => n.clone(),
            Token::Bool(b) => {
                let r = if *b {
                    String::from_str("true")
                } else {
                    String::from_str("false")
                };
                r
            },
            Token::String(s) => {
                let mut r = String::from_str("\"");
                r.append(s.as_str());
                r.append("\"");
                proof {
                    reveal_strlit("\"");
                    assert("\""@ =~= seq!['"']);
                    assert(r@ =~= seq!['"'] + s@ + seq!['"']);
                }
                r
            },
            Token::End => {
                let r = String::from_str(";");
                proof {
                    reveal_strlit(";");
                    assert(r@ =~= seq![';']);
                }
                r
            },
            Token::Sep => {
                let r = String::from_str(",");
                proof {
                    reveal_strlit(",");
                    assert(r@ =~= seq![',']);
                }
                r
            },
            Token::Rep => {
                let r = String::from_str(":");
                proof {
                    reveal_strlit(":");
                    assert(r@ =~= seq![':']);
                }
                r
            },
            Token::Equal => {
                let r = String::from_str("=");
                proof {
                    reveal_strlit("=");
                    assert(r@ =~= seq!['=']);
                }
                r
            },
            Token::ExprIn => {
                let r = String::from_str("(");
                proof {
                    reveal_strlit("(");
                    assert(r@ =~= seq!['(']);
                }
                r
            },
            Token::ExprOut => {
                let r = String::from_str(")");
                proof {
                    reveal_strlit(")");
                    assert(r@ =~= seq![')']);
                }
                r
            },
            Token::CondIn => {
                let r = String::from_str("<");
                proof {
                    reveal_strlit("<");
                    assert(r@ =~= seq!['<']);
                }
                r
            },
            Token::CondOut => {
                let r = String::from_str(">");
                proof {
                    reveal_strlit(">");
                    assert(r@ =~= seq!['>']);
                }
                r
            },
            Token::StatIn => {
                let r = String::from_str("[");
                proof {
                    reveal_strlit("[");
                    assert(r@ =~= seq!['[']);
                }
                r
            },
            Token::StatOut => {
                let r = String::from_str("]");
                proof {
                    reveal_strlit("]");
                    assert(r@ =~= seq![']']);
                }
                r
            },
            Token::BodyIn => {
                let r = String::from_str("{");
                proof {
                    reveal_strlit("{");
                    assert(r@ =~= seq!['{']);
                }
                r
            },
            Token::BodyOut => {
                let r = String::from_str("}");
                proof {
                    reveal_strlit("}");
                    assert(r@ =~= seq!['}']);
                }
                r
            },
        }
    }
}

} // verus!
