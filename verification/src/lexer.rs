use vstd::prelude::*;
use crate::error::{Error, ErrorKind};
use crate::position::{Located, Position};
use crate::token::{sp_token_literal, spec_from_word, Token, TokenV};

verus! {

/// A scanning state: the character index and the line and column it sits at.
pub struct LexState {
    pub i: int,
    pub ln: int,
    pub col: int,
}

/// Whitespace skipped between tokens.
pub open spec fn is_space(c: char) -> bool {
    c == ' ' || c == '\n' || c == '\t' || c == '\r'
}

/// A decimal digit.
pub open spec fn is_digit(c: char) -> bool {
    48 <= c as u32 <= 57
}

/// A letter, which may start a word.
pub open spec fn is_letter(c: char) -> bool {
    (65 <= c as u32 <= 90) || (97 <= c as u32 <= 122)
}

/// A character that may continue a word.
pub open spec fn is_word_char(c: char) -> bool {
    is_letter(c) || is_digit(c) || c == '_'
}

/// One scanning step: the next line on a newline, the next column otherwise.
pub open spec fn step(text: Seq<char>, s: LexState) -> LexState {
    if s.i < text.len() && text[s.i] == '\n' {
        LexState { i: s.i + 1, ln: s.ln + 1, col: 0 }
    } else {
        LexState { i: s.i + 1, ln: s.ln, col: s.col + 1 }
    }
}

/// The state after skipping every leading whitespace character.
pub open spec fn sp_skip_ws(text: Seq<char>, s: LexState) -> LexState
    decreases text.len() - s.i,
{
    if s.i < text.len() && is_space(text[s.i]) {
        sp_skip_ws(text, step(text, s))
    } else {
        s
    }
}

/// The index just past a run of word characters.
pub open spec fn sp_word_end(text: Seq<char>, i: int) -> int
    decreases text.len() - i,
{
    if i < text.len() && is_word_char(text[i]) {
        sp_word_end(text, i + 1)
    } else {
        i
    }
}

/// The index just past a run of digits.
pub open spec fn sp_digits_end(text: Seq<char>, i: int) -> int
    decreases text.len() - i,
{
    if i < text.len() && is_digit(text[i]) {
        sp_digits_end(text, i + 1)
    } else {
        i
    }
}

/// The index just past a number literal: a digit run, then optionally a dot
/// and a further digit run.
pub open spec fn sp_number_end(text: Seq<char>, i: int) -> int {
    let d = sp_digits_end(text, i);
    if d < text.len() && text[d] == '.' {
        sp_digits_end(text, d + 1)
    } else {
        d
    }
}

/// The state at the closing quote of a string literal, or at the end of
/// input if the string never closes.
pub open spec fn sp_str_end(text: Seq<char>, s: LexState) -> LexState
    decreases text.len() - s.i,
{
    if s.i < text.len() && text[s.i] != '"' {
        sp_str_end(text, step(text, s))
    } else {
        s
    }
}

/// The one-character span at a state.
pub open spec fn pos1(s: LexState) -> Position {
    Position {
        ln_start: s.ln as usize,
        ln_end: (s.ln + 1) as usize,
        col_start: s.col as usize,
        col_end: (s.col + 1) as usize,
    }
}

/// The single-line span of the characters from a state up to `end`.
pub open spec fn span_line(s: LexState, end: int) -> Position {
    Position {
        ln_start: s.ln as usize,
        ln_end: (s.ln + 1) as usize,
        col_start: s.col as usize,
        col_end: (s.col + (end - s.i)) as usize,
    }
}

/// What one scanning round yields: a located token and the state after it,
/// the end of input, or the first failure.
pub enum LexStep {
    Tok(Located<TokenV>, LexState),
    Fin(LexState),
    Fail(ErrorKind, Position),
}

/// The next token of the text from state `s`: skip whitespace, then dispatch
/// on the lookahead character. Structural characters become one token each; a
/// quote scans a raw string to its closing quote; a digit scans a number
/// literal; a letter scans a word, classified through the keyword table; any
/// other character is unsupported.
pub open spec fn sp_next(text: Seq<char>, s: LexState) -> LexStep {
    let w = sp_skip_ws(text, s);
    if w.i >= text.len() {
        LexStep::Fin(w)
    } else {
        let c = text[w.i];
        if c == '(' {
            LexStep::Tok(Located { item: TokenV::ExprIn, pos: pos1(w) }, step(text, w))
        } else if c == ')' {
            LexStep::Tok(Located { item: TokenV::ExprOut, pos: pos1(w) }, step(text, w))
        } else if c == '<' {
            LexStep::Tok(Located { item: TokenV::CondIn, pos: pos1(w) }, step(text, w))
        } else if c == '>' {
            LexStep::Tok(Located { item: TokenV::CondOut, pos: pos1(w) }, step(text, w))
        } else if c == '[' {
            LexStep::Tok(Located { item: TokenV::StatIn, pos: pos1(w) }, step(text, w))
        } else if c == ']' {
            LexStep::Tok(Located { item: TokenV::StatOut, pos: pos1(w) }, step(text, w))
        } else if c == '{' {
            LexStep::Tok(Located { item: TokenV::BodyIn, pos: pos1(w) }, step(text, w))
        } else if c == '}' {
            LexStep::Tok(Located { item: TokenV::BodyOut, pos: pos1(w) }, step(text, w))
        } else if c == ';' {
            LexStep::Tok(Located { item: TokenV::End, pos: pos1(w) }, step(text, w))
        } else if c == ',' {
            LexStep::Tok(Located { item: TokenV::Sep, pos: pos1(w) }, step(text, w))
        } else if c == ':' {
            LexStep::Tok(Located { item: TokenV::Rep, pos: pos1(w) }, step(text, w))
        } else if c == '=' {
            LexStep::Tok(Located { item: TokenV::Equal, pos: pos1(w) }, step(text, w))
        } else if c == '"' {
            let e = sp_str_end(text, step(text, w));
            if e.i >= text.len() {
                LexStep::Fail(ErrorKind::UnterminatedString, pos1(e))
            } else {
                LexStep::Tok(
                    Located {
                        item: TokenV::String(text.subrange(w.i + 1, e.i)),
                        pos: crate::position::spec_extend(pos1(w), pos1(e)),
                    },
                    step(text, e),
                )
            }
        } else if is_digit(c) {
            let end = sp_number_end(text, w.i);
            LexStep::Tok(
                Located { item: TokenV::Number(text.subrange(w.i, end)), pos: span_line(w, end) },
                LexState { i: end, ln: w.ln, col: w.col + (end - w.i) },
            )
        } else if is_letter(c) {
            let end = sp_word_end(text, w.i);
            LexStep::Tok(
                Located { item: spec_from_word(text.subrange(w.i, end)), pos: span_line(w, end) },
                LexState { i: end, ln: w.ln, col: w.col + (end - w.i) },
            )
        } else {
            LexStep::Fail(ErrorKind::UnsupportedCharacter(c), pos1(w))
        }
    }
}

/// What a whole scan yields: the token sequence and the final state, or the
/// first failure.
pub enum LexOut {
    Toks(Seq<Located<TokenV>>, LexState),
    Fail(ErrorKind, Position),
}

/// Every token of the text from state `s`, or the first failure.
pub open spec fn sp_lex(text: Seq<char>, s: LexState) -> LexOut
    decreases text.len() - s.i,
{
    match sp_next(text, s) {
        LexStep::Fin(e) => LexOut::Toks(Seq::empty(), e),
        LexStep::Fail(k, p) => LexOut::Fail(k, p),
        LexStep::Tok(lt, s2) => if s.i < s2.i && s2.i <= text.len() {
            match sp_lex(text, s2) {
                LexOut::Toks(rest, e) => LexOut::Toks(rest.insert(0, lt), e),
                LexOut::Fail(k, p) => LexOut::Fail(k, p),
            }
        } else {
            LexOut::Fail(ErrorKind::UnexpectedEndOfInput, pos1(s2))
        },
    }
}

/// The shapes of a scanned token sequence, elementwise.
pub open spec fn ltoks_view(ss: Seq<Located<Token>>) -> Seq<Located<TokenV>>
    decreases ss,
{
    if ss.len() == 0 {
        Seq::empty()
    } else {
        ltoks_view(ss.subrange(1, ss.len() as int)).insert(0, ss[0]@)
    }
}

/// The scanner: walks the source text once, left to right, and materializes
/// the full token sequence before parsing starts.
pub struct Lexer {
    pub path: String,
    pub text: String,
    pub len: usize,
    pub idx: usize,
    pub ln: usize,
    pub col: usize,
}

impl Lexer {
    /// The cursor sits inside the text, its line and column never outrun the
    /// index, and the cached length is the text's length.
    pub open spec fn wf(&self) -> bool {
        &&& self.len == self.text@.len()
        &&& self.text@.len() < usize::MAX
        &&& self.idx <= self.len
        &&& self.ln <= self.idx
        &&& self.col <= self.idx
    }

    /// The scanning state of the cursor.
    pub open spec fn st(&self) -> LexState {
        LexState { i: self.idx as int, ln: self.ln as int, col: self.col as int }
    }

    pub fn new(path: String, text: String) -> (r: Lexer)
        requires
            text@.len() < usize::MAX,
        ensures
            r.wf(),
            r.path == path,
            r.text == text,
            r.st() == (LexState { i: 0, ln: 0, col: 0 }),
    {
        let len = text.as_str().unicode_len();
        Lexer { path, text, len, idx: 0, ln: 0, col: 0 }
    }

    /// The character under the cursor, or nothing at the end of input.
    pub fn get(&self) -> (r: Option<char>)
        requires
            self.wf(),
        ensures
            self.idx < self.text@.len() ==> r == Some(self.text@[self.idx as int]),
            self.idx >= self.text@.len() ==> r == None::<char>,
    {
        if self.idx < self.len {
            Some(self.text.as_str().get_char(self.idx))
        } else {
            None
        }
    }

    /// The one-character span at the cursor.
    pub fn pos(&self) -> (r: Position)
        requires
            self.wf(),
        ensures
            r == pos1(self.st()),
    {
        Position { ln_start: self.ln, ln_end: self.ln + 1, col_start: self.col, col_end: self.col + 1 }
    }

    /// Move one character forward, tracking lines and columns.
    pub fn advance(&mut self)
        requires
            old(self).wf(),
            old(self).idx < old(self).text@.len(),
        ensures
            final(self).wf(),
            final(self).path == old(self).path,
            final(self).text == old(self).text,
            final(self).len == old(self).len,
            final(self).st() == step(old(self).text@, old(self).st()),
    {
        let is_nl = match self.get() {
            Some(c) => c == '\n',
            None => false,
        };
        if is_nl {
            self.ln = self.ln + 1;
            self.col = 0;
        } else {
            self.col = self.col + 1;
        }
        self.idx = self.idx + 1;
    }

    /// Skip every leading whitespace character.
    fn skip_ws(&mut self)
        requires
            old(self).wf(),
        ensures
            final(self).wf(),
            final(self).path == old(self).path,
            final(self).text == old(self).text,
            final(self).len == old(self).len,
            final(self).st() == sp_skip_ws(old(self).text@, old(self).st()),
            final(self).idx >= old(self).idx,
        decreases old(self).text@.len() - old(self).idx,
    {
        let c = match self.get() {
            Some(c) => c,
            None => {
                return ;
            },
        };
        if c == ' ' || c == '\n' || c == '\t' || c == '\r' {
            self.advance();
            self.skip_ws();
        }
    }

    /// Move past a run of word characters; they contain no newline, so the
    /// line is unchanged.
    fn skip_word_chars(&mut self)
        requires
            old(self).wf(),
        ensures
            final(self).wf(),
            final(self).path == old(self).path,
            final(self).text == old(self).text,
            final(self).len == old(self).len,
            final(self).idx as int == sp_word_end(old(self).text@, old(self).idx as int),
            final(self).ln == old(self).ln,
            final(self).col as int == old(self).col + (final(self).idx - old(self).idx),
            final(self).idx >= old(self).idx,
            old(self).idx < old(self).text@.len() && is_word_char(
                old(self).text@[old(self).idx as int],
            ) ==> final(self).idx > old(self).idx,
        decreases old(self).text@.len() - old(self).idx,
    {
        let c = match self.get() {
            Some(c) => c,
            None => {
                return ;
            },
        };
        let cu = c as u32;
        if (65 <= cu && cu <= 90) || (97 <= cu && cu <= 122) || (48 <= cu && cu <= 57) || c == '_' {
            self.advance();
            self.skip_word_chars();
        }
    }

    /// Move past a run of digits; the line is unchanged.
    fn skip_digits(&mut self)
        requires
            old(self).wf(),
        ensures
            final(self).wf(),
            final(self).path == old(self).path,
            final(self).text == old(self).text,
            final(self).len == old(self).len,
            final(self).idx as int == sp_digits_end(old(self).text@, old(self).idx as int),
            final(self).ln == old(self).ln,
            final(self).col as int == old(self).col + (final(self).idx - old(self).idx),
            final(self).idx >= old(self).idx,
            old(self).idx < old(self).text@.len() && is_digit(
                old(self).text@[old(self).idx as int],
            ) ==> final(self).idx > old(self).idx,
        decreases old(self).text@.len() - old(self).idx,
    {
        let c = match self.get() {
            Some(c) => c,
            None => {
                return ;
            },
        };
        let cu = c as u32;
        if 48 <= cu && cu <= 57 {
            self.advance();
            self.skip_digits();
        }
    }

    /// Move to the closing quote of a string literal, or to the end of input.
    fn skip_str_chars(&mut self)
        requires
            old(self).wf(),
        ensures
            final(self).wf(),
            final(self).path == old(self).path,
            final(self).text == old(self).text,
            final(self).len == old(self).len,
            final(self).st() == sp_str_end(old(self).text@, old(self).st()),
            final(self).idx >= old(self).idx,
        decreases old(self).text@.len() - old(self).idx,
    {
        let c = match self.get() {
            Some(c) => c,
            None => {
                return ;
            },
        };
        if c != '"' {
            self.advance();
            self.skip_str_chars();
        }
    }

    /// Scan the next token. Yields the located token, nothing at the end of
    /// input, or the first failure, exactly as `sp_next` says.
    pub fn next(&mut self) -> (r: Result<Option<Located<Token>>, Error>)
        requires
            old(self).wf(),
        ensures
            final(self).wf(),
            final(self).path == old(self).path,
            final(self).text == old(self).text,
            final(self).len == old(self).len,
            match r {
                Ok(Some(t)) => {
                    &&& sp_next(old(self).text@, old(self).st()) matches LexStep::Tok(lt, s2)
                        && lt == t@ && s2 == final(self).st()
                    &&& final(self).idx > old(self).idx
                },
                Ok(None) => sp_next(old(self).text@, old(self).st()) matches LexStep::Fin(s2)
                    && s2 == final(self).st(),
                Err(e) => {
                    &&& sp_next(old(self).text@, old(self).st()) matches LexStep::Fail(k, p)
                        && e.kind == k && e.pos == Some(p)
                    &&& e.path == old(self).path
                },
            },
    {
        self.skip_ws();
        let start_pos = self.pos();
        let c = match self.get() {
            Some(c) => c,
            None => {
                return Ok(None);
            },
        };
        match c {
            '(' => {
                self.advance();
                Ok(Some(Located::new(Token::ExprIn, start_pos)))
            },
            ')' => {
                self.advance();
                Ok(Some(Located::new(Token::ExprOut, start_pos)))
            },
            '<' => {
                self.advance();
                Ok(Some(Located::new(Token::CondIn, start_pos)))
            },
            '>' => {
                self.advance();
                Ok(Some(Located::new(Token::CondOut, start_pos)))
            },
            '[' => {
                self.advance();
                Ok(Some(Located::new(Token::StatIn, start_pos)))
            },
            ']' => {
                self.advance();
                Ok(Some(Located::new(Token::StatOut, start_pos)))
            },
            '{' => {
                self.advance();
                Ok(Some(Located::new(Token::BodyIn, start_pos)))
            },
            '}' => {
                self.advance();
                Ok(Some(Located::new(Token::BodyOut, start_pos)))
            },
            ';' => {
                self.advance();
                Ok(Some(Located::new(Token::End, start_pos)))
            },
            ',' => {
                self.advance();
                Ok(Some(Located::new(Token::Sep, start_pos)))
            },
            ':' => {
                self.advance();
                Ok(Some(Located::new(Token::Rep, start_pos)))
            },
            '=' => {
                self.advance();
                Ok(Some(Located::new(Token::Equal, start_pos)))
            },
            '"' => {
                self.advance();
                let content_start = self.idx;
                self.skip_str_chars();
                if self.idx >= self.len {
                    return Err(
                        Error {
                            kind: ErrorKind::UnterminatedString,
                            path: self.path.clone(),
                            pos: Some(self.pos()),
                        },
                    );
                }
                let content = self.text.as_str().substring_char(content_start, self.idx).to_owned();
                let mut p = start_pos;
                p.extend(&self.pos());
                self.advance();
                Ok(Some(Located::new(Token::String(content), p)))
            },
            _ => {
                let cu = c as u32;
                if 48 <= cu && cu <= 57 {
                    let start = self.idx;
                    self.skip_digits();
                    let dot = match self.get() {
                        Some(c2) => c2 == '.',
                        None => false,
                    };
                    if dot {
                        self.advance();
                        self.skip_digits();
                    }
                    let lit = self.text.as_str().substring_char(start, self.idx).to_owned();
                    let p = Position {
                        ln_start: self.ln,
                        ln_end: self.ln + 1,
                        col_start: start_pos.col_start,
                        col_end: self.col,
                    };
                    Ok(Some(Located::new(Token::Number(lit), p)))
                } else if (65 <= cu && cu <= 90) || (97 <= cu && cu <= 122) {
                    let start = self.idx;
                    self.skip_word_chars();
                    let word = self.text.as_str().substring_char(start, self.idx).to_owned();
                    let p = Position {
                        ln_start: self.ln,
                        ln_end: self.ln + 1,
                        col_start: start_pos.col_start,
                        col_end: self.col,
                    };
                    Ok(Some(Located::new(Token::from_word(word), p)))
                } else {
                    Err(
                        Error {
                            kind: ErrorKind::UnsupportedCharacter(c),
                            path: self.path.clone(),
                            pos: Some(start_pos),
                        },
                    )
                }
            },
        }
    }

    /// Scan the whole text into its token sequence. On success the cursor
    /// stands exactly at the end of the input, never past it; otherwise the
    /// first failure is returned.
    pub fn lex(&mut self) -> (r: Result<Vec<Located<Token>>, Error>)
        requires
            old(self).wf(),
        ensures
            final(self).wf(),
            final(self).path == old(self).path,
            final(self).text == old(self).text,
            match r {
                Ok(v) => {
                    &&& sp_lex(old(self).text@, old(self).st()) matches LexOut::Toks(ts, e)
                        && ts == ltoks_view(v@) && e == final(self).st()
                    &&& final(self).idx == final(self).text@.len()
                },
                Err(err) => {
                    &&& sp_lex(old(self).text@, old(self).st()) matches LexOut::Fail(k, p)
                        && err.kind == k && err.pos == Some(p)
                    &&& err.path == old(self).path
                },
            },
        decreases old(self).text@.len() - old(self).idx,
    {
        match self.next() {
            Err(e) => Err(e),
            Ok(None) => Ok(Vec::new()),
            Ok(Some(t)) => {
                match self.lex() {
                    Err(e) => Err(e),
                    Ok(mut rest) => {
                        let ghost pre = rest@;
                        rest.insert(0, t);
                        proof {
                            assert(rest@.subrange(1, rest@.len() as int) =~= pre);
                        }
                        Ok(rest)
                    },
                }
            },
        }
    }
}


/// The index just past the first newline at or after `i`, or just past the
/// end of the text if no newline follows.
pub open spec fn sp_nl_after(text: Seq<char>, i: int) -> int
    decreases text.len() - i,
{
    if i < text.len() {
        if text[i] == '\n' {
            i + 1
        } else {
            sp_nl_after(text, i + 1)
        }
    } else {
        text.len() as int
    }
}

/// The index of the first character of line `ln`: just past the `ln`-th
/// newline of the text.
pub open spec fn sp_line_start(text: Seq<char>, ln: int) -> int
    decreases ln,
{
    if ln <= 0 {
        0
    } else {
        sp_nl_after(text, sp_line_start(text, ln - 1))
    }
}

/// A scanning state agrees with the line structure of the text: the cursor
/// sits on its line at its column, and no newline lies between the line's
/// start and the cursor.
pub open spec fn st_inv(text: Seq<char>, s: LexState) -> bool {
    &&& text.len() < usize::MAX
    &&& 0 <= s.ln && s.ln <= s.i
    &&& 0 <= s.col && s.col <= s.i
    &&& 0 <= s.i && s.i <= text.len()
    &&& s.i == sp_line_start(text, s.ln) + s.col
    &&& forall|k: int| sp_line_start(text, s.ln) <= k < s.i ==> text[k] != '\n'
}

/// The source characters a single-line span selects: the span's column
/// range within its line.
pub open spec fn sp_line_slice(text: Seq<char>, p: Position) -> Seq<char> {
    text.subrange(
        sp_line_start(text, p.ln_start as int) + p.col_start as int,
        sp_line_start(text, p.ln_start as int) + p.col_end as int,
    )
}

/// Scanning past a newline-free range ends just past its closing newline.
proof fn lemma_nl_after_of_range(text: Seq<char>, a: int, b: int)
    requires
        0 <= a <= b < text.len(),
        forall|k: int| a <= k < b ==> text[k] != '\n',
        text[b] == '\n',
    ensures
        sp_nl_after(text, a) == b + 1,
    decreases b - a,
{
    if a < b {
        lemma_nl_after_of_range(text, a + 1, b);
    }
}

/// One scanning step keeps the line-structure invariant.
proof fn lemma_step_inv(text: Seq<char>, s: LexState)
    requires
        st_inv(text, s),
        s.i < text.len(),
    ensures
        st_inv(text, step(text, s)),
        step(text, s).i == s.i + 1,
        step(text, s).ln >= s.ln,
    decreases 0int,
{
    if text[s.i] == '\n' {
        lemma_nl_after_of_range(text, sp_line_start(text, s.ln), s.i);
    }
}

/// Skipping whitespace keeps the line-structure invariant and never moves
/// backwards.
proof fn lemma_skip_ws_inv(text: Seq<char>, s: LexState)
    requires
        st_inv(text, s),
    ensures
        st_inv(text, sp_skip_ws(text, s)),
        sp_skip_ws(text, s).i >= s.i,
    decreases text.len() - s.i,
{
    if s.i < text.len() && is_space(text[s.i]) {
        lemma_step_inv(text, s);
        lemma_skip_ws_inv(text, step(text, s));
    }
}

/// Scanning string content keeps the invariant, never moves backwards, and
/// when it stays on one line, the cursor's column grows with its index.
proof fn lemma_str_end_inv(text: Seq<char>, s: LexState)
    requires
        st_inv(text, s),
    ensures
        st_inv(text, sp_str_end(text, s)),
        sp_str_end(text, s).i >= s.i,
        sp_str_end(text, s).ln >= s.ln,
        sp_str_end(text, s).ln == s.ln ==> sp_str_end(text, s).i - sp_str_end(text, s).col == s.i
            - s.col,
        sp_str_end(text, s).i >= text.len() || text[sp_str_end(text, s).i] == '"',
    decreases text.len() - s.i,
{
    if s.i < text.len() && text[s.i] != '"' {
        lemma_step_inv(text, s);
        lemma_str_end_inv(text, step(text, s));
    }
}

/// A word run holds word characters only, so no newline, and stays in the
/// text.
proof fn lemma_word_end_chars(text: Seq<char>, i: int)
    requires
        0 <= i <= text.len(),
    ensures
        i <= sp_word_end(text, i) <= text.len(),
        forall|k: int| i <= k < sp_word_end(text, i) ==> is_word_char(#[trigger] text[k]),
    decreases text.len() - i,
{
    if i < text.len() && is_word_char(text[i]) {
        lemma_word_end_chars(text, i + 1);
    }
}

/// A digit run holds digits only, so no newline, and stays in the text.
proof fn lemma_digits_end_chars(text: Seq<char>, i: int)
    requires
        0 <= i <= text.len(),
    ensures
        i <= sp_digits_end(text, i) <= text.len(),
        forall|k: int| i <= k < sp_digits_end(text, i) ==> is_digit(#[trigger] text[k]),
    decreases text.len() - i,
{
    if i < text.len() && is_digit(text[i]) {
        lemma_digits_end_chars(text, i + 1);
    }
}

/// A state that moved along one line without newlines keeps the invariant.
proof fn lemma_line_move_inv(text: Seq<char>, s: LexState, end: int)
    requires
        st_inv(text, s),
        s.i <= end <= text.len(),
        forall|k: int| s.i <= k < end ==> text[k] != '\n',
    ensures
        st_inv(text, LexState { i: end, ln: s.ln, col: s.col + (end - s.i) }),
{
}

/// Round trip, one token: slicing the source by the span of the token that
/// `sp_next` yields reproduces the token's literal text, for every token
/// whose span stays on one line (only a string literal whose content holds a
/// newline spans more); string tokens reproduce their content with the two
/// quotes around it. The invariant carries to the state after the token.
pub proof fn lemma_next_round_trip(text: Seq<char>, s: LexState)
    requires
        st_inv(text, s),
    ensures
        match sp_next(text, s) {
            LexStep::Tok(lt, s2) => {
                &&& lt.pos.ln_end == lt.pos.ln_start + 1 ==> sp_line_slice(text, lt.pos)
                    == sp_token_literal(lt.item)
                &&& st_inv(text, s2)
            },
            LexStep::Fin(e) => st_inv(text, e),
            LexStep::Fail(_, _) => true,
        },
{
    lemma_skip_ws_inv(text, s);
    let w = sp_skip_ws(text, s);
    if w.i < text.len() {
        let c = text[w.i];
        if c == '(' || c == ')' || c == '<' || c == '>' || c == '[' || c == ']' || c == '{'
            || c == '}' || c == ';' || c == ',' || c == ':' || c == '=' {
            lemma_step_inv(text, w);
            assert(sp_line_slice(text, pos1(w)) =~= seq![c]);
        } else if c == '"' {
            lemma_step_inv(text, w);
            let e = sp_str_end(text, step(text, w));
            lemma_str_end_inv(text, step(text, w));
            if e.i < text.len() {
                lemma_step_inv(text, e);
                if let LexStep::Tok(lt, _) = sp_next(text, s) {
                    if lt.pos.ln_end == lt.pos.ln_start + 1 {
                        assert(e.ln == w.ln);
                        assert(e.i - e.col == w.i - w.col);
                        assert(e.col > w.col);
                        assert(sp_line_slice(text, lt.pos) =~= seq!['"'] + text.subrange(
                            w.i + 1,
                            e.i,
                        ) + seq!['"']);
                    }
                }
            }
        } else if is_digit(c) {
            let end = sp_number_end(text, w.i);
            lemma_digits_end_chars(text, w.i);
            let d = sp_digits_end(text, w.i);
            if d < text.len() && text[d] == '.' {
                lemma_digits_end_chars(text, d + 1);
            }
            assert(forall|k: int| w.i <= k < end ==> text[k] != '\n');
            lemma_line_move_inv(text, w, end);
            assert(sp_line_slice(text, span_line(w, end)) =~= text.subrange(w.i, end));
        } else if is_letter(c) {
            let end = sp_word_end(text, w.i);
            lemma_word_end_chars(text, w.i);
            assert(forall|k: int| w.i <= k < end ==> text[k] != '\n');
            lemma_line_move_inv(text, w, end);
            assert(sp_line_slice(text, span_line(w, end)) =~= text.subrange(w.i, end));
        }
    }
}

/// Round trip, the whole scan: slicing the source by any yielded token's
/// span reproduces that token's literal text, for every token whose span
/// stays on one line.
pub proof fn lemma_lex_round_trip(text: Seq<char>, s: LexState)
    requires
        st_inv(text, s),
    ensures
        sp_lex(text, s) matches LexOut::Toks(ts, _) ==> forall|k: int|
            0 <= k < ts.len() && (#[trigger] ts[k]).pos.ln_end == ts[k].pos.ln_start + 1
                ==> sp_line_slice(text, ts[k].pos) == sp_token_literal(ts[k].item),
    decreases text.len() - s.i,
{
    lemma_next_round_trip(text, s);
    match sp_next(text, s) {
        LexStep::Tok(lt, s2) => {
            if s.i < s2.i && s2.i <= text.len() {
                lemma_lex_round_trip(text, s2);
                if let LexOut::Toks(rest, _) = sp_lex(text, s2) {
                    let ts = rest.insert(0, lt);
                    assert forall|k: int|
                        0 <= k < ts.len() && (#[trigger] ts[k]).pos.ln_end == ts[k].pos.ln_start
                            + 1 implies sp_line_slice(text, ts[k].pos) == sp_token_literal(
                        ts[k].item,
                    ) by {
                        if k == 0 {
                            assert(ts[0] == lt);
                        } else {
                            assert(ts[k] == rest[k - 1]);
                        }
                    }
                }
            }
        },
        LexStep::Fin(_) => {},
        LexStep::Fail(_, _) => {},
    }
}

/// The start of a scan satisfies the line-structure invariant.
pub proof fn lemma_initial_state_inv(text: Seq<char>)
    requires
        text.len() < usize::MAX,
    ensures
        st_inv(text, LexState { i: 0, ln: 0, col: 0 }),
{
}


/// Whitespace skipping stays inside the text.
proof fn lemma_skip_ws_bounds(text: Seq<char>, s: LexState)
    requires
        0 <= s.i <= text.len(),
    ensures
        s.i <= sp_skip_ws(text, s).i <= text.len(),
    decreases text.len() - s.i,
{
    if s.i < text.len() && is_space(text[s.i]) {
        lemma_skip_ws_bounds(text, step(text, s));
    }
}

/// The scanner never reads past the input: from a state inside the text, a
/// full scan ends exactly at the input's length, and otherwise it yields the
/// first failure.
pub proof fn lemma_lex_stops_at_end(text: Seq<char>, s: LexState)
    requires
        0 <= s.i <= text.len(),
    ensures
        sp_lex(text, s) matches LexOut::Toks(_, e) ==> e.i == text.len(),
    decreases text.len() - s.i,
{
    lemma_skip_ws_bounds(text, s);
    match sp_next(text, s) {
        LexStep::Tok(_, s2) => {
            if s.i < s2.i && s2.i <= text.len() {
                lemma_lex_stops_at_end(text, s2);
            }
        },
        LexStep::Fin(_) => {},
        LexStep::Fail(_, _) => {},
    }
}

} // verus!
