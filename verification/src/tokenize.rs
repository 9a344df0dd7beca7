//! The token stream: a cursor pair over one text buffer, scanning forward
//! and backward with the rules of the schedule language.

use vstd::prelude::*;
use crate::chars::{chars_to_string, str_to_chars};
use crate::parse::{
    scan_rule, scan_rule_rev, spec_rule, spec_rule_rev, ParseError, RuleV, Token, TokenV, is_ws,
    is_ws_exec,
};

verus! {

/// The position after skipping whitespace forward from `i`.
pub open spec fn spec_skip_ws(s: Seq<char>, i: int) -> int
    decreases s.len() - i,
{
    if i < 0 || i >= s.len() || !is_ws(s[i]) {
        i
    } else {
        spec_skip_ws(s, i + 1)
    }
}

/// The position after skipping whitespace backward from `i`.
pub open spec fn spec_skip_ws_rev(s: Seq<char>, i: int) -> int
    decreases i,
{
    if i <= 0 || i > s.len() || !is_ws(s[i - 1]) {
        i
    } else {
        spec_skip_ws_rev(s, i - 1)
    }
}

/// One step of the scanner: the stream's end, a token together with the
/// cursor position after it, or an error at the position whitespace
/// skipping reached.
pub ghost enum StepV {
    End,
    Tok(TokenV, int),
    Bad(int),
}

/// What pulling the next token from position `i` yields.
pub open spec fn spec_next(s: Seq<char>, i: int) -> StepV {
    let k = spec_skip_ws(s, i);
    if k >= s.len() {
        StepV::End
    } else {
        match spec_rule(s, k) {
            RuleV::Tok(t, n) => StepV::Tok(t, k + n),
            _ => StepV::Bad(k),
        }
    }
}

/// What rewinding over the token just before position `i` yields.
pub open spec fn spec_prev(s: Seq<char>, i: int) -> StepV {
    let k = spec_skip_ws_rev(s, i);
    if k <= 0 {
        StepV::End
    } else {
        match spec_rule_rev(s, k) {
            RuleV::Tok(t, n) => StepV::Tok(t, k - n),
            _ => StepV::Bad(k),
        }
    }
}

/// The value of a token stream: the text and the two cursors.
pub ghost struct TokenStreamV {
    pub text: Seq<char>,
    pub fwd: usize,
    pub rev: usize,
    pub exhaustion: ParseError,
}

pub struct TokenStream {
    chars: Vec<char>,
    fwd_index: usize,
    rev_index: usize,
    exhaustion: ParseError,
}

impl View for TokenStream {
    type V = TokenStreamV;

    closed spec fn view(&self) -> TokenStreamV {
        TokenStreamV {
            text: self.chars@,
            fwd: self.fwd_index,
            rev: self.rev_index,
            exhaustion: self.exhaustion,
        }
    }
}

pub proof fn lemma_skip_ws_ge(s: Seq<char>, i: int)
    ensures
        spec_skip_ws(s, i) >= i,
        i <= s.len() ==> spec_skip_ws(s, i) <= s.len(),
    decreases s.len() - i,
{
    if 0 <= i < s.len() && is_ws(s[i]) {
        lemma_skip_ws_ge(s, i + 1);
    }
}

impl Clone for TokenStream {
    /// A clone scans the same text from the same positions.
    fn clone(&self) -> (r: Self)
        ensures
            r@ == self@,
    {
        let mut chars: Vec<char> = Vec::new();
        let mut i: usize = 0;
        while i < self.chars.len()
            invariant
                0 <= i <= self.chars@.len(),
                chars@ == self.chars@.take(i as int),
            decreases self.chars@.len() - i,
        {
            chars.push(self.chars[i]);
            proof {
                assert(chars@ =~= self.chars@.take(i + 1));
            }
            i = i + 1;
        }
        proof {
            assert(self.chars@.take(self.chars@.len() as int) =~= self.chars@);
        }
        let r = TokenStream {
            chars,
            fwd_index: self.fwd_index,
            rev_index: self.rev_index,
            exhaustion: self.exhaustion.clone(),
        };
        proof {
            assert(r@ =~~= self@);
        }
        r
    }
}

impl TokenStream {
    /// A stream over `e`, forward cursor at the start, backward cursor at
    /// the end; `on_exhaustion` is the error a position no rule recognises
    /// reports.
    pub fn new(e: &str, on_exhaustion: ParseError) -> (r: TokenStream)
        ensures
            r@.text == e@,
            r@.fwd == 0,
            r@.rev == e@.len(),
            r@.exhaustion == on_exhaustion,
    {
        let chars = str_to_chars(e);
        let n = chars.len();
        TokenStream { chars, fwd_index: 0, rev_index: n, exhaustion: on_exhaustion }
    }

    /// A copy of the text.
    pub fn expr(&self) -> (r: String)
        ensures
            r@ == self@.text,
    {
        chars_to_string(&self.chars)
    }

    pub fn fwd_index(&self) -> (r: usize)
        ensures
            r == self@.fwd,
    {
        self.fwd_index
    }

    pub fn rev_index(&self) -> (r: usize)
        ensures
            r == self@.rev,
    {
        self.rev_index
    }

    pub fn on_exhaustion(&self) -> (r: ParseError)
        ensures
            r == self@.exhaustion,
    {
        self.exhaustion.clone()
    }

    /// Pulls the next token: whitespace is skipped silently, the rules are
    /// tried in priority order, and a position no rule recognises reports
    /// the stream's exhaustion error without advancing.
    pub fn next(&mut self) -> (r: Option<Result<Token, ParseError>>)
        requires
            old(self)@.fwd <= old(self)@.text.len(),
        ensures
            final (self)@.text == old(self)@.text,
            final (self)@.rev == old(self)@.rev,
            final (self)@.exhaustion == old(self)@.exhaustion,
            match spec_next(old(self)@.text, old(self)@.fwd as int) {
                StepV::End => r is None && final (self)@.fwd == old(self)@.text.len(),
                StepV::Tok(t, j) => (r matches Some(res) && res matches Ok(tok) && tok@ == t)
                    && final (self)@.fwd == j,
                StepV::Bad(k) => (r matches Some(res) && res is Err) && final (self)@.fwd == k,
            },
            final (self)@.fwd <= final (self)@.text.len(),
            r matches Some(res) && res is Ok ==> final (self)@.fwd > old(self)@.fwd,
            final (self)@.fwd >= old(self)@.fwd,
    {
        let ghost s = self@.text;
        let ghost i0 = self@.fwd as int;
        proof {
            lemma_skip_ws_ge(s, i0);
        }
        while self.fwd_index < self.chars.len() && is_ws_exec(self.chars[self.fwd_index])
            invariant
                self@.fwd <= self@.text.len(),
                self@.text == s,
                self@.rev == old(self)@.rev,
                self@.exhaustion == old(self)@.exhaustion,
                spec_skip_ws(s, i0) == spec_skip_ws(s, self@.fwd as int),
                self@.fwd >= i0,
            decreases self@.text.len() - self@.fwd,
        {
            self.fwd_index = self.fwd_index + 1;
        }
        proof {
            assert(spec_skip_ws(s, self@.fwd as int) == self@.fwd as int);
        }
        if self.fwd_index == self.chars.len() {
            return None;
        }
        let (token, len) = scan_rule(&self.chars, self.fwd_index);
        match token {
            Some(res) => {
                match res {
                    Ok(tok) => {
                        proof {
                            crate::parse::lemma_rule_fits(s, self@.fwd as int);
                        }
                        self.fwd_index = self.fwd_index + len;
                        Some(Ok(tok))
                    },
                    Err(e) => Some(Err(e)),
                }
            },
            None => Some(Err(self.exhaustion.clone())),
        }
    }

    /// Rewinds over the token just before the forward cursor, using the
    /// backward rules; trailing whitespace is skipped silently.
    pub fn previous(&mut self) -> (r: Option<Result<Token, ParseError>>)
        requires
            old(self)@.fwd <= old(self)@.text.len(),
        ensures
            final (self)@.text == old(self)@.text,
            final (self)@.rev == old(self)@.rev,
            final (self)@.exhaustion == old(self)@.exhaustion,
            match spec_prev(old(self)@.text, old(self)@.fwd as int) {
                StepV::End => r is None && final (self)@.fwd == 0,
                StepV::Tok(t, j) => (r matches Some(res) && res matches Ok(tok) && tok@ == t)
                    && final (self)@.fwd == j,
                StepV::Bad(k) => (r matches Some(res) && res is Err) && final (self)@.fwd == k,
            },
            final (self)@.fwd <= final (self)@.text.len(),
    {
        let ghost s = self@.text;
        let ghost i0 = self@.fwd as int;
        while self.fwd_index > 0 && is_ws_exec(self.chars[self.fwd_index - 1])
            invariant
                self@.fwd <= self@.text.len(),
                self@.text == s,
                self@.rev == old(self)@.rev,
                self@.exhaustion == old(self)@.exhaustion,
                spec_skip_ws_rev(s, i0) == spec_skip_ws_rev(s, self@.fwd as int),
            decreases self@.fwd,
        {
            self.fwd_index = self.fwd_index - 1;
        }
        proof {
            assert(spec_skip_ws_rev(s, self@.fwd as int) == self@.fwd as int);
        }
        if self.fwd_index == 0 {
            return None;
        }
        let (token, len) = scan_rule_rev(&self.chars, self.fwd_index);
        match token {
            Some(res) => {
                match res {
                    Ok(tok) => {
                        proof {
                            crate::parse::lemma_rule_rev_fits(s, self@.fwd as int);
                        }
                        self.fwd_index = self.fwd_index - len;
                        Some(Ok(tok))
                    },
                    Err(e) => Some(Err(e)),
                }
            },
            None => Some(Err(self.exhaustion.clone())),
        }
    }
}


/// Every token of the text from position `i` on, pulled in order; `None`
/// when some position lexes as an error. The guard on the cursor's advance
/// always holds of a real step and reads as nothing otherwise.
pub open spec fn toks_from(s: Seq<char>, i: int) -> Option<Seq<TokenV>>
    decreases s.len() - i,
{
    if i < 0 || i > s.len() {
        None
    } else {
        match spec_next(s, i) {
            StepV::End => Some(Seq::empty()),
            StepV::Tok(t, j) => if i < j <= s.len() {
                match toks_from(s, j) {
                    Some(r) => Some(seq![t] + r),
                    None => None,
                }
            } else {
                None
            },
            StepV::Bad(_k) => None,
        }
    }
}

/// A token step stays inside the text and moves the cursor forward.
pub proof fn lemma_next_tok_bounds(s: Seq<char>, i: int)
    requires
        0 <= i <= s.len(),
    ensures
        spec_next(s, i) matches StepV::Tok(t, j) ==> i < j <= s.len(),
{
    lemma_skip_ws_ge(s, i);
    let k = spec_skip_ws(s, i);
    if k < s.len() {
        if spec_rule(s, k) matches RuleV::Tok(t, n) {
            crate::parse::lemma_rule_fits(s, k);
        }
    }
}

/// One unfolding of the token run: the step at `i` determines the head,
/// and the run continues from the step's end.
pub proof fn lemma_toks_from_step(s: Seq<char>, i: int)
    requires
        0 <= i <= s.len(),
    ensures
        match spec_next(s, i) {
            StepV::End => toks_from(s, i) == Some(Seq::<TokenV>::empty()),
            StepV::Tok(t, j) => (toks_from(s, i) matches Some(ts) <==> toks_from(s, j)
                matches Some(rs)) && (toks_from(s, i) matches Some(ts) ==> toks_from(s, j)
                matches Some(rs) && ts == seq![t] + rs && ts.len() >= 1 && ts[0] == t
                && rs == ts.skip(1)),
            StepV::Bad(_k) => toks_from(s, i) is None,
        },
{
    lemma_next_tok_bounds(s, i);
    match spec_next(s, i) {
        StepV::Tok(t, j) => {
            match toks_from(s, j) {
                Some(rs) => {
                    assert(toks_from(s, i) == Some(seq![t] + rs));
                    assert((seq![t] + rs)[0] == t);
                    assert((seq![t] + rs).skip(1) =~= rs);
                },
                None => {},
            }
        },
        _ => {},
    }
}
} // verus!
