//! Tokens of the schedule language and the errors of lexing and parsing:
//! a bidirectional lexical scanner over one text buffer.

use vstd::prelude::*;
use crate::chars::{chars_to_string, is_digit_char, range_eq_str, range_to_string, str_to_chars};
use crate::tags::{spec_tag_of_name, TagType};

verus! {

/// One lexical unit of the schedule language.
#[derive(PartialEq, Debug)]
pub enum Token {
    LParen,
    RParen,
    Data(String),
    Time(usize),
    TagKind(TagType),
    List,
    Instr,
    Play,
    Local,
    Network,
    Tag,
    Prog,
    Sched,
}

/// The mathematical value of a token: a quoted literal as its characters.
pub ghost enum TokenV {
    LParen,
    RParen,
    Data(Seq<char>),
    Time(usize),
    TagKind(TagType),
    List,
    Instr,
    Play,
    Local,
    Network,
    Tag,
    Prog,
    Sched,
}

impl View for Token {
    type V = TokenV;

    open spec fn view(&self) -> TokenV {
        match self {
            Token::LParen => TokenV::LParen,
            Token::RParen => TokenV::RParen,
            Token::Data(s) => TokenV::Data(s@),
            Token::Time(t) => TokenV::Time(*t),
            Token::TagKind(t) => TokenV::TagKind(*t),
            Token::List => TokenV::List,
            Token::Instr => TokenV::Instr,
            Token::Play => TokenV::Play,
            Token::Local => TokenV::Local,
            Token::Network => TokenV::Network,
            Token::Tag => TokenV::Tag,
            Token::Prog => TokenV::Prog,
            Token::Sched => TokenV::Sched,
        }
    }
}

#[derive(PartialEq, Debug)]
pub enum ParseError {
    BadToken(String),
    UnbalancedParens,
    BadAction,
    BadTime,
}

impl ParseError {
    /// A lexical or grammatical mismatch, with a short description.
    pub fn expected(msg: &str) -> (r: ParseError)
        ensures
            r matches ParseError::BadToken(m) && m@ == msg@,
    {
        ParseError::BadToken(String::from_str(msg))
    }

    /// The error rendered as text, for callers that report it.
    pub fn message(&self) -> (r: String)
        ensures
            self is BadToken ==> r@ == self->BadToken_0@,
    {
        match self {
            ParseError::BadToken(s) => s.clone(),
            ParseError::UnbalancedParens => String::from_str("Unbalanced parens!"),
            ParseError::BadAction => String::from_str(
                "That action is inappropriate in this context.",
            ),
            ParseError::BadTime => String::from_str("Improper or impossible time."),
        }
    }
}


impl Clone for Token {
    /// A clone is equal to the token it copies.
    fn clone(&self) -> (r: Self)
        ensures
            r == *self,
    {
        match self {
            Token::LParen => Token::LParen,
            Token::RParen => Token::RParen,
            Token::Data(s) => Token::Data(s.clone()),
            Token::Time(t) => Token::Time(*t),
            Token::TagKind(t) => Token::TagKind(*t),
            Token::List => Token::List,
            Token::Instr => Token::Instr,
            Token::Play => Token::Play,
            Token::Local => Token::Local,
            Token::Network => Token::Network,
            Token::Tag => Token::Tag,
            Token::Prog => Token::Prog,
            Token::Sched => Token::Sched,
        }
    }
}

impl Clone for ParseError {
    /// A clone is equal to the error it copies.
    fn clone(&self) -> (r: Self)
        ensures
            r == *self,
    {
        match self {
            ParseError::BadToken(s) => ParseError::BadToken(s.clone()),
            ParseError::UnbalancedParens => ParseError::UnbalancedParens,
            ParseError::BadAction => ParseError::BadAction,
            ParseError::BadTime => ParseError::BadTime,
        }
    }
}

/// A scanning rule's verdict on one position: no match, a token of a given
/// width, or a terminal lexical error.
pub ghost enum RuleV {
    NoMatch,
    Tok(TokenV, nat),
    Fail,
}

/// What the result tuple of an executable rule must be, given the rule's
/// mathematical verdict.
pub open spec fn rule_res_ok(rv: RuleV, r: (Option<Result<Token, ParseError>>, usize)) -> bool {
    match rv {
        RuleV::NoMatch => r.0 is None && r.1 == 0,
        RuleV::Tok(t, n) => (r.0 matches Some(res) && res matches Ok(tok) && tok@ == t) && r.1
            == n,
        RuleV::Fail => (r.0 matches Some(res) && res matches Err(e) && e is BadToken) && r.1
            == 0,
    }
}

/// The whitespace the scanner skips between tokens.
pub open spec fn is_ws(c: char) -> bool {
    c == ' ' || c == '\t' || c == '\n' || c == '\r'
}

pub(crate) fn is_ws_exec(c: char) -> (r: bool)
    ensures
        r == is_ws(c),
{
    c == ' ' || c == '\t' || c == '\n' || c == '\r'
}

/// The text `s` carries `lit` starting at `i`.
pub open spec fn starts_with_at(s: Seq<char>, i: int, lit: Seq<char>) -> bool {
    i + lit.len() <= s.len() && s.subrange(i, i + lit.len() as int) == lit
}

fn starts_with_lit(s: &Vec<char>, i: usize, lit: &str) -> (b: bool)
    requires
        i <= s@.len(),
    ensures
        b == starts_with_at(s@, i as int, lit@),
{
    let n = lit.unicode_len();
    if n > s.len() - i {
        return false;
    }
    range_eq_str(s, i, i + n, lit)
}

/// The text `s[..i]` ends with `lit`.
pub open spec fn ends_with_at(s: Seq<char>, i: int, lit: Seq<char>) -> bool {
    lit.len() <= i && s.subrange(i - lit.len(), i) == lit
}

fn ends_with_lit(s: &Vec<char>, i: usize, lit: &str) -> (b: bool)
    requires
        i <= s@.len(),
    ensures
        b == ends_with_at(s@, i as int, lit@),
{
    let n = lit.unicode_len();
    if n > i {
        return false;
    }
    range_eq_str(s, i - n, i, lit)
}

// ---------------------------------------------------------------------------
// The forward rules, in their fixed priority order.
// ---------------------------------------------------------------------------

/// A paren token at `i`.
pub open spec fn spec_is_paren(s: Seq<char>, i: int) -> RuleV {
    if 0 <= i < s.len() && s[i] == '(' {
        RuleV::Tok(TokenV::LParen, 1)
    } else if 0 <= i < s.len() && s[i] == ')' {
        RuleV::Tok(TokenV::RParen, 1)
    } else {
        RuleV::NoMatch
    }
}

/// A keyword at `i`; all but `play` demand a following space, so that a
/// longer word never reads as a keyword prefix.
pub open spec fn spec_is_keyword(s: Seq<char>, i: int) -> RuleV {
    if starts_with_at(s, i, "list "@) {
        RuleV::Tok(TokenV::List, 4)
    } else if starts_with_at(s, i, "tags "@) {
        RuleV::Tok(TokenV::Tag, 4)
    } else if starts_with_at(s, i, "play"@) {
        RuleV::Tok(TokenV::Play, 4)
    } else if starts_with_at(s, i, "local "@) {
        RuleV::Tok(TokenV::Local, 5)
    } else if starts_with_at(s, i, "network "@) {
        RuleV::Tok(TokenV::Network, 7)
    } else if starts_with_at(s, i, "program "@) {
        RuleV::Tok(TokenV::Prog, 7)
    } else if starts_with_at(s, i, "schedule "@) {
        RuleV::Tok(TokenV::Sched, 8)
    } else if starts_with_at(s, i, "instr "@) {
        RuleV::Tok(TokenV::Instr, 5)
    } else {
        RuleV::NoMatch
    }
}

/// The first `"` at or after `i`, if any.
pub open spec fn spec_find_char(s: Seq<char>, c: char, i: int) -> Option<int>
    decreases s.len() - i,
{
    if i < 0 || i >= s.len() {
        None
    } else if s[i] == c {
        Some(i)
    } else {
        spec_find_char(s, c, i + 1)
    }
}

/// A quoted literal at `i`: its token carries the text between the quotes;
/// a quote with no closing quote is a terminal error.
pub open spec fn spec_is_data(s: Seq<char>, i: int) -> RuleV {
    if 0 <= i < s.len() && s[i] == '"' {
        match spec_find_char(s, '"', i + 1) {
            Some(j) => RuleV::Tok(TokenV::Data(s.subrange(i + 1, j)), (j - i + 1) as nat),
            None => RuleV::Fail,
        }
    } else {
        RuleV::NoMatch
    }
}

/// An `HH:MM:SS` literal starts at `i`: two decimal digits in each field.
pub open spec fn time_pattern_at(s: Seq<char>, i: int) -> bool {
    &&& 0 <= i
    &&& i + 8 <= s.len()
    &&& is_digit_char(s[i])
    &&& is_digit_char(s[i + 1])
    &&& s[i + 2] == ':'
    &&& is_digit_char(s[i + 3])
    &&& is_digit_char(s[i + 4])
    &&& s[i + 5] == ':'
    &&& is_digit_char(s[i + 6])
    &&& is_digit_char(s[i + 7])
}

/// The seconds denoted by the time literal at `i`.
pub open spec fn time_value_at(s: Seq<char>, i: int) -> int {
    (crate::chars::digit_val(s[i]) * 10 + crate::chars::digit_val(s[i + 1])) * 3600 + (
    crate::chars::digit_val(s[i + 3]) * 10 + crate::chars::digit_val(s[i + 4])) * 60 + (
    crate::chars::digit_val(s[i + 6]) * 10 + crate::chars::digit_val(s[i + 7]))
}

/// A time literal at `i`, worth its total seconds.
pub open spec fn spec_is_time(s: Seq<char>, i: int) -> RuleV {
    if time_pattern_at(s, i) {
        RuleV::Tok(TokenV::Time(time_value_at(s, i) as usize), 8)
    } else {
        RuleV::NoMatch
    }
}

/// The first whitespace at or after `i`, if any.
pub open spec fn spec_find_ws(s: Seq<char>, i: int) -> Option<int>
    decreases s.len() - i,
{
    if i < 0 || i >= s.len() {
        None
    } else if is_ws(s[i]) {
        Some(i)
    } else {
        spec_find_ws(s, i + 1)
    }
}

/// A `:name` tag keyword at `i`, delimited by the next whitespace; an
/// unknown name or a missing delimiter is a terminal error.
pub open spec fn spec_is_tag(s: Seq<char>, i: int) -> RuleV {
    if 0 <= i < s.len() && s[i] == ':' {
        match spec_find_ws(s, i) {
            Some(j) => match spec_tag_of_name(s.subrange(i + 1, j)) {
                Some(t) => RuleV::Tok(TokenV::TagKind(t), (j - i) as nat),
                None => RuleV::Fail,
            },
            None => RuleV::Fail,
        }
    } else {
        RuleV::NoMatch
    }
}

/// The rules tried in priority order on the text at `i`: paren, keyword,
/// quoted literal, time, tag; a position no rule recognises is a terminal
/// error.
pub open spec fn spec_rule(s: Seq<char>, i: int) -> RuleV {
    if !(spec_is_paren(s, i) is NoMatch) {
        spec_is_paren(s, i)
    } else if !(spec_is_keyword(s, i) is NoMatch) {
        spec_is_keyword(s, i)
    } else if !(spec_is_data(s, i) is NoMatch) {
        spec_is_data(s, i)
    } else if !(spec_is_time(s, i) is NoMatch) {
        spec_is_time(s, i)
    } else {
        spec_is_tag(s, i)
    }
}

// ---------------------------------------------------------------------------
// The backward rules, used to rewind over the token just before a position.
// ---------------------------------------------------------------------------

/// A paren just before `i`.
pub open spec fn spec_is_paren_rev(s: Seq<char>, i: int) -> RuleV {
    if 0 < i <= s.len() && s[i - 1] == '(' {
        RuleV::Tok(TokenV::LParen, 1)
    } else if 0 < i <= s.len() && s[i - 1] == ')' {
        RuleV::Tok(TokenV::RParen, 1)
    } else {
        RuleV::NoMatch
    }
}

/// A keyword ending exactly at `i`.
pub open spec fn spec_is_keyword_rev(s: Seq<char>, i: int) -> RuleV {
    if ends_with_at(s, i, "list"@) {
        RuleV::Tok(TokenV::List, 4)
    } else if ends_with_at(s, i, "tags"@) {
        RuleV::Tok(TokenV::Tag, 4)
    } else if ends_with_at(s, i, "play"@) {
        RuleV::Tok(TokenV::Play, 4)
    } else if ends_with_at(s, i, "local"@) {
        RuleV::Tok(TokenV::Local, 5)
    } else if ends_with_at(s, i, "network"@) {
        RuleV::Tok(TokenV::Network, 7)
    } else if ends_with_at(s, i, "program"@) {
        RuleV::Tok(TokenV::Prog, 7)
    } else if ends_with_at(s, i, "schedule"@) {
        RuleV::Tok(TokenV::Sched, 8)
    } else if ends_with_at(s, i, "instr"@) {
        RuleV::Tok(TokenV::Instr, 5)
    } else {
        RuleV::NoMatch
    }
}

/// The last `"` strictly before `i`, if any.
pub open spec fn spec_rfind_char(s: Seq<char>, c: char, i: int) -> Option<int>
    decreases i,
{
    if i <= 0 || i > s.len() {
        None
    } else if s[i - 1] == c {
        Some(i - 1)
    } else {
        spec_rfind_char(s, c, i - 1)
    }
}

/// A quoted literal ending at `i`.
pub open spec fn spec_is_data_rev(s: Seq<char>, i: int) -> RuleV {
    if 0 < i <= s.len() && s[i - 1] == '"' {
        match spec_rfind_char(s, '"', i - 1) {
            Some(q) => RuleV::Tok(TokenV::Data(s.subrange(q + 1, i - 1)), (i - q) as nat),
            None => RuleV::Fail,
        }
    } else {
        RuleV::NoMatch
    }
}

/// A time literal ending at `i`, only when text precedes it.
pub open spec fn spec_is_time_rev(s: Seq<char>, i: int) -> RuleV {
    if i > 8 && i <= s.len() && time_pattern_at(s, i - 8) {
        RuleV::Tok(TokenV::Time(time_value_at(s, i - 8) as usize), 8)
    } else {
        RuleV::NoMatch
    }
}

/// The backward rules in priority order; the tag rule is the forward one,
/// read against the start of the prefix.
pub open spec fn spec_rule_rev(s: Seq<char>, i: int) -> RuleV {
    if !(spec_is_paren_rev(s, i) is NoMatch) {
        spec_is_paren_rev(s, i)
    } else if !(spec_is_keyword_rev(s, i) is NoMatch) {
        spec_is_keyword_rev(s, i)
    } else if !(spec_is_data_rev(s, i) is NoMatch) {
        spec_is_data_rev(s, i)
    } else if !(spec_is_time_rev(s, i) is NoMatch) {
        spec_is_time_rev(s, i)
    } else {
        spec_is_tag(s.take(i), 0)
    }
}


// ---------------------------------------------------------------------------
// Executable scanning.
// ---------------------------------------------------------------------------

proof fn lemma_find_char(s: Seq<char>, c: char, from: int, j: int)
    requires
        0 <= from <= j <= s.len(),
        forall|m: int| from <= m < j ==> s[m] != c,
        j < s.len() ==> s[j] == c,
    ensures
        spec_find_char(s, c, from) == if j < s.len() {
            Some(j)
        } else {
            None::<int>
        },
    decreases j - from,
{
    if from < j {
        lemma_find_char(s, c, from + 1, j);
    }
}

proof fn lemma_find_ws(s: Seq<char>, from: int, j: int)
    requires
        0 <= from <= j <= s.len(),
        forall|m: int| from <= m < j ==> !is_ws(s[m]),
        j < s.len() ==> is_ws(s[j]),
    ensures
        spec_find_ws(s, from) == if j < s.len() {
            Some(j)
        } else {
            None::<int>
        },
    decreases j - from,
{
    if from < j {
        lemma_find_ws(s, from + 1, j);
    }
}

proof fn lemma_rfind_char(s: Seq<char>, c: char, i: int, q: int)
    requires
        0 <= i <= s.len(),
        -1 <= q < i,
        q >= 0 ==> s[q] == c,
        forall|m: int| q < m < i ==> s[m] != c,
    ensures
        spec_rfind_char(s, c, i) == if q >= 0 {
            Some(q)
        } else {
            None::<int>
        },
    decreases i - q,
{
    if i - 1 > q {
        lemma_rfind_char(s, c, i - 1, q);
    }
}

fn scan_paren(s: &Vec<char>, i: usize) -> (r: (Option<Result<Token, ParseError>>, usize))
    requires
        i <= s@.len(),
    ensures
        rule_res_ok(spec_is_paren(s@, i as int), r),
{
    if i < s.len() {
        let c = s[i];
        if c == '(' {
            (Some(Ok(Token::LParen)), 1)
        } else if c == ')' {
            (Some(Ok(Token::RParen)), 1)
        } else {
            (None, 0)
        }
    } else {
        (None, 0)
    }
}

fn scan_keyword(s: &Vec<char>, i: usize) -> (r: (Option<Result<Token, ParseError>>, usize))
    requires
        i <= s@.len(),
    ensures
        rule_res_ok(spec_is_keyword(s@, i as int), r),
{
    if starts_with_lit(s, i, "list ") {
        (Some(Ok(Token::List)), 4)
    } else if starts_with_lit(s, i, "tags ") {
        (Some(Ok(Token::Tag)), 4)
    } else if starts_with_lit(s, i, "play") {
        (Some(Ok(Token::Play)), 4)
    } else if starts_with_lit(s, i, "local ") {
        (Some(Ok(Token::Local)), 5)
    } else if starts_with_lit(s, i, "network ") {
        (Some(Ok(Token::Network)), 7)
    } else if starts_with_lit(s, i, "program ") {
        (Some(Ok(Token::Prog)), 7)
    } else if starts_with_lit(s, i, "schedule ") {
        (Some(Ok(Token::Sched)), 8)
    } else if starts_with_lit(s, i, "instr ") {
        (Some(Ok(Token::Instr)), 5)
    } else {
        (None, 0)
    }
}

fn scan_data(s: &Vec<char>, i: usize) -> (r: (Option<Result<Token, ParseError>>, usize))
    requires
        i <= s@.len(),
    ensures
        rule_res_ok(spec_is_data(s@, i as int), r),
        spec_is_data(s@, i as int) is Fail ==> (r.0 matches Some(res) && res matches Err(e) && (
        e matches ParseError::BadToken(m) && m@ == "Cannot find closing quote!"@)),
{
    if i < s.len() && s[i] == '"' {
        let mut j: usize = i + 1;
        while j < s.len() && s[j] != '"'
            invariant
                i + 1 <= j <= s@.len(),
                forall|m: int| i + 1 <= m < j ==> s@[m] != '"',
            decreases s@.len() - j,
        {
            j = j + 1;
        }
        proof {
            lemma_find_char(s@, '"', i + 1, j as int);
        }
        if j < s.len() {
            let content = range_to_string(s, i + 1, j);
            (Some(Ok(Token::Data(content))), j - i + 1)
        } else {
            (Some(Err(ParseError::expected("Cannot find closing quote!"))), 0)
        }
    } else {
        (None, 0)
    }
}

/// The text begins with two decimal digits, a colon, two digits, a colon,
/// and two digits: the shape of a time literal.
pub open spec fn is_time_prefix(s: Seq<char>) -> bool {
    time_pattern_at(s, 0)
}

/// Relies on the regex crate: the fixed anchored pattern of three two-digit
/// decimal fields separated by colons matches an ASCII string exactly when
/// its first eight characters have that shape; the pattern is a valid
/// expression, so compiling it cannot fail.
#[verifier::external_body]
fn time_regex_match(s: &str) -> (r: bool)
    requires
        forall|i: int| 0 <= i < s@.len() ==> #[trigger] s@[i] <= '\u{7f}',
    ensures
        r == is_time_prefix(s@),
{
    let re = match regex::Regex::new(r"^\d{2}:\d{2}:\d{2}") {
        Ok(re) => re,
        Err(_) => return false,
    };
    re.is_match(s)
}

fn scan_time(s: &Vec<char>, i: usize) -> (r: (Option<Result<Token, ParseError>>, usize))
    requires
        i <= s@.len(),
    ensures
        rule_res_ok(spec_is_time(s@, i as int), r),
{
    if s.len() - i < 8 {
        return (None, 0);
    }
    let mut k: usize = 0;
    while k < 8
        invariant
            0 <= k <= 8,
            i + 8 <= s@.len(),
            s@.len() <= usize::MAX,
            forall|m: int| 0 <= m < k ==> #[trigger] s@[i + m] <= '\u{7f}',
        decreases 8 - k,
    {
        let c = s[i + k];
        if c > '\u{7f}' {
            proof {
                assert(!is_digit_char(c) && c != ':');
                assert(!time_pattern_at(s@, i as int));
            }
            return (None, 0);
        }
        k = k + 1;
    }
    let sub = range_to_string(s, i, i + 8);
    proof {
        assert(sub@.len() == 8);
        assert(forall|m: int| 0 <= m < 8 ==> sub@[m] == s@[i + m]);
        assert forall|m: int| 0 <= m < sub@.len() implies #[trigger] sub@[m] <= '\u{7f}' by {
            assert(sub@[m] == s@[i + m]);
        }
    }
    if !time_regex_match(sub.as_str()) {
        proof {
            assert(!time_pattern_at(s@, i as int));
        }
        return (None, 0);
    }
    proof {
        assert(time_pattern_at(s@, i as int));
    }
    let d0 = (s[i] as u32) - ('0' as u32);
    let d1 = (s[i + 1] as u32) - ('0' as u32);
    let d2 = (s[i + 3] as u32) - ('0' as u32);
    let d3 = (s[i + 4] as u32) - ('0' as u32);
    let d4 = (s[i + 6] as u32) - ('0' as u32);
    let d5 = (s[i + 7] as u32) - ('0' as u32);
    let hours = (d0 * 10 + d1) as usize;
    let minutes = (d2 * 10 + d3) as usize;
    let seconds = (d4 * 10 + d5) as usize;
    let total = hours * 3600 + minutes * 60 + seconds;
    proof {
        assert(total == time_value_at(s@, i as int));
    }
    (Some(Ok(Token::Time(total))), 8)
}

fn scan_tag(s: &Vec<char>, i: usize) -> (r: (Option<Result<Token, ParseError>>, usize))
    requires
        i <= s@.len(),
    ensures
        rule_res_ok(spec_is_tag(s@, i as int), r),
{
    if i < s.len() && s[i] == ':' {
        let mut j: usize = i;
        while j < s.len() && !is_ws_exec(s[j])
            invariant
                i <= j <= s@.len(),
                forall|m: int| i <= m < j ==> !is_ws(s@[m]),
            decreases s@.len() - j,
        {
            j = j + 1;
        }
        proof {
            lemma_find_ws(s@, i as int, j as int);
        }
        if j < s.len() {
            match TagType::of_name(s, i + 1, j) {
                Some(t) => (Some(Ok(Token::TagKind(t))), j - i),
                None => (Some(Err(ParseError::expected("Badly formatted tag."))), 0),
            }
        } else {
            (Some(Err(ParseError::expected("Badly formatted tag."))), 0)
        }
    } else {
        (None, 0)
    }
}

pub(crate) fn scan_rule(s: &Vec<char>, i: usize) -> (r: (Option<Result<Token, ParseError>>, usize))
    requires
        i <= s@.len(),
    ensures
        rule_res_ok(spec_rule(s@, i as int), r),
{
    let r = scan_paren(s, i);
    if r.0.is_some() {
        return r;
    }
    let r = scan_keyword(s, i);
    if r.0.is_some() {
        return r;
    }
    let r = scan_data(s, i);
    if r.0.is_some() {
        return r;
    }
    let r = scan_time(s, i);
    if r.0.is_some() {
        return r;
    }
    scan_tag(s, i)
}

fn scan_tag_prefix(s: &Vec<char>, end: usize) -> (r: (Option<Result<Token, ParseError>>, usize))
    requires
        end <= s@.len(),
    ensures
        rule_res_ok(spec_is_tag(s@.take(end as int), 0), r),
{
    let ghost p = s@.take(end as int);
    if 0 < end && s[0] == ':' {
        let mut j: usize = 0;
        while j < end && !is_ws_exec(s[j])
            invariant
                0 <= j <= end <= s@.len(),
                p == s@.take(end as int),
                forall|m: int| 0 <= m < j ==> !is_ws(p[m]),
            decreases end - j,
        {
            j = j + 1;
        }
        proof {
            lemma_find_ws(p, 0, j as int);
        }
        if j < end {
            match TagType::of_name(s, 1, j) {
                Some(t) => {
                    proof {
                        assert(s@.subrange(1, j as int) =~= p.subrange(1, j as int));
                    }
                    (Some(Ok(Token::TagKind(t))), j)
                },
                None => {
                    proof {
                        assert(s@.subrange(1, j as int) =~= p.subrange(1, j as int));
                    }
                    (Some(Err(ParseError::expected("Badly formatted tag."))), 0)
                },
            }
        } else {
            (Some(Err(ParseError::expected("Badly formatted tag."))), 0)
        }
    } else {
        (None, 0)
    }
}

fn scan_paren_rev(s: &Vec<char>, i: usize) -> (r: (Option<Result<Token, ParseError>>, usize))
    requires
        i <= s@.len(),
    ensures
        rule_res_ok(spec_is_paren_rev(s@, i as int), r),
{
    if i > 0 {
        let c = s[i - 1];
        if c == '(' {
            (Some(Ok(Token::LParen)), 1)
        } else if c == ')' {
            (Some(Ok(Token::RParen)), 1)
        } else {
            (None, 0)
        }
    } else {
        (None, 0)
    }
}

fn scan_keyword_rev(s: &Vec<char>, i: usize) -> (r: (Option<Result<Token, ParseError>>, usize))
    requires
        i <= s@.len(),
    ensures
        rule_res_ok(spec_is_keyword_rev(s@, i as int), r),
{
    if ends_with_lit(s, i, "list") {
        (Some(Ok(Token::List)), 4)
    } else if ends_with_lit(s, i, "tags") {
        (Some(Ok(Token::Tag)), 4)
    } else if ends_with_lit(s, i, "play") {
        (Some(Ok(Token::Play)), 4)
    } else if ends_with_lit(s, i, "local") {
        (Some(Ok(Token::Local)), 5)
    } else if ends_with_lit(s, i, "network") {
        (Some(Ok(Token::Network)), 7)
    } else if ends_with_lit(s, i, "program") {
        (Some(Ok(Token::Prog)), 7)
    } else if ends_with_lit(s, i, "schedule") {
        (Some(Ok(Token::Sched)), 8)
    } else if ends_with_lit(s, i, "instr") {
        (Some(Ok(Token::Instr)), 5)
    } else {
        (None, 0)
    }
}

fn scan_data_rev(s: &Vec<char>, i: usize) -> (r: (Option<Result<Token, ParseError>>, usize))
    requires
        i <= s@.len(),
    ensures
        rule_res_ok(spec_is_data_rev(s@, i as int), r),
        spec_is_data_rev(s@, i as int) is Fail ==> (r.0 matches Some(res) && res matches Err(e)
            && (e matches ParseError::BadToken(m) && m@ == "Cannot find closing quote!"@)),
{
    if i > 0 && s[i - 1] == '"' {
        let mut q: usize = i - 1;
        while q > 0 && s[q - 1] != '"'
            invariant
                0 <= q <= i - 1,
                i <= s@.len(),
                forall|m: int| q <= m < i - 1 ==> s@[m] != '"',
            decreases q,
        {
            q = q - 1;
        }
        if q > 0 {
            proof {
                lemma_rfind_char(s@, '"', i - 1, q - 1);
            }
            let content = range_to_string(s, q, i - 1);
            (Some(Ok(Token::Data(content))), i - q + 1)
        } else {
            proof {
                lemma_rfind_char(s@, '"', i - 1, -1);
            }
            (Some(Err(ParseError::expected("Cannot find closing quote!"))), 0)
        }
    } else {
        (None, 0)
    }
}

fn scan_time_rev(s: &Vec<char>, i: usize) -> (r: (Option<Result<Token, ParseError>>, usize))
    requires
        i <= s@.len(),
    ensures
        rule_res_ok(spec_is_time_rev(s@, i as int), r),
{
    if i > 8 {
        let r = scan_time(s, i - 8);
        match r {
            (Some(res), n) => {
                match res {
                    Ok(tok) => (Some(Ok(tok)), 8),
                    Err(_) => {
                        proof {
                            assert(false);
                        }
                        (None, 0)
                    },
                }
            },
            (None, _) => (None, 0),
        }
    } else {
        (None, 0)
    }
}

pub(crate) fn scan_rule_rev(s: &Vec<char>, i: usize) -> (r: (Option<Result<Token, ParseError>>, usize))
    requires
        i <= s@.len(),
    ensures
        rule_res_ok(spec_rule_rev(s@, i as int), r),
{
    let r = scan_paren_rev(s, i);
    if r.0.is_some() {
        return r;
    }
    let r = scan_keyword_rev(s, i);
    if r.0.is_some() {
        return r;
    }
    let r = scan_data_rev(s, i);
    if r.0.is_some() {
        return r;
    }
    let r = scan_time_rev(s, i);
    if r.0.is_some() {
        return r;
    }
    scan_tag_prefix(s, i)
}

// ---------------------------------------------------------------------------
// The public rule functions, as the parser's rule set.
// ---------------------------------------------------------------------------

/// A rule's answer: possibly a token or an error, and how many characters
/// the rule consumed.
pub type MaybeToken<T, U> = (Option<Result<T, U>>, usize);

pub fn is_paren(expr: &str) -> (r: MaybeToken<Token, ParseError>)
    ensures
        rule_res_ok(spec_is_paren(expr@, 0), r),
{
    let v = str_to_chars(expr);
    scan_paren(&v, 0)
}

pub fn is_paren_rev(expr: &str) -> (r: MaybeToken<Token, ParseError>)
    ensures
        rule_res_ok(spec_is_paren_rev(expr@, expr@.len() as int), r),
{
    let v = str_to_chars(expr);
    let n = v.len();
    scan_paren_rev(&v, n)
}

pub fn is_keyword(expr: &str) -> (r: MaybeToken<Token, ParseError>)
    ensures
        rule_res_ok(spec_is_keyword(expr@, 0), r),
{
    let v = str_to_chars(expr);
    scan_keyword(&v, 0)
}

pub fn is_keyword_rev(expr: &str) -> (r: MaybeToken<Token, ParseError>)
    ensures
        rule_res_ok(spec_is_keyword_rev(expr@, expr@.len() as int), r),
{
    let v = str_to_chars(expr);
    let n = v.len();
    scan_keyword_rev(&v, n)
}

pub fn is_data(expr: &str) -> (r: MaybeToken<Token, ParseError>)
    ensures
        rule_res_ok(spec_is_data(expr@, 0), r),
        spec_is_data(expr@, 0) is Fail ==> (r.0 matches Some(res) && res matches Err(e) && (
        e matches ParseError::BadToken(m) && m@ == "Cannot find closing quote!"@)),
{
    let v = str_to_chars(expr);
    scan_data(&v, 0)
}

pub fn is_data_rev(expr: &str) -> (r: MaybeToken<Token, ParseError>)
    ensures
        rule_res_ok(spec_is_data_rev(expr@, expr@.len() as int), r),
        spec_is_data_rev(expr@, expr@.len() as int) is Fail ==> (r.0 matches Some(res) && res
            matches Err(e) && (e matches ParseError::BadToken(m) && m@
            == "Cannot find closing quote!"@)),
{
    let v = str_to_chars(expr);
    let n = v.len();
    scan_data_rev(&v, n)
}

pub fn is_time(expr: &str) -> (r: MaybeToken<Token, ParseError>)
    ensures
        rule_res_ok(spec_is_time(expr@, 0), r),
{
    let v = str_to_chars(expr);
    scan_time(&v, 0)
}

pub fn is_time_rev(expr: &str) -> (r: MaybeToken<Token, ParseError>)
    ensures
        rule_res_ok(spec_is_time_rev(expr@, expr@.len() as int), r),
{
    let v = str_to_chars(expr);
    let n = v.len();
    scan_time_rev(&v, n)
}

pub fn is_tag(expr: &str) -> (r: MaybeToken<Token, ParseError>)
    ensures
        rule_res_ok(spec_is_tag(expr@, 0), r),
{
    let v = str_to_chars(expr);
    let n = v.len();
    proof {
        assert(v@.take(n as int) =~= expr@);
    }
    scan_tag_prefix(&v, n)
}

/// The last `:`-introduced tag name of the text, consuming up to the colon.
pub open spec fn spec_is_tag_rev(s: Seq<char>) -> RuleV {
    match spec_rfind_char(s, ':', s.len() as int) {
        Some(x) => match spec_tag_of_name(s.subrange(x + 1, s.len() as int)) {
            Some(t) => RuleV::Tok(TokenV::TagKind(t), x as nat),
            None => RuleV::Fail,
        },
        None => RuleV::NoMatch,
    }
}

pub fn is_tag_rev(expr: &str) -> (r: MaybeToken<Token, ParseError>)
    ensures
        rule_res_ok(spec_is_tag_rev(expr@), r),
{
    let v = str_to_chars(expr);
    let n = v.len();
    let mut x: usize = n;
    while x > 0 && v[x - 1] != ':'
        invariant
            0 <= x <= n,
            n == v@.len(),
            v@ == expr@,
            forall|m: int| x <= m < n ==> v@[m] != ':',
        decreases x,
    {
        x = x - 1;
    }
    if x > 0 {
        proof {
            lemma_rfind_char(v@, ':', n as int, x - 1);
        }
        match TagType::of_name(&v, x, n) {
            Some(t) => (Some(Ok(Token::TagKind(t))), x - 1),
            None => (Some(Err(ParseError::expected("Badly formatted tag."))), 0),
        }
    } else {
        proof {
            lemma_rfind_char(v@, ':', n as int, -1);
        }
        (None, 0)
    }
}


proof fn lemma_find_char_bounds(s: Seq<char>, c: char, from: int)
    requires
        0 <= from,
    ensures
        spec_find_char(s, c, from) matches Some(j) ==> from <= j < s.len() && s[j] == c,
    decreases s.len() - from,
{
    if from < s.len() && s[from] != c {
        lemma_find_char_bounds(s, c, from + 1);
    }
}

proof fn lemma_find_ws_bounds(s: Seq<char>, from: int)
    requires
        0 <= from,
    ensures
        spec_find_ws(s, from) matches Some(j) ==> from <= j < s.len() && is_ws(s[j]),
    decreases s.len() - from,
{
    if from < s.len() && !is_ws(s[from]) {
        lemma_find_ws_bounds(s, from + 1);
    }
}

proof fn lemma_rfind_char_bounds(s: Seq<char>, c: char, i: int)
    requires
        0 <= i <= s.len(),
    ensures
        spec_rfind_char(s, c, i) matches Some(q) ==> 0 <= q < i && s[q] == c,
    decreases i,
{
    if i > 0 && s[i - 1] != c {
        lemma_rfind_char_bounds(s, c, i - 1);
    }
}

proof fn reveal_keyword_literals()
    ensures
        "list "@.len() == 5,
        "tags "@.len() == 5,
        "play"@.len() == 4,
        "local "@.len() == 6,
        "network "@.len() == 8,
        "program "@.len() == 8,
        "schedule "@.len() == 9,
        "instr "@.len() == 6,
        "list"@.len() == 4,
        "tags"@.len() == 4,
        "local"@.len() == 5,
        "network"@.len() == 7,
        "program"@.len() == 7,
        "schedule"@.len() == 8,
        "instr"@.len() == 5,
{
    reveal_strlit("list ");
    reveal_strlit("tags ");
    reveal_strlit("play");
    reveal_strlit("local ");
    reveal_strlit("network ");
    reveal_strlit("program ");
    reveal_strlit("schedule ");
    reveal_strlit("instr ");
    reveal_strlit("list");
    reveal_strlit("tags");
    reveal_strlit("local");
    reveal_strlit("network");
    reveal_strlit("program");
    reveal_strlit("schedule");
    reveal_strlit("instr");
}

/// A token a forward rule recognises lies inside the text.
pub proof fn lemma_rule_fits(s: Seq<char>, i: int)
    requires
        0 <= i <= s.len(),
        spec_rule(s, i) matches RuleV::Tok(t, n),
    ensures
        spec_rule(s, i) matches RuleV::Tok(t, n) ==> i + n <= s.len() && n >= 1,
{
    reveal_keyword_literals();
    lemma_find_char_bounds(s, '"', i + 1);
    lemma_find_ws_bounds(s, i);
    if !(spec_is_paren(s, i) is NoMatch) {
    } else if !(spec_is_keyword(s, i) is NoMatch) {
    } else if !(spec_is_data(s, i) is NoMatch) {
    } else if !(spec_is_time(s, i) is NoMatch) {
    } else {
        if spec_is_tag(s, i) matches RuleV::Tok(t, n) {
            let j = spec_find_ws(s, i)->Some_0;
            assert(s[i] == ':' && !is_ws(s[i]));
            assert(j > i);
        }
    }
}

/// A token a backward rule recognises lies inside the prefix.
pub proof fn lemma_rule_rev_fits(s: Seq<char>, i: int)
    requires
        0 <= i <= s.len(),
        spec_rule_rev(s, i) matches RuleV::Tok(t, n),
    ensures
        spec_rule_rev(s, i) matches RuleV::Tok(t, n) ==> n <= i && n >= 1,
{
    reveal_keyword_literals();
    lemma_rfind_char_bounds(s, '"', i - 1);
    if spec_is_paren_rev(s, i) is NoMatch && spec_is_keyword_rev(s, i) is NoMatch
        && spec_is_data_rev(s, i) is NoMatch && spec_is_time_rev(s, i) is NoMatch {
        let p = s.take(i);
        lemma_find_ws_bounds(p, 0);
        if spec_is_tag(p, 0) matches RuleV::Tok(t, n) {
            let j = spec_find_ws(p, 0)->Some_0;
            assert(p[0] == ':' && !is_ws(p[0]));
            assert(0 < j < p.len());
        }
    }
}


/// Parses a whole schedule from its textual form. It succeeds exactly when
/// the text lexes and the grammar's whole-schedule reading of its tokens
/// succeeds; the result is the schedule the reading gives, well-formed.
/// With the serializer's exact contract and the grammar's round-trip law,
/// rendering a canonical schedule and parsing it back is the identity
/// whenever the rendered text lexes to the canonical tokens.
pub fn parse(s: &str) -> (r: Result<crate::schedule::Schedule, ParseError>)
    ensures
        r matches Ok(sched) ==> crate::schedule::sched_wf(sched@),
        match crate::tokenize::toks_from(s@, 0) {
            Some(ts) => match crate::grammar::tp_sched(ts) {
                Some(v) => r matches Ok(sched) && sched@ == v,
                None => r is Err,
            },
            None => r is Err,
        },
{
    let mut tokens = crate::tokenize::TokenStream::new(
        s,
        ParseError::expected("Unrecognized token"),
    );
    crate::translate::translate(&mut tokens)
}


/// The first occurrence search, pinned by a witness: no earlier hit and a
/// hit at `j` (or none at all).
pub proof fn lemma_find_char_pub(s: Seq<char>, c: char, from: int, j: int)
    requires
        0 <= from <= j <= s.len(),
        forall|m: int| from <= m < j ==> s[m] != c,
        j < s.len() ==> s[j] == c,
    ensures
        spec_find_char(s, c, from) == if j < s.len() {
            Some(j)
        } else {
            None::<int>
        },
{
    lemma_find_char(s, c, from, j);
}

} // verus!


