//! The recursive-descent parser: from a token stream to a schedule. Each
//! function's contract ties it to the grammar's token-level reading: on a
//! text whose remainder lexes, the function succeeds exactly when the
//! reading succeeds, returns the value the reading gives, and leaves the
//! cursor where the reading's rest begins.

use vstd::prelude::*;
use crate::grammar::{
    cons_items, cons_list, cons_progs, tp_body, tp_instr_block, tp_list, tp_loc, tp_play_body,
    tp_program, tp_sched, tp_sched_body, tp_tag_items, tp_tags,
};
use crate::parse::{ParseError, Token, TokenV};
use crate::program::{instr_wf, instrs_view, prog_wf, Instruction, Program, Source};
use crate::schedule::{sched_wf, Schedule};
use crate::tags::{Tags, TagType};
use crate::tokenize::{
    lemma_toks_from_step, spec_next, toks_from, StepV, TokenStream,
};

verus! {

broadcast use {
    crate::program::lemma_prog_view_is_view,
    crate::program::lemma_instr_view_is_view,
    crate::program::lemma_instrs_view_len,
    crate::program::lemma_instrs_view_index,
    crate::schedule::lemma_progs_view_len,
    crate::schedule::lemma_progs_view_index,
};

pub type SchedResult = Result<Schedule, ParseError>;

pub type ParseResult = Result<(), ParseError>;

/// What every parsing step maintains about the stream: the text stands
/// still and the cursor only moves forward, staying inside the text.
pub open spec fn stream_adv(pre: crate::tokenize::TokenStreamV, post: crate::tokenize::TokenStreamV) -> bool {
    &&& post.text == pre.text
    &&& post.exhaustion == pre.exhaustion
    &&& pre.fwd <= post.fwd <= post.text.len()
}

/// The tokens of the stream's remaining text.
pub open spec fn lex(ts: crate::tokenize::TokenStreamV) -> Option<Seq<TokenV>> {
    toks_from(ts.text, ts.fwd as int)
}

/// Consumes an opening paren; any other token, a lexical error, or the end
/// of the stream is an error, the last as unbalanced parens.
pub fn begin_expr(tokens: &mut TokenStream) -> (r: Result<(), ParseError>)
    requires
        old(tokens)@.fwd <= old(tokens)@.text.len(),
    ensures
        stream_adv(old(tokens)@, final (tokens)@),
        match spec_next(old(tokens)@.text, old(tokens)@.fwd as int) {
            StepV::End => r == Err::<(), ParseError>(ParseError::UnbalancedParens) && final (
            tokens)@.fwd == old(tokens)@.text.len(),
            StepV::Tok(t, j) => final (tokens)@.fwd == j && (r is Ok <==> t is LParen) && (r
                matches Err(e) ==> e is BadToken),
            StepV::Bad(k) => r is Err && final (tokens)@.fwd == k,
        },
{
    match tokens.next() {
        Some(res) => match res {
            Ok(tok) => match tok {
                Token::LParen => Ok(()),
                _ => Err(ParseError::expected("Expected LParen")),
            },
            Err(msg) => Err(msg),
        },
        None => Err(ParseError::UnbalancedParens),
    }
}

/// Unwraps one pulled token; a stream that ended instead is an error.
pub fn strip<T>(t: Option<Result<T, ParseError>>) -> (r: Result<T, ParseError>)
    ensures
        match t {
            Some(res) => r == res,
            None => r is Err,
        },
{
    match t {
        Some(x) => x,
        None => Err(ParseError::expected("Expected a token but found nothing!")),
    }
}

/// Reads quoted values up to the closing paren of a `(list ...)` form;
/// nothing else may appear inside it.
pub fn create_list(tokens: &mut TokenStream) -> (r: Result<Vec<String>, ParseError>)
    requires
        old(tokens)@.fwd <= old(tokens)@.text.len(),
    ensures
        stream_adv(old(tokens)@, final (tokens)@),
        (r is Ok && lex(final (tokens)@) is Some) ==> lex(old(tokens)@) is Some,
        lex(old(tokens)@) matches Some(ts) ==> match tp_list(ts) {
            Some((members, rest)) => (r matches Ok(v) && crate::tags::strs_seq(v) == members)
                && lex(final (tokens)@) == Some(rest) && rest.len() < ts.len(),
            None => r is Err,
        },
{
    let ghost s = tokens@.text;
    let ghost p0 = tokens@.fwd as int;
    let mut list: Vec<String> = Vec::new();
    loop
        invariant
            stream_adv(old(tokens)@, tokens@),
            tokens@.text == s,
            p0 == old(tokens)@.fwd as int,
            toks_from(s, tokens@.fwd as int) is Some ==> toks_from(s, p0) is Some,
            toks_from(s, p0) matches Some(ts0) ==> (toks_from(s, tokens@.fwd as int)
                matches Some(tsc) && tp_list(ts0) == cons_list(
                crate::tags::strs_seq(list),
                tp_list(tsc),
            ) && tsc.len() + list@.len() <= ts0.len()),
        decreases tokens@.text.len() - tokens@.fwd,
    {
        let ghost pc = tokens@.fwd as int;
        proof {
            lemma_toks_from_step(s, pc);
        }
        let t = strip(tokens.next());
        match t {
            Err(e) => {
                return Err(e);
            },
            Ok(tok) => match tok {
                Token::LParen => {
                    return Err(ParseError::expected("Nested lists are not allowed"));
                },
                Token::RParen => {
                    proof {
                        if toks_from(s, p0) is Some {
                        let ts0 = toks_from(s, p0)->Some_0;
                            assert(crate::tags::strs_seq(list) + Seq::<Seq<char>>::empty()
                                =~= crate::tags::strs_seq(list));
                        }
                    }
                    return Ok(list);
                },
                Token::List => {
                    return Err(ParseError::expected("Nested lists are not allowed"));
                },
                Token::Data(x) => {
                    let ghost lpre = crate::tags::strs_seq(list);
                    list.push(x);
                    proof {
                        if toks_from(s, p0) is Some {
                        let ts0 = toks_from(s, p0)->Some_0;
                            assert(crate::tags::strs_seq(list) =~= lpre.push(x@));
                            let tsc = toks_from(s, pc)->Some_0;
                            let tsn = toks_from(s, tokens@.fwd as int)->Some_0;
                            assert(tp_list(tsc) == cons_list(seq![x@], tp_list(tsn)));
                            assert forall|o: Option<(Seq<Seq<char>>, Seq<TokenV>)>|
                                cons_list(lpre, cons_list(seq![x@], o)) == cons_list(
                                lpre.push(x@),
                                o,
                            ) by {
                                match o {
                                    Some((l, r)) => {
                                        assert(lpre + (seq![x@] + l) =~= lpre.push(x@) + l);
                                    },
                                    None => {},
                                }
                            }
                        }
                    }
                },
                _ => {
                    return Err(ParseError::expected("Expected tag data"));
                },
            },
        }
    }
}

/// Reads a `(local "...")` or `(network "...")` location form.
pub fn get_location(tokens: &mut TokenStream) -> (r: Result<Source, ParseError>)
    requires
        old(tokens)@.fwd <= old(tokens)@.text.len(),
    ensures
        stream_adv(old(tokens)@, final (tokens)@),
        (r is Ok && lex(final (tokens)@) is Some) ==> lex(old(tokens)@) is Some,
        r is Ok ==> final (tokens)@.fwd > old(tokens)@.fwd,
        lex(old(tokens)@) matches Some(ts) ==> match tp_loc(ts) {
            Some((l, rest)) => (r matches Ok(src) && src@ == l) && lex(final (tokens)@) == Some(
                rest,
            ) && rest.len() < ts.len(),
            None => r is Err,
        },
{
    let ghost s = tokens@.text;
    proof {
        lemma_toks_from_step(s, tokens@.fwd as int);
    }
    if let Err(e) = begin_expr(tokens) {
        return Err(e);
    }
    proof {
        lemma_toks_from_step(s, tokens@.fwd as int);
    }
    let loc_type = match strip(tokens.next()) {
        Ok(t) => t,
        Err(e) => {
            return Err(e);
        },
    };
    proof {
        lemma_toks_from_step(s, tokens@.fwd as int);
    }
    let loc_place = match strip(tokens.next()) {
        Ok(t) => t,
        Err(e) => {
            return Err(e);
        },
    };
    let res: Source = match (loc_type, loc_place) {
        (Token::Local, Token::Data(x)) => Source::Pathname(x),
        (Token::Network, Token::Data(x)) => Source::URL(x),
        _ => {
            return Err(ParseError::expected("Expected source for file"));
        },
    };
    proof {
        lemma_toks_from_step(s, tokens@.fwd as int);
    }
    match strip(tokens.next()) {
        Ok(Token::RParen) => {
            proof {
                match lex(old(tokens)@) {
                    Some(ts) => {
                        assert(ts.skip(1).skip(1).skip(1) =~= ts.skip(3));
                        assert(ts.skip(3).skip(1) =~= ts.skip(4));
                    },
                    None => {},
                }
            }
            Ok(res)
        },
        Ok(_) => Err(ParseError::expected("In get_location, expected rparen")),
        Err(e) => Err(e),
    }
}

/// Reads the body of a `(play ...)` form after its keyword: no time plays
/// the whole item, one time is a start offset, two times add a duration.
pub fn play_handler(tokens: &mut TokenStream) -> (r: Result<Instruction, ParseError>)
    requires
        old(tokens)@.fwd <= old(tokens)@.text.len(),
    ensures
        stream_adv(old(tokens)@, final (tokens)@),
        (r is Ok && lex(final (tokens)@) is Some) ==> lex(old(tokens)@) is Some,
        r matches Ok(i) ==> i@ is Play,
        lex(old(tokens)@) matches Some(ts) ==> match tp_play_body(ts) {
            Some((i, rest)) => (r matches Ok(instr) && instr@ == i) && lex(final (tokens)@)
                == Some(rest) && rest.len() < ts.len(),
            None => r is Err,
        },
{
    let ghost s = tokens@.text;
    proof {
        lemma_toks_from_step(s, tokens@.fwd as int);
    }
    match strip(tokens.next()) {
        Ok(Token::RParen) => Ok(Instruction::Play(0, 0)),
        Ok(Token::Time(start)) => {
            proof {
                lemma_toks_from_step(s, tokens@.fwd as int);
            }
            match strip(tokens.next()) {
                Ok(Token::RParen) => {
                    proof {
                        match lex(old(tokens)@) {
                            Some(ts) => {
                                assert(ts.skip(1).skip(1) =~= ts.skip(2));
                            },
                            None => {},
                        }
                    }
                    Ok(Instruction::Play(start, 0))
                },
                Ok(Token::Time(duration)) => {
                    proof {
                        lemma_toks_from_step(s, tokens@.fwd as int);
                    }
                    match strip(tokens.next()) {
                        Ok(Token::RParen) => {
                            proof {
                                match lex(old(tokens)@) {
                                    Some(ts) => {
                                        assert(ts.skip(1).skip(1) =~= ts.skip(2));
                                        assert(ts.skip(2).skip(1) =~= ts.skip(3));
                                    },
                                    None => {},
                                }
                            }
                            Ok(Instruction::Play(start, duration))
                        },
                        Ok(_) => Err(
                            ParseError::expected(
                                "Expected rparen. Only start time and duration permitted.",
                            ),
                        ),
                        Err(e) => Err(e),
                    }
                },
                Ok(_) => Err(ParseError::expected("Expected time or rparen")),
                Err(e) => Err(e),
            }
        },
        Ok(_) => Err(ParseError::expected("Expected time or rparen")),
        Err(e) => Err(e),
    }
}

/// Reads an optional `(tags ...)` block. The block's presence is decided by
/// peeking one token on a copy of the stream; when it is absent the opening
/// paren is handed back by rewinding one token.
pub fn get_tags(tokens: &mut TokenStream) -> (r: Result<Tags, ParseError>)
    requires
        old(tokens)@.fwd <= old(tokens)@.text.len(),
    ensures
        stream_adv(old(tokens)@, final (tokens)@),
        (r is Ok && lex(final (tokens)@) is Some) ==> lex(old(tokens)@) is Some,
        r matches Ok(t) ==> crate::tags::tags_wf(t@),
        lex(old(tokens)@) matches Some(ts) ==> match tp_tags(ts) {
            Some((tv, rest)) => (r matches Ok(t) && t@ == tv) && lex(final (tokens)@) == Some(
                rest,
            ) && rest.len() <= ts.len(),
            None => r is Err,
        },
{
    let ghost s = tokens@.text;
    let ghost p0 = tokens@.fwd as int;
    proof {
        lemma_toks_from_step(s, p0);
    }
    if let Err(e) = begin_expr(tokens) {
        return Err(e);
    }
    let ghost p1 = tokens@.fwd as int;
    let mut tokens2 = tokens.clone();
    proof {
        lemma_toks_from_step(s, p1);
    }
    let peeked = tokens2.next();
    let is_tag_block: bool = match peeked {
        Some(res) => match res {
            Ok(tok) => match tok {
                Token::Tag => true,
                _ => false,
            },
            _ => false,
        },
        None => false,
    };
    if is_tag_block {
        if let Err(e) = strip(tokens.next()) {
            return Err(e);
        }
        let ghost p2 = tokens@.fwd as int;
        proof {
            if toks_from(s, p0) is Some {
                let ts0 = toks_from(s, p0)->Some_0;
                assert(ts0.skip(1).skip(1) =~= ts0.skip(2));
            }
        }
        let mut tags = Tags::new();
        loop
            invariant
                stream_adv(old(tokens)@, tokens@),
                tokens@.text == s,
                p0 == old(tokens)@.fwd as int,
                crate::tags::tags_wf(tags@),
                toks_from(s, tokens@.fwd as int) is Some ==> toks_from(s, p0) is Some,
                toks_from(s, p0) matches Some(ts0) ==> (toks_from(s, tokens@.fwd as int)
                    matches Some(tsc) && tp_tags(ts0) == tp_tag_items(tsc, tags@)
                    && tsc.len() + 2 <= ts0.len()),
            decreases tokens@.text.len() - tokens@.fwd,
        {
            let ghost pc = tokens@.fwd as int;
            proof {
                lemma_toks_from_step(s, pc);
            }
            let tag_type = match strip(tokens.next()) {
                Ok(Token::TagKind(x)) => x,
                Ok(Token::RParen) => {
                    return Ok(tags);
                },
                Ok(_) => {
                    return Err(ParseError::expected("Expected tag type or rparen"));
                },
                Err(e) => {
                    return Err(e);
                },
            };
            match tag_type {
                TagType::Cast | TagType::AudioTracks | TagType::Subtitles => {
                    proof {
                        lemma_toks_from_step(s, tokens@.fwd as int);
                    }
                    if let Err(e) = begin_expr(tokens) {
                        return Err(e);
                    }
                    proof {
                        lemma_toks_from_step(s, tokens@.fwd as int);
                        if toks_from(s, p0) is Some {
                            let tsc = toks_from(s, pc)->Some_0;
                            if tsc.len() >= 3 {
                                assert(tsc.skip(1).skip(1).skip(1) =~= tsc.skip(3));
                            }
                        }
                    }
                    let list = match strip(tokens.next()) {
                        Ok(Token::List) => {
                            match create_list(tokens) {
                                Ok(l) => l,
                                Err(e) => {
                                    return Err(e);
                                },
                            }
                        },
                        Ok(_) => {
                            return Err(ParseError::expected("Expected a list for tag data"));
                        },
                        Err(e) => {
                            return Err(e);
                        },
                    };
                    proof {
                        crate::tags::lemma_modify_multi_wf(
                            tags@,
                            tag_type,
                            crate::tags::strs_seq(list),
                        );
                        if toks_from(s, p0) is Some {
                        let ts0 = toks_from(s, p0)->Some_0;
                            let tsc = toks_from(s, pc)->Some_0;
                            assert(tsc.skip(1).skip(1).skip(1) =~= tsc.skip(3));
                        }
                    }
                    if let Err(e) = tags.modify_multi(&list, &tag_type) {
                        return Err(e);
                    }
                },
                single => {
                    proof {
                        lemma_toks_from_step(s, tokens@.fwd as int);
                    }
                    let tagdata = match strip(tokens.next()) {
                        Ok(Token::Data(x)) => x,
                        Ok(_) => {
                            return Err(ParseError::expected("Expected tag data"));
                        },
                        Err(e) => {
                            return Err(e);
                        },
                    };
                    proof {
                        crate::tags::lemma_modify_tag_wf(tags@, single, tagdata@);
                        if toks_from(s, p0) is Some {
                        let ts0 = toks_from(s, p0)->Some_0;
                            let tsc = toks_from(s, pc)->Some_0;
                            assert(tsc.skip(1).skip(1) =~= tsc.skip(2));
                        }
                    }
                    if let Err(e) = tags.modify_tag(&single, tagdata.as_str()) {
                        return Err(e);
                    }
                },
            }
        }
    } else {
        // No tag block: hand the opening paren back to the stream.
        proof {
            lemma_toks_from_step(s, p0);
        }
        let back = tokens.previous();
        match back {
            Some(res) => match res {
                Ok(tok) => match tok {
                    Token::LParen => {
                        proof {
                            let k = tokens@.fwd as int;
                            assert(!crate::parse::is_ws('('));
                            assert(crate::tokenize::spec_skip_ws(s, k) == k);
                            assert(spec_next(s, k) == StepV::Tok(TokenV::LParen, k + 1));
                            lemma_toks_from_step(s, k);
                            if toks_from(s, p0) is Some {
                                let ts0 = toks_from(s, p0)->Some_0;
                                assert(toks_from(s, k) == Some(ts0));
                            }
                        }
                        Ok(Tags::new())
                    },
                    _ => {
                        proof {
                            assert(false);
                        }
                        Ok(Tags::new())
                    },
                },
                Err(_) => {
                    proof {
                        assert(false);
                    }
                    Ok(Tags::new())
                },
            },
            None => {
                proof {
                    assert(false);
                }
                Ok(Tags::new())
            },
        }
    }
}

/// Reads an `(instr ...)` block: a sequence of play directives and whole
/// embedded programs.
pub fn add_instrs(tokens: &mut TokenStream) -> (r: Result<Vec<Instruction>, ParseError>)
    requires
        old(tokens)@.fwd <= old(tokens)@.text.len(),
    ensures
        stream_adv(old(tokens)@, final (tokens)@),
        (r is Ok && lex(final (tokens)@) is Some) ==> lex(old(tokens)@) is Some,
        r matches Ok(v) ==> forall|j: int|
            0 <= j < v@.len() ==> instr_wf(#[trigger] instrs_view(v@)[j]),
        lex(old(tokens)@) matches Some(ts) ==> match tp_instr_block(ts) {
            Some((ins, rest)) => (r matches Ok(v) && instrs_view(v@) == ins) && lex(
                final (tokens)@,
            ) == Some(rest) && rest.len() < ts.len(),
            None => r is Err,
        },
    decreases old(tokens)@.text.len() - old(tokens)@.fwd, 1int,
{
    let ghost s = tokens@.text;
    let ghost p0 = tokens@.fwd as int;
    proof {
        lemma_toks_from_step(s, p0);
    }
    if let Err(e) = begin_expr(tokens) {
        return Err(e);
    }
    proof {
        lemma_toks_from_step(s, tokens@.fwd as int);
    }
    match strip(tokens.next()) {
        Ok(Token::Instr) => {},
        Ok(_) => {
            return Err(ParseError::expected("Expected beginning of instructions"));
        },
        Err(e) => {
            return Err(e);
        },
    }
    let mut instructions: Vec<Instruction> = Vec::new();
    proof {
        lemma_toks_from_step(s, tokens@.fwd as int);
    }
    if let Err(e) = begin_expr(tokens) {
        return Err(e);
    }
    let ghost p3 = tokens@.fwd as int;
    proof {
        if toks_from(s, p0) is Some {
                        let ts0 = toks_from(s, p0)->Some_0;
            assert(ts0.skip(1).skip(1) =~= ts0.skip(2));
        }
    }
    loop
        invariant
            stream_adv(old(tokens)@, tokens@),
            tokens@.text == s,
            p0 == old(tokens)@.fwd as int,
            forall|j: int|
                0 <= j < instructions@.len() ==> instr_wf(
                    #[trigger] instrs_view(instructions@)[j],
                ),
            toks_from(s, tokens@.fwd as int) is Some ==> toks_from(s, p0) is Some,
            toks_from(s, p0) matches Some(ts0) ==> (toks_from(s, tokens@.fwd as int)
                matches Some(tsc) && tp_instr_block(ts0) == cons_items(
                instrs_view(instructions@),
                tp_body(tsc),
            ) && tsc.len() + 2 <= ts0.len()),
        decreases tokens@.text.len() - tokens@.fwd,
    {
        let ghost pc = tokens@.fwd as int;
        proof {
            lemma_toks_from_step(s, pc);
        }
        match strip(tokens.next()) {
            Ok(Token::LParen) => {
                proof {
                    if toks_from(s, p0) is Some {
                        let ts0 = toks_from(s, p0)->Some_0;
                        let tsc = toks_from(s, pc)->Some_0;
                        assert(tp_body(tsc) == tp_body(tsc.skip(1)));
                    }
                }
            },
            Ok(Token::Play) => {
                let ghost pre = instrs_view(instructions@);
                let i = match play_handler(tokens) {
                    Ok(i) => i,
                    Err(e) => {
                        return Err(e);
                    },
                };
                proof {
                    crate::program::lemma_instrs_view_push(instructions@, i);
                }
                instructions.push(i);
                proof {
                    if toks_from(s, p0) is Some {
                        let ts0 = toks_from(s, p0)->Some_0;
                        let tsc = toks_from(s, pc)->Some_0;
                        lemma_cons_items_snoc(pre, i@, tp_body(toks_from(
                            s,
                            tokens@.fwd as int,
                        )->Some_0));
                        assert(tp_body(tsc) == cons_items(seq![i@], tp_body(toks_from(
                            s,
                            tokens@.fwd as int,
                        )->Some_0)));
                    }
                }
            },
            Ok(Token::Prog) => {
                let ghost pre = instrs_view(instructions@);
                let p = match add_program(tokens) {
                    Ok(p) => p,
                    Err(e) => {
                        return Err(e);
                    },
                };
                let i = Instruction::SubProgram(Box::new(p));
                proof {
                    crate::program::lemma_instrs_view_push(instructions@, i);
                }
                instructions.push(i);
                proof {
                    if toks_from(s, p0) is Some {
                        let ts0 = toks_from(s, p0)->Some_0;
                        let tsc = toks_from(s, pc)->Some_0;
                        lemma_cons_items_snoc(pre, i@, tp_body(toks_from(
                            s,
                            tokens@.fwd as int,
                        )->Some_0));
                        assert(tp_body(tsc) == cons_items(seq![i@], tp_body(toks_from(
                            s,
                            tokens@.fwd as int,
                        )->Some_0)));
                    }
                }
            },
            Ok(Token::RParen) => {
                proof {
                    if toks_from(s, p0) is Some {
                        let ts0 = toks_from(s, p0)->Some_0;
                        let tsc = toks_from(s, pc)->Some_0;
                        assert(instrs_view(instructions@) + Seq::<
                            crate::program::InstructionV,
                        >::empty() =~= instrs_view(instructions@));
                    }
                }
                return Ok(instructions);
            },
            Ok(_) => {
                return Err(ParseError::expected("Expected beginning of instructions"));
            },
            Err(e) => {
                return Err(e);
            },
        }
    }
}

/// Items already read compose: prepending a batch then one more item is
/// prepending the grown batch.
proof fn lemma_cons_items_snoc(
    pre: Seq<crate::program::InstructionV>,
    i: crate::program::InstructionV,
    o: Option<(Seq<crate::program::InstructionV>, Seq<TokenV>)>,
)
    ensures
        cons_items(pre, cons_items(seq![i], o)) == cons_items(pre.push(i), o),
{
    match o {
        Some((l, r)) => {
            assert(pre + (seq![i] + l) =~= pre.push(i) + l);
        },
        None => {},
    }
}

/// Programs already read compose the same way.
proof fn lemma_cons_progs_snoc(
    pre: Seq<crate::program::ProgramV>,
    p: crate::program::ProgramV,
    o: Option<(Seq<crate::program::ProgramV>, Seq<TokenV>)>,
)
    ensures
        cons_progs(pre, cons_progs(seq![p], o)) == cons_progs(pre.push(p), o),
{
    match o {
        Some((l, r)) => {
            assert(pre + (seq![p] + l) =~= pre.push(p) + l);
        },
        None => {},
    }
}

/// Reads a whole `(program ...)` form: location, optional tags, and the
/// instruction block; the result is a well-formed program.
pub fn add_program(tokens: &mut TokenStream) -> (r: Result<Program, ParseError>)
    requires
        old(tokens)@.fwd <= old(tokens)@.text.len(),
    ensures
        stream_adv(old(tokens)@, final (tokens)@),
        (r is Ok && lex(final (tokens)@) is Some) ==> lex(old(tokens)@) is Some,
        r matches Ok(p) ==> prog_wf(p@),
        lex(old(tokens)@) matches Some(ts) ==> match tp_program(ts) {
            Some((pv, rest)) => (r matches Ok(p) && p@ == pv) && lex(final (tokens)@) == Some(
                rest,
            ) && rest.len() < ts.len(),
            None => r is Err,
        },
    decreases old(tokens)@.text.len() - old(tokens)@.fwd, 0int,
{
    let ghost s = tokens@.text;
    let ghost p0 = tokens@.fwd as int;
    let source = match get_location(tokens) {
        Ok(src) => src,
        Err(e) => {
            return Err(e);
        },
    };
    let tags = match get_tags(tokens) {
        Ok(t) => t,
        Err(e) => {
            proof {
                if toks_from(s, p0) is Some {
                    assert(tp_program(toks_from(s, p0)->Some_0) is None);
                }
            }
            return Err(e);
        },
    };
    let instructions = match add_instrs(tokens) {
        Ok(v) => v,
        Err(e) => {
            proof {
                if toks_from(s, p0) is Some {
                    let ts = toks_from(s, p0)->Some_0;
                    match tp_loc(ts) {
                        Some((l, r1)) => {
                            match tp_tags(r1) {
                                Some((tv, r2)) => {
                                    if r2.len() >= 3 && r2[0] is LParen && r2[1] is Instr
                                        && r2[2] is LParen {
                                        assert(r2.skip(2).skip(1) =~= r2.skip(3));
                                        assert(tp_body(r2.skip(2)) == tp_body(r2.skip(3)));
                                    }
                                    assert(tp_program(ts) is None);
                                },
                                None => {},
                            }
                        },
                        None => {},
                    }
                }
            }
            return Err(e);
        },
    };
    let ghost p3 = tokens@.fwd as int;
    proof {
        lemma_toks_from_step(s, p3);
        if toks_from(s, p0) is Some {
            let ts = toks_from(s, p0)->Some_0;
            match tp_loc(ts) {
                Some((l, r1)) => {
                    match tp_tags(r1) {
                        Some((tv, r2)) => {
                            match crate::grammar::tp_instr_block(r2) {
                                Some((ins, r3)) => {
                                    assert(r2[2] is LParen);
                                    assert(r2.skip(2).skip(1) =~= r2.skip(3));
                                    assert(tp_body(r2.skip(2)) == tp_body(r2.skip(3)));
                                },
                                None => {},
                            }
                        },
                        None => {},
                    }
                },
                None => {},
            }
        }
    }
    match strip(tokens.next()) {
        Ok(Token::RParen) => {},
        Ok(_) => {
            return Err(ParseError::expected("Expected closing paren"));
        },
        Err(e) => {
            return Err(e);
        },
    }
    let prog = Program::new(source, tags, instructions);
    proof {
        assert(prog_wf(prog@));
    }
    Ok(prog)
}

/// Reads a whole `(schedule "name" ...)` form and demands that nothing
/// follows it. On a text that lexes, it succeeds exactly when the
/// grammar's whole-schedule reading succeeds, and returns the schedule the
/// reading gives, well-formed; on a text that does not lex it fails.
pub fn translate(tokens: &mut TokenStream) -> (r: SchedResult)
    requires
        old(tokens)@.fwd <= old(tokens)@.text.len(),
    ensures
        stream_adv(old(tokens)@, final (tokens)@),
        r matches Ok(sched) ==> sched_wf(sched@),
        match lex(old(tokens)@) {
            Some(ts) => match tp_sched(ts) {
                Some(v) => r matches Ok(sched) && sched@ == v,
                None => r is Err,
            },
            None => r is Err,
        },
        top_end(old(tokens)@.text, old(tokens)@.fwd as int) ==> r == Err::<
            Schedule,
            ParseError,
        >(ParseError::UnbalancedParens),
        top_not_sched(old(tokens)@.text, old(tokens)@.fwd as int) ==> r == Err::<
            Schedule,
            ParseError,
        >(ParseError::BadAction),
{
    let ghost s = tokens@.text;
    let ghost p0 = tokens@.fwd as int;
    proof {
        lemma_toks_from_step(s, p0);
    }
    if let Err(e) = begin_expr(tokens) {
        return Err(e);
    }
    proof {
        lemma_toks_from_step(s, tokens@.fwd as int);
    }
    match strip(tokens.next()) {
        Ok(Token::Sched) => {},
        Ok(_) => {
            return Err(ParseError::BadAction);
        },
        Err(e) => {
            return Err(e);
        },
    }
    proof {
        lemma_toks_from_step(s, tokens@.fwd as int);
    }
    let name = match strip(tokens.next()) {
        Ok(Token::Data(x)) => x,
        Ok(_) => {
            return Err(ParseError::expected("Expected name"));
        },
        Err(e) => {
            return Err(e);
        },
    };
    let mut progs: Vec<Program> = Vec::new();
    let ghost p3 = tokens@.fwd as int;
    proof {
        if toks_from(s, p0) is Some {
            let ts0 = toks_from(s, p0)->Some_0;
            assert(ts0.skip(1).skip(1) =~= ts0.skip(2));
            assert(ts0.skip(2).skip(1) =~= ts0.skip(3));
        }
    }
    loop
        invariant
            stream_adv(old(tokens)@, tokens@),
            tokens@.text == s,
            p0 == old(tokens)@.fwd as int,
            forall|j: int|
                0 <= j < progs@.len() ==> prog_wf(
                    #[trigger] crate::schedule::progs_view(progs@)[j],
                ),
            toks_from(s, p0) is Some ==> name@ == lexed_name(s, p0),
            lexed_shape(s, p0),
            !top_end(s, p0),
            !top_not_sched(s, p0),
            toks_from(s, tokens@.fwd as int) is Some ==> toks_from(s, p0) is Some,
            toks_from(s, p0) matches Some(ts0) ==> (toks_from(s, tokens@.fwd as int)
                matches Some(tsc) && tp_sched_body(ts0.skip(3)) == cons_progs(
                crate::schedule::progs_view(progs@),
                tp_sched_body(tsc),
            ) && tsc.len() + 3 <= ts0.len()),
        decreases tokens@.text.len() - tokens@.fwd,
    {
        let ghost pc = tokens@.fwd as int;
        proof {
            lemma_toks_from_step(s, pc);
        }
        match tokens.next() {
            Some(res) => match res {
                Ok(Token::LParen) => {
                    proof {
                        if toks_from(s, p0) is Some {
                        let ts0 = toks_from(s, p0)->Some_0;
                            let tsc = toks_from(s, pc)->Some_0;
                            assert(tp_sched_body(tsc) == tp_sched_body(tsc.skip(1)));
                        }
                    }
                },
                Ok(Token::Prog) => {
                    let ghost pre = crate::schedule::progs_view(progs@);
                    let p = match add_program(tokens) {
                        Ok(p) => p,
                        Err(e) => {
                            return Err(e);
                        },
                    };
                    proof {
                        crate::schedule::lemma_progs_view_push(progs@, p);
                    }
                    progs.push(p);
                    proof {
                        if toks_from(s, p0) is Some {
                        let ts0 = toks_from(s, p0)->Some_0;
                            let tsc = toks_from(s, pc)->Some_0;
                            lemma_cons_progs_snoc(pre, p@, tp_sched_body(toks_from(
                                s,
                                tokens@.fwd as int,
                            )->Some_0));
                            assert(tp_sched_body(tsc) == cons_progs(seq![p@], tp_sched_body(
                                toks_from(s, tokens@.fwd as int)->Some_0,
                            )));
                        }
                    }
                },
                Ok(Token::RParen) => {
                    let ghost pr = tokens@.fwd as int;
                    proof {
                        lemma_toks_from_step(s, pr);
                    }
                    match tokens.next() {
                        None => {
                            let sched = Schedule::new(name.as_str(), progs);
                            proof {
                                assert(sched_wf(sched@));
                                assert(toks_from(s, pr) == Some(Seq::<TokenV>::empty()));
                                if toks_from(s, p0) is Some {
                        let ts0 = toks_from(s, p0)->Some_0;
                                    let tsc = toks_from(s, pc)->Some_0;
                                    assert(tp_sched_body(tsc) == Some((Seq::<
                                        crate::program::ProgramV,
                                    >::empty(), Seq::<TokenV>::empty())));
                                    assert(crate::schedule::progs_view(progs@) + Seq::<
                                        crate::program::ProgramV,
                                    >::empty() =~= crate::schedule::progs_view(progs@));
                                    assert(tp_sched(ts0) =~~= Some(sched@));
                                }
                            }
                            return Ok(sched);
                        },
                        Some(res2) => match res2 {
                            Ok(_) => {
                                return Err(
                                    ParseError::expected("Expected end of tokenstream"),
                                );
                            },
                            Err(f) => {
                                return Err(f);
                            },
                        },
                    }
                },
                Ok(_) => {
                    return Err(ParseError::expected("Expected (, ), or Program"));
                },
                Err(f) => {
                    return Err(f);
                },
            },
            None => {
                return Err(ParseError::UnbalancedParens);
            },
        }
    }
}

/// The text opens at its end: nothing but whitespace remains.
pub open spec fn top_end(s: Seq<char>, i: int) -> bool {
    spec_next(s, i) is End
}

/// The text opens with a paren and then some token other than the
/// schedule keyword.
pub open spec fn top_not_sched(s: Seq<char>, i: int) -> bool {
    match spec_next(s, i) {
        StepV::Tok(t1, j) => t1 is LParen && (match spec_next(s, j) {
            StepV::Tok(t2, _j2) => !(t2 is Sched),
            _ => false,
        }),
        _ => false,
    }
}

/// The name carried by the third token of a lexable schedule text.
pub open spec fn lexed_name(s: Seq<char>, i: int) -> Seq<char> {
    match toks_from(s, i) {
        Some(ts) => if ts.len() >= 3 {
            ts[2]->Data_0
        } else {
            Seq::empty()
        },
        None => Seq::empty(),
    }
}

/// The first three tokens of the text are a schedule's opening.
pub open spec fn lexed_shape(s: Seq<char>, i: int) -> bool {
    toks_from(s, i) matches Some(ts) ==> ts.len() >= 3 && ts[0] is LParen && ts[1] is Sched
        && ts[2] is Data
}

} // verus!
