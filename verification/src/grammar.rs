//! The grammar at the token level: the canonical token sequence of each
//! construct, a reading of the grammar over token sequences, and the law
//! that rendering and reading are inverse.

use vstd::prelude::*;
use crate::parse::TokenV;
use crate::program::{InstructionV, ProgramV, SourceV};
use crate::schedule::ScheduleV;
use crate::tags::{empty_tags, TagType, TagsV};

verus! {

// ---------------------------------------------------------------------------
// The canonical token sequence of each construct.
// ---------------------------------------------------------------------------

pub open spec fn loc_tokens(l: SourceV) -> Seq<TokenV> {
    match l {
        SourceV::Pathname(p) => seq![
            TokenV::LParen,
            TokenV::Local,
            TokenV::Data(p),
            TokenV::RParen,
        ],
        SourceV::URL(u) => seq![
            TokenV::LParen,
            TokenV::Network,
            TokenV::Data(u),
            TokenV::RParen,
        ],
    }
}

pub open spec fn play_body_tokens(a: usize, b: usize) -> Seq<TokenV> {
    seq![TokenV::Time(a), TokenV::Time(b), TokenV::RParen]
}

/// One instruction opens with a paren; a play carries its two times, an
/// embedded program carries its whole body.
pub open spec fn instr_tokens(i: InstructionV) -> Seq<TokenV>
    decreases i,
{
    match i {
        InstructionV::Play(a, b) => seq![TokenV::LParen, TokenV::Play] + play_body_tokens(a, b),
        InstructionV::SubProgram(p) => seq![TokenV::LParen, TokenV::Prog] + prog_body_tokens(p),
    }
}

pub open spec fn instr_items_tokens(l: Seq<InstructionV>) -> Seq<TokenV>
    decreases l,
{
    if l.len() == 0 {
        Seq::empty()
    } else {
        instr_items_tokens(l.drop_last()) + instr_tokens(l.last())
    }
}

/// A program's body, after its opening paren and keyword: location, tags,
/// the instruction block, and the closing paren.
pub open spec fn prog_body_tokens(p: ProgramV) -> Seq<TokenV>
    decreases p,
{
    loc_tokens(p.location) + tags_tokens(p.tags) + seq![TokenV::LParen, TokenV::Instr]
        + instr_items_tokens(p.instructions) + seq![TokenV::RParen] + seq![TokenV::RParen]
}

pub open spec fn prog_items_tokens(l: Seq<ProgramV>) -> Seq<TokenV>
    decreases l,
{
    if l.len() == 0 {
        Seq::empty()
    } else {
        prog_items_tokens(l.drop_last()) + seq![TokenV::LParen, TokenV::Prog] + prog_body_tokens(
            l.last(),
        )
    }
}

/// A whole schedule as tokens.
pub open spec fn sched_tokens(v: ScheduleV) -> Seq<TokenV> {
    seq![TokenV::LParen, TokenV::Sched, TokenV::Data(v.name)] + prog_items_tokens(v.programs)
        + seq![TokenV::RParen]
}

// ---------------------------------------------------------------------------
// Reading the grammar over token sequences.
// ---------------------------------------------------------------------------

/// A location form read from the front of a token sequence.
pub open spec fn tp_loc(ts: Seq<TokenV>) -> Option<(SourceV, Seq<TokenV>)> {
    if ts.len() >= 4 && ts[0] is LParen && ts[1] is Local && ts[2] is Data && ts[3] is RParen {
        Some((SourceV::Pathname(ts[2]->Data_0), ts.skip(4)))
    } else if ts.len() >= 4 && ts[0] is LParen && ts[1] is Network && ts[2] is Data && ts[3]
        is RParen {
        Some((SourceV::URL(ts[2]->Data_0), ts.skip(4)))
    } else {
        None
    }
}

/// The three tags that carry a list value.
pub open spec fn is_list_tag(t: TagType) -> bool {
    match t {
        TagType::Cast => true,
        TagType::AudioTracks => true,
        TagType::Subtitles => true,
        _ => false,
    }
}

/// The assignments of a tag block, folded over a record from the front:
/// each tag name takes its value through its coercion, a list tag through
/// an embedded list form, until the block's closing paren.
pub open spec fn tp_tag_items(ts: Seq<TokenV>, acc: TagsV) -> Option<(TagsV, Seq<TokenV>)>
    decreases ts.len(),
{
    if ts.len() == 0 {
        None
    } else if ts[0] is RParen {
        Some((acc, ts.skip(1)))
    } else if ts[0] is TagKind {
        let t = ts[0]->TagKind_0;
        if is_list_tag(t) {
            if ts.len() >= 3 && ts[1] is LParen && ts[2] is List {
                match tp_list(ts.skip(3)) {
                    Some((members, r)) => if r.len() < ts.len() {
                        match crate::tags::spec_modify_multi(acc, t, members) {
                            Some(a2) => tp_tag_items(r, a2),
                            None => None,
                        }
                    } else {
                        None
                    },
                    None => None,
                }
            } else {
                None
            }
        } else {
            if ts.len() >= 2 && ts[1] is Data {
                match crate::tags::spec_modify_tag(acc, t, ts[1]->Data_0) {
                    Some(a2) => tp_tag_items(ts.skip(2), a2),
                    None => None,
                }
            } else {
                None
            }
        }
    } else {
        None
    }
}

/// An optional tag block: a block is read and folded, any other
/// paren-opened prefix leaves the sequence untouched and yields the empty
/// record.
pub open spec fn tp_tags(ts: Seq<TokenV>) -> Option<(TagsV, Seq<TokenV>)> {
    if ts.len() >= 2 && ts[0] is LParen && ts[1] is Tag {
        tp_tag_items(ts.skip(2), empty_tags())
    } else if ts.len() >= 1 && ts[0] is LParen {
        Some((empty_tags(), ts))
    } else {
        None
    }
}


/// One plain tag as tokens: its kind and its rendered value.
pub open spec fn plain_item_tokens(t: TagType, o: Option<Seq<char>>) -> Seq<TokenV> {
    match o {
        Some(v) => seq![TokenV::TagKind(t), TokenV::Data(v)],
        None => Seq::empty(),
    }
}

pub open spec fn data_tokens(l: Seq<Seq<char>>) -> Seq<TokenV> {
    Seq::new(l.len(), |i: int| TokenV::Data(l[i]))
}

/// One list tag as tokens: its kind and an embedded list form.
pub open spec fn list_item_tokens(t: TagType, o: Option<Seq<Seq<char>>>) -> Seq<TokenV> {
    match o {
        Some(l) => seq![TokenV::TagKind(t), TokenV::LParen, TokenV::List] + data_tokens(l)
            + seq![TokenV::RParen],
        None => Seq::empty(),
    }
}

pub open spec fn opt_render_num(o: Option<int>) -> Option<Seq<char>> {
    match o {
        Some(v) => Some(crate::chars::dec_digits(v)),
        None => None,
    }
}

pub open spec fn opt_render_media(o: Option<crate::tags::MediaType>) -> Option<Seq<char>> {
    match o {
        Some(m) => Some(crate::tags::spec_media_name(m)),
        None => None,
    }
}

pub open spec fn opt_render_date(o: Option<crate::tags::Date>) -> Option<Seq<char>> {
    match o {
        Some(d) => Some(
            crate::serialize::pad4(d.year as int) + seq!['-'] + crate::serialize::pad2(
                d.month as int,
            ) + seq!['-'] + crate::serialize::pad2(d.day as int),
        ),
        None => None,
    }
}

pub open spec fn opt_render_runtime(o: Option<usize>) -> Option<Seq<char>> {
    match o {
        Some(v) => Some(crate::chars::dec_digits(v as int) + seq!['s']),
        None => None,
    }
}

pub open spec fn opt_int_u8(o: Option<u8>) -> Option<int> {
    match o {
        Some(v) => Some(v as int),
        None => None,
    }
}

pub open spec fn opt_int_u16(o: Option<u16>) -> Option<int> {
    match o {
        Some(v) => Some(v as int),
        None => None,
    }
}


/// The first half of the tag assignments as tokens.
pub open spec fn tags_items_a_tokens(t: TagsV) -> Seq<TokenV> {
    plain_item_tokens(TagType::Title, t.title) + plain_item_tokens(TagType::MediaType, opt_render_media(t.media_type)) + plain_item_tokens(TagType::Genre, t.genre) + plain_item_tokens(TagType::Series, t.series) + plain_item_tokens(TagType::Season, opt_render_num(opt_int_u8(t.season))) + plain_item_tokens(TagType::Episode, opt_render_num(opt_int_u16(t.episode))) + plain_item_tokens(TagType::Album, t.album) + plain_item_tokens(TagType::TrackNo, opt_render_num(opt_int_u16(t.track_no))) + plain_item_tokens(TagType::Studio, t.studio) + plain_item_tokens(TagType::Director, t.director) + plain_item_tokens(TagType::Artist, t.artist) + plain_item_tokens(TagType::Composer, t.composer) + list_item_tokens(TagType::Cast, t.cast) + plain_item_tokens(TagType::Photographer, t.photographer)
}

/// The second half of the tag assignments as tokens.
pub open spec fn tags_items_b_tokens(t: TagsV) -> Seq<TokenV> {
    plain_item_tokens(TagType::Year, opt_render_num(opt_int_u16(t.year))) + plain_item_tokens(TagType::Airdate, opt_render_date(t.airdate)) + plain_item_tokens(TagType::Comment, t.comment) + plain_item_tokens(TagType::Summary, t.summary) + plain_item_tokens(TagType::Country, t.country) + plain_item_tokens(TagType::Rating, t.rating) + plain_item_tokens(TagType::License, t.license) + plain_item_tokens(TagType::Copyright, t.copyright) + plain_item_tokens(TagType::URL, t.url) + plain_item_tokens(TagType::Picture, t.picture) + plain_item_tokens(TagType::Runtime, opt_render_runtime(t.runtime)) + plain_item_tokens(TagType::AspectRatio, t.aspect_ratio) + list_item_tokens(TagType::AudioTracks, t.audio_tracks) + list_item_tokens(TagType::Subtitles, t.subtitles)
}

/// The whole tag block's assignments as tokens, in canonical order.
pub open spec fn tags_items_tokens(t: TagsV) -> Seq<TokenV> {
    tags_items_a_tokens(t) + tags_items_b_tokens(t)
}

/// A whole tag block as tokens.
pub open spec fn tags_tokens(t: TagsV) -> Seq<TokenV> {
    seq![TokenV::LParen, TokenV::Tag] + tags_items_tokens(t) + seq![TokenV::RParen]
}

/// One plain assignment folds into the record and the reading moves on.
proof fn lemma_step_plain(t: TagType, o: Option<Seq<char>>, rest: Seq<TokenV>, acc: TagsV)
    requires
        !is_list_tag(t),
        o matches Some(v) ==> crate::tags::spec_modify_tag(acc, t, v) is Some,
    ensures
        tp_tag_items(plain_item_tokens(t, o) + rest, acc) == tp_tag_items(
            rest,
            match o {
                Some(v) => crate::tags::spec_modify_tag(acc, t, v)->Some_0,
                None => acc,
            },
        ),
{
    match o {
        None => {
            assert(plain_item_tokens(t, o) + rest =~= rest);
        },
        Some(v) => {
            let ts = plain_item_tokens(t, o) + rest;
            assert(ts[0] == TokenV::TagKind(t));
            assert(ts[1] == TokenV::Data(v));
            assert(ts.skip(2) =~= rest);
        },
    }
}

/// Reading rendered list members gives back the members.
proof fn lemma_tp_list(l: Seq<Seq<char>>, rest: Seq<TokenV>)
    ensures
        tp_list(data_tokens(l) + (seq![TokenV::RParen] + rest)) == Some((l, rest)),
    decreases l.len(),
{
    let ts = data_tokens(l) + (seq![TokenV::RParen] + rest);
    if l.len() == 0 {
        assert(ts =~= seq![TokenV::RParen] + rest);
        assert(ts[0] is RParen);
        assert(ts.skip(1) =~= rest);
    } else {
        assert(ts[0] == TokenV::Data(l[0]));
        assert(ts.skip(1) =~= data_tokens(l.drop_first()) + (seq![TokenV::RParen] + rest)) by {
            assert(data_tokens(l).skip(1) =~= data_tokens(l.drop_first()));
        }
        lemma_tp_list(l.drop_first(), rest);
        assert(seq![l[0]] + l.drop_first() =~= l);
    }
}

/// One list assignment folds into the record and the reading moves on.
proof fn lemma_step_list(t: TagType, o: Option<Seq<Seq<char>>>, rest: Seq<TokenV>, acc: TagsV)
    requires
        is_list_tag(t),
        o matches Some(l) ==> crate::tags::spec_modify_multi(acc, t, l) is Some,
    ensures
        tp_tag_items(list_item_tokens(t, o) + rest, acc) == tp_tag_items(
            rest,
            match o {
                Some(l) => crate::tags::spec_modify_multi(acc, t, l)->Some_0,
                None => acc,
            },
        ),
{
    match o {
        None => {
            assert(list_item_tokens(t, o) + rest =~= rest);
        },
        Some(l) => {
            let ts = list_item_tokens(t, o) + rest;
            assert(ts[0] == TokenV::TagKind(t));
            assert(ts[1] is LParen);
            assert(ts[2] is List);
            assert(ts.skip(3) =~= data_tokens(l) + (seq![TokenV::RParen] + rest)) by {
                assert((seq![TokenV::TagKind(t), TokenV::LParen, TokenV::List] + data_tokens(l)
                    + seq![TokenV::RParen] + rest).skip(3) =~= data_tokens(l) + (seq![
                    TokenV::RParen,
                ] + rest));
            }
            lemma_tp_list(l, rest);
            assert(tp_list(ts.skip(3)) == Some((l, rest)));
            assert(rest.len() < ts.len());
        },
    }
}


/// The record the first half of the assignments builds from nothing.
pub open spec fn tags_front(t: TagsV) -> TagsV {
    TagsV {
        title: t.title,
        media_type: t.media_type,
        genre: t.genre,
        series: t.series,
        season: t.season,
        episode: t.episode,
        album: t.album,
        track_no: t.track_no,
        studio: t.studio,
        director: t.director,
        artist: t.artist,
        composer: t.composer,
        cast: t.cast,
        photographer: t.photographer,
        ..empty_tags()
    }
}

/// Reading the first half of a rendered tag block builds its half of the
/// record.
#[verifier::rlimit(100)]
#[verifier::spinoff_prover]
proof fn lemma_tp_tags_block_a(t: TagsV, rest: Seq<TokenV>)
    ensures
        tp_tag_items(tags_items_a_tokens(t) + rest, empty_tags()) == tp_tag_items(
            rest,
            tags_front(t),
        ),
{
    let i1 = plain_item_tokens(TagType::Title, t.title);
    let i2 = plain_item_tokens(TagType::MediaType, opt_render_media(t.media_type));
    let i3 = plain_item_tokens(TagType::Genre, t.genre);
    let i4 = plain_item_tokens(TagType::Series, t.series);
    let i5 = plain_item_tokens(TagType::Season, opt_render_num(opt_int_u8(t.season)));
    let i6 = plain_item_tokens(TagType::Episode, opt_render_num(opt_int_u16(t.episode)));
    let i7 = plain_item_tokens(TagType::Album, t.album);
    let i8 = plain_item_tokens(TagType::TrackNo, opt_render_num(opt_int_u16(t.track_no)));
    let i9 = plain_item_tokens(TagType::Studio, t.studio);
    let i10 = plain_item_tokens(TagType::Director, t.director);
    let i11 = plain_item_tokens(TagType::Artist, t.artist);
    let i12 = plain_item_tokens(TagType::Composer, t.composer);
    let i13 = list_item_tokens(TagType::Cast, t.cast);
    let i14 = plain_item_tokens(TagType::Photographer, t.photographer);
    let a0 = empty_tags();
    let a1 = TagsV { title: t.title, ..a0 };
    let a2 = TagsV { media_type: t.media_type, ..a1 };
    let a3 = TagsV { genre: t.genre, ..a2 };
    let a4 = TagsV { series: t.series, ..a3 };
    let a5 = TagsV { season: t.season, ..a4 };
    let a6 = TagsV { episode: t.episode, ..a5 };
    let a7 = TagsV { album: t.album, ..a6 };
    let a8 = TagsV { track_no: t.track_no, ..a7 };
    let a9 = TagsV { studio: t.studio, ..a8 };
    let a10 = TagsV { director: t.director, ..a9 };
    let a11 = TagsV { artist: t.artist, ..a10 };
    let a12 = TagsV { composer: t.composer, ..a11 };
    let a13 = TagsV { cast: t.cast, ..a12 };
    let a14 = TagsV { photographer: t.photographer, ..a13 };
    let r14: Seq<TokenV> = rest;
    let r13 = i14 + r14;
    let r12 = i13 + r13;
    let r11 = i12 + r12;
    let r10 = i11 + r11;
    let r9 = i10 + r10;
    let r8 = i9 + r9;
    let r7 = i8 + r8;
    let r6 = i7 + r7;
    let r5 = i6 + r6;
    let r4 = i5 + r5;
    let r3 = i4 + r4;
    let r2 = i3 + r3;
    let r1 = i2 + r2;
    let r0 = i1 + r1;
    // title
    let o1 = t.title;
    assert(o1 matches Some(v) ==> crate::tags::spec_modify_tag(a0, TagType::Title, v) == Some(a1));
    lemma_step_plain(TagType::Title, o1, r1, a0);
    assert(o1 is None ==> a1 == a0);
    assert(tp_tag_items(r0, a0) == tp_tag_items(r1, a1));
    // media_type
    let o2 = opt_render_media(t.media_type);
    match t.media_type {
        Some(m) => {
            crate::serialize::lemma_media_name_reads_back(m);
        },
        None => {},
    }
    assert(o2 matches Some(v) ==> crate::tags::spec_modify_tag(a1, TagType::MediaType, v) == Some(a2));
    lemma_step_plain(TagType::MediaType, o2, r2, a1);
    assert(o2 is None ==> a2 == a1);
    assert(tp_tag_items(r1, a1) == tp_tag_items(r2, a2));
    // genre
    let o3 = t.genre;
    assert(o3 matches Some(v) ==> crate::tags::spec_modify_tag(a2, TagType::Genre, v) == Some(a3));
    lemma_step_plain(TagType::Genre, o3, r3, a2);
    assert(o3 is None ==> a3 == a2);
    assert(tp_tag_items(r2, a2) == tp_tag_items(r3, a3));
    // series
    let o4 = t.series;
    assert(o4 matches Some(v) ==> crate::tags::spec_modify_tag(a3, TagType::Series, v) == Some(a4));
    lemma_step_plain(TagType::Series, o4, r4, a3);
    assert(o4 is None ==> a4 == a3);
    assert(tp_tag_items(r3, a3) == tp_tag_items(r4, a4));
    // season
    let o5 = opt_render_num(opt_int_u8(t.season));
    match t.season {
        Some(v) => {
            crate::chars::lemma_dec_digits_value(v as int);
        },
        None => {},
    }
    assert(o5 matches Some(v) ==> crate::tags::spec_modify_tag(a4, TagType::Season, v) == Some(a5));
    lemma_step_plain(TagType::Season, o5, r5, a4);
    assert(o5 is None ==> a5 == a4);
    assert(tp_tag_items(r4, a4) == tp_tag_items(r5, a5));
    // episode
    let o6 = opt_render_num(opt_int_u16(t.episode));
    match t.episode {
        Some(v) => {
            crate::chars::lemma_dec_digits_value(v as int);
        },
        None => {},
    }
    assert(o6 matches Some(v) ==> crate::tags::spec_modify_tag(a5, TagType::Episode, v) == Some(a6));
    lemma_step_plain(TagType::Episode, o6, r6, a5);
    assert(o6 is None ==> a6 == a5);
    assert(tp_tag_items(r5, a5) == tp_tag_items(r6, a6));
    // album
    let o7 = t.album;
    assert(o7 matches Some(v) ==> crate::tags::spec_modify_tag(a6, TagType::Album, v) == Some(a7));
    lemma_step_plain(TagType::Album, o7, r7, a6);
    assert(o7 is None ==> a7 == a6);
    assert(tp_tag_items(r6, a6) == tp_tag_items(r7, a7));
    // track_no
    let o8 = opt_render_num(opt_int_u16(t.track_no));
    match t.track_no {
        Some(v) => {
            crate::chars::lemma_dec_digits_value(v as int);
        },
        None => {},
    }
    assert(o8 matches Some(v) ==> crate::tags::spec_modify_tag(a7, TagType::TrackNo, v) == Some(a8));
    lemma_step_plain(TagType::TrackNo, o8, r8, a7);
    assert(o8 is None ==> a8 == a7);
    assert(tp_tag_items(r7, a7) == tp_tag_items(r8, a8));
    // studio
    let o9 = t.studio;
    assert(o9 matches Some(v) ==> crate::tags::spec_modify_tag(a8, TagType::Studio, v) == Some(a9));
    lemma_step_plain(TagType::Studio, o9, r9, a8);
    assert(o9 is None ==> a9 == a8);
    assert(tp_tag_items(r8, a8) == tp_tag_items(r9, a9));
    // director
    let o10 = t.director;
    assert(o10 matches Some(v) ==> crate::tags::spec_modify_tag(a9, TagType::Director, v) == Some(a10));
    lemma_step_plain(TagType::Director, o10, r10, a9);
    assert(o10 is None ==> a10 == a9);
    assert(tp_tag_items(r9, a9) == tp_tag_items(r10, a10));
    // artist
    let o11 = t.artist;
    assert(o11 matches Some(v) ==> crate::tags::spec_modify_tag(a10, TagType::Artist, v) == Some(a11));
    lemma_step_plain(TagType::Artist, o11, r11, a10);
    assert(o11 is None ==> a11 == a10);
    assert(tp_tag_items(r10, a10) == tp_tag_items(r11, a11));
    // composer
    let o12 = t.composer;
    assert(o12 matches Some(v) ==> crate::tags::spec_modify_tag(a11, TagType::Composer, v) == Some(a12));
    lemma_step_plain(TagType::Composer, o12, r12, a11);
    assert(o12 is None ==> a12 == a11);
    assert(tp_tag_items(r11, a11) == tp_tag_items(r12, a12));
    // cast
    let o13 = t.cast;
    assert(o13 matches Some(l) ==> crate::tags::spec_modify_multi(a12, TagType::Cast, l) == Some(a13));
    lemma_step_list(TagType::Cast, o13, r13, a12);
    assert(o13 is None ==> a13 == a12);
    assert(tp_tag_items(r12, a12) == tp_tag_items(r13, a13));
    // photographer
    let o14 = t.photographer;
    assert(o14 matches Some(v) ==> crate::tags::spec_modify_tag(a13, TagType::Photographer, v) == Some(a14));
    lemma_step_plain(TagType::Photographer, o14, r14, a13);
    assert(o14 is None ==> a14 == a13);
    assert(tp_tag_items(r13, a13) == tp_tag_items(r14, a14));
    vstd::seq_lib::lemma_concat_associative(i1, i2, r2);
    assert(i1 + r1 == i1 + i2 + r2);
    vstd::seq_lib::lemma_concat_associative(i1 + i2, i3, r3);
    assert(i1 + i2 + r2 == i1 + i2 + i3 + r3);
    vstd::seq_lib::lemma_concat_associative(i1 + i2 + i3, i4, r4);
    assert(i1 + i2 + i3 + r3 == i1 + i2 + i3 + i4 + r4);
    vstd::seq_lib::lemma_concat_associative(i1 + i2 + i3 + i4, i5, r5);
    assert(i1 + i2 + i3 + i4 + r4 == i1 + i2 + i3 + i4 + i5 + r5);
    vstd::seq_lib::lemma_concat_associative(i1 + i2 + i3 + i4 + i5, i6, r6);
    assert(i1 + i2 + i3 + i4 + i5 + r5 == i1 + i2 + i3 + i4 + i5 + i6 + r6);
    vstd::seq_lib::lemma_concat_associative(i1 + i2 + i3 + i4 + i5 + i6, i7, r7);
    assert(i1 + i2 + i3 + i4 + i5 + i6 + r6 == i1 + i2 + i3 + i4 + i5 + i6 + i7 + r7);
    vstd::seq_lib::lemma_concat_associative(i1 + i2 + i3 + i4 + i5 + i6 + i7, i8, r8);
    assert(i1 + i2 + i3 + i4 + i5 + i6 + i7 + r7 == i1 + i2 + i3 + i4 + i5 + i6 + i7 + i8 + r8);
    vstd::seq_lib::lemma_concat_associative(i1 + i2 + i3 + i4 + i5 + i6 + i7 + i8, i9, r9);
    assert(i1 + i2 + i3 + i4 + i5 + i6 + i7 + i8 + r8 == i1 + i2 + i3 + i4 + i5 + i6 + i7 + i8 + i9 + r9);
    vstd::seq_lib::lemma_concat_associative(i1 + i2 + i3 + i4 + i5 + i6 + i7 + i8 + i9, i10, r10);
    assert(i1 + i2 + i3 + i4 + i5 + i6 + i7 + i8 + i9 + r9 == i1 + i2 + i3 + i4 + i5 + i6 + i7 + i8 + i9 + i10 + r10);
    vstd::seq_lib::lemma_concat_associative(i1 + i2 + i3 + i4 + i5 + i6 + i7 + i8 + i9 + i10, i11, r11);
    assert(i1 + i2 + i3 + i4 + i5 + i6 + i7 + i8 + i9 + i10 + r10 == i1 + i2 + i3 + i4 + i5 + i6 + i7 + i8 + i9 + i10 + i11 + r11);
    vstd::seq_lib::lemma_concat_associative(i1 + i2 + i3 + i4 + i5 + i6 + i7 + i8 + i9 + i10 + i11, i12, r12);
    assert(i1 + i2 + i3 + i4 + i5 + i6 + i7 + i8 + i9 + i10 + i11 + r11 == i1 + i2 + i3 + i4 + i5 + i6 + i7 + i8 + i9 + i10 + i11 + i12 + r12);
    vstd::seq_lib::lemma_concat_associative(i1 + i2 + i3 + i4 + i5 + i6 + i7 + i8 + i9 + i10 + i11 + i12, i13, r13);
    assert(i1 + i2 + i3 + i4 + i5 + i6 + i7 + i8 + i9 + i10 + i11 + i12 + r12 == i1 + i2 + i3 + i4 + i5 + i6 + i7 + i8 + i9 + i10 + i11 + i12 + i13 + r13);
    vstd::seq_lib::lemma_concat_associative(i1 + i2 + i3 + i4 + i5 + i6 + i7 + i8 + i9 + i10 + i11 + i12 + i13, i14, r14);
    assert(i1 + i2 + i3 + i4 + i5 + i6 + i7 + i8 + i9 + i10 + i11 + i12 + i13 + r13 == i1 + i2 + i3 + i4 + i5 + i6 + i7 + i8 + i9 + i10 + i11 + i12 + i13 + i14 + r14);
    assert(r0 == i1 + i2 + i3 + i4 + i5 + i6 + i7 + i8 + i9 + i10 + i11 + i12 + i13 + i14 + r14);
    assert(tags_items_a_tokens(t) + rest == r0);
    assert(a14 =~~= tags_front(t));
}

/// Reading the second half of a rendered tag block completes the record.
#[verifier::rlimit(100)]
#[verifier::spinoff_prover]
proof fn lemma_tp_tags_block_b(t: TagsV, r: Seq<TokenV>)
    requires
        crate::tags::tags_wf(t),
    ensures
        tp_tag_items(tags_items_b_tokens(t) + (seq![TokenV::RParen] + r), tags_front(t)) == Some(
            (t, r),
        ),
{
    let i1 = plain_item_tokens(TagType::Year, opt_render_num(opt_int_u16(t.year)));
    let i2 = plain_item_tokens(TagType::Airdate, opt_render_date(t.airdate));
    let i3 = plain_item_tokens(TagType::Comment, t.comment);
    let i4 = plain_item_tokens(TagType::Summary, t.summary);
    let i5 = plain_item_tokens(TagType::Country, t.country);
    let i6 = plain_item_tokens(TagType::Rating, t.rating);
    let i7 = plain_item_tokens(TagType::License, t.license);
    let i8 = plain_item_tokens(TagType::Copyright, t.copyright);
    let i9 = plain_item_tokens(TagType::URL, t.url);
    let i10 = plain_item_tokens(TagType::Picture, t.picture);
    let i11 = plain_item_tokens(TagType::Runtime, opt_render_runtime(t.runtime));
    let i12 = plain_item_tokens(TagType::AspectRatio, t.aspect_ratio);
    let i13 = list_item_tokens(TagType::AudioTracks, t.audio_tracks);
    let i14 = list_item_tokens(TagType::Subtitles, t.subtitles);
    let a0 = tags_front(t);
    let a1 = TagsV { year: t.year, ..a0 };
    let a2 = TagsV { airdate: t.airdate, ..a1 };
    let a3 = TagsV { comment: t.comment, ..a2 };
    let a4 = TagsV { summary: t.summary, ..a3 };
    let a5 = TagsV { country: t.country, ..a4 };
    let a6 = TagsV { rating: t.rating, ..a5 };
    let a7 = TagsV { license: t.license, ..a6 };
    let a8 = TagsV { copyright: t.copyright, ..a7 };
    let a9 = TagsV { url: t.url, ..a8 };
    let a10 = TagsV { picture: t.picture, ..a9 };
    let a11 = TagsV { runtime: t.runtime, ..a10 };
    let a12 = TagsV { aspect_ratio: t.aspect_ratio, ..a11 };
    let a13 = TagsV { audio_tracks: t.audio_tracks, ..a12 };
    let a14 = TagsV { subtitles: t.subtitles, ..a13 };
    let r14: Seq<TokenV> = seq![TokenV::RParen] + r;
    let r13 = i14 + r14;
    let r12 = i13 + r13;
    let r11 = i12 + r12;
    let r10 = i11 + r11;
    let r9 = i10 + r10;
    let r8 = i9 + r9;
    let r7 = i8 + r8;
    let r6 = i7 + r7;
    let r5 = i6 + r6;
    let r4 = i5 + r5;
    let r3 = i4 + r4;
    let r2 = i3 + r3;
    let r1 = i2 + r2;
    let r0 = i1 + r1;
    // year
    let o1 = opt_render_num(opt_int_u16(t.year));
    match t.year {
        Some(v) => {
            crate::chars::lemma_dec_digits_value(v as int);
        },
        None => {},
    }
    assert(o1 matches Some(v) ==> crate::tags::spec_modify_tag(a0, TagType::Year, v) == Some(a1));
    lemma_step_plain(TagType::Year, o1, r1, a0);
    assert(o1 is None ==> a1 == a0);
    assert(tp_tag_items(r0, a0) == tp_tag_items(r1, a1));
    // airdate
    let o2 = opt_render_date(t.airdate);
    match t.airdate {
        Some(d) => {
            crate::serialize::lemma_date_reads_back(d);
        },
        None => {},
    }
    assert(o2 matches Some(v) ==> crate::tags::spec_modify_tag(a1, TagType::Airdate, v) == Some(a2));
    lemma_step_plain(TagType::Airdate, o2, r2, a1);
    assert(o2 is None ==> a2 == a1);
    assert(tp_tag_items(r1, a1) == tp_tag_items(r2, a2));
    // comment
    let o3 = t.comment;
    assert(o3 matches Some(v) ==> crate::tags::spec_modify_tag(a2, TagType::Comment, v) == Some(a3));
    lemma_step_plain(TagType::Comment, o3, r3, a2);
    assert(o3 is None ==> a3 == a2);
    assert(tp_tag_items(r2, a2) == tp_tag_items(r3, a3));
    // summary
    let o4 = t.summary;
    assert(o4 matches Some(v) ==> crate::tags::spec_modify_tag(a3, TagType::Summary, v) == Some(a4));
    lemma_step_plain(TagType::Summary, o4, r4, a3);
    assert(o4 is None ==> a4 == a3);
    assert(tp_tag_items(r3, a3) == tp_tag_items(r4, a4));
    // country
    let o5 = t.country;
    assert(o5 matches Some(v) ==> crate::tags::spec_modify_tag(a4, TagType::Country, v) == Some(a5));
    lemma_step_plain(TagType::Country, o5, r5, a4);
    assert(o5 is None ==> a5 == a4);
    assert(tp_tag_items(r4, a4) == tp_tag_items(r5, a5));
    // rating
    let o6 = t.rating;
    assert(o6 matches Some(v) ==> crate::tags::spec_modify_tag(a5, TagType::Rating, v) == Some(a6));
    lemma_step_plain(TagType::Rating, o6, r6, a5);
    assert(o6 is None ==> a6 == a5);
    assert(tp_tag_items(r5, a5) == tp_tag_items(r6, a6));
    // license
    let o7 = t.license;
    assert(o7 matches Some(v) ==> crate::tags::spec_modify_tag(a6, TagType::License, v) == Some(a7));
    lemma_step_plain(TagType::License, o7, r7, a6);
    assert(o7 is None ==> a7 == a6);
    assert(tp_tag_items(r6, a6) == tp_tag_items(r7, a7));
    // copyright
    let o8 = t.copyright;
    assert(o8 matches Some(v) ==> crate::tags::spec_modify_tag(a7, TagType::Copyright, v) == Some(a8));
    lemma_step_plain(TagType::Copyright, o8, r8, a7);
    assert(o8 is None ==> a8 == a7);
    assert(tp_tag_items(r7, a7) == tp_tag_items(r8, a8));
    // url
    let o9 = t.url;
    assert(o9 matches Some(v) ==> crate::tags::spec_modify_tag(a8, TagType::URL, v) == Some(a9));
    lemma_step_plain(TagType::URL, o9, r9, a8);
    assert(o9 is None ==> a9 == a8);
    assert(tp_tag_items(r8, a8) == tp_tag_items(r9, a9));
    // picture
    let o10 = t.picture;
    assert(o10 matches Some(v) ==> crate::tags::spec_modify_tag(a9, TagType::Picture, v) == Some(a10));
    lemma_step_plain(TagType::Picture, o10, r10, a9);
    assert(o10 is None ==> a10 == a9);
    assert(tp_tag_items(r9, a9) == tp_tag_items(r10, a10));
    // runtime
    let o11 = opt_render_runtime(t.runtime);
    match t.runtime {
        Some(v) => {
            crate::serialize::lemma_runtime_reads_back(v);
        },
        None => {},
    }
    assert(o11 matches Some(v) ==> crate::tags::spec_modify_tag(a10, TagType::Runtime, v) == Some(a11));
    lemma_step_plain(TagType::Runtime, o11, r11, a10);
    assert(o11 is None ==> a11 == a10);
    assert(tp_tag_items(r10, a10) == tp_tag_items(r11, a11));
    // aspect_ratio
    let o12 = t.aspect_ratio;
    assert(o12 matches Some(v) ==> crate::tags::spec_modify_tag(a11, TagType::AspectRatio, v) == Some(a12));
    lemma_step_plain(TagType::AspectRatio, o12, r12, a11);
    assert(o12 is None ==> a12 == a11);
    assert(tp_tag_items(r11, a11) == tp_tag_items(r12, a12));
    // audio_tracks
    let o13 = t.audio_tracks;
    assert(o13 matches Some(l) ==> crate::tags::spec_modify_multi(a12, TagType::AudioTracks, l) == Some(a13));
    lemma_step_list(TagType::AudioTracks, o13, r13, a12);
    assert(o13 is None ==> a13 == a12);
    assert(tp_tag_items(r12, a12) == tp_tag_items(r13, a13));
    // subtitles
    let o14 = t.subtitles;
    assert(o14 matches Some(l) ==> crate::tags::spec_modify_multi(a13, TagType::Subtitles, l) == Some(a14));
    lemma_step_list(TagType::Subtitles, o14, r14, a13);
    assert(o14 is None ==> a14 == a13);
    assert(tp_tag_items(r13, a13) == tp_tag_items(r14, a14));
    vstd::seq_lib::lemma_concat_associative(i1, i2, r2);
    assert(i1 + r1 == i1 + i2 + r2);
    vstd::seq_lib::lemma_concat_associative(i1 + i2, i3, r3);
    assert(i1 + i2 + r2 == i1 + i2 + i3 + r3);
    vstd::seq_lib::lemma_concat_associative(i1 + i2 + i3, i4, r4);
    assert(i1 + i2 + i3 + r3 == i1 + i2 + i3 + i4 + r4);
    vstd::seq_lib::lemma_concat_associative(i1 + i2 + i3 + i4, i5, r5);
    assert(i1 + i2 + i3 + i4 + r4 == i1 + i2 + i3 + i4 + i5 + r5);
    vstd::seq_lib::lemma_concat_associative(i1 + i2 + i3 + i4 + i5, i6, r6);
    assert(i1 + i2 + i3 + i4 + i5 + r5 == i1 + i2 + i3 + i4 + i5 + i6 + r6);
    vstd::seq_lib::lemma_concat_associative(i1 + i2 + i3 + i4 + i5 + i6, i7, r7);
    assert(i1 + i2 + i3 + i4 + i5 + i6 + r6 == i1 + i2 + i3 + i4 + i5 + i6 + i7 + r7);
    vstd::seq_lib::lemma_concat_associative(i1 + i2 + i3 + i4 + i5 + i6 + i7, i8, r8);
    assert(i1 + i2 + i3 + i4 + i5 + i6 + i7 + r7 == i1 + i2 + i3 + i4 + i5 + i6 + i7 + i8 + r8);
    vstd::seq_lib::lemma_concat_associative(i1 + i2 + i3 + i4 + i5 + i6 + i7 + i8, i9, r9);
    assert(i1 + i2 + i3 + i4 + i5 + i6 + i7 + i8 + r8 == i1 + i2 + i3 + i4 + i5 + i6 + i7 + i8 + i9 + r9);
    vstd::seq_lib::lemma_concat_associative(i1 + i2 + i3 + i4 + i5 + i6 + i7 + i8 + i9, i10, r10);
    assert(i1 + i2 + i3 + i4 + i5 + i6 + i7 + i8 + i9 + r9 == i1 + i2 + i3 + i4 + i5 + i6 + i7 + i8 + i9 + i10 + r10);
    vstd::seq_lib::lemma_concat_associative(i1 + i2 + i3 + i4 + i5 + i6 + i7 + i8 + i9 + i10, i11, r11);
    assert(i1 + i2 + i3 + i4 + i5 + i6 + i7 + i8 + i9 + i10 + r10 == i1 + i2 + i3 + i4 + i5 + i6 + i7 + i8 + i9 + i10 + i11 + r11);
    vstd::seq_lib::lemma_concat_associative(i1 + i2 + i3 + i4 + i5 + i6 + i7 + i8 + i9 + i10 + i11, i12, r12);
    assert(i1 + i2 + i3 + i4 + i5 + i6 + i7 + i8 + i9 + i10 + i11 + r11 == i1 + i2 + i3 + i4 + i5 + i6 + i7 + i8 + i9 + i10 + i11 + i12 + r12);
    vstd::seq_lib::lemma_concat_associative(i1 + i2 + i3 + i4 + i5 + i6 + i7 + i8 + i9 + i10 + i11 + i12, i13, r13);
    assert(i1 + i2 + i3 + i4 + i5 + i6 + i7 + i8 + i9 + i10 + i11 + i12 + r12 == i1 + i2 + i3 + i4 + i5 + i6 + i7 + i8 + i9 + i10 + i11 + i12 + i13 + r13);
    vstd::seq_lib::lemma_concat_associative(i1 + i2 + i3 + i4 + i5 + i6 + i7 + i8 + i9 + i10 + i11 + i12 + i13, i14, r14);
    assert(i1 + i2 + i3 + i4 + i5 + i6 + i7 + i8 + i9 + i10 + i11 + i12 + i13 + r13 == i1 + i2 + i3 + i4 + i5 + i6 + i7 + i8 + i9 + i10 + i11 + i12 + i13 + i14 + r14);
    assert(r0 == i1 + i2 + i3 + i4 + i5 + i6 + i7 + i8 + i9 + i10 + i11 + i12 + i13 + i14 + r14);
    assert(tags_items_b_tokens(t) + (seq![TokenV::RParen] + r) == r0);
    assert(r14[0] is RParen);
    assert(r14.skip(1) =~= r);
    assert(tp_tag_items(r14, a14) == Some((a14, r)));
    assert(a14 =~~= t);
}

/// Reading back a rendered tag block reconstructs the record, field by
/// field, through each value's coercion.
proof fn lemma_tp_tags_block(t: TagsV, r: Seq<TokenV>)
    requires
        crate::tags::tags_wf(t),
    ensures
        tp_tag_items(tags_items_tokens(t) + (seq![TokenV::RParen] + r), empty_tags()) == Some(
            (t, r),
        ),
{
    let tail = tags_items_b_tokens(t) + (seq![TokenV::RParen] + r);
    vstd::seq_lib::lemma_concat_associative(
        tags_items_a_tokens(t),
        tags_items_b_tokens(t),
        seq![TokenV::RParen] + r,
    );
    assert(tags_items_tokens(t) + (seq![TokenV::RParen] + r) == tags_items_a_tokens(t) + tail);
    lemma_tp_tags_block_a(t, tail);
    lemma_tp_tags_block_b(t, r);
}

/// Reading back a whole rendered tag block.
proof fn lemma_tp_tags_full(t: TagsV, r: Seq<TokenV>)
    requires
        crate::tags::tags_wf(t),
    ensures
        tp_tags(tags_tokens(t) + r) == Some((t, r)),
{
    let ts = tags_tokens(t) + r;
    assert(ts[0] is LParen && ts[1] is Tag);
    assert(ts.skip(2) =~= tags_items_tokens(t) + (seq![TokenV::RParen] + r));
    lemma_tp_tags_block(t, r);
}

/// The body of a play directive, its keyword already consumed: no time
/// plays the whole item, one time is a start offset, two times add a
/// duration.
pub open spec fn tp_play_body(ts: Seq<TokenV>) -> Option<(InstructionV, Seq<TokenV>)> {
    if ts.len() >= 1 && ts[0] is RParen {
        Some((InstructionV::Play(0usize, 0usize), ts.skip(1)))
    } else if ts.len() >= 2 && ts[0] is Time && ts[1] is RParen {
        Some((InstructionV::Play(ts[0]->Time_0, 0usize), ts.skip(2)))
    } else if ts.len() >= 3 && ts[0] is Time && ts[1] is Time && ts[2] is RParen {
        Some((InstructionV::Play(ts[0]->Time_0, ts[1]->Time_0), ts.skip(3)))
    } else {
        None
    }
}

/// The members of a `(list ...)` form, its keyword already consumed:
/// quoted values up to the closing paren, nothing else.
pub open spec fn tp_list(ts: Seq<TokenV>) -> Option<(Seq<Seq<char>>, Seq<TokenV>)>
    decreases ts.len(),
{
    if ts.len() == 0 {
        None
    } else if ts[0] is RParen {
        Some((Seq::empty(), ts.skip(1)))
    } else if ts[0] is Data {
        match tp_list(ts.skip(1)) {
            Some((l, r)) => Some((seq![ts[0]->Data_0] + l, r)),
            None => None,
        }
    } else {
        None
    }
}

/// The instruction run of a block, the opening paren of its first
/// instruction already consumed. At each step a stray paren is skipped, a
/// play or program keyword opens one instruction, and the block's closing
/// paren ends the run. The readings always shrink the sequence; a
/// non-shrinking continuation cannot occur and reads as nothing.
pub open spec fn tp_body(ts: Seq<TokenV>) -> Option<(Seq<InstructionV>, Seq<TokenV>)>
    decreases ts.len(),
{
    if ts.len() == 0 {
        None
    } else if ts[0] is RParen {
        Some((Seq::empty(), ts.skip(1)))
    } else if ts[0] is LParen {
        tp_body(ts.skip(1))
    } else if ts[0] is Play {
        match tp_play_body(ts.skip(1)) {
            Some((i, r)) => if r.len() < ts.len() {
                match tp_body(r) {
                    Some((l, r2)) => Some((seq![i] + l, r2)),
                    None => None,
                }
            } else {
                None
            },
            None => None,
        }
    } else if ts[0] is Prog {
        match tp_program(ts.skip(1)) {
            Some((p, r)) => if r.len() < ts.len() {
                match tp_body(r) {
                    Some((l, r2)) => Some((seq![InstructionV::SubProgram(p)] + l, r2)),
                    None => None,
                }
            } else {
                None
            },
            None => None,
        }
    } else {
        None
    }
}

/// An `(instr ...)` block: its two keywords, the opening paren of its
/// first instruction, and the instruction run.
pub open spec fn tp_instr_block(ts: Seq<TokenV>) -> Option<(Seq<InstructionV>, Seq<TokenV>)>
    decreases ts.len(),
{
    if ts.len() >= 3 && ts[0] is LParen && ts[1] is Instr && ts[2] is LParen {
        if ts.len() >= 1 {
            tp_body(ts.skip(2))
        } else {
            None
        }
    } else {
        None
    }
}

/// A program's body, its opening paren and keyword already consumed:
/// location, optional tags, the instruction block, and the closing paren;
/// the cursor lands on the last instruction.
pub open spec fn tp_program(ts: Seq<TokenV>) -> Option<(ProgramV, Seq<TokenV>)>
    decreases ts.len(),
{
    match tp_loc(ts) {
        Some((l, r1)) => match tp_tags(r1) {
            Some((t, r2)) => {
                if r2.len() >= 3 && r2[0] is LParen && r2[1] is Instr && r2[2] is LParen
                    && r2.len() < ts.len() + 3 {
                    match tp_body(r2.skip(3)) {
                        Some((ins, r3)) => {
                            if r3.len() >= 1 && r3[0] is RParen {
                                Some(
                                    (
                                        ProgramV {
                                            location: l,
                                            tags: t,
                                            instructions: ins,
                                            current_instr: if ins.len() == 0 {
                                                None
                                            } else {
                                                Some((ins.len() - 1) as usize)
                                            },
                                        },
                                        r3.skip(1),
                                    ),
                                )
                            } else {
                                None
                            }
                        },
                        None => None,
                    }
                } else {
                    None
                }
            },
            None => None,
        },
        None => None,
    }
}

/// The program run of a schedule: at each step a stray paren is skipped, a
/// program keyword opens one program, and the schedule's closing paren
/// ends the run.
pub open spec fn tp_sched_body(ts: Seq<TokenV>) -> Option<(Seq<ProgramV>, Seq<TokenV>)>
    decreases ts.len(),
{
    if ts.len() == 0 {
        None
    } else if ts[0] is RParen {
        Some((Seq::empty(), ts.skip(1)))
    } else if ts[0] is LParen {
        tp_sched_body(ts.skip(1))
    } else if ts[0] is Prog {
        match tp_program(ts.skip(1)) {
            Some((p, r)) => if r.len() < ts.len() {
                match tp_sched_body(r) {
                    Some((l, r2)) => Some((seq![p] + l, r2)),
                    None => None,
                }
            } else {
                None
            },
            None => None,
        }
    } else {
        None
    }
}

/// A whole schedule read from a whole token sequence: nothing may remain
/// after it; the cursor lands on the last program.
pub open spec fn tp_sched(ts: Seq<TokenV>) -> Option<ScheduleV> {
    if ts.len() >= 3 && ts[0] is LParen && ts[1] is Sched && ts[2] is Data {
        match tp_sched_body(ts.skip(3)) {
            Some((l, r)) => if r.len() == 0 {
                Some(
                    ScheduleV {
                        name: ts[2]->Data_0,
                        programs: l,
                        current_program: if l.len() == 0 {
                            None
                        } else {
                            Some((l.len() - 1) as usize)
                        },
                    },
                )
            } else {
                None
            },
            None => None,
        }
    } else {
        None
    }
}

/// Items already read, prepended to a continued reading of the rest.
pub open spec fn cons_items(
    pre: Seq<InstructionV>,
    o: Option<(Seq<InstructionV>, Seq<TokenV>)>,
) -> Option<(Seq<InstructionV>, Seq<TokenV>)> {
    match o {
        Some((l, r)) => Some((pre + l, r)),
        None => None,
    }
}

/// Programs already read, prepended to a continued reading of the rest.
pub open spec fn cons_progs(
    pre: Seq<ProgramV>,
    o: Option<(Seq<ProgramV>, Seq<TokenV>)>,
) -> Option<(Seq<ProgramV>, Seq<TokenV>)> {
    match o {
        Some((l, r)) => Some((pre + l, r)),
        None => None,
    }
}

// ---------------------------------------------------------------------------
// When rendering and reading are inverse.
// ---------------------------------------------------------------------------

/// A program the canonical token run represents exactly: well-formed tags,
/// at least one instruction, the cursor on the last one, recursively.
pub open spec fn prog_canonical(p: ProgramV) -> bool
    decreases p,
{
    &&& crate::tags::tags_wf(p.tags)
    &&& p.instructions.len() >= 1
    &&& p.current_instr == Some((p.instructions.len() - 1) as usize)
    &&& forall|j: int| 0 <= j < p.instructions.len() ==> instr_canonical(
        #[trigger] p.instructions[j],
    )
}

pub open spec fn instr_canonical(i: InstructionV) -> bool
    decreases i,
{
    match i {
        InstructionV::Play(_a, _b) => true,
        InstructionV::SubProgram(p) => prog_canonical(p),
    }
}

pub open spec fn sched_canonical(v: ScheduleV) -> bool {
    &&& forall|j: int| 0 <= j < v.programs.len() ==> prog_canonical(#[trigger] v.programs[j])
    &&& v.current_program == (if v.programs.len() == 0 {
        None
    } else {
        Some((v.programs.len() - 1) as usize)
    })
}

proof fn lemma_instr_items_drop_first(l: Seq<InstructionV>)
    requires
        l.len() >= 1,
    ensures
        instr_items_tokens(l) == instr_tokens(l[0]) + instr_items_tokens(l.drop_first()),
    decreases l.len(),
{
    if l.len() == 1 {
        assert(l.drop_last() =~= Seq::<InstructionV>::empty());
        assert(l.drop_first() =~= Seq::<InstructionV>::empty());
        assert(l.last() == l[0]);
        assert(instr_items_tokens(l) =~= instr_tokens(l[0]) + instr_items_tokens(
            l.drop_first(),
        ));
    } else {
        lemma_instr_items_drop_first(l.drop_last());
        assert(l.drop_last()[0] == l[0]);
        assert(l.drop_first().drop_last() =~= l.drop_last().drop_first());
        assert(l.drop_first().last() == l.last());
        assert(instr_items_tokens(l) == instr_items_tokens(l.drop_last()) + instr_tokens(
            l.last(),
        ));
        assert(instr_tokens(l[0]) + instr_items_tokens(l.drop_first()) =~= instr_tokens(l[0]) + (
        instr_items_tokens(l.drop_last().drop_first()) + instr_tokens(l.last())));
        assert(instr_tokens(l[0]) + (instr_items_tokens(l.drop_last().drop_first())
            + instr_tokens(l.last())) =~= (instr_tokens(l[0]) + instr_items_tokens(
            l.drop_last().drop_first(),
        )) + instr_tokens(l.last()));
    }
}

proof fn lemma_progs_items_drop_first(l: Seq<ProgramV>)
    requires
        l.len() >= 1,
    ensures
        prog_items_tokens(l) == seq![TokenV::LParen, TokenV::Prog] + prog_body_tokens(l[0])
            + prog_items_tokens(l.drop_first()),
    decreases l.len(),
{
    if l.len() == 1 {
        assert(l.drop_last() =~= Seq::<ProgramV>::empty());
        assert(l.drop_first() =~= Seq::<ProgramV>::empty());
        assert(l.last() == l[0]);
        assert(prog_items_tokens(l) =~= seq![TokenV::LParen, TokenV::Prog] + prog_body_tokens(
            l[0],
        ) + prog_items_tokens(l.drop_first()));
    } else {
        lemma_progs_items_drop_first(l.drop_last());
        assert(l.drop_last()[0] == l[0]);
        assert(l.drop_first().drop_last() =~= l.drop_last().drop_first());
        assert(l.drop_first().last() == l.last());
        assert(prog_items_tokens(l) == prog_items_tokens(l.drop_last()) + seq![
            TokenV::LParen,
            TokenV::Prog,
        ] + prog_body_tokens(l.last()));
        assert(prog_items_tokens(l.drop_first()) == prog_items_tokens(l.drop_last().drop_first())
            + seq![TokenV::LParen, TokenV::Prog] + prog_body_tokens(l.last()));
        assert(prog_items_tokens(l) =~= seq![TokenV::LParen, TokenV::Prog] + prog_body_tokens(
            l[0],
        ) + prog_items_tokens(l.drop_first()));
    }
}

/// Reading a rendered location form gives back the location.
proof fn lemma_tp_loc(l: SourceV, r: Seq<TokenV>)
    ensures
        tp_loc(loc_tokens(l) + r) == Some((l, r)),
{
    let ts = loc_tokens(l) + r;
    assert(ts.skip(4) =~= r);
    match l {
        SourceV::Pathname(p) => {
            assert(ts[2] == TokenV::Data(p));
        },
        SourceV::URL(u) => {
            assert(ts[2] == TokenV::Data(u));
        },
    }
}

/// Reading a rendered two-time play body gives back the play directive.
proof fn lemma_tp_play_canonical(a: usize, b: usize, r: Seq<TokenV>)
    ensures
        tp_play_body(play_body_tokens(a, b) + r) == Some((InstructionV::Play(a, b), r)),
{
    let ts = play_body_tokens(a, b) + r;
    assert(ts[0] == TokenV::Time(a) && ts[1] == TokenV::Time(b) && ts[2] is RParen);
    assert(ts.skip(3) =~= r);
}

/// Reading a rendered instruction run gives back the instructions; the
/// run's opening paren is already consumed, and `r` continues after the
/// block's closing paren.
/// Reading the continuation of an instruction run: the block ends, or the
/// remaining instructions read back in order.
#[verifier::rlimit(100)]
#[verifier::spinoff_prover]
proof fn lemma_tp_body_rest_canonical(rest: Seq<InstructionV>, r: Seq<TokenV>)
    requires
        forall|j: int| 0 <= j < rest.len() ==> instr_canonical(#[trigger] rest[j]),
    ensures
        tp_body(instr_items_tokens(rest) + seq![TokenV::RParen] + r) == Some((rest, r)),
    decreases rest, 1int,
{
    let after = instr_items_tokens(rest) + seq![TokenV::RParen] + r;
    if rest.len() == 0 {
        assert(instr_items_tokens(rest) =~= Seq::<TokenV>::empty());
        assert(after =~= seq![TokenV::RParen] + r);
        assert(after[0] is RParen);
        assert(after.skip(1) =~= r);
    } else {
        lemma_instr_items_drop_first(rest);
        assert(instr_items_tokens(rest)[0] is LParen) by {
            match rest[0] {
                InstructionV::Play(_a, _b) => {},
                InstructionV::SubProgram(_p) => {},
            }
        }
        assert(after[0] is LParen);
        assert(after.skip(1) =~= instr_items_tokens(rest).skip(1) + seq![TokenV::RParen] + r);
        lemma_tp_body_canonical(rest, r);
        assert(tp_body(after) == tp_body(after.skip(1)));
    }
}

/// Reading a rendered instruction run gives back the instructions; the
/// run's opening paren is already consumed, and `r` continues after the
/// block's closing paren.
#[verifier::rlimit(100)]
#[verifier::spinoff_prover]
proof fn lemma_tp_body_canonical(l: Seq<InstructionV>, r: Seq<TokenV>)
    requires
        l.len() >= 1,
        forall|j: int| 0 <= j < l.len() ==> instr_canonical(#[trigger] l[j]),
    ensures
        tp_body(instr_items_tokens(l).skip(1) + seq![TokenV::RParen] + r) == Some((l, r)),
    decreases l, 0int,
{
    lemma_instr_items_drop_first(l);
    let head = l[0];
    let rest = l.drop_first();
    let ts = instr_items_tokens(l).skip(1) + seq![TokenV::RParen] + r;
    let after_head: Seq<TokenV> = instr_items_tokens(rest) + seq![TokenV::RParen] + r;
    lemma_tp_body_rest_canonical(rest, r);
    assert(seq![head] + rest =~= l);
    match head {
        InstructionV::Play(a, b) => {
            assert(instr_tokens(head) == seq![TokenV::LParen, TokenV::Play] + play_body_tokens(
                a,
                b,
            ));
            assert(ts =~= seq![TokenV::Play] + play_body_tokens(a, b) + after_head);
            assert(ts[0] is Play);
            assert(ts.skip(1) =~= play_body_tokens(a, b) + after_head);
            lemma_tp_play_canonical(a, b, after_head);
            assert(after_head.len() < ts.len());
            assert(tp_body(ts) == Some((seq![head] + rest, r)));
        },
        InstructionV::SubProgram(p) => {
            assert(instr_tokens(head) == seq![TokenV::LParen, TokenV::Prog] + prog_body_tokens(
                p,
            ));
            assert(ts =~= seq![TokenV::Prog] + prog_body_tokens(p) + after_head);
            assert(ts[0] is Prog);
            assert(ts.skip(1) =~= prog_body_tokens(p) + after_head);
            assert(prog_canonical(p));
            lemma_tp_program_canonical(p, after_head);
            assert(after_head.len() < ts.len());
            assert(tp_body(ts) == Some((seq![head] + rest, r)));
        },
    }
}

/// Reading a rendered program body gives back the program.
#[verifier::rlimit(100)]
#[verifier::spinoff_prover]
proof fn lemma_tp_program_canonical(p: ProgramV, r: Seq<TokenV>)
    requires
        prog_canonical(p),
    ensures
        tp_program(prog_body_tokens(p) + r) == Some((p, r)),
    decreases p,
{
    let ts = prog_body_tokens(p) + r;
    let after_loc = tags_tokens(p.tags) + seq![TokenV::LParen, TokenV::Instr]
        + instr_items_tokens(p.instructions) + seq![TokenV::RParen] + seq![TokenV::RParen] + r;
    assert(ts =~= loc_tokens(p.location) + after_loc);
    lemma_tp_loc(p.location, after_loc);
    let after_tags = seq![TokenV::LParen, TokenV::Instr] + instr_items_tokens(p.instructions)
        + seq![TokenV::RParen] + seq![TokenV::RParen] + r;
    assert(after_loc =~= tags_tokens(p.tags) + after_tags);
    lemma_tp_tags_full(p.tags, after_tags);
    lemma_instr_items_drop_first(p.instructions);
    assert(instr_items_tokens(p.instructions).len() >= 1) by {
        assert(instr_tokens(p.instructions[0]).len() >= 1) by {
            match p.instructions[0] {
                InstructionV::Play(_a, _b) => {},
                InstructionV::SubProgram(_q) => {},
            }
        }
    }
    assert(instr_items_tokens(p.instructions)[0] is LParen) by {
        match p.instructions[0] {
            InstructionV::Play(_a, _b) => {},
            InstructionV::SubProgram(_q) => {},
        }
    }
    assert(after_tags[0] is LParen && after_tags[1] is Instr && after_tags[2] is LParen);
    assert(after_tags.len() < ts.len() + 3);
    assert(after_tags.skip(3) =~= instr_items_tokens(p.instructions).skip(1) + seq![
        TokenV::RParen,
    ] + (seq![TokenV::RParen] + r));
    lemma_tp_body_canonical(p.instructions, seq![TokenV::RParen] + r);
    let r3 = seq![TokenV::RParen] + r;
    assert(r3[0] is RParen);
    assert(r3.skip(1) =~= r);
}

/// Reading a rendered program run gives back the programs.
#[verifier::rlimit(100)]
#[verifier::spinoff_prover]
proof fn lemma_tp_sched_body_canonical(l: Seq<ProgramV>, r: Seq<TokenV>)
    requires
        forall|j: int| 0 <= j < l.len() ==> prog_canonical(#[trigger] l[j]),
    ensures
        tp_sched_body(prog_items_tokens(l) + seq![TokenV::RParen] + r) == Some((l, r)),
    decreases l,
{
    let ts = prog_items_tokens(l) + seq![TokenV::RParen] + r;
    if l.len() == 0 {
        assert(prog_items_tokens(l) =~= Seq::<TokenV>::empty());
        assert(ts =~= seq![TokenV::RParen] + r);
        assert(ts[0] is RParen);
        assert(ts.skip(1) =~= r);
    } else {
        lemma_progs_items_drop_first(l);
        let rest = l.drop_first();
        let after = prog_items_tokens(rest) + seq![TokenV::RParen] + r;
        assert(ts =~= seq![TokenV::LParen, TokenV::Prog] + prog_body_tokens(l[0]) + after);
        assert(ts[0] is LParen);
        let ts1 = ts.skip(1);
        assert(ts1 =~= seq![TokenV::Prog] + prog_body_tokens(l[0]) + after);
        assert(ts1[0] is Prog);
        assert(ts1.skip(1) =~= prog_body_tokens(l[0]) + after);
        lemma_tp_program_canonical(l[0], after);
        assert(tp_program(ts1.skip(1)) == Some((l[0], after)));
        assert(after.len() < ts1.len());
        lemma_tp_sched_body_canonical(rest, r);
        assert(tp_sched_body(after) == Some((rest, r)));
        assert(tp_sched_body(ts1) == Some((seq![l[0]] + rest, r)));
        assert(seq![l[0]] + rest =~= l);
        assert(tp_sched_body(ts) == tp_sched_body(ts1));
    }
}

/// The round trip at the token level: the canonical token sequence of a
/// schedule in canonical form, read back through the grammar, is that
/// schedule, whole and unchanged.
pub proof fn lemma_token_round_trip(v: ScheduleV)
    requires
        sched_canonical(v),
    ensures
        tp_sched(sched_tokens(v)) == Some(v),
{
    let ts = sched_tokens(v);
    assert(ts[0] is LParen && ts[1] is Sched && ts[2] == TokenV::Data(v.name));
    assert(ts.skip(3) =~= prog_items_tokens(v.programs) + seq![TokenV::RParen] + Seq::<
        TokenV,
    >::empty());
    lemma_tp_sched_body_canonical(v.programs, Seq::empty());
    assert(tp_sched(ts) =~~= Some(v));
}


/// Members already read, prepended to a continued reading of the rest.
pub open spec fn cons_list(
    pre: Seq<Seq<char>>,
    o: Option<(Seq<Seq<char>>, Seq<TokenV>)>,
) -> Option<(Seq<Seq<char>>, Seq<TokenV>)> {
    match o {
        Some((l, r)) => Some((pre + l, r)),
        None => None,
    }
}

/// Assignments already folded, continued over the rest of a tag block.
pub open spec fn cons_tags(
    acc: TagsV,
    ts: Seq<TokenV>,
) -> Option<(TagsV, Seq<TokenV>)> {
    tp_tag_items(ts, acc)
}
} // verus!
