//! Rendering a schedule back to the textual format: the structural inverse
//! of the parser, defined by one text function per construct.

use vstd::prelude::*;
use crate::chars::{
    chars_to_string, dec_digits, four_dec, push_dec, push_four_dec, push_two_dec, str_to_chars,
    two_dec,
};
use crate::program::{
    instrs_view, Instruction, InstructionV, Program, ProgramV, Source, SourceV,
};
use crate::schedule::{progs_view, Schedule, ScheduleV};
use crate::tags::{
    opt_str_view, opt_strs_view, spec_media_name, MediaType, TagType, Tags, TagsV, Date,
};

verus! {

broadcast use {
    crate::program::lemma_prog_view_is_view,
    crate::program::lemma_instr_view_is_view,
    crate::program::lemma_instrs_view_len,
    crate::program::lemma_instrs_view_index,
    crate::schedule::lemma_progs_view_len,
    crate::schedule::lemma_progs_view_index,
};

/// A quoted literal.
pub open spec fn quoted(s: Seq<char>) -> Seq<char> {
    seq!['"'] + s + seq!['"']
}

/// An hour count: two digits zero-padded, more only beyond two digits.
pub open spec fn hour_text(h: int) -> Seq<char> {
    if h < 100 {
        two_dec(h)
    } else {
        dec_digits(h)
    }
}

/// A time in seconds as an `HH:MM:SS` literal.
pub open spec fn time_text(t: int) -> Seq<char> {
    hour_text(t / 3600) + seq![':'] + two_dec(t / 60 % 60) + seq![':'] + two_dec(t % 60)
}

/// A location: its keyword and its quoted text.
pub open spec fn loc_text(l: SourceV) -> Seq<char> {
    match l {
        SourceV::Pathname(p) => "(local "@ + quoted(p) + seq![')'],
        SourceV::URL(u) => "(network "@ + quoted(u) + seq![')'],
    }
}

/// One string-valued tag, absent or rendered with its quoted value.
pub open spec fn str_item(name: Seq<char>, o: Option<Seq<char>>) -> Seq<char> {
    match o {
        Some(v) => seq![':'] + name + seq![' '] + quoted(v) + seq![' '],
        None => Seq::empty(),
    }
}

/// One numeric tag, rendered in decimal.
pub open spec fn num_item(name: Seq<char>, o: Option<int>) -> Seq<char> {
    match o {
        Some(v) => seq![':'] + name + seq![' '] + quoted(dec_digits(v)) + seq![' '],
        None => Seq::empty(),
    }
}

/// The media-kind tag, rendered by its canonical name.
pub open spec fn media_item(o: Option<MediaType>) -> Seq<char> {
    match o {
        Some(m) => seq![':'] + "media_type"@ + seq![' '] + quoted(spec_media_name(m)) + seq![
            ' ',
        ],
        None => Seq::empty(),
    }
}

/// A two-digit zero-padded field, wider only when the value overflows it.
pub open spec fn pad2(n: int) -> Seq<char> {
    if n <= 99 {
        two_dec(n)
    } else {
        dec_digits(n)
    }
}

/// A four-digit zero-padded field, wider only when the value overflows it.
pub open spec fn pad4(n: int) -> Seq<char> {
    if n <= 9999 {
        four_dec(n)
    } else {
        dec_digits(n)
    }
}

/// The date tag, rendered as `yyyy-mm-dd`.
pub open spec fn date_item(o: Option<Date>) -> Seq<char> {
    match o {
        Some(d) => seq![':'] + "airdate"@ + seq![' '] + quoted(
            pad4(d.year as int) + seq!['-'] + pad2(d.month as int) + seq!['-'] + pad2(
                d.day as int,
            ),
        ) + seq![' '],
        None => Seq::empty(),
    }
}

/// The runtime tag, rendered as seconds with the `s` unit.
pub open spec fn runtime_item(o: Option<usize>) -> Seq<char> {
    match o {
        Some(v) => seq![':'] + "runtime"@ + seq![' '] + quoted(dec_digits(v as int) + seq!['s'])
            + seq![' '],
        None => Seq::empty(),
    }
}

/// The members of a list value, each quoted.
pub open spec fn list_members(l: Seq<Seq<char>>) -> Seq<char>
    decreases l.len(),
{
    if l.len() == 0 {
        Seq::empty()
    } else {
        list_members(l.drop_last()) + quoted(l.last()) + seq![' ']
    }
}

/// One list-valued tag.
pub open spec fn list_item(name: Seq<char>, o: Option<Seq<Seq<char>>>) -> Seq<char> {
    match o {
        Some(l) => seq![':'] + name + seq![' '] + "(list "@ + list_members(l) + seq![')'] + seq![
            ' ',
        ],
        None => Seq::empty(),
    }
}

/// The first half of the tag block, in canonical order.
pub open spec fn tags_items_a(t: TagsV) -> Seq<char> {
    str_item("title"@, t.title) + media_item(t.media_type) + str_item("genre"@, t.genre)
        + str_item("series"@, t.series) + num_item(
        "season"@,
        match t.season {
            Some(v) => Some(v as int),
            None => None,
        },
    ) + num_item(
        "episode"@,
        match t.episode {
            Some(v) => Some(v as int),
            None => None,
        },
    ) + str_item("album"@, t.album) + num_item(
        "track_no"@,
        match t.track_no {
            Some(v) => Some(v as int),
            None => None,
        },
    ) + str_item("studio"@, t.studio) + str_item("director"@, t.director) + str_item(
        "artist"@,
        t.artist,
    ) + str_item("composer"@, t.composer) + list_item("cast"@, t.cast) + str_item(
        "photographer"@,
        t.photographer,
    )
}

/// The second half of the tag block, in canonical order.
pub open spec fn tags_items_b(t: TagsV) -> Seq<char> {
    num_item(
        "year"@,
        match t.year {
            Some(v) => Some(v as int),
            None => None,
        },
    ) + date_item(t.airdate) + str_item("comment"@, t.comment) + str_item("summary"@, t.summary)
        + str_item("country"@, t.country) + str_item("rating"@, t.rating) + str_item(
        "license"@,
        t.license,
    ) + str_item("copyright"@, t.copyright) + str_item("url"@, t.url) + str_item(
        "picture"@,
        t.picture,
    ) + runtime_item(t.runtime) + str_item("aspect_ratio"@, t.aspect_ratio) + list_item(
        "audio_tracks"@,
        t.audio_tracks,
    ) + list_item("subtitles"@, t.subtitles)
}

/// The whole tag block, every present tag in canonical order.
pub open spec fn tags_text(t: TagsV) -> Seq<char> {
    "(tags "@ + tags_items_a(t) + tags_items_b(t) + seq![')']
}

/// One play directive, both times rendered.
pub open spec fn play_text(a: int, b: int) -> Seq<char> {
    "(play "@ + time_text(a) + seq![' '] + time_text(b) + seq![')']
}

/// One instruction: a play directive or a whole embedded program.
pub open spec fn instr_text(i: InstructionV) -> Seq<char>
    decreases i,
{
    match i {
        InstructionV::Play(a, b) => play_text(a as int, b as int),
        InstructionV::SubProgram(p) => prog_text(p),
    }
}

pub open spec fn instr_items(l: Seq<InstructionV>) -> Seq<char>
    decreases l,
{
    if l.len() == 0 {
        Seq::empty()
    } else {
        instr_items(l.drop_last()) + instr_text(l.last())
    }
}

/// One program: its location, its tags and its instructions.
pub open spec fn prog_text(p: ProgramV) -> Seq<char>
    decreases p,
{
    "(program "@ + loc_text(p.location) + tags_text(p.tags) + "(instr "@ + instr_items(
        p.instructions,
    ) + seq![')'] + seq![')']
}

pub open spec fn prog_items(l: Seq<ProgramV>) -> Seq<char>
    decreases l,
{
    if l.len() == 0 {
        Seq::empty()
    } else {
        prog_items(l.drop_last()) + prog_text(l.last())
    }
}

/// A whole schedule: its quoted name and its programs.
pub open spec fn sched_text(v: ScheduleV) -> Seq<char> {
    "(schedule "@ + quoted(v.name) + prog_items(v.programs) + seq![')']
}

// ---------------------------------------------------------------------------
// The executable renderer.
// ---------------------------------------------------------------------------

pub(crate) fn push_lit(out: &mut Vec<char>, lit: &str)
    ensures
        final (out)@ == old(out)@ + lit@,
{
    let mut v = str_to_chars(lit);
    out.append(&mut v);
}

fn push_quoted_str(out: &mut Vec<char>, s: &str)
    ensures
        final (out)@ == old(out)@ + quoted(s@),
{
    let ghost o = out@;
    out.push('"');
    push_lit(out, s);
    out.push('"');
    proof {
        assert(out@ =~= o + quoted(s@));
    }
}

pub(crate) fn push_time(out: &mut Vec<char>, t: usize)
    ensures
        final (out)@ == old(out)@ + time_text(t as int),
{
    let ghost o = out@;
    let h = t / 3600;
    if h < 100 {
        push_two_dec(out, h);
    } else {
        push_dec(out, h);
    }
    out.push(':');
    push_two_dec(out, t / 60 % 60);
    out.push(':');
    push_two_dec(out, t % 60);
    proof {
        assert(out@ =~= o + time_text(t as int));
    }
}

pub(crate) fn push_source(out: &mut Vec<char>, src: &Source)
    ensures
        final (out)@ == old(out)@ + loc_text(src@),
{
    let ghost o = out@;
    match src {
        Source::Pathname(p) => {
            push_lit(out, "(local ");
            push_quoted_str(out, p.as_str());
            out.push(')');
        },
        Source::URL(u) => {
            push_lit(out, "(network ");
            push_quoted_str(out, u.as_str());
            out.push(')');
        },
    }
    proof {
        assert(out@ =~= o + loc_text(src@));
    }
}

fn push_str_item(out: &mut Vec<char>, name: &str, o: &Option<String>)
    ensures
        final (out)@ == old(out)@ + str_item(name@, opt_str_view(*o)),
{
    let ghost ov = out@;
    match o {
        Some(v) => {
            out.push(':');
            push_lit(out, name);
            out.push(' ');
            push_quoted_str(out, v.as_str());
            out.push(' ');
            proof {
                assert(out@ =~= ov + str_item(name@, opt_str_view(*o)));
            }
        },
        None => {
            proof {
                assert(out@ =~= ov + str_item(name@, opt_str_view(*o)));
            }
        },
    }
}

fn push_num_item(out: &mut Vec<char>, name: &str, o: Option<usize>)
    ensures
        final (out)@ == old(out)@ + num_item(
            name@,
            match o {
                Some(v) => Some(v as int),
                None => None,
            },
        ),
{
    let ghost ov = out@;
    match o {
        Some(v) => {
            out.push(':');
            push_lit(out, name);
            out.push(' ');
            out.push('"');
            push_dec(out, v);
            out.push('"');
            out.push(' ');
            proof {
                assert(out@ =~= ov + num_item(name@, Some(v as int)));
            }
        },
        None => {},
    }
}

fn push_media_item(out: &mut Vec<char>, o: &Option<MediaType>)
    ensures
        final (out)@ == old(out)@ + media_item(*o),
{
    let ghost ov = out@;
    match o {
        Some(m) => {
            out.push(':');
            push_lit(out, "media_type");
            out.push(' ');
            out.push('"');
            crate::tags::push_media_name(out, m);
            out.push('"');
            out.push(' ');
            proof {
                assert(out@ =~= ov + media_item(*o));
            }
        },
        None => {},
    }
}

fn push_pad2(out: &mut Vec<char>, n: usize)
    ensures
        final (out)@ == old(out)@ + pad2(n as int),
{
    if n <= 99 {
        push_two_dec(out, n);
    } else {
        push_dec(out, n);
    }
}

fn push_pad4(out: &mut Vec<char>, n: usize)
    ensures
        final (out)@ == old(out)@ + pad4(n as int),
{
    if n <= 9999 {
        push_four_dec(out, n);
    } else {
        push_dec(out, n);
    }
}

fn push_date_item(out: &mut Vec<char>, o: &Option<Date>)
    ensures
        final (out)@ == old(out)@ + date_item(*o),
{
    let ghost ov = out@;
    match o {
        Some(d) => {
            out.push(':');
            push_lit(out, "airdate");
            out.push(' ');
            out.push('"');
            push_pad4(out, d.year as usize);
            out.push('-');
            push_pad2(out, d.month as usize);
            out.push('-');
            push_pad2(out, d.day as usize);
            out.push('"');
            out.push(' ');
            proof {
                assert(out@ =~= ov + date_item(*o));
            }
        },
        None => {},
    }
}

fn push_runtime_item(out: &mut Vec<char>, o: Option<usize>)
    ensures
        final (out)@ == old(out)@ + runtime_item(o),
{
    let ghost ov = out@;
    match o {
        Some(v) => {
            out.push(':');
            push_lit(out, "runtime");
            out.push(' ');
            out.push('"');
            push_dec(out, v);
            out.push('s');
            out.push('"');
            out.push(' ');
            proof {
                assert(out@ =~= ov + runtime_item(o));
            }
        },
        None => {},
    }
}

fn push_list_item(out: &mut Vec<char>, name: &str, o: &Option<Vec<String>>)
    ensures
        final (out)@ == old(out)@ + list_item(name@, opt_strs_view(*o)),
{
    let ghost ov = out@;
    match o {
        Some(l) => {
            out.push(':');
            push_lit(out, name);
            out.push(' ');
            push_lit(out, "(list ");
            let ghost lv = opt_strs_view(*o)->Some_0;
            let mut i: usize = 0;
            while i < l.len()
                invariant
                    0 <= i <= l@.len(),
                    lv.len() == l@.len(),
                    forall|j: int| 0 <= j < l@.len() ==> lv[j] == l@[j]@,
                    out@ == ov + seq![':'] + name@ + seq![' '] + "(list "@ + list_members(
                        lv.take(i as int),
                    ),
                decreases l@.len() - i,
            {
                push_quoted_str(out, l[i].as_str());
                out.push(' ');
                proof {
                    assert(lv.take(i + 1).drop_last() =~= lv.take(i as int));
                    assert(out@ =~= ov + seq![':'] + name@ + seq![' '] + "(list "@
                        + list_members(lv.take(i + 1)));
                }
                i = i + 1;
            }
            out.push(')');
            out.push(' ');
            proof {
                assert(lv.take(lv.len() as int) =~= lv);
                assert(out@ =~= ov + list_item(name@, opt_strs_view(*o)));
            }
        },
        None => {},
    }
}

#[verifier::rlimit(100)]
fn push_tags_a(out: &mut Vec<char>, tags: &Tags)
    ensures
        final (out)@ == old(out)@ + tags_items_a(tags@),
{
    let ghost ov = out@;
    push_str_item(out, "title", &tags.title);
    push_media_item(out, &tags.media_type);
    push_str_item(out, "genre", &tags.genre);
    push_str_item(out, "series", &tags.series);
    push_num_item(out, "season", match tags.season { Some(v) => Some(v as usize), None => None });
    push_num_item(out, "episode", match tags.episode { Some(v) => Some(v as usize), None => None });
    push_str_item(out, "album", &tags.album);
    push_num_item(out, "track_no", match tags.track_no { Some(v) => Some(v as usize), None => None });
    push_str_item(out, "studio", &tags.studio);
    push_str_item(out, "director", &tags.director);
    push_str_item(out, "artist", &tags.artist);
    push_str_item(out, "composer", &tags.composer);
    push_list_item(out, "cast", &tags.cast);
    push_str_item(out, "photographer", &tags.photographer);
    proof {
        let i1 = str_item("title"@, tags@.title);
        let i2 = media_item(tags@.media_type);
        let i3 = str_item("genre"@, tags@.genre);
        let i4 = str_item("series"@, tags@.series);
        let i5 = num_item("season"@, match tags@.season { Some(v) => Some(v as int), None => None });
        let i6 = num_item("episode"@, match tags@.episode { Some(v) => Some(v as int), None => None });
        let i7 = str_item("album"@, tags@.album);
        let i8 = num_item("track_no"@, match tags@.track_no { Some(v) => Some(v as int), None => None });
        let i9 = str_item("studio"@, tags@.studio);
        let i10 = str_item("director"@, tags@.director);
        let i11 = str_item("artist"@, tags@.artist);
        let i12 = str_item("composer"@, tags@.composer);
        let i13 = list_item("cast"@, tags@.cast);
        let i14 = str_item("photographer"@, tags@.photographer);
        let a1 = i1;
        let a2 = a1 + i2;
        let a3 = a2 + i3;
        let a4 = a3 + i4;
        let a5 = a4 + i5;
        let a6 = a5 + i6;
        let a7 = a6 + i7;
        let a8 = a7 + i8;
        let a9 = a8 + i9;
        let a10 = a9 + i10;
        let a11 = a10 + i11;
        let a12 = a11 + i12;
        let a13 = a12 + i13;
        let a14 = a13 + i14;
        assert(out@ == ov + i1 + i2 + i3 + i4 + i5 + i6 + i7 + i8 + i9 + i10 + i11 + i12 + i13 + i14);
        assert(ov + a1 == ov + i1);
        vstd::seq_lib::lemma_concat_associative(ov, a1, i2);
        assert(ov + a2 == ov + i1 + i2);
        vstd::seq_lib::lemma_concat_associative(ov, a2, i3);
        assert(ov + a3 == ov + i1 + i2 + i3);
        vstd::seq_lib::lemma_concat_associative(ov, a3, i4);
        assert(ov + a4 == ov + i1 + i2 + i3 + i4);
        vstd::seq_lib::lemma_concat_associative(ov, a4, i5);
        assert(ov + a5 == ov + i1 + i2 + i3 + i4 + i5);
        vstd::seq_lib::lemma_concat_associative(ov, a5, i6);
        assert(ov + a6 == ov + i1 + i2 + i3 + i4 + i5 + i6);
        vstd::seq_lib::lemma_concat_associative(ov, a6, i7);
        assert(ov + a7 == ov + i1 + i2 + i3 + i4 + i5 + i6 + i7);
        vstd::seq_lib::lemma_concat_associative(ov, a7, i8);
        assert(ov + a8 == ov + i1 + i2 + i3 + i4 + i5 + i6 + i7 + i8);
        vstd::seq_lib::lemma_concat_associative(ov, a8, i9);
        assert(ov + a9 == ov + i1 + i2 + i3 + i4 + i5 + i6 + i7 + i8 + i9);
        vstd::seq_lib::lemma_concat_associative(ov, a9, i10);
        assert(ov + a10 == ov + i1 + i2 + i3 + i4 + i5 + i6 + i7 + i8 + i9 + i10);
        vstd::seq_lib::lemma_concat_associative(ov, a10, i11);
        assert(ov + a11 == ov + i1 + i2 + i3 + i4 + i5 + i6 + i7 + i8 + i9 + i10 + i11);
        vstd::seq_lib::lemma_concat_associative(ov, a11, i12);
        assert(ov + a12 == ov + i1 + i2 + i3 + i4 + i5 + i6 + i7 + i8 + i9 + i10 + i11 + i12);
        vstd::seq_lib::lemma_concat_associative(ov, a12, i13);
        assert(ov + a13 == ov + i1 + i2 + i3 + i4 + i5 + i6 + i7 + i8 + i9 + i10 + i11 + i12 + i13);
        vstd::seq_lib::lemma_concat_associative(ov, a13, i14);
        assert(ov + a14 == ov + i1 + i2 + i3 + i4 + i5 + i6 + i7 + i8 + i9 + i10 + i11 + i12 + i13 + i14);
        assert(tags_items_a(tags@) == a14);
        assert(out@ == ov + tags_items_a(tags@));
    }
}

#[verifier::rlimit(100)]
fn push_tags_b(out: &mut Vec<char>, tags: &Tags)
    ensures
        final (out)@ == old(out)@ + tags_items_b(tags@),
{
    let ghost ov = out@;
    push_num_item(out, "year", match tags.year { Some(v) => Some(v as usize), None => None });
    push_date_item(out, &tags.airdate);
    push_str_item(out, "comment", &tags.comment);
    push_str_item(out, "summary", &tags.summary);
    push_str_item(out, "country", &tags.country);
    push_str_item(out, "rating", &tags.rating);
    push_str_item(out, "license", &tags.license);
    push_str_item(out, "copyright", &tags.copyright);
    push_str_item(out, "url", &tags.url);
    push_str_item(out, "picture", &tags.picture);
    push_runtime_item(out, tags.runtime);
    push_str_item(out, "aspect_ratio", &tags.aspect_ratio);
    push_list_item(out, "audio_tracks", &tags.audio_tracks);
    push_list_item(out, "subtitles", &tags.subtitles);
    proof {
        let i1 = num_item("year"@, match tags@.year { Some(v) => Some(v as int), None => None });
        let i2 = date_item(tags@.airdate);
        let i3 = str_item("comment"@, tags@.comment);
        let i4 = str_item("summary"@, tags@.summary);
        let i5 = str_item("country"@, tags@.country);
        let i6 = str_item("rating"@, tags@.rating);
        let i7 = str_item("license"@, tags@.license);
        let i8 = str_item("copyright"@, tags@.copyright);
        let i9 = str_item("url"@, tags@.url);
        let i10 = str_item("picture"@, tags@.picture);
        let i11 = runtime_item(tags@.runtime);
        let i12 = str_item("aspect_ratio"@, tags@.aspect_ratio);
        let i13 = list_item("audio_tracks"@, tags@.audio_tracks);
        let i14 = list_item("subtitles"@, tags@.subtitles);
        let a1 = i1;
        let a2 = a1 + i2;
        let a3 = a2 + i3;
        let a4 = a3 + i4;
        let a5 = a4 + i5;
        let a6 = a5 + i6;
        let a7 = a6 + i7;
        let a8 = a7 + i8;
        let a9 = a8 + i9;
        let a10 = a9 + i10;
        let a11 = a10 + i11;
        let a12 = a11 + i12;
        let a13 = a12 + i13;
        let a14 = a13 + i14;
        assert(out@ == ov + i1 + i2 + i3 + i4 + i5 + i6 + i7 + i8 + i9 + i10 + i11 + i12 + i13 + i14);
        assert(ov + a1 == ov + i1);
        vstd::seq_lib::lemma_concat_associative(ov, a1, i2);
        assert(ov + a2 == ov + i1 + i2);
        vstd::seq_lib::lemma_concat_associative(ov, a2, i3);
        assert(ov + a3 == ov + i1 + i2 + i3);
        vstd::seq_lib::lemma_concat_associative(ov, a3, i4);
        assert(ov + a4 == ov + i1 + i2 + i3 + i4);
        vstd::seq_lib::lemma_concat_associative(ov, a4, i5);
        assert(ov + a5 == ov + i1 + i2 + i3 + i4 + i5);
        vstd::seq_lib::lemma_concat_associative(ov, a5, i6);
        assert(ov + a6 == ov + i1 + i2 + i3 + i4 + i5 + i6);
        vstd::seq_lib::lemma_concat_associative(ov, a6, i7);
        assert(ov + a7 == ov + i1 + i2 + i3 + i4 + i5 + i6 + i7);
        vstd::seq_lib::lemma_concat_associative(ov, a7, i8);
        assert(ov + a8 == ov + i1 + i2 + i3 + i4 + i5 + i6 + i7 + i8);
        vstd::seq_lib::lemma_concat_associative(ov, a8, i9);
        assert(ov + a9 == ov + i1 + i2 + i3 + i4 + i5 + i6 + i7 + i8 + i9);
        vstd::seq_lib::lemma_concat_associative(ov, a9, i10);
        assert(ov + a10 == ov + i1 + i2 + i3 + i4 + i5 + i6 + i7 + i8 + i9 + i10);
        vstd::seq_lib::lemma_concat_associative(ov, a10, i11);
        assert(ov + a11 == ov + i1 + i2 + i3 + i4 + i5 + i6 + i7 + i8 + i9 + i10 + i11);
        vstd::seq_lib::lemma_concat_associative(ov, a11, i12);
        assert(ov + a12 == ov + i1 + i2 + i3 + i4 + i5 + i6 + i7 + i8 + i9 + i10 + i11 + i12);
        vstd::seq_lib::lemma_concat_associative(ov, a12, i13);
        assert(ov + a13 == ov + i1 + i2 + i3 + i4 + i5 + i6 + i7 + i8 + i9 + i10 + i11 + i12 + i13);
        vstd::seq_lib::lemma_concat_associative(ov, a13, i14);
        assert(ov + a14 == ov + i1 + i2 + i3 + i4 + i5 + i6 + i7 + i8 + i9 + i10 + i11 + i12 + i13 + i14);
        assert(tags_items_b(tags@) == a14);
        assert(out@ == ov + tags_items_b(tags@));
    }
}

pub(crate) fn push_tags(out: &mut Vec<char>, tags: &Tags)
    ensures
        final (out)@ == old(out)@ + tags_text(tags@),
{
    let ghost ov = out@;
    push_lit(out, "(tags ");
    push_tags_a(out, tags);
    push_tags_b(out, tags);
    out.push(')');
    proof {
        let t = "(tags "@;
        let a = tags_items_a(tags@);
        let b = tags_items_b(tags@);
        assert(out@ == ov + t + a + b + seq![')']);
        vstd::seq_lib::lemma_concat_associative(ov, t, a);
        assert(ov + (t + a) == ov + t + a);
        vstd::seq_lib::lemma_concat_associative(ov, t + a, b);
        assert(ov + (t + a + b) == ov + t + a + b);
        vstd::seq_lib::lemma_concat_associative(ov, t + a + b, seq![')']);
        assert(ov + (t + a + b + seq![')']) == ov + t + a + b + seq![')']);
        assert(out@.drop_last() == ov + t + a + b) by {
            assert((ov + t + a + b).push(')') == out@);
        }
        assert(out@ == (ov + t + a + b).push(')'));
        assert((ov + t + a + b).push(')') =~= ov + t + a + b + seq![')']);
        assert(tags_text(tags@) == t + a + b + seq![')']);
        assert(out@ == ov + tags_text(tags@));
    }
}

impl Instruction {
    /// The instruction rendered in the textual format.
    pub fn to_text(&self) -> (r: String)
        ensures
            r@ == instr_text(self@),
    {
        let mut out: Vec<char> = Vec::new();
        crate::program::push_instr(&mut out, self);
        chars_to_string(&out)
    }
}

impl Program {
    /// The program rendered in the textual format.
    pub fn to_text(&self) -> (r: String)
        ensures
            r@ == prog_text(self@),
    {
        let mut out: Vec<char> = Vec::new();
        crate::program::push_prog(&mut out, self);
        chars_to_string(&out)
    }
}

impl Tags {
    /// The tag block rendered in the textual format.
    pub fn to_text(&self) -> (r: String)
        ensures
            r@ == tags_text(self@),
    {
        let mut out: Vec<char> = Vec::new();
        push_tags(&mut out, self);
        chars_to_string(&out)
    }
}

impl Source {
    /// The location rendered in the textual format.
    pub fn to_text(&self) -> (r: String)
        ensures
            r@ == loc_text(self@),
    {
        let mut out: Vec<char> = Vec::new();
        push_source(&mut out, self);
        chars_to_string(&out)
    }
}

impl Schedule {
    /// The whole schedule rendered in the textual format; parsing the
    /// result of a well-formed, representable schedule restores it.
    #[verifier::rlimit(40)]
    pub fn to_text(&self) -> (r: String)
        ensures
            r@ == sched_text(self@),
    {
        let mut out: Vec<char> = Vec::new();
        push_lit(&mut out, "(schedule ");
        push_quoted_str(&mut out, self.name_ref());
        let n = self.programs_len();
        let ghost pv = self@.programs;
        let mut i: usize = 0;
        while i < n
            invariant
                0 <= i <= n,
                n == self@.programs.len(),
                pv == self@.programs,
                out@ == "(schedule "@ + quoted(self@.name) + prog_items(pv.take(i as int)),
            decreases n - i,
        {
            let p = match self.get_program_at(i) {
                Some(p) => p,
                None => {
                    proof {
                        assert(false);
                    }
                    return String::new();
                },
            };
            crate::program::push_prog(&mut out, p);
            proof {
                assert(pv.take(i + 1).drop_last() =~= pv.take(i as int));
                assert(out@ =~= "(schedule "@ + quoted(self@.name) + prog_items(
                    pv.take(i + 1),
                ));
            }
            i = i + 1;
        }
        out.push(')');
        proof {
            assert(pv.take(pv.len() as int) =~= pv);
            assert(out@ =~= sched_text(self@));
        }
        chars_to_string(&out)
    }
}


// ---------------------------------------------------------------------------
// Laws of the rendering: each rendered construct reads back as itself.
// ---------------------------------------------------------------------------

/// A rendered time of at most `99:59:59` has exactly the shape of a time
/// literal, and the literal's value is the time it was rendered from.
pub proof fn lemma_time_text_reads_back(t: int)
    requires
        0 <= t <= 359999,
    ensures
        time_text(t).len() == 8,
        crate::parse::time_pattern_at(time_text(t), 0),
        crate::parse::time_value_at(time_text(t), 0) == t,
{
    let h = t / 3600;
    let m = t / 60 % 60;
    let sec = t % 60;
    assert(0 <= h <= 99 && 0 <= m <= 59 && 0 <= sec <= 59) by (nonlinear_arith)
        requires
            0 <= t <= 359999,
            h == t / 3600,
            m == t / 60 % 60,
            sec == t % 60,
    ;
    crate::chars::lemma_two_dec_value(h);
    crate::chars::lemma_two_dec_value(m);
    crate::chars::lemma_two_dec_value(sec);
    let w = time_text(t);
    assert(w[0] == two_dec(h)[0]);
    assert(w[1] == two_dec(h)[1]);
    assert(w[2] == ':');
    assert(w[3] == two_dec(m)[0]);
    assert(w[4] == two_dec(m)[1]);
    assert(w[5] == ':');
    assert(w[6] == two_dec(sec)[0]);
    assert(w[7] == two_dec(sec)[1]);
    assert(h * 3600 + m * 60 + sec == t) by (nonlinear_arith)
        requires
            0 <= t,
            h == t / 3600,
            m == t / 60 % 60,
            sec == t % 60,
    ;
}

/// A rendered runtime reads back as the same number of seconds.
pub proof fn lemma_runtime_reads_back(v: usize)
    ensures
        crate::tags::spec_runtime_of(dec_digits(v as int) + seq!['s']) == Some(v),
{
    crate::chars::lemma_dec_digits_value(v as int);
    let w = dec_digits(v as int) + seq!['s'];
    assert(w.last() == 's');
    assert(w.drop_last() =~= dec_digits(v as int));
    assert(crate::tags::runtime_scale('s') == 1);
}

/// A rendered date reads back as the same date.
pub proof fn lemma_date_reads_back(d: Date)
    requires
        crate::tags::date_wf(d),
    ensures
        crate::tags::spec_date_of(
            pad4(d.year as int) + seq!['-'] + pad2(d.month as int) + seq!['-'] + pad2(
                d.day as int,
            ),
        ) == Some(d),
{
    crate::chars::lemma_four_dec_value(d.year as int);
    crate::chars::lemma_two_dec_value(d.month as int);
    crate::chars::lemma_two_dec_value(d.day as int);
    let w = pad4(d.year as int) + seq!['-'] + pad2(d.month as int) + seq!['-'] + pad2(
        d.day as int,
    );
    assert(w.len() == 10);
    assert(w[4] == '-' && w[7] == '-');
    assert(w.subrange(0, 4) =~= four_dec(d.year as int));
    assert(w.subrange(5, 7) =~= two_dec(d.month as int));
    assert(w.subrange(8, 10) =~= two_dec(d.day as int));
    let mo = two_dec(d.month as int);
    let da = two_dec(d.day as int);
    assert(mo.drop_last() =~= seq![mo[0]]);
    assert(seq![mo[0]].drop_last() =~= Seq::<char>::empty());
    assert(crate::chars::seq_dec_val(Seq::<char>::empty()) == 0);
    assert(seq![mo[0]].last() == mo[0]);
    assert(crate::chars::seq_dec_val(seq![mo[0]]) == crate::chars::digit_val(mo[0]));
    assert(mo.last() == mo[1]);
    assert(crate::chars::seq_dec_val(mo) == crate::chars::digit_val(mo[0]) * 10
        + crate::chars::digit_val(mo[1]));
    assert(da.drop_last() =~= seq![da[0]]);
    assert(seq![da[0]].drop_last() =~= Seq::<char>::empty());
    assert(seq![da[0]].last() == da[0]);
    assert(crate::chars::seq_dec_val(seq![da[0]]) == crate::chars::digit_val(da[0]));
    assert(da.last() == da[1]);
    assert(crate::chars::seq_dec_val(da) == crate::chars::digit_val(da[0]) * 10
        + crate::chars::digit_val(da[1]));
    assert(crate::chars::all_digits(mo)) by {
        assert(forall|i: int| 0 <= i < 2 ==> crate::chars::is_digit_char(#[trigger] mo[i]))
            by {
            assert(crate::chars::is_digit_char(mo[0]) && crate::chars::is_digit_char(mo[1]));
        }
    }
    assert(crate::chars::all_digits(da)) by {
        assert(forall|i: int| 0 <= i < 2 ==> crate::chars::is_digit_char(#[trigger] da[i]))
            by {
            assert(crate::chars::is_digit_char(da[0]) && crate::chars::is_digit_char(da[1]));
        }
    }
}

/// A rendered media kind reads back as the same kind.
pub proof fn lemma_media_name_reads_back(m: MediaType)
    ensures
        crate::tags::spec_media_of_name(crate::tags::spec_media_name(m)) == Some(m),
{
    reveal_strlit("movie");
    reveal_strlit("Movie");
    reveal_strlit("live action");
    reveal_strlit("Live Action");
    reveal_strlit("live Action");
    reveal_strlit("Live action");
    reveal_strlit("cartoon");
    reveal_strlit("Cartoon");
    reveal_strlit("anime");
    reveal_strlit("Anime");
    reveal_strlit("music video");
    reveal_strlit("Music Video");
    reveal_strlit("music Video");
    reveal_strlit("Music video");
    reveal_strlit("short");
    reveal_strlit("Short");
    reveal_strlit("ad");
    reveal_strlit("advert");
    reveal_strlit("advertisement");
    reveal_strlit("Ad");
    reveal_strlit("Advert");
    reveal_strlit("Advertisement");
    reveal_strlit("Album");
    reveal_strlit("album");
    reveal_strlit("Song");
    reveal_strlit("song");
    reveal_strlit("Radio");
    reveal_strlit("radio");
    reveal_strlit("podcast");
    reveal_strlit("Podcast");
    reveal_strlit("clip");
    reveal_strlit("Clip");
    reveal_strlit("misc");
    reveal_strlit("Misc");
    reveal_strlit("miscellaneous");
    reveal_strlit("Miscellaneous");
    reveal_strlit("image");
    reveal_strlit("Image");
    match m {
        MediaType::Video(v) => {
            match v {
                crate::tags::VideoType::Movie => {
                    assert(crate::tags::spec_media_of_name(("Movie")@) == Some(m));
                },
                crate::tags::VideoType::LiveAction => {
                    assert((("Live Action")@).len() != (("movie")@).len());
                    assert(("Live Action")@ != ("movie")@);
                    assert((("Live Action")@).len() != (("Movie")@).len());
                    assert(("Live Action")@ != ("Movie")@);
                    assert(crate::tags::spec_media_of_name(("Live Action")@) == Some(m));
                },
                crate::tags::VideoType::Cartoon => {
                    assert((("Cartoon")@).len() != (("movie")@).len());
                    assert(("Cartoon")@ != ("movie")@);
                    assert((("Cartoon")@).len() != (("Movie")@).len());
                    assert(("Cartoon")@ != ("Movie")@);
                    assert((("Cartoon")@).len() != (("live action")@).len());
                    assert(("Cartoon")@ != ("live action")@);
                    assert((("Cartoon")@).len() != (("Live Action")@).len());
                    assert(("Cartoon")@ != ("Live Action")@);
                    assert((("Cartoon")@).len() != (("live Action")@).len());
                    assert(("Cartoon")@ != ("live Action")@);
                    assert((("Cartoon")@).len() != (("Live action")@).len());
                    assert(("Cartoon")@ != ("Live action")@);
                    assert(crate::tags::spec_media_of_name(("Cartoon")@) == Some(m));
                },
                crate::tags::VideoType::Anime => {
                    assert((("Anime")@)[0] == 'A' && (("movie")@)[0] == 'm');
                    assert(("Anime")@ != ("movie")@);
                    assert((("Anime")@)[0] == 'A' && (("Movie")@)[0] == 'M');
                    assert(("Anime")@ != ("Movie")@);
                    assert((("Anime")@).len() != (("live action")@).len());
                    assert(("Anime")@ != ("live action")@);
                    assert((("Anime")@).len() != (("Live Action")@).len());
                    assert(("Anime")@ != ("Live Action")@);
                    assert((("Anime")@).len() != (("live Action")@).len());
                    assert(("Anime")@ != ("live Action")@);
                    assert((("Anime")@).len() != (("Live action")@).len());
                    assert(("Anime")@ != ("Live action")@);
                    assert((("Anime")@).len() != (("cartoon")@).len());
                    assert(("Anime")@ != ("cartoon")@);
                    assert((("Anime")@).len() != (("Cartoon")@).len());
                    assert(("Anime")@ != ("Cartoon")@);
                    assert(crate::tags::spec_media_of_name(("Anime")@) == Some(m));
                },
                crate::tags::VideoType::MusicVideo => {
                    assert((("Music Video")@).len() != (("movie")@).len());
                    assert(("Music Video")@ != ("movie")@);
                    assert((("Music Video")@).len() != (("Movie")@).len());
                    assert(("Music Video")@ != ("Movie")@);
                    assert((("Music Video")@)[0] == 'M' && (("live action")@)[0] == 'l');
                    assert(("Music Video")@ != ("live action")@);
                    assert((("Music Video")@)[0] == 'M' && (("Live Action")@)[0] == 'L');
                    assert(("Music Video")@ != ("Live Action")@);
                    assert((("Music Video")@)[0] == 'M' && (("live Action")@)[0] == 'l');
                    assert(("Music Video")@ != ("live Action")@);
                    assert((("Music Video")@)[0] == 'M' && (("Live action")@)[0] == 'L');
                    assert(("Music Video")@ != ("Live action")@);
                    assert((("Music Video")@).len() != (("cartoon")@).len());
                    assert(("Music Video")@ != ("cartoon")@);
                    assert((("Music Video")@).len() != (("Cartoon")@).len());
                    assert(("Music Video")@ != ("Cartoon")@);
                    assert((("Music Video")@).len() != (("anime")@).len());
                    assert(("Music Video")@ != ("anime")@);
                    assert((("Music Video")@).len() != (("Anime")@).len());
                    assert(("Music Video")@ != ("Anime")@);
                    assert(crate::tags::spec_media_of_name(("Music Video")@) == Some(m));
                },
                crate::tags::VideoType::Short => {
                    assert((("Short")@)[0] == 'S' && (("movie")@)[0] == 'm');
                    assert(("Short")@ != ("movie")@);
                    assert((("Short")@)[0] == 'S' && (("Movie")@)[0] == 'M');
                    assert(("Short")@ != ("Movie")@);
                    assert((("Short")@).len() != (("live action")@).len());
                    assert(("Short")@ != ("live action")@);
                    assert((("Short")@).len() != (("Live Action")@).len());
                    assert(("Short")@ != ("Live Action")@);
                    assert((("Short")@).len() != (("live Action")@).len());
                    assert(("Short")@ != ("live Action")@);
                    assert((("Short")@).len() != (("Live action")@).len());
                    assert(("Short")@ != ("Live action")@);
                    assert((("Short")@).len() != (("cartoon")@).len());
                    assert(("Short")@ != ("cartoon")@);
                    assert((("Short")@).len() != (("Cartoon")@).len());
                    assert(("Short")@ != ("Cartoon")@);
                    assert((("Short")@)[0] == 'S' && (("anime")@)[0] == 'a');
                    assert(("Short")@ != ("anime")@);
                    assert((("Short")@)[0] == 'S' && (("Anime")@)[0] == 'A');
                    assert(("Short")@ != ("Anime")@);
                    assert((("Short")@).len() != (("music video")@).len());
                    assert(("Short")@ != ("music video")@);
                    assert((("Short")@).len() != (("Music Video")@).len());
                    assert(("Short")@ != ("Music Video")@);
                    assert((("Short")@).len() != (("music Video")@).len());
                    assert(("Short")@ != ("music Video")@);
                    assert((("Short")@).len() != (("Music video")@).len());
                    assert(("Short")@ != ("Music video")@);
                    assert(crate::tags::spec_media_of_name(("Short")@) == Some(m));
                },
                crate::tags::VideoType::Advert => {
                    assert((("Advert")@).len() != (("movie")@).len());
                    assert(("Advert")@ != ("movie")@);
                    assert((("Advert")@).len() != (("Movie")@).len());
                    assert(("Advert")@ != ("Movie")@);
                    assert((("Advert")@).len() != (("live action")@).len());
                    assert(("Advert")@ != ("live action")@);
                    assert((("Advert")@).len() != (("Live Action")@).len());
                    assert(("Advert")@ != ("Live Action")@);
                    assert((("Advert")@).len() != (("live Action")@).len());
                    assert(("Advert")@ != ("live Action")@);
                    assert((("Advert")@).len() != (("Live action")@).len());
                    assert(("Advert")@ != ("Live action")@);
                    assert((("Advert")@).len() != (("cartoon")@).len());
                    assert(("Advert")@ != ("cartoon")@);
                    assert((("Advert")@).len() != (("Cartoon")@).len());
                    assert(("Advert")@ != ("Cartoon")@);
                    assert((("Advert")@).len() != (("anime")@).len());
                    assert(("Advert")@ != ("anime")@);
                    assert((("Advert")@).len() != (("Anime")@).len());
                    assert(("Advert")@ != ("Anime")@);
                    assert((("Advert")@).len() != (("music video")@).len());
                    assert(("Advert")@ != ("music video")@);
                    assert((("Advert")@).len() != (("Music Video")@).len());
                    assert(("Advert")@ != ("Music Video")@);
                    assert((("Advert")@).len() != (("music Video")@).len());
                    assert(("Advert")@ != ("music Video")@);
                    assert((("Advert")@).len() != (("Music video")@).len());
                    assert(("Advert")@ != ("Music video")@);
                    assert((("Advert")@).len() != (("short")@).len());
                    assert(("Advert")@ != ("short")@);
                    assert((("Advert")@).len() != (("Short")@).len());
                    assert(("Advert")@ != ("Short")@);
                    assert(crate::tags::spec_media_of_name(("Advert")@) == Some(m));
                },
            }
        },
        MediaType::Audio(a) => {
            match a {
                crate::tags::AudioType::Album => {
                    assert((("Album")@)[0] == 'A' && (("movie")@)[0] == 'm');
                    assert(("Album")@ != ("movie")@);
                    assert((("Album")@)[0] == 'A' && (("Movie")@)[0] == 'M');
                    assert(("Album")@ != ("Movie")@);
                    assert((("Album")@).len() != (("live action")@).len());
                    assert(("Album")@ != ("live action")@);
                    assert((("Album")@).len() != (("Live Action")@).len());
                    assert(("Album")@ != ("Live Action")@);
                    assert((("Album")@).len() != (("live Action")@).len());
                    assert(("Album")@ != ("live Action")@);
                    assert((("Album")@).len() != (("Live action")@).len());
                    assert(("Album")@ != ("Live action")@);
                    assert((("Album")@).len() != (("cartoon")@).len());
                    assert(("Album")@ != ("cartoon")@);
                    assert((("Album")@).len() != (("Cartoon")@).len());
                    assert(("Album")@ != ("Cartoon")@);
                    assert((("Album")@)[0] == 'A' && (("anime")@)[0] == 'a');
                    assert(("Album")@ != ("anime")@);
                    assert((("Album")@)[1] == 'l' && (("Anime")@)[1] == 'n');
                    assert(("Album")@ != ("Anime")@);
                    assert((("Album")@).len() != (("music video")@).len());
                    assert(("Album")@ != ("music video")@);
                    assert((("Album")@).len() != (("Music Video")@).len());
                    assert(("Album")@ != ("Music Video")@);
                    assert((("Album")@).len() != (("music Video")@).len());
                    assert(("Album")@ != ("music Video")@);
                    assert((("Album")@).len() != (("Music video")@).len());
                    assert(("Album")@ != ("Music video")@);
                    assert((("Album")@)[0] == 'A' && (("short")@)[0] == 's');
                    assert(("Album")@ != ("short")@);
                    assert((("Album")@)[0] == 'A' && (("Short")@)[0] == 'S');
                    assert(("Album")@ != ("Short")@);
                    assert((("Album")@).len() != (("ad")@).len());
                    assert(("Album")@ != ("ad")@);
                    assert((("Album")@).len() != (("advert")@).len());
                    assert(("Album")@ != ("advert")@);
                    assert((("Album")@).len() != (("advertisement")@).len());
                    assert(("Album")@ != ("advertisement")@);
                    assert((("Album")@).len() != (("Ad")@).len());
                    assert(("Album")@ != ("Ad")@);
                    assert((("Album")@).len() != (("Advert")@).len());
                    assert(("Album")@ != ("Advert")@);
                    assert((("Album")@).len() != (("Advertisement")@).len());
                    assert(("Album")@ != ("Advertisement")@);
                    assert(crate::tags::spec_media_of_name(("Album")@) == Some(m));
                },
                crate::tags::AudioType::Song => {
                    assert((("Song")@).len() != (("movie")@).len());
                    assert(("Song")@ != ("movie")@);
                    assert((("Song")@).len() != (("Movie")@).len());
                    assert(("Song")@ != ("Movie")@);
                    assert((("Song")@).len() != (("live action")@).len());
                    assert(("Song")@ != ("live action")@);
                    assert((("Song")@).len() != (("Live Action")@).len());
                    assert(("Song")@ != ("Live Action")@);
                    assert((("Song")@).len() != (("live Action")@).len());
                    assert(("Song")@ != ("live Action")@);
                    assert((("Song")@).len() != (("Live action")@).len());
                    assert(("Song")@ != ("Live action")@);
                    assert((("Song")@).len() != (("cartoon")@).len());
                    assert(("Song")@ != ("cartoon")@);
                    assert((("Song")@).len() != (("Cartoon")@).len());
                    assert(("Song")@ != ("Cartoon")@);
                    assert((("Song")@).len() != (("anime")@).len());
                    assert(("Song")@ != ("anime")@);
                    assert((("Song")@).len() != (("Anime")@).len());
                    assert(("Song")@ != ("Anime")@);
                    assert((("Song")@).len() != (("music video")@).len());
                    assert(("Song")@ != ("music video")@);
                    assert((("Song")@).len() != (("Music Video")@).len());
                    assert(("Song")@ != ("Music Video")@);
                    assert((("Song")@).len() != (("music Video")@).len());
                    assert(("Song")@ != ("music Video")@);
                    assert((("Song")@).len() != (("Music video")@).len());
                    assert(("Song")@ != ("Music video")@);
                    assert((("Song")@).len() != (("short")@).len());
                    assert(("Song")@ != ("short")@);
                    assert((("Song")@).len() != (("Short")@).len());
                    assert(("Song")@ != ("Short")@);
                    assert((("Song")@).len() != (("ad")@).len());
                    assert(("Song")@ != ("ad")@);
                    assert((("Song")@).len() != (("advert")@).len());
                    assert(("Song")@ != ("advert")@);
                    assert((("Song")@).len() != (("advertisement")@).len());
                    assert(("Song")@ != ("advertisement")@);
                    assert((("Song")@).len() != (("Ad")@).len());
                    assert(("Song")@ != ("Ad")@);
                    assert((("Song")@).len() != (("Advert")@).len());
                    assert(("Song")@ != ("Advert")@);
                    assert((("Song")@).len() != (("Advertisement")@).len());
                    assert(("Song")@ != ("Advertisement")@);
                    assert((("Song")@).len() != (("Album")@).len());
                    assert(("Song")@ != ("Album")@);
                    assert((("Song")@).len() != (("album")@).len());
                    assert(("Song")@ != ("album")@);
                    assert(crate::tags::spec_media_of_name(("Song")@) == Some(m));
                },
                crate::tags::AudioType::Radio => {
                    assert((("Radio")@)[0] == 'R' && (("movie")@)[0] == 'm');
                    assert(("Radio")@ != ("movie")@);
                    assert((("Radio")@)[0] == 'R' && (("Movie")@)[0] == 'M');
                    assert(("Radio")@ != ("Movie")@);
                    assert((("Radio")@).len() != (("live action")@).len());
                    assert(("Radio")@ != ("live action")@);
                    assert((("Radio")@).len() != (("Live Action")@).len());
                    assert(("Radio")@ != ("Live Action")@);
                    assert((("Radio")@).len() != (("live Action")@).len());
                    assert(("Radio")@ != ("live Action")@);
                    assert((("Radio")@).len() != (("Live action")@).len());
                    assert(("Radio")@ != ("Live action")@);
                    assert((("Radio")@).len() != (("cartoon")@).len());
                    assert(("Radio")@ != ("cartoon")@);
                    assert((("Radio")@).len() != (("Cartoon")@).len());
                    assert(("Radio")@ != ("Cartoon")@);
                    assert((("Radio")@)[0] == 'R' && (("anime")@)[0] == 'a');
                    assert(("Radio")@ != ("anime")@);
                    assert((("Radio")@)[0] == 'R' && (("Anime")@)[0] == 'A');
                    assert(("Radio")@ != ("Anime")@);
                    assert((("Radio")@).len() != (("music video")@).len());
                    assert(("Radio")@ != ("music video")@);
                    assert((("Radio")@).len() != (("Music Video")@).len());
                    assert(("Radio")@ != ("Music Video")@);
                    assert((("Radio")@).len() != (("music Video")@).len());
                    assert(("Radio")@ != ("music Video")@);
                    assert((("Radio")@).len() != (("Music video")@).len());
                    assert(("Radio")@ != ("Music video")@);
                    assert((("Radio")@)[0] == 'R' && (("short")@)[0] == 's');
                    assert(("Radio")@ != ("short")@);
                    assert((("Radio")@)[0] == 'R' && (("Short")@)[0] == 'S');
                    assert(("Radio")@ != ("Short")@);
                    assert((("Radio")@).len() != (("ad")@).len());
                    assert(("Radio")@ != ("ad")@);
                    assert((("Radio")@).len() != (("advert")@).len());
                    assert(("Radio")@ != ("advert")@);
                    assert((("Radio")@).len() != (("advertisement")@).len());
                    assert(("Radio")@ != ("advertisement")@);
                    assert((("Radio")@).len() != (("Ad")@).len());
                    assert(("Radio")@ != ("Ad")@);
                    assert((("Radio")@).len() != (("Advert")@).len());
                    assert(("Radio")@ != ("Advert")@);
                    assert((("Radio")@).len() != (("Advertisement")@).len());
                    assert(("Radio")@ != ("Advertisement")@);
                    assert((("Radio")@)[0] == 'R' && (("Album")@)[0] == 'A');
                    assert(("Radio")@ != ("Album")@);
                    assert((("Radio")@)[0] == 'R' && (("album")@)[0] == 'a');
                    assert(("Radio")@ != ("album")@);
                    assert((("Radio")@).len() != (("Song")@).len());
                    assert(("Radio")@ != ("Song")@);
                    assert((("Radio")@).len() != (("song")@).len());
                    assert(("Radio")@ != ("song")@);
                    assert(crate::tags::spec_media_of_name(("Radio")@) == Some(m));
                },
                crate::tags::AudioType::Podcast => {
                    assert((("Podcast")@).len() != (("movie")@).len());
                    assert(("Podcast")@ != ("movie")@);
                    assert((("Podcast")@).len() != (("Movie")@).len());
                    assert(("Podcast")@ != ("Movie")@);
                    assert((("Podcast")@).len() != (("live action")@).len());
                    assert(("Podcast")@ != ("live action")@);
                    assert((("Podcast")@).len() != (("Live Action")@).len());
                    assert(("Podcast")@ != ("Live Action")@);
                    assert((("Podcast")@).len() != (("live Action")@).len());
                    assert(("Podcast")@ != ("live Action")@);
                    assert((("Podcast")@).len() != (("Live action")@).len());
                    assert(("Podcast")@ != ("Live action")@);
                    assert((("Podcast")@)[0] == 'P' && (("cartoon")@)[0] == 'c');
                    assert(("Podcast")@ != ("cartoon")@);
                    assert((("Podcast")@)[0] == 'P' && (("Cartoon")@)[0] == 'C');
                    assert(("Podcast")@ != ("Cartoon")@);
                    assert((("Podcast")@).len() != (("anime")@).len());
                    assert(("Podcast")@ != ("anime")@);
                    assert((("Podcast")@).len() != (("Anime")@).len());
                    assert(("Podcast")@ != ("Anime")@);
                    assert((("Podcast")@).len() != (("music video")@).len());
                    assert(("Podcast")@ != ("music video")@);
                    assert((("Podcast")@).len() != (("Music Video")@).len());
                    assert(("Podcast")@ != ("Music Video")@);
                    assert((("Podcast")@).len() != (("music Video")@).len());
                    assert(("Podcast")@ != ("music Video")@);
                    assert((("Podcast")@).len() != (("Music video")@).len());
                    assert(("Podcast")@ != ("Music video")@);
                    assert((("Podcast")@).len() != (("short")@).len());
                    assert(("Podcast")@ != ("short")@);
                    assert((("Podcast")@).len() != (("Short")@).len());
                    assert(("Podcast")@ != ("Short")@);
                    assert((("Podcast")@).len() != (("ad")@).len());
                    assert(("Podcast")@ != ("ad")@);
                    assert((("Podcast")@).len() != (("advert")@).len());
                    assert(("Podcast")@ != ("advert")@);
                    assert((("Podcast")@).len() != (("advertisement")@).len());
                    assert(("Podcast")@ != ("advertisement")@);
                    assert((("Podcast")@).len() != (("Ad")@).len());
                    assert(("Podcast")@ != ("Ad")@);
                    assert((("Podcast")@).len() != (("Advert")@).len());
                    assert(("Podcast")@ != ("Advert")@);
                    assert((("Podcast")@).len() != (("Advertisement")@).len());
                    assert(("Podcast")@ != ("Advertisement")@);
                    assert((("Podcast")@).len() != (("Album")@).len());
                    assert(("Podcast")@ != ("Album")@);
                    assert((("Podcast")@).len() != (("album")@).len());
                    assert(("Podcast")@ != ("album")@);
                    assert((("Podcast")@).len() != (("Song")@).len());
                    assert(("Podcast")@ != ("Song")@);
                    assert((("Podcast")@).len() != (("song")@).len());
                    assert(("Podcast")@ != ("song")@);
                    assert((("Podcast")@).len() != (("Radio")@).len());
                    assert(("Podcast")@ != ("Radio")@);
                    assert((("Podcast")@).len() != (("radio")@).len());
                    assert(("Podcast")@ != ("radio")@);
                    assert(crate::tags::spec_media_of_name(("Podcast")@) == Some(m));
                },
                crate::tags::AudioType::Clip => {
                    assert((("Clip")@).len() != (("movie")@).len());
                    assert(("Clip")@ != ("movie")@);
                    assert((("Clip")@).len() != (("Movie")@).len());
                    assert(("Clip")@ != ("Movie")@);
                    assert((("Clip")@).len() != (("live action")@).len());
                    assert(("Clip")@ != ("live action")@);
                    assert((("Clip")@).len() != (("Live Action")@).len());
                    assert(("Clip")@ != ("Live Action")@);
                    assert((("Clip")@).len() != (("live Action")@).len());
                    assert(("Clip")@ != ("live Action")@);
                    assert((("Clip")@).len() != (("Live action")@).len());
                    assert(("Clip")@ != ("Live action")@);
                    assert((("Clip")@).len() != (("cartoon")@).len());
                    assert(("Clip")@ != ("cartoon")@);
                    assert((("Clip")@).len() != (("Cartoon")@).len());
                    assert(("Clip")@ != ("Cartoon")@);
                    assert((("Clip")@).len() != (("anime")@).len());
                    assert(("Clip")@ != ("anime")@);
                    assert((("Clip")@).len() != (("Anime")@).len());
                    assert(("Clip")@ != ("Anime")@);
                    assert((("Clip")@).len() != (("music video")@).len());
                    assert(("Clip")@ != ("music video")@);
                    assert((("Clip")@).len() != (("Music Video")@).len());
                    assert(("Clip")@ != ("Music Video")@);
                    assert((("Clip")@).len() != (("music Video")@).len());
                    assert(("Clip")@ != ("music Video")@);
                    assert((("Clip")@).len() != (("Music video")@).len());
                    assert(("Clip")@ != ("Music video")@);
                    assert((("Clip")@).len() != (("short")@).len());
                    assert(("Clip")@ != ("short")@);
                    assert((("Clip")@).len() != (("Short")@).len());
                    assert(("Clip")@ != ("Short")@);
                    assert((("Clip")@).len() != (("ad")@).len());
                    assert(("Clip")@ != ("ad")@);
                    assert((("Clip")@).len() != (("advert")@).len());
                    assert(("Clip")@ != ("advert")@);
                    assert((("Clip")@).len() != (("advertisement")@).len());
                    assert(("Clip")@ != ("advertisement")@);
                    assert((("Clip")@).len() != (("Ad")@).len());
                    assert(("Clip")@ != ("Ad")@);
                    assert((("Clip")@).len() != (("Advert")@).len());
                    assert(("Clip")@ != ("Advert")@);
                    assert((("Clip")@).len() != (("Advertisement")@).len());
                    assert(("Clip")@ != ("Advertisement")@);
                    assert((("Clip")@).len() != (("Album")@).len());
                    assert(("Clip")@ != ("Album")@);
                    assert((("Clip")@).len() != (("album")@).len());
                    assert(("Clip")@ != ("album")@);
                    assert((("Clip")@)[0] == 'C' && (("Song")@)[0] == 'S');
                    assert(("Clip")@ != ("Song")@);
                    assert((("Clip")@)[0] == 'C' && (("song")@)[0] == 's');
                    assert(("Clip")@ != ("song")@);
                    assert((("Clip")@).len() != (("Radio")@).len());
                    assert(("Clip")@ != ("Radio")@);
                    assert((("Clip")@).len() != (("radio")@).len());
                    assert(("Clip")@ != ("radio")@);
                    assert((("Clip")@).len() != (("podcast")@).len());
                    assert(("Clip")@ != ("podcast")@);
                    assert((("Clip")@).len() != (("Podcast")@).len());
                    assert(("Clip")@ != ("Podcast")@);
                    assert(crate::tags::spec_media_of_name(("Clip")@) == Some(m));
                },
                crate::tags::AudioType::Misc => {
                    assert((("Misc")@).len() != (("movie")@).len());
                    assert(("Misc")@ != ("movie")@);
                    assert((("Misc")@).len() != (("Movie")@).len());
                    assert(("Misc")@ != ("Movie")@);
                    assert((("Misc")@).len() != (("live action")@).len());
                    assert(("Misc")@ != ("live action")@);
                    assert((("Misc")@).len() != (("Live Action")@).len());
                    assert(("Misc")@ != ("Live Action")@);
                    assert((("Misc")@).len() != (("live Action")@).len());
                    assert(("Misc")@ != ("live Action")@);
                    assert((("Misc")@).len() != (("Live action")@).len());
                    assert(("Misc")@ != ("Live action")@);
                    assert((("Misc")@).len() != (("cartoon")@).len());
                    assert(("Misc")@ != ("cartoon")@);
                    assert((("Misc")@).len() != (("Cartoon")@).len());
                    assert(("Misc")@ != ("Cartoon")@);
                    assert((("Misc")@).len() != (("anime")@).len());
                    assert(("Misc")@ != ("anime")@);
                    assert((("Misc")@).len() != (("Anime")@).len());
                    assert(("Misc")@ != ("Anime")@);
                    assert((("Misc")@).len() != (("music video")@).len());
                    assert(("Misc")@ != ("music video")@);
                    assert((("Misc")@).len() != (("Music Video")@).len());
                    assert(("Misc")@ != ("Music Video")@);
                    assert((("Misc")@).len() != (("music Video")@).len());
                    assert(("Misc")@ != ("music Video")@);
                    assert((("Misc")@).len() != (("Music video")@).len());
                    assert(("Misc")@ != ("Music video")@);
                    assert((("Misc")@).len() != (("short")@).len());
                    assert(("Misc")@ != ("short")@);
                    assert((("Misc")@).len() != (("Short")@).len());
                    assert(("Misc")@ != ("Short")@);
                    assert((("Misc")@).len() != (("ad")@).len());
                    assert(("Misc")@ != ("ad")@);
                    assert((("Misc")@).len() != (("advert")@).len());
                    assert(("Misc")@ != ("advert")@);
                    assert((("Misc")@).len() != (("advertisement")@).len());
                    assert(("Misc")@ != ("advertisement")@);
                    assert((("Misc")@).len() != (("Ad")@).len());
                    assert(("Misc")@ != ("Ad")@);
                    assert((("Misc")@).len() != (("Advert")@).len());
                    assert(("Misc")@ != ("Advert")@);
                    assert((("Misc")@).len() != (("Advertisement")@).len());
                    assert(("Misc")@ != ("Advertisement")@);
                    assert((("Misc")@).len() != (("Album")@).len());
                    assert(("Misc")@ != ("Album")@);
                    assert((("Misc")@).len() != (("album")@).len());
                    assert(("Misc")@ != ("album")@);
                    assert((("Misc")@)[0] == 'M' && (("Song")@)[0] == 'S');
                    assert(("Misc")@ != ("Song")@);
                    assert((("Misc")@)[0] == 'M' && (("song")@)[0] == 's');
                    assert(("Misc")@ != ("song")@);
                    assert((("Misc")@).len() != (("Radio")@).len());
                    assert(("Misc")@ != ("Radio")@);
                    assert((("Misc")@).len() != (("radio")@).len());
                    assert(("Misc")@ != ("radio")@);
                    assert((("Misc")@).len() != (("podcast")@).len());
                    assert(("Misc")@ != ("podcast")@);
                    assert((("Misc")@).len() != (("Podcast")@).len());
                    assert(("Misc")@ != ("Podcast")@);
                    assert((("Misc")@)[0] == 'M' && (("clip")@)[0] == 'c');
                    assert(("Misc")@ != ("clip")@);
                    assert((("Misc")@)[0] == 'M' && (("Clip")@)[0] == 'C');
                    assert(("Misc")@ != ("Clip")@);
                    assert(crate::tags::spec_media_of_name(("Misc")@) == Some(m));
                },
            }
        },
        MediaType::Image => {
                    assert((("Image")@)[0] == 'I' && (("movie")@)[0] == 'm');
                    assert(("Image")@ != ("movie")@);
                    assert((("Image")@)[0] == 'I' && (("Movie")@)[0] == 'M');
                    assert(("Image")@ != ("Movie")@);
                    assert((("Image")@).len() != (("live action")@).len());
                    assert(("Image")@ != ("live action")@);
                    assert((("Image")@).len() != (("Live Action")@).len());
                    assert(("Image")@ != ("Live Action")@);
                    assert((("Image")@).len() != (("live Action")@).len());
                    assert(("Image")@ != ("live Action")@);
                    assert((("Image")@).len() != (("Live action")@).len());
                    assert(("Image")@ != ("Live action")@);
                    assert((("Image")@).len() != (("cartoon")@).len());
                    assert(("Image")@ != ("cartoon")@);
                    assert((("Image")@).len() != (("Cartoon")@).len());
                    assert(("Image")@ != ("Cartoon")@);
                    assert((("Image")@)[0] == 'I' && (("anime")@)[0] == 'a');
                    assert(("Image")@ != ("anime")@);
                    assert((("Image")@)[0] == 'I' && (("Anime")@)[0] == 'A');
                    assert(("Image")@ != ("Anime")@);
                    assert((("Image")@).len() != (("music video")@).len());
                    assert(("Image")@ != ("music video")@);
                    assert((("Image")@).len() != (("Music Video")@).len());
                    assert(("Image")@ != ("Music Video")@);
                    assert((("Image")@).len() != (("music Video")@).len());
                    assert(("Image")@ != ("music Video")@);
                    assert((("Image")@).len() != (("Music video")@).len());
                    assert(("Image")@ != ("Music video")@);
                    assert((("Image")@)[0] == 'I' && (("short")@)[0] == 's');
                    assert(("Image")@ != ("short")@);
                    assert((("Image")@)[0] == 'I' && (("Short")@)[0] == 'S');
                    assert(("Image")@ != ("Short")@);
                    assert((("Image")@).len() != (("ad")@).len());
                    assert(("Image")@ != ("ad")@);
                    assert((("Image")@).len() != (("advert")@).len());
                    assert(("Image")@ != ("advert")@);
                    assert((("Image")@).len() != (("advertisement")@).len());
                    assert(("Image")@ != ("advertisement")@);
                    assert((("Image")@).len() != (("Ad")@).len());
                    assert(("Image")@ != ("Ad")@);
                    assert((("Image")@).len() != (("Advert")@).len());
                    assert(("Image")@ != ("Advert")@);
                    assert((("Image")@).len() != (("Advertisement")@).len());
                    assert(("Image")@ != ("Advertisement")@);
                    assert((("Image")@)[0] == 'I' && (("Album")@)[0] == 'A');
                    assert(("Image")@ != ("Album")@);
                    assert((("Image")@)[0] == 'I' && (("album")@)[0] == 'a');
                    assert(("Image")@ != ("album")@);
                    assert((("Image")@).len() != (("Song")@).len());
                    assert(("Image")@ != ("Song")@);
                    assert((("Image")@).len() != (("song")@).len());
                    assert(("Image")@ != ("song")@);
                    assert((("Image")@)[0] == 'I' && (("Radio")@)[0] == 'R');
                    assert(("Image")@ != ("Radio")@);
                    assert((("Image")@)[0] == 'I' && (("radio")@)[0] == 'r');
                    assert(("Image")@ != ("radio")@);
                    assert((("Image")@).len() != (("podcast")@).len());
                    assert(("Image")@ != ("podcast")@);
                    assert((("Image")@).len() != (("Podcast")@).len());
                    assert(("Image")@ != ("Podcast")@);
                    assert((("Image")@).len() != (("clip")@).len());
                    assert(("Image")@ != ("clip")@);
                    assert((("Image")@).len() != (("Clip")@).len());
                    assert(("Image")@ != ("Clip")@);
                    assert((("Image")@).len() != (("misc")@).len());
                    assert(("Image")@ != ("misc")@);
                    assert((("Image")@).len() != (("Misc")@).len());
                    assert(("Image")@ != ("Misc")@);
                    assert((("Image")@).len() != (("miscellaneous")@).len());
                    assert(("Image")@ != ("miscellaneous")@);
                    assert((("Image")@).len() != (("Miscellaneous")@).len());
                    assert(("Image")@ != ("Miscellaneous")@);
                    assert(crate::tags::spec_media_of_name(("Image")@) == Some(m));
        },
    }
}

/// A quoted value without embedded quotes reads back, in any following
/// context, as exactly one literal token holding that value.
pub proof fn lemma_quoted_reads_back(content: Seq<char>, rest: Seq<char>)
    requires
        forall|i: int| 0 <= i < content.len() ==> #[trigger] content[i] != '"',
    ensures
        crate::parse::spec_is_data(quoted(content) + rest, 0) == crate::parse::RuleV::Tok(
            crate::parse::TokenV::Data(content),
            (content.len() + 2) as nat,
        ),
{
    let s = quoted(content) + rest;
    assert(s[0] == '"');
    let close = content.len() + 1;
    assert(s[close as int] == '"');
    assert forall|i: int| 1 <= i < close implies s[i] != '"' by {
        assert(s[i] == content[i - 1]);
    }
    crate::parse::lemma_find_char_pub(s, '"', 1, close as int);
    assert(s.subrange(1, close as int) =~= content);
}

/// The canonical name under which the renderer writes each tag.
pub open spec fn spec_tag_canonical_name(t: TagType) -> Seq<char> {
    match t {
        TagType::Title => "title"@,
        TagType::MediaType => "media_type"@,
        TagType::Genre => "genre"@,
        TagType::Series => "series"@,
        TagType::Season => "season"@,
        TagType::Episode => "episode"@,
        TagType::Album => "album"@,
        TagType::TrackNo => "track_no"@,
        TagType::Studio => "studio"@,
        TagType::Director => "director"@,
        TagType::Artist => "artist"@,
        TagType::Composer => "composer"@,
        TagType::Cast => "cast"@,
        TagType::Photographer => "photographer"@,
        TagType::Year => "year"@,
        TagType::Airdate => "airdate"@,
        TagType::Comment => "comment"@,
        TagType::Summary => "summary"@,
        TagType::Country => "country"@,
        TagType::Rating => "rating"@,
        TagType::License => "license"@,
        TagType::Copyright => "copyright"@,
        TagType::URL => "url"@,
        TagType::Picture => "picture"@,
        TagType::Runtime => "runtime"@,
        TagType::AspectRatio => "aspect_ratio"@,
        TagType::AudioTracks => "audio_tracks"@,
        TagType::Subtitles => "subtitles"@,
    }
}

/// Every tag name the renderer uses reads back as the same tag.
pub proof fn lemma_tag_name_reads_back(t: TagType)
    ensures
        crate::tags::spec_tag_of_name(spec_tag_canonical_name(t)) == Some(t),
{
    reveal_strlit("Airdate");
    reveal_strlit("Album");
    reveal_strlit("Artist");
    reveal_strlit("AspectRatio");
    reveal_strlit("Aspect_Ratio");
    reveal_strlit("AudioTracks");
    reveal_strlit("Audio_Tracks");
    reveal_strlit("Cast");
    reveal_strlit("Comment");
    reveal_strlit("Composer");
    reveal_strlit("Copyright");
    reveal_strlit("Country");
    reveal_strlit("Director");
    reveal_strlit("Episode");
    reveal_strlit("Genre");
    reveal_strlit("License");
    reveal_strlit("MediaType");
    reveal_strlit("Photographer");
    reveal_strlit("Picture");
    reveal_strlit("Rating");
    reveal_strlit("Runtime");
    reveal_strlit("Season");
    reveal_strlit("Series");
    reveal_strlit("Studio");
    reveal_strlit("Subtitles");
    reveal_strlit("Summary");
    reveal_strlit("Title");
    reveal_strlit("TrackNo");
    reveal_strlit("URL");
    reveal_strlit("Year");
    reveal_strlit("airdate");
    reveal_strlit("album");
    reveal_strlit("artist");
    reveal_strlit("aspect_ratio");
    reveal_strlit("audio_tracks");
    reveal_strlit("cast");
    reveal_strlit("comment");
    reveal_strlit("composer");
    reveal_strlit("copyright");
    reveal_strlit("country");
    reveal_strlit("director");
    reveal_strlit("episode");
    reveal_strlit("genre");
    reveal_strlit("license");
    reveal_strlit("media_type");
    reveal_strlit("mediatype");
    reveal_strlit("photographer");
    reveal_strlit("picture");
    reveal_strlit("rating");
    reveal_strlit("runtime");
    reveal_strlit("season");
    reveal_strlit("series");
    reveal_strlit("studio");
    reveal_strlit("subtitles");
    reveal_strlit("summary");
    reveal_strlit("title");
    reveal_strlit("track");
    reveal_strlit("track#");
    reveal_strlit("track_no");
    reveal_strlit("url");
    reveal_strlit("year");
    match t {
        TagType::Title => {
            assert(crate::tags::spec_tag_of_name(("title")@) == Some(t));
        },
        TagType::MediaType => {
            assert((("media_type")@).len() != (("title")@).len());
            assert(("media_type")@ != ("title")@);
            assert((("media_type")@).len() != (("Title")@).len());
            assert(("media_type")@ != ("Title")@);
            assert(crate::tags::spec_tag_of_name(("media_type")@) == Some(t));
        },
        TagType::Genre => {
            assert((("genre")@)[0] == 'g' && (("title")@)[0] == 't');
            assert(("genre")@ != ("title")@);
            assert((("genre")@)[0] == 'g' && (("Title")@)[0] == 'T');
            assert(("genre")@ != ("Title")@);
            assert((("genre")@).len() != (("media_type")@).len());
            assert(("genre")@ != ("media_type")@);
            assert((("genre")@).len() != (("mediatype")@).len());
            assert(("genre")@ != ("mediatype")@);
            assert((("genre")@).len() != (("MediaType")@).len());
            assert(("genre")@ != ("MediaType")@);
            assert(crate::tags::spec_tag_of_name(("genre")@) == Some(t));
        },
        TagType::Series => {
            assert((("series")@).len() != (("title")@).len());
            assert(("series")@ != ("title")@);
            assert((("series")@).len() != (("Title")@).len());
            assert(("series")@ != ("Title")@);
            assert((("series")@).len() != (("media_type")@).len());
            assert(("series")@ != ("media_type")@);
            assert((("series")@).len() != (("mediatype")@).len());
            assert(("series")@ != ("mediatype")@);
            assert((("series")@).len() != (("MediaType")@).len());
            assert(("series")@ != ("MediaType")@);
            assert((("series")@).len() != (("genre")@).len());
            assert(("series")@ != ("genre")@);
            assert((("series")@).len() != (("Genre")@).len());
            assert(("series")@ != ("Genre")@);
            assert(crate::tags::spec_tag_of_name(("series")@) == Some(t));
        },
        TagType::Season => {
            assert((("season")@).len() != (("title")@).len());
            assert(("season")@ != ("title")@);
            assert((("season")@).len() != (("Title")@).len());
            assert(("season")@ != ("Title")@);
            assert((("season")@).len() != (("media_type")@).len());
            assert(("season")@ != ("media_type")@);
            assert((("season")@).len() != (("mediatype")@).len());
            assert(("season")@ != ("mediatype")@);
            assert((("season")@).len() != (("MediaType")@).len());
            assert(("season")@ != ("MediaType")@);
            assert((("season")@).len() != (("genre")@).len());
            assert(("season")@ != ("genre")@);
            assert((("season")@).len() != (("Genre")@).len());
            assert(("season")@ != ("Genre")@);
            assert((("season")@)[2] == 'a' && (("series")@)[2] == 'r');
            assert(("season")@ != ("series")@);
            assert((("season")@)[0] == 's' && (("Series")@)[0] == 'S');
            assert(("season")@ != ("Series")@);
            assert(crate::tags::spec_tag_of_name(("season")@) == Some(t));
        },
        TagType::Episode => {
            assert((("episode")@).len() != (("title")@).len());
            assert(("episode")@ != ("title")@);
            assert((("episode")@).len() != (("Title")@).len());
            assert(("episode")@ != ("Title")@);
            assert((("episode")@).len() != (("media_type")@).len());
            assert(("episode")@ != ("media_type")@);
            assert((("episode")@).len() != (("mediatype")@).len());
            assert(("episode")@ != ("mediatype")@);
            assert((("episode")@).len() != (("MediaType")@).len());
            assert(("episode")@ != ("MediaType")@);
            assert((("episode")@).len() != (("genre")@).len());
            assert(("episode")@ != ("genre")@);
            assert((("episode")@).len() != (("Genre")@).len());
            assert(("episode")@ != ("Genre")@);
            assert((("episode")@).len() != (("series")@).len());
            assert(("episode")@ != ("series")@);
            assert((("episode")@).len() != (("Series")@).len());
            assert(("episode")@ != ("Series")@);
            assert((("episode")@).len() != (("season")@).len());
            assert(("episode")@ != ("season")@);
            assert((("episode")@).len() != (("Season")@).len());
            assert(("episode")@ != ("Season")@);
            assert(crate::tags::spec_tag_of_name(("episode")@) == Some(t));
        },
        TagType::Album => {
            assert((("album")@)[0] == 'a' && (("title")@)[0] == 't');
            assert(("album")@ != ("title")@);
            assert((("album")@)[0] == 'a' && (("Title")@)[0] == 'T');
            assert(("album")@ != ("Title")@);
            assert((("album")@).len() != (("media_type")@).len());
            assert(("album")@ != ("media_type")@);
            assert((("album")@).len() != (("mediatype")@).len());
            assert(("album")@ != ("mediatype")@);
            assert((("album")@).len() != (("MediaType")@).len());
            assert(("album")@ != ("MediaType")@);
            assert((("album")@)[0] == 'a' && (("genre")@)[0] == 'g');
            assert(("album")@ != ("genre")@);
            assert((("album")@)[0] == 'a' && (("Genre")@)[0] == 'G');
            assert(("album")@ != ("Genre")@);
            assert((("album")@).len() != (("series")@).len());
            assert(("album")@ != ("series")@);
            assert((("album")@).len() != (("Series")@).len());
            assert(("album")@ != ("Series")@);
            assert((("album")@).len() != (("season")@).len());
            assert(("album")@ != ("season")@);
            assert((("album")@).len() != (("Season")@).len());
            assert(("album")@ != ("Season")@);
            assert((("album")@).len() != (("Episode")@).len());
            assert(("album")@ != ("Episode")@);
            assert((("album")@).len() != (("episode")@).len());
            assert(("album")@ != ("episode")@);
            assert(crate::tags::spec_tag_of_name(("album")@) == Some(t));
        },
        TagType::TrackNo => {
            assert((("track_no")@).len() != (("title")@).len());
            assert(("track_no")@ != ("title")@);
            assert((("track_no")@).len() != (("Title")@).len());
            assert(("track_no")@ != ("Title")@);
            assert((("track_no")@).len() != (("media_type")@).len());
            assert(("track_no")@ != ("media_type")@);
            assert((("track_no")@).len() != (("mediatype")@).len());
            assert(("track_no")@ != ("mediatype")@);
            assert((("track_no")@).len() != (("MediaType")@).len());
            assert(("track_no")@ != ("MediaType")@);
            assert((("track_no")@).len() != (("genre")@).len());
            assert(("track_no")@ != ("genre")@);
            assert((("track_no")@).len() != (("Genre")@).len());
            assert(("track_no")@ != ("Genre")@);
            assert((("track_no")@).len() != (("series")@).len());
            assert(("track_no")@ != ("series")@);
            assert((("track_no")@).len() != (("Series")@).len());
            assert(("track_no")@ != ("Series")@);
            assert((("track_no")@).len() != (("season")@).len());
            assert(("track_no")@ != ("season")@);
            assert((("track_no")@).len() != (("Season")@).len());
            assert(("track_no")@ != ("Season")@);
            assert((("track_no")@).len() != (("Episode")@).len());
            assert(("track_no")@ != ("Episode")@);
            assert((("track_no")@).len() != (("episode")@).len());
            assert(("track_no")@ != ("episode")@);
            assert((("track_no")@).len() != (("Album")@).len());
            assert(("track_no")@ != ("Album")@);
            assert((("track_no")@).len() != (("album")@).len());
            assert(("track_no")@ != ("album")@);
            assert(crate::tags::spec_tag_of_name(("track_no")@) == Some(t));
        },
        TagType::Studio => {
            assert((("studio")@).len() != (("title")@).len());
            assert(("studio")@ != ("title")@);
            assert((("studio")@).len() != (("Title")@).len());
            assert(("studio")@ != ("Title")@);
            assert((("studio")@).len() != (("media_type")@).len());
            assert(("studio")@ != ("media_type")@);
            assert((("studio")@).len() != (("mediatype")@).len());
            assert(("studio")@ != ("mediatype")@);
            assert((("studio")@).len() != (("MediaType")@).len());
            assert(("studio")@ != ("MediaType")@);
            assert((("studio")@).len() != (("genre")@).len());
            assert(("studio")@ != ("genre")@);
            assert((("studio")@).len() != (("Genre")@).len());
            assert(("studio")@ != ("Genre")@);
            assert((("studio")@)[1] == 't' && (("series")@)[1] == 'e');
            assert(("studio")@ != ("series")@);
            assert((("studio")@)[0] == 's' && (("Series")@)[0] == 'S');
            assert(("studio")@ != ("Series")@);
            assert((("studio")@)[1] == 't' && (("season")@)[1] == 'e');
            assert(("studio")@ != ("season")@);
            assert((("studio")@)[0] == 's' && (("Season")@)[0] == 'S');
            assert(("studio")@ != ("Season")@);
            assert((("studio")@).len() != (("Episode")@).len());
            assert(("studio")@ != ("Episode")@);
            assert((("studio")@).len() != (("episode")@).len());
            assert(("studio")@ != ("episode")@);
            assert((("studio")@).len() != (("Album")@).len());
            assert(("studio")@ != ("Album")@);
            assert((("studio")@).len() != (("album")@).len());
            assert(("studio")@ != ("album")@);
            assert((("studio")@).len() != (("track_no")@).len());
            assert(("studio")@ != ("track_no")@);
            assert((("studio")@).len() != (("track")@).len());
            assert(("studio")@ != ("track")@);
            assert((("studio")@)[0] == 's' && (("track#")@)[0] == 't');
            assert(("studio")@ != ("track#")@);
            assert((("studio")@).len() != (("TrackNo")@).len());
            assert(("studio")@ != ("TrackNo")@);
            assert(crate::tags::spec_tag_of_name(("studio")@) == Some(t));
        },
        TagType::Director => {
            assert((("director")@).len() != (("title")@).len());
            assert(("director")@ != ("title")@);
            assert((("director")@).len() != (("Title")@).len());
            assert(("director")@ != ("Title")@);
            assert((("director")@).len() != (("media_type")@).len());
            assert(("director")@ != ("media_type")@);
            assert((("director")@).len() != (("mediatype")@).len());
            assert(("director")@ != ("mediatype")@);
            assert((("director")@).len() != (("MediaType")@).len());
            assert(("director")@ != ("MediaType")@);
            assert((("director")@).len() != (("genre")@).len());
            assert(("director")@ != ("genre")@);
            assert((("director")@).len() != (("Genre")@).len());
            assert(("director")@ != ("Genre")@);
            assert((("director")@).len() != (("series")@).len());
            assert(("director")@ != ("series")@);
            assert((("director")@).len() != (("Series")@).len());
            assert(("director")@ != ("Series")@);
            assert((("director")@).len() != (("season")@).len());
            assert(("director")@ != ("season")@);
            assert((("director")@).len() != (("Season")@).len());
            assert(("director")@ != ("Season")@);
            assert((("director")@).len() != (("Episode")@).len());
            assert(("director")@ != ("Episode")@);
            assert((("director")@).len() != (("episode")@).len());
            assert(("director")@ != ("episode")@);
            assert((("director")@).len() != (("Album")@).len());
            assert(("director")@ != ("Album")@);
            assert((("director")@).len() != (("album")@).len());
            assert(("director")@ != ("album")@);
            assert((("director")@)[0] == 'd' && (("track_no")@)[0] == 't');
            assert(("director")@ != ("track_no")@);
            assert((("director")@).len() != (("track")@).len());
            assert(("director")@ != ("track")@);
            assert((("director")@).len() != (("track#")@).len());
            assert(("director")@ != ("track#")@);
            assert((("director")@).len() != (("TrackNo")@).len());
            assert(("director")@ != ("TrackNo")@);
            assert((("director")@).len() != (("studio")@).len());
            assert(("director")@ != ("studio")@);
            assert((("director")@).len() != (("Studio")@).len());
            assert(("director")@ != ("Studio")@);
            assert(crate::tags::spec_tag_of_name(("director")@) == Some(t));
        },
        TagType::Artist => {
            assert((("artist")@).len() != (("title")@).len());
            assert(("artist")@ != ("title")@);
            assert((("artist")@).len() != (("Title")@).len());
            assert(("artist")@ != ("Title")@);
            assert((("artist")@).len() != (("media_type")@).len());
            assert(("artist")@ != ("media_type")@);
            assert((("artist")@).len() != (("mediatype")@).len());
            assert(("artist")@ != ("mediatype")@);
            assert((("artist")@).len() != (("MediaType")@).len());
            assert(("artist")@ != ("MediaType")@);
            assert((("artist")@).len() != (("genre")@).len());
            assert(("artist")@ != ("genre")@);
            assert((("artist")@).len() != (("Genre")@).len());
            assert(("artist")@ != ("Genre")@);
            assert((("artist")@)[0] == 'a' && (("series")@)[0] == 's');
            assert(("artist")@ != ("series")@);
            assert((("artist")@)[0] == 'a' && (("Series")@)[0] == 'S');
            assert(("artist")@ != ("Series")@);
            assert((("artist")@)[0] == 'a' && (("season")@)[0] == 's');
            assert(("artist")@ != ("season")@);
            assert((("artist")@)[0] == 'a' && (("Season")@)[0] == 'S');
            assert(("artist")@ != ("Season")@);
            assert((("artist")@).len() != (("Episode")@).len());
            assert(("artist")@ != ("Episode")@);
            assert((("artist")@).len() != (("episode")@).len());
            assert(("artist")@ != ("episode")@);
            assert((("artist")@).len() != (("Album")@).len());
            assert(("artist")@ != ("Album")@);
            assert((("artist")@).len() != (("album")@).len());
            assert(("artist")@ != ("album")@);
            assert((("artist")@).len() != (("track_no")@).len());
            assert(("artist")@ != ("track_no")@);
            assert((("artist")@).len() != (("track")@).len());
            assert(("artist")@ != ("track")@);
            assert((("artist")@)[0] == 'a' && (("track#")@)[0] == 't');
            assert(("artist")@ != ("track#")@);
            assert((("artist")@).len() != (("TrackNo")@).len());
            assert(("artist")@ != ("TrackNo")@);
            assert((("artist")@)[0] == 'a' && (("studio")@)[0] == 's');
            assert(("artist")@ != ("studio")@);
            assert((("artist")@)[0] == 'a' && (("Studio")@)[0] == 'S');
            assert(("artist")@ != ("Studio")@);
            assert((("artist")@).len() != (("director")@).len());
            assert(("artist")@ != ("director")@);
            assert((("artist")@).len() != (("Director")@).len());
            assert(("artist")@ != ("Director")@);
            assert(crate::tags::spec_tag_of_name(("artist")@) == Some(t));
        },
        TagType::Composer => {
            assert((("composer")@).len() != (("title")@).len());
            assert(("composer")@ != ("title")@);
            assert((("composer")@).len() != (("Title")@).len());
            assert(("composer")@ != ("Title")@);
            assert((("composer")@).len() != (("media_type")@).len());
            assert(("composer")@ != ("media_type")@);
            assert((("composer")@).len() != (("mediatype")@).len());
            assert(("composer")@ != ("mediatype")@);
            assert((("composer")@).len() != (("MediaType")@).len());
            assert(("composer")@ != ("MediaType")@);
            assert((("composer")@).len() != (("genre")@).len());
            assert(("composer")@ != ("genre")@);
            assert((("composer")@).len() != (("Genre")@).len());
            assert(("composer")@ != ("Genre")@);
            assert((("composer")@).len() != (("series")@).len());
            assert(("composer")@ != ("series")@);
            assert((("composer")@).len() != (("Series")@).len());
            assert(("composer")@ != ("Series")@);
            assert((("composer")@).len() != (("season")@).len());
            assert(("composer")@ != ("season")@);
            assert((("composer")@).len() != (("Season")@).len());
            assert(("composer")@ != ("Season")@);
            assert((("composer")@).len() != (("Episode")@).len());
            assert(("composer")@ != ("Episode")@);
            assert((("composer")@).len() != (("episode")@).len());
            assert(("composer")@ != ("episode")@);
            assert((("composer")@).len() != (("Album")@).len());
            assert(("composer")@ != ("Album")@);
            assert((("composer")@).len() != (("album")@).len());
            assert(("composer")@ != ("album")@);
            assert((("composer")@)[0] == 'c' && (("track_no")@)[0] == 't');
            assert(("composer")@ != ("track_no")@);
            assert((("composer")@).len() != (("track")@).len());
            assert(("composer")@ != ("track")@);
            assert((("composer")@).len() != (("track#")@).len());
            assert(("composer")@ != ("track#")@);
            assert((("composer")@).len() != (("TrackNo")@).len());
            assert(("composer")@ != ("TrackNo")@);
            assert((("composer")@).len() != (("studio")@).len());
            assert(("composer")@ != ("studio")@);
            assert((("composer")@).len() != (("Studio")@).len());
            assert(("composer")@ != ("Studio")@);
            assert((("composer")@)[0] == 'c' && (("director")@)[0] == 'd');
            assert(("composer")@ != ("director")@);
            assert((("composer")@)[0] == 'c' && (("Director")@)[0] == 'D');
            assert(("composer")@ != ("Director")@);
            assert((("composer")@).len() != (("artist")@).len());
            assert(("composer")@ != ("artist")@);
            assert((("composer")@).len() != (("Artist")@).len());
            assert(("composer")@ != ("Artist")@);
            assert(crate::tags::spec_tag_of_name(("composer")@) == Some(t));
        },
        TagType::Cast => {
            assert((("cast")@).len() != (("title")@).len());
            assert(("cast")@ != ("title")@);
            assert((("cast")@).len() != (("Title")@).len());
            assert(("cast")@ != ("Title")@);
            assert((("cast")@).len() != (("media_type")@).len());
            assert(("cast")@ != ("media_type")@);
            assert((("cast")@).len() != (("mediatype")@).len());
            assert(("cast")@ != ("mediatype")@);
            assert((("cast")@).len() != (("MediaType")@).len());
            assert(("cast")@ != ("MediaType")@);
            assert((("cast")@).len() != (("genre")@).len());
            assert(("cast")@ != ("genre")@);
            assert((("cast")@).len() != (("Genre")@).len());
            assert(("cast")@ != ("Genre")@);
            assert((("cast")@).len() != (("series")@).len());
            assert(("cast")@ != ("series")@);
            assert((("cast")@).len() != (("Series")@).len());
            assert(("cast")@ != ("Series")@);
            assert((("cast")@).len() != (("season")@).len());
            assert(("cast")@ != ("season")@);
            assert((("cast")@).len() != (("Season")@).len());
            assert(("cast")@ != ("Season")@);
            assert((("cast")@).len() != (("Episode")@).len());
            assert(("cast")@ != ("Episode")@);
            assert((("cast")@).len() != (("episode")@).len());
            assert(("cast")@ != ("episode")@);
            assert((("cast")@).len() != (("Album")@).len());
            assert(("cast")@ != ("Album")@);
            assert((("cast")@).len() != (("album")@).len());
            assert(("cast")@ != ("album")@);
            assert((("cast")@).len() != (("track_no")@).len());
            assert(("cast")@ != ("track_no")@);
            assert((("cast")@).len() != (("track")@).len());
            assert(("cast")@ != ("track")@);
            assert((("cast")@).len() != (("track#")@).len());
            assert(("cast")@ != ("track#")@);
            assert((("cast")@).len() != (("TrackNo")@).len());
            assert(("cast")@ != ("TrackNo")@);
            assert((("cast")@).len() != (("studio")@).len());
            assert(("cast")@ != ("studio")@);
            assert((("cast")@).len() != (("Studio")@).len());
            assert(("cast")@ != ("Studio")@);
            assert((("cast")@).len() != (("director")@).len());
            assert(("cast")@ != ("director")@);
            assert((("cast")@).len() != (("Director")@).len());
            assert(("cast")@ != ("Director")@);
            assert((("cast")@).len() != (("artist")@).len());
            assert(("cast")@ != ("artist")@);
            assert((("cast")@).len() != (("Artist")@).len());
            assert(("cast")@ != ("Artist")@);
            assert((("cast")@).len() != (("composer")@).len());
            assert(("cast")@ != ("composer")@);
            assert((("cast")@).len() != (("Composer")@).len());
            assert(("cast")@ != ("Composer")@);
            assert(crate::tags::spec_tag_of_name(("cast")@) == Some(t));
        },
        TagType::Photographer => {
            assert((("photographer")@).len() != (("title")@).len());
            assert(("photographer")@ != ("title")@);
            assert((("photographer")@).len() != (("Title")@).len());
            assert(("photographer")@ != ("Title")@);
            assert((("photographer")@).len() != (("media_type")@).len());
            assert(("photographer")@ != ("media_type")@);
            assert((("photographer")@).len() != (("mediatype")@).len());
            assert(("photographer")@ != ("mediatype")@);
            assert((("photographer")@).len() != (("MediaType")@).len());
            assert(("photographer")@ != ("MediaType")@);
            assert((("photographer")@).len() != (("genre")@).len());
            assert(("photographer")@ != ("genre")@);
            assert((("photographer")@).len() != (("Genre")@).len());
            assert(("photographer")@ != ("Genre")@);
            assert((("photographer")@).len() != (("series")@).len());
            assert(("photographer")@ != ("series")@);
            assert((("photographer")@).len() != (("Series")@).len());
            assert(("photographer")@ != ("Series")@);
            assert((("photographer")@).len() != (("season")@).len());
            assert(("photographer")@ != ("season")@);
            assert((("photographer")@).len() != (("Season")@).len());
            assert(("photographer")@ != ("Season")@);
            assert((("photographer")@).len() != (("Episode")@).len());
            assert(("photographer")@ != ("Episode")@);
            assert((("photographer")@).len() != (("episode")@).len());
            assert(("photographer")@ != ("episode")@);
            assert((("photographer")@).len() != (("Album")@).len());
            assert(("photographer")@ != ("Album")@);
            assert((("photographer")@).len() != (("album")@).len());
            assert(("photographer")@ != ("album")@);
            assert((("photographer")@).len() != (("track_no")@).len());
            assert(("photographer")@ != ("track_no")@);
            assert((("photographer")@).len() != (("track")@).len());
            assert(("photographer")@ != ("track")@);
            assert((("photographer")@).len() != (("track#")@).len());
            assert(("photographer")@ != ("track#")@);
            assert((("photographer")@).len() != (("TrackNo")@).len());
            assert(("photographer")@ != ("TrackNo")@);
            assert((("photographer")@).len() != (("studio")@).len());
            assert(("photographer")@ != ("studio")@);
            assert((("photographer")@).len() != (("Studio")@).len());
            assert(("photographer")@ != ("Studio")@);
            assert((("photographer")@).len() != (("director")@).len());
            assert(("photographer")@ != ("director")@);
            assert((("photographer")@).len() != (("Director")@).len());
            assert(("photographer")@ != ("Director")@);
            assert((("photographer")@).len() != (("artist")@).len());
            assert(("photographer")@ != ("artist")@);
            assert((("photographer")@).len() != (("Artist")@).len());
            assert(("photographer")@ != ("Artist")@);
            assert((("photographer")@).len() != (("composer")@).len());
            assert(("photographer")@ != ("composer")@);
            assert((("photographer")@).len() != (("Composer")@).len());
            assert(("photographer")@ != ("Composer")@);
            assert((("photographer")@).len() != (("cast")@).len());
            assert(("photographer")@ != ("cast")@);
            assert((("photographer")@).len() != (("Cast")@).len());
            assert(("photographer")@ != ("Cast")@);
            assert(crate::tags::spec_tag_of_name(("photographer")@) == Some(t));
        },
        TagType::Year => {
            assert((("year")@).len() != (("title")@).len());
            assert(("year")@ != ("title")@);
            assert((("year")@).len() != (("Title")@).len());
            assert(("year")@ != ("Title")@);
            assert((("year")@).len() != (("media_type")@).len());
            assert(("year")@ != ("media_type")@);
            assert((("year")@).len() != (("mediatype")@).len());
            assert(("year")@ != ("mediatype")@);
            assert((("year")@).len() != (("MediaType")@).len());
            assert(("year")@ != ("MediaType")@);
            assert((("year")@).len() != (("genre")@).len());
            assert(("year")@ != ("genre")@);
            assert((("year")@).len() != (("Genre")@).len());
            assert(("year")@ != ("Genre")@);
            assert((("year")@).len() != (("series")@).len());
            assert(("year")@ != ("series")@);
            assert((("year")@).len() != (("Series")@).len());
            assert(("year")@ != ("Series")@);
            assert((("year")@).len() != (("season")@).len());
            assert(("year")@ != ("season")@);
            assert((("year")@).len() != (("Season")@).len());
            assert(("year")@ != ("Season")@);
            assert((("year")@).len() != (("Episode")@).len());
            assert(("year")@ != ("Episode")@);
            assert((("year")@).len() != (("episode")@).len());
            assert(("year")@ != ("episode")@);
            assert((("year")@).len() != (("Album")@).len());
            assert(("year")@ != ("Album")@);
            assert((("year")@).len() != (("album")@).len());
            assert(("year")@ != ("album")@);
            assert((("year")@).len() != (("track_no")@).len());
            assert(("year")@ != ("track_no")@);
            assert((("year")@).len() != (("track")@).len());
            assert(("year")@ != ("track")@);
            assert((("year")@).len() != (("track#")@).len());
            assert(("year")@ != ("track#")@);
            assert((("year")@).len() != (("TrackNo")@).len());
            assert(("year")@ != ("TrackNo")@);
            assert((("year")@).len() != (("studio")@).len());
            assert(("year")@ != ("studio")@);
            assert((("year")@).len() != (("Studio")@).len());
            assert(("year")@ != ("Studio")@);
            assert((("year")@).len() != (("director")@).len());
            assert(("year")@ != ("director")@);
            assert((("year")@).len() != (("Director")@).len());
            assert(("year")@ != ("Director")@);
            assert((("year")@).len() != (("artist")@).len());
            assert(("year")@ != ("artist")@);
            assert((("year")@).len() != (("Artist")@).len());
            assert(("year")@ != ("Artist")@);
            assert((("year")@).len() != (("composer")@).len());
            assert(("year")@ != ("composer")@);
            assert((("year")@).len() != (("Composer")@).len());
            assert(("year")@ != ("Composer")@);
            assert((("year")@)[0] == 'y' && (("cast")@)[0] == 'c');
            assert(("year")@ != ("cast")@);
            assert((("year")@)[0] == 'y' && (("Cast")@)[0] == 'C');
            assert(("year")@ != ("Cast")@);
            assert((("year")@).len() != (("photographer")@).len());
            assert(("year")@ != ("photographer")@);
            assert((("year")@).len() != (("Photographer")@).len());
            assert(("year")@ != ("Photographer")@);
            assert(crate::tags::spec_tag_of_name(("year")@) == Some(t));
        },
        TagType::Airdate => {
            assert((("airdate")@).len() != (("title")@).len());
            assert(("airdate")@ != ("title")@);
            assert((("airdate")@).len() != (("Title")@).len());
            assert(("airdate")@ != ("Title")@);
            assert((("airdate")@).len() != (("media_type")@).len());
            assert(("airdate")@ != ("media_type")@);
            assert((("airdate")@).len() != (("mediatype")@).len());
            assert(("airdate")@ != ("mediatype")@);
            assert((("airdate")@).len() != (("MediaType")@).len());
            assert(("airdate")@ != ("MediaType")@);
            assert((("airdate")@).len() != (("genre")@).len());
            assert(("airdate")@ != ("genre")@);
            assert((("airdate")@).len() != (("Genre")@).len());
            assert(("airdate")@ != ("Genre")@);
            assert((("airdate")@).len() != (("series")@).len());
            assert(("airdate")@ != ("series")@);
            assert((("airdate")@).len() != (("Series")@).len());
            assert(("airdate")@ != ("Series")@);
            assert((("airdate")@).len() != (("season")@).len());
            assert(("airdate")@ != ("season")@);
            assert((("airdate")@).len() != (("Season")@).len());
            assert(("airdate")@ != ("Season")@);
            assert((("airdate")@)[0] == 'a' && (("Episode")@)[0] == 'E');
            assert(("airdate")@ != ("Episode")@);
            assert((("airdate")@)[0] == 'a' && (("episode")@)[0] == 'e');
            assert(("airdate")@ != ("episode")@);
            assert((("airdate")@).len() != (("Album")@).len());
            assert(("airdate")@ != ("Album")@);
            assert((("airdate")@).len() != (("album")@).len());
            assert(("airdate")@ != ("album")@);
            assert((("airdate")@).len() != (("track_no")@).len());
            assert(("airdate")@ != ("track_no")@);
            assert((("airdate")@).len() != (("track")@).len());
            assert(("airdate")@ != ("track")@);
            assert((("airdate")@).len() != (("track#")@).len());
            assert(("airdate")@ != ("track#")@);
            assert((("airdate")@)[0] == 'a' && (("TrackNo")@)[0] == 'T');
            assert(("airdate")@ != ("TrackNo")@);
            assert((("airdate")@).len() != (("studio")@).len());
            assert(("airdate")@ != ("studio")@);
            assert((("airdate")@).len() != (("Studio")@).len());
            assert(("airdate")@ != ("Studio")@);
            assert((("airdate")@).len() != (("director")@).len());
            assert(("airdate")@ != ("director")@);
            assert((("airdate")@).len() != (("Director")@).len());
            assert(("airdate")@ != ("Director")@);
            assert((("airdate")@).len() != (("artist")@).len());
            assert(("airdate")@ != ("artist")@);
            assert((("airdate")@).len() != (("Artist")@).len());
            assert(("airdate")@ != ("Artist")@);
            assert((("airdate")@).len() != (("composer")@).len());
            assert(("airdate")@ != ("composer")@);
            assert((("airdate")@).len() != (("Composer")@).len());
            assert(("airdate")@ != ("Composer")@);
            assert((("airdate")@).len() != (("cast")@).len());
            assert(("airdate")@ != ("cast")@);
            assert((("airdate")@).len() != (("Cast")@).len());
            assert(("airdate")@ != ("Cast")@);
            assert((("airdate")@).len() != (("photographer")@).len());
            assert(("airdate")@ != ("photographer")@);
            assert((("airdate")@).len() != (("Photographer")@).len());
            assert(("airdate")@ != ("Photographer")@);
            assert((("airdate")@).len() != (("year")@).len());
            assert(("airdate")@ != ("year")@);
            assert((("airdate")@).len() != (("Year")@).len());
            assert(("airdate")@ != ("Year")@);
            assert(crate::tags::spec_tag_of_name(("airdate")@) == Some(t));
        },
        TagType::Comment => {
            assert((("comment")@).len() != (("title")@).len());
            assert(("comment")@ != ("title")@);
            assert((("comment")@).len() != (("Title")@).len());
            assert(("comment")@ != ("Title")@);
            assert((("comment")@).len() != (("media_type")@).len());
            assert(("comment")@ != ("media_type")@);
            assert((("comment")@).len() != (("mediatype")@).len());
            assert(("comment")@ != ("mediatype")@);
            assert((("comment")@).len() != (("MediaType")@).len());
            assert(("comment")@ != ("MediaType")@);
            assert((("comment")@).len() != (("genre")@).len());
            assert(("comment")@ != ("genre")@);
            assert((("comment")@).len() != (("Genre")@).len());
            assert(("comment")@ != ("Genre")@);
            assert((("comment")@).len() != (("series")@).len());
            assert(("comment")@ != ("series")@);
            assert((("comment")@).len() != (("Series")@).len());
            assert(("comment")@ != ("Series")@);
            assert((("comment")@).len() != (("season")@).len());
            assert(("comment")@ != ("season")@);
            assert((("comment")@).len() != (("Season")@).len());
            assert(("comment")@ != ("Season")@);
            assert((("comment")@)[0] == 'c' && (("Episode")@)[0] == 'E');
            assert(("comment")@ != ("Episode")@);
            assert((("comment")@)[0] == 'c' && (("episode")@)[0] == 'e');
            assert(("comment")@ != ("episode")@);
            assert((("comment")@).len() != (("Album")@).len());
            assert(("comment")@ != ("Album")@);
            assert((("comment")@).len() != (("album")@).len());
            assert(("comment")@ != ("album")@);
            assert((("comment")@).len() != (("track_no")@).len());
            assert(("comment")@ != ("track_no")@);
            assert((("comment")@).len() != (("track")@).len());
            assert(("comment")@ != ("track")@);
            assert((("comment")@).len() != (("track#")@).len());
            assert(("comment")@ != ("track#")@);
            assert((("comment")@)[0] == 'c' && (("TrackNo")@)[0] == 'T');
            assert(("comment")@ != ("TrackNo")@);
            assert((("comment")@).len() != (("studio")@).len());
            assert(("comment")@ != ("studio")@);
            assert((("comment")@).len() != (("Studio")@).len());
            assert(("comment")@ != ("Studio")@);
            assert((("comment")@).len() != (("director")@).len());
            assert(("comment")@ != ("director")@);
            assert((("comment")@).len() != (("Director")@).len());
            assert(("comment")@ != ("Director")@);
            assert((("comment")@).len() != (("artist")@).len());
            assert(("comment")@ != ("artist")@);
            assert((("comment")@).len() != (("Artist")@).len());
            assert(("comment")@ != ("Artist")@);
            assert((("comment")@).len() != (("composer")@).len());
            assert(("comment")@ != ("composer")@);
            assert((("comment")@).len() != (("Composer")@).len());
            assert(("comment")@ != ("Composer")@);
            assert((("comment")@).len() != (("cast")@).len());
            assert(("comment")@ != ("cast")@);
            assert((("comment")@).len() != (("Cast")@).len());
            assert(("comment")@ != ("Cast")@);
            assert((("comment")@).len() != (("photographer")@).len());
            assert(("comment")@ != ("photographer")@);
            assert((("comment")@).len() != (("Photographer")@).len());
            assert(("comment")@ != ("Photographer")@);
            assert((("comment")@).len() != (("year")@).len());
            assert(("comment")@ != ("year")@);
            assert((("comment")@).len() != (("Year")@).len());
            assert(("comment")@ != ("Year")@);
            assert((("comment")@)[0] == 'c' && (("airdate")@)[0] == 'a');
            assert(("comment")@ != ("airdate")@);
            assert((("comment")@)[0] == 'c' && (("Airdate")@)[0] == 'A');
            assert(("comment")@ != ("Airdate")@);
            assert(crate::tags::spec_tag_of_name(("comment")@) == Some(t));
        },
        TagType::Summary => {
            assert((("summary")@).len() != (("title")@).len());
            assert(("summary")@ != ("title")@);
            assert((("summary")@).len() != (("Title")@).len());
            assert(("summary")@ != ("Title")@);
            assert((("summary")@).len() != (("media_type")@).len());
            assert(("summary")@ != ("media_type")@);
            assert((("summary")@).len() != (("mediatype")@).len());
            assert(("summary")@ != ("mediatype")@);
            assert((("summary")@).len() != (("MediaType")@).len());
            assert(("summary")@ != ("MediaType")@);
            assert((("summary")@).len() != (("genre")@).len());
            assert(("summary")@ != ("genre")@);
            assert((("summary")@).len() != (("Genre")@).len());
            assert(("summary")@ != ("Genre")@);
            assert((("summary")@).len() != (("series")@).len());
            assert(("summary")@ != ("series")@);
            assert((("summary")@).len() != (("Series")@).len());
            assert(("summary")@ != ("Series")@);
            assert((("summary")@).len() != (("season")@).len());
            assert(("summary")@ != ("season")@);
            assert((("summary")@).len() != (("Season")@).len());
            assert(("summary")@ != ("Season")@);
            assert((("summary")@)[0] == 's' && (("Episode")@)[0] == 'E');
            assert(("summary")@ != ("Episode")@);
            assert((("summary")@)[0] == 's' && (("episode")@)[0] == 'e');
            assert(("summary")@ != ("episode")@);
            assert((("summary")@).len() != (("Album")@).len());
            assert(("summary")@ != ("Album")@);
            assert((("summary")@).len() != (("album")@).len());
            assert(("summary")@ != ("album")@);
            assert((("summary")@).len() != (("track_no")@).len());
            assert(("summary")@ != ("track_no")@);
            assert((("summary")@).len() != (("track")@).len());
            assert(("summary")@ != ("track")@);
            assert((("summary")@).len() != (("track#")@).len());
            assert(("summary")@ != ("track#")@);
            assert((("summary")@)[0] == 's' && (("TrackNo")@)[0] == 'T');
            assert(("summary")@ != ("TrackNo")@);
            assert((("summary")@).len() != (("studio")@).len());
            assert(("summary")@ != ("studio")@);
            assert((("summary")@).len() != (("Studio")@).len());
            assert(("summary")@ != ("Studio")@);
            assert((("summary")@).len() != (("director")@).len());
            assert(("summary")@ != ("director")@);
            assert((("summary")@).len() != (("Director")@).len());
            assert(("summary")@ != ("Director")@);
            assert((("summary")@).len() != (("artist")@).len());
            assert(("summary")@ != ("artist")@);
            assert((("summary")@).len() != (("Artist")@).len());
            assert(("summary")@ != ("Artist")@);
            assert((("summary")@).len() != (("composer")@).len());
            assert(("summary")@ != ("composer")@);
            assert((("summary")@).len() != (("Composer")@).len());
            assert(("summary")@ != ("Composer")@);
            assert((("summary")@).len() != (("cast")@).len());
            assert(("summary")@ != ("cast")@);
            assert((("summary")@).len() != (("Cast")@).len());
            assert(("summary")@ != ("Cast")@);
            assert((("summary")@).len() != (("photographer")@).len());
            assert(("summary")@ != ("photographer")@);
            assert((("summary")@).len() != (("Photographer")@).len());
            assert(("summary")@ != ("Photographer")@);
            assert((("summary")@).len() != (("year")@).len());
            assert(("summary")@ != ("year")@);
            assert((("summary")@).len() != (("Year")@).len());
            assert(("summary")@ != ("Year")@);
            assert((("summary")@)[0] == 's' && (("airdate")@)[0] == 'a');
            assert(("summary")@ != ("airdate")@);
            assert((("summary")@)[0] == 's' && (("Airdate")@)[0] == 'A');
            assert(("summary")@ != ("Airdate")@);
            assert((("summary")@)[0] == 's' && (("comment")@)[0] == 'c');
            assert(("summary")@ != ("comment")@);
            assert((("summary")@)[0] == 's' && (("Comment")@)[0] == 'C');
            assert(("summary")@ != ("Comment")@);
            assert(crate::tags::spec_tag_of_name(("summary")@) == Some(t));
        },
        TagType::Country => {
            assert((("country")@).len() != (("title")@).len());
            assert(("country")@ != ("title")@);
            assert((("country")@).len() != (("Title")@).len());
            assert(("country")@ != ("Title")@);
            assert((("country")@).len() != (("media_type")@).len());
            assert(("country")@ != ("media_type")@);
            assert((("country")@).len() != (("mediatype")@).len());
            assert(("country")@ != ("mediatype")@);
            assert((("country")@).len() != (("MediaType")@).len());
            assert(("country")@ != ("MediaType")@);
            assert((("country")@).len() != (("genre")@).len());
            assert(("country")@ != ("genre")@);
            assert((("country")@).len() != (("Genre")@).len());
            assert(("country")@ != ("Genre")@);
            assert((("country")@).len() != (("series")@).len());
            assert(("country")@ != ("series")@);
            assert((("country")@).len() != (("Series")@).len());
            assert(("country")@ != ("Series")@);
            assert((("country")@).len() != (("season")@).len());
            assert(("country")@ != ("season")@);
            assert((("country")@).len() != (("Season")@).len());
            assert(("country")@ != ("Season")@);
            assert((("country")@)[0] == 'c' && (("Episode")@)[0] == 'E');
            assert(("country")@ != ("Episode")@);
            assert((("country")@)[0] == 'c' && (("episode")@)[0] == 'e');
            assert(("country")@ != ("episode")@);
            assert((("country")@).len() != (("Album")@).len());
            assert(("country")@ != ("Album")@);
            assert((("country")@).len() != (("album")@).len());
            assert(("country")@ != ("album")@);
            assert((("country")@).len() != (("track_no")@).len());
            assert(("country")@ != ("track_no")@);
            assert((("country")@).len() != (("track")@).len());
            assert(("country")@ != ("track")@);
            assert((("country")@).len() != (("track#")@).len());
            assert(("country")@ != ("track#")@);
            assert((("country")@)[0] == 'c' && (("TrackNo")@)[0] == 'T');
            assert(("country")@ != ("TrackNo")@);
            assert((("country")@).len() != (("studio")@).len());
            assert(("country")@ != ("studio")@);
            assert((("country")@).len() != (("Studio")@).len());
            assert(("country")@ != ("Studio")@);
            assert((("country")@).len() != (("director")@).len());
            assert(("country")@ != ("director")@);
            assert((("country")@).len() != (("Director")@).len());
            assert(("country")@ != ("Director")@);
            assert((("country")@).len() != (("artist")@).len());
            assert(("country")@ != ("artist")@);
            assert((("country")@).len() != (("Artist")@).len());
            assert(("country")@ != ("Artist")@);
            assert((("country")@).len() != (("composer")@).len());
            assert(("country")@ != ("composer")@);
            assert((("country")@).len() != (("Composer")@).len());
            assert(("country")@ != ("Composer")@);
            assert((("country")@).len() != (("cast")@).len());
            assert(("country")@ != ("cast")@);
            assert((("country")@).len() != (("Cast")@).len());
            assert(("country")@ != ("Cast")@);
            assert((("country")@).len() != (("photographer")@).len());
            assert(("country")@ != ("photographer")@);
            assert((("country")@).len() != (("Photographer")@).len());
            assert(("country")@ != ("Photographer")@);
            assert((("country")@).len() != (("year")@).len());
            assert(("country")@ != ("year")@);
            assert((("country")@).len() != (("Year")@).len());
            assert(("country")@ != ("Year")@);
            assert((("country")@)[0] == 'c' && (("airdate")@)[0] == 'a');
            assert(("country")@ != ("airdate")@);
            assert((("country")@)[0] == 'c' && (("Airdate")@)[0] == 'A');
            assert(("country")@ != ("Airdate")@);
            assert((("country")@)[2] == 'u' && (("comment")@)[2] == 'm');
            assert(("country")@ != ("comment")@);
            assert((("country")@)[0] == 'c' && (("Comment")@)[0] == 'C');
            assert(("country")@ != ("Comment")@);
            assert((("country")@)[0] == 'c' && (("summary")@)[0] == 's');
            assert(("country")@ != ("summary")@);
            assert((("country")@)[0] == 'c' && (("Summary")@)[0] == 'S');
            assert(("country")@ != ("Summary")@);
            assert(crate::tags::spec_tag_of_name(("country")@) == Some(t));
        },
        TagType::Rating => {
            assert((("rating")@).len() != (("title")@).len());
            assert(("rating")@ != ("title")@);
            assert((("rating")@).len() != (("Title")@).len());
            assert(("rating")@ != ("Title")@);
            assert((("rating")@).len() != (("media_type")@).len());
            assert(("rating")@ != ("media_type")@);
            assert((("rating")@).len() != (("mediatype")@).len());
            assert(("rating")@ != ("mediatype")@);
            assert((("rating")@).len() != (("MediaType")@).len());
            assert(("rating")@ != ("MediaType")@);
            assert((("rating")@).len() != (("genre")@).len());
            assert(("rating")@ != ("genre")@);
            assert((("rating")@).len() != (("Genre")@).len());
            assert(("rating")@ != ("Genre")@);
            assert((("rating")@)[0] == 'r' && (("series")@)[0] == 's');
            assert(("rating")@ != ("series")@);
            assert((("rating")@)[0] == 'r' && (("Series")@)[0] == 'S');
            assert(("rating")@ != ("Series")@);
            assert((("rating")@)[0] == 'r' && (("season")@)[0] == 's');
            assert(("rating")@ != ("season")@);
            assert((("rating")@)[0] == 'r' && (("Season")@)[0] == 'S');
            assert(("rating")@ != ("Season")@);
            assert((("rating")@).len() != (("Episode")@).len());
            assert(("rating")@ != ("Episode")@);
            assert((("rating")@).len() != (("episode")@).len());
            assert(("rating")@ != ("episode")@);
            assert((("rating")@).len() != (("Album")@).len());
            assert(("rating")@ != ("Album")@);
            assert((("rating")@).len() != (("album")@).len());
            assert(("rating")@ != ("album")@);
            assert((("rating")@).len() != (("track_no")@).len());
            assert(("rating")@ != ("track_no")@);
            assert((("rating")@).len() != (("track")@).len());
            assert(("rating")@ != ("track")@);
            assert((("rating")@)[0] == 'r' && (("track#")@)[0] == 't');
            assert(("rating")@ != ("track#")@);
            assert((("rating")@).len() != (("TrackNo")@).len());
            assert(("rating")@ != ("TrackNo")@);
            assert((("rating")@)[0] == 'r' && (("studio")@)[0] == 's');
            assert(("rating")@ != ("studio")@);
            assert((("rating")@)[0] == 'r' && (("Studio")@)[0] == 'S');
            assert(("rating")@ != ("Studio")@);
            assert((("rating")@).len() != (("director")@).len());
            assert(("rating")@ != ("director")@);
            assert((("rating")@).len() != (("Director")@).len());
            assert(("rating")@ != ("Director")@);
            assert((("rating")@)[0] == 'r' && (("artist")@)[0] == 'a');
            assert(("rating")@ != ("artist")@);
            assert((("rating")@)[0] == 'r' && (("Artist")@)[0] == 'A');
            assert(("rating")@ != ("Artist")@);
            assert((("rating")@).len() != (("composer")@).len());
            assert(("rating")@ != ("composer")@);
            assert((("rating")@).len() != (("Composer")@).len());
            assert(("rating")@ != ("Composer")@);
            assert((("rating")@).len() != (("cast")@).len());
            assert(("rating")@ != ("cast")@);
            assert((("rating")@).len() != (("Cast")@).len());
            assert(("rating")@ != ("Cast")@);
            assert((("rating")@).len() != (("photographer")@).len());
            assert(("rating")@ != ("photographer")@);
            assert((("rating")@).len() != (("Photographer")@).len());
            assert(("rating")@ != ("Photographer")@);
            assert((("rating")@).len() != (("year")@).len());
            assert(("rating")@ != ("year")@);
            assert((("rating")@).len() != (("Year")@).len());
            assert(("rating")@ != ("Year")@);
            assert((("rating")@).len() != (("airdate")@).len());
            assert(("rating")@ != ("airdate")@);
            assert((("rating")@).len() != (("Airdate")@).len());
            assert(("rating")@ != ("Airdate")@);
            assert((("rating")@).len() != (("comment")@).len());
            assert(("rating")@ != ("comment")@);
            assert((("rating")@).len() != (("Comment")@).len());
            assert(("rating")@ != ("Comment")@);
            assert((("rating")@).len() != (("summary")@).len());
            assert(("rating")@ != ("summary")@);
            assert((("rating")@).len() != (("Summary")@).len());
            assert(("rating")@ != ("Summary")@);
            assert((("rating")@).len() != (("country")@).len());
            assert(("rating")@ != ("country")@);
            assert((("rating")@).len() != (("Country")@).len());
            assert(("rating")@ != ("Country")@);
            assert(crate::tags::spec_tag_of_name(("rating")@) == Some(t));
        },
        TagType::License => {
            assert((("license")@).len() != (("title")@).len());
            assert(("license")@ != ("title")@);
            assert((("license")@).len() != (("Title")@).len());
            assert(("license")@ != ("Title")@);
            assert((("license")@).len() != (("media_type")@).len());
            assert(("license")@ != ("media_type")@);
            assert((("license")@).len() != (("mediatype")@).len());
            assert(("license")@ != ("mediatype")@);
            assert((("license")@).len() != (("MediaType")@).len());
            assert(("license")@ != ("MediaType")@);
            assert((("license")@).len() != (("genre")@).len());
            assert(("license")@ != ("genre")@);
            assert((("license")@).len() != (("Genre")@).len());
            assert(("license")@ != ("Genre")@);
            assert((("license")@).len() != (("series")@).len());
            assert(("license")@ != ("series")@);
            assert((("license")@).len() != (("Series")@).len());
            assert(("license")@ != ("Series")@);
            assert((("license")@).len() != (("season")@).len());
            assert(("license")@ != ("season")@);
            assert((("license")@).len() != (("Season")@).len());
            assert(("license")@ != ("Season")@);
            assert((("license")@)[0] == 'l' && (("Episode")@)[0] == 'E');
            assert(("license")@ != ("Episode")@);
            assert((("license")@)[0] == 'l' && (("episode")@)[0] == 'e');
            assert(("license")@ != ("episode")@);
            assert((("license")@).len() != (("Album")@).len());
            assert(("license")@ != ("Album")@);
            assert((("license")@).len() != (("album")@).len());
            assert(("license")@ != ("album")@);
            assert((("license")@).len() != (("track_no")@).len());
            assert(("license")@ != ("track_no")@);
            assert((("license")@).len() != (("track")@).len());
            assert(("license")@ != ("track")@);
            assert((("license")@).len() != (("track#")@).len());
            assert(("license")@ != ("track#")@);
            assert((("license")@)[0] == 'l' && (("TrackNo")@)[0] == 'T');
            assert(("license")@ != ("TrackNo")@);
            assert((("license")@).len() != (("studio")@).len());
            assert(("license")@ != ("studio")@);
            assert((("license")@).len() != (("Studio")@).len());
            assert(("license")@ != ("Studio")@);
            assert((("license")@).len() != (("director")@).len());
            assert(("license")@ != ("director")@);
            assert((("license")@).len() != (("Director")@).len());
            assert(("license")@ != ("Director")@);
            assert((("license")@).len() != (("artist")@).len());
            assert(("license")@ != ("artist")@);
            assert((("license")@).len() != (("Artist")@).len());
            assert(("license")@ != ("Artist")@);
            assert((("license")@).len() != (("composer")@).len());
            assert(("license")@ != ("composer")@);
            assert((("license")@).len() != (("Composer")@).len());
            assert(("license")@ != ("Composer")@);
            assert((("license")@).len() != (("cast")@).len());
            assert(("license")@ != ("cast")@);
            assert((("license")@).len() != (("Cast")@).len());
            assert(("license")@ != ("Cast")@);
            assert((("license")@).len() != (("photographer")@).len());
            assert(("license")@ != ("photographer")@);
            assert((("license")@).len() != (("Photographer")@).len());
            assert(("license")@ != ("Photographer")@);
            assert((("license")@).len() != (("year")@).len());
            assert(("license")@ != ("year")@);
            assert((("license")@).len() != (("Year")@).len());
            assert(("license")@ != ("Year")@);
            assert((("license")@)[0] == 'l' && (("airdate")@)[0] == 'a');
            assert(("license")@ != ("airdate")@);
            assert((("license")@)[0] == 'l' && (("Airdate")@)[0] == 'A');
            assert(("license")@ != ("Airdate")@);
            assert((("license")@)[0] == 'l' && (("comment")@)[0] == 'c');
            assert(("license")@ != ("comment")@);
            assert((("license")@)[0] == 'l' && (("Comment")@)[0] == 'C');
            assert(("license")@ != ("Comment")@);
            assert((("license")@)[0] == 'l' && (("summary")@)[0] == 's');
            assert(("license")@ != ("summary")@);
            assert((("license")@)[0] == 'l' && (("Summary")@)[0] == 'S');
            assert(("license")@ != ("Summary")@);
            assert((("license")@)[0] == 'l' && (("country")@)[0] == 'c');
            assert(("license")@ != ("country")@);
            assert((("license")@)[0] == 'l' && (("Country")@)[0] == 'C');
            assert(("license")@ != ("Country")@);
            assert((("license")@).len() != (("rating")@).len());
            assert(("license")@ != ("rating")@);
            assert((("license")@).len() != (("Rating")@).len());
            assert(("license")@ != ("Rating")@);
            assert(crate::tags::spec_tag_of_name(("license")@) == Some(t));
        },
        TagType::Copyright => {
            assert((("copyright")@).len() != (("title")@).len());
            assert(("copyright")@ != ("title")@);
            assert((("copyright")@).len() != (("Title")@).len());
            assert(("copyright")@ != ("Title")@);
            assert((("copyright")@).len() != (("media_type")@).len());
            assert(("copyright")@ != ("media_type")@);
            assert((("copyright")@)[0] == 'c' && (("mediatype")@)[0] == 'm');
            assert(("copyright")@ != ("mediatype")@);
            assert((("copyright")@)[0] == 'c' && (("MediaType")@)[0] == 'M');
            assert(("copyright")@ != ("MediaType")@);
            assert((("copyright")@).len() != (("genre")@).len());
            assert(("copyright")@ != ("genre")@);
            assert((("copyright")@).len() != (("Genre")@).len());
            assert(("copyright")@ != ("Genre")@);
            assert((("copyright")@).len() != (("series")@).len());
            assert(("copyright")@ != ("series")@);
            assert((("copyright")@).len() != (("Series")@).len());
            assert(("copyright")@ != ("Series")@);
            assert((("copyright")@).len() != (("season")@).len());
            assert(("copyright")@ != ("season")@);
            assert((("copyright")@).len() != (("Season")@).len());
            assert(("copyright")@ != ("Season")@);
            assert((("copyright")@).len() != (("Episode")@).len());
            assert(("copyright")@ != ("Episode")@);
            assert((("copyright")@).len() != (("episode")@).len());
            assert(("copyright")@ != ("episode")@);
            assert((("copyright")@).len() != (("Album")@).len());
            assert(("copyright")@ != ("Album")@);
            assert((("copyright")@).len() != (("album")@).len());
            assert(("copyright")@ != ("album")@);
            assert((("copyright")@).len() != (("track_no")@).len());
            assert(("copyright")@ != ("track_no")@);
            assert((("copyright")@).len() != (("track")@).len());
            assert(("copyright")@ != ("track")@);
            assert((("copyright")@).len() != (("track#")@).len());
            assert(("copyright")@ != ("track#")@);
            assert((("copyright")@).len() != (("TrackNo")@).len());
            assert(("copyright")@ != ("TrackNo")@);
            assert((("copyright")@).len() != (("studio")@).len());
            assert(("copyright")@ != ("studio")@);
            assert((("copyright")@).len() != (("Studio")@).len());
            assert(("copyright")@ != ("Studio")@);
            assert((("copyright")@).len() != (("director")@).len());
            assert(("copyright")@ != ("director")@);
            assert((("copyright")@).len() != (("Director")@).len());
            assert(("copyright")@ != ("Director")@);
            assert((("copyright")@).len() != (("artist")@).len());
            assert(("copyright")@ != ("artist")@);
            assert((("copyright")@).len() != (("Artist")@).len());
            assert(("copyright")@ != ("Artist")@);
            assert((("copyright")@).len() != (("composer")@).len());
            assert(("copyright")@ != ("composer")@);
            assert((("copyright")@).len() != (("Composer")@).len());
            assert(("copyright")@ != ("Composer")@);
            assert((("copyright")@).len() != (("cast")@).len());
            assert(("copyright")@ != ("cast")@);
            assert((("copyright")@).len() != (("Cast")@).len());
            assert(("copyright")@ != ("Cast")@);
            assert((("copyright")@).len() != (("photographer")@).len());
            assert(("copyright")@ != ("photographer")@);
            assert((("copyright")@).len() != (("Photographer")@).len());
            assert(("copyright")@ != ("Photographer")@);
            assert((("copyright")@).len() != (("year")@).len());
            assert(("copyright")@ != ("year")@);
            assert((("copyright")@).len() != (("Year")@).len());
            assert(("copyright")@ != ("Year")@);
            assert((("copyright")@).len() != (("airdate")@).len());
            assert(("copyright")@ != ("airdate")@);
            assert((("copyright")@).len() != (("Airdate")@).len());
            assert(("copyright")@ != ("Airdate")@);
            assert((("copyright")@).len() != (("comment")@).len());
            assert(("copyright")@ != ("comment")@);
            assert((("copyright")@).len() != (("Comment")@).len());
            assert(("copyright")@ != ("Comment")@);
            assert((("copyright")@).len() != (("summary")@).len());
            assert(("copyright")@ != ("summary")@);
            assert((("copyright")@).len() != (("Summary")@).len());
            assert(("copyright")@ != ("Summary")@);
            assert((("copyright")@).len() != (("country")@).len());
            assert(("copyright")@ != ("country")@);
            assert((("copyright")@).len() != (("Country")@).len());
            assert(("copyright")@ != ("Country")@);
            assert((("copyright")@).len() != (("rating")@).len());
            assert(("copyright")@ != ("rating")@);
            assert((("copyright")@).len() != (("Rating")@).len());
            assert(("copyright")@ != ("Rating")@);
            assert((("copyright")@).len() != (("license")@).len());
            assert(("copyright")@ != ("license")@);
            assert((("copyright")@).len() != (("License")@).len());
            assert(("copyright")@ != ("License")@);
            assert(crate::tags::spec_tag_of_name(("copyright")@) == Some(t));
        },
        TagType::URL => {
            assert((("url")@).len() != (("title")@).len());
            assert(("url")@ != ("title")@);
            assert((("url")@).len() != (("Title")@).len());
            assert(("url")@ != ("Title")@);
            assert((("url")@).len() != (("media_type")@).len());
            assert(("url")@ != ("media_type")@);
            assert((("url")@).len() != (("mediatype")@).len());
            assert(("url")@ != ("mediatype")@);
            assert((("url")@).len() != (("MediaType")@).len());
            assert(("url")@ != ("MediaType")@);
            assert((("url")@).len() != (("genre")@).len());
            assert(("url")@ != ("genre")@);
            assert((("url")@).len() != (("Genre")@).len());
            assert(("url")@ != ("Genre")@);
            assert((("url")@).len() != (("series")@).len());
            assert(("url")@ != ("series")@);
            assert((("url")@).len() != (("Series")@).len());
            assert(("url")@ != ("Series")@);
            assert((("url")@).len() != (("season")@).len());
            assert(("url")@ != ("season")@);
            assert((("url")@).len() != (("Season")@).len());
            assert(("url")@ != ("Season")@);
            assert((("url")@).len() != (("Episode")@).len());
            assert(("url")@ != ("Episode")@);
            assert((("url")@).len() != (("episode")@).len());
            assert(("url")@ != ("episode")@);
            assert((("url")@).len() != (("Album")@).len());
            assert(("url")@ != ("Album")@);
            assert((("url")@).len() != (("album")@).len());
            assert(("url")@ != ("album")@);
            assert((("url")@).len() != (("track_no")@).len());
            assert(("url")@ != ("track_no")@);
            assert((("url")@).len() != (("track")@).len());
            assert(("url")@ != ("track")@);
            assert((("url")@).len() != (("track#")@).len());
            assert(("url")@ != ("track#")@);
            assert((("url")@).len() != (("TrackNo")@).len());
            assert(("url")@ != ("TrackNo")@);
            assert((("url")@).len() != (("studio")@).len());
            assert(("url")@ != ("studio")@);
            assert((("url")@).len() != (("Studio")@).len());
            assert(("url")@ != ("Studio")@);
            assert((("url")@).len() != (("director")@).len());
            assert(("url")@ != ("director")@);
            assert((("url")@).len() != (("Director")@).len());
            assert(("url")@ != ("Director")@);
            assert((("url")@).len() != (("artist")@).len());
            assert(("url")@ != ("artist")@);
            assert((("url")@).len() != (("Artist")@).len());
            assert(("url")@ != ("Artist")@);
            assert((("url")@).len() != (("composer")@).len());
            assert(("url")@ != ("composer")@);
            assert((("url")@).len() != (("Composer")@).len());
            assert(("url")@ != ("Composer")@);
            assert((("url")@).len() != (("cast")@).len());
            assert(("url")@ != ("cast")@);
            assert((("url")@).len() != (("Cast")@).len());
            assert(("url")@ != ("Cast")@);
            assert((("url")@).len() != (("photographer")@).len());
            assert(("url")@ != ("photographer")@);
            assert((("url")@).len() != (("Photographer")@).len());
            assert(("url")@ != ("Photographer")@);
            assert((("url")@).len() != (("year")@).len());
            assert(("url")@ != ("year")@);
            assert((("url")@).len() != (("Year")@).len());
            assert(("url")@ != ("Year")@);
            assert((("url")@).len() != (("airdate")@).len());
            assert(("url")@ != ("airdate")@);
            assert((("url")@).len() != (("Airdate")@).len());
            assert(("url")@ != ("Airdate")@);
            assert((("url")@).len() != (("comment")@).len());
            assert(("url")@ != ("comment")@);
            assert((("url")@).len() != (("Comment")@).len());
            assert(("url")@ != ("Comment")@);
            assert((("url")@).len() != (("summary")@).len());
            assert(("url")@ != ("summary")@);
            assert((("url")@).len() != (("Summary")@).len());
            assert(("url")@ != ("Summary")@);
            assert((("url")@).len() != (("country")@).len());
            assert(("url")@ != ("country")@);
            assert((("url")@).len() != (("Country")@).len());
            assert(("url")@ != ("Country")@);
            assert((("url")@).len() != (("rating")@).len());
            assert(("url")@ != ("rating")@);
            assert((("url")@).len() != (("Rating")@).len());
            assert(("url")@ != ("Rating")@);
            assert((("url")@).len() != (("license")@).len());
            assert(("url")@ != ("license")@);
            assert((("url")@).len() != (("License")@).len());
            assert(("url")@ != ("License")@);
            assert((("url")@).len() != (("copyright")@).len());
            assert(("url")@ != ("copyright")@);
            assert((("url")@).len() != (("Copyright")@).len());
            assert(("url")@ != ("Copyright")@);
            assert(crate::tags::spec_tag_of_name(("url")@) == Some(t));
        },
        TagType::Picture => {
            assert((("picture")@).len() != (("title")@).len());
            assert(("picture")@ != ("title")@);
            assert((("picture")@).len() != (("Title")@).len());
            assert(("picture")@ != ("Title")@);
            assert((("picture")@).len() != (("media_type")@).len());
            assert(("picture")@ != ("media_type")@);
            assert((("picture")@).len() != (("mediatype")@).len());
            assert(("picture")@ != ("mediatype")@);
            assert((("picture")@).len() != (("MediaType")@).len());
            assert(("picture")@ != ("MediaType")@);
            assert((("picture")@).len() != (("genre")@).len());
            assert(("picture")@ != ("genre")@);
            assert((("picture")@).len() != (("Genre")@).len());
            assert(("picture")@ != ("Genre")@);
            assert((("picture")@).len() != (("series")@).len());
            assert(("picture")@ != ("series")@);
            assert((("picture")@).len() != (("Series")@).len());
            assert(("picture")@ != ("Series")@);
            assert((("picture")@).len() != (("season")@).len());
            assert(("picture")@ != ("season")@);
            assert((("picture")@).len() != (("Season")@).len());
            assert(("picture")@ != ("Season")@);
            assert((("picture")@)[0] == 'p' && (("Episode")@)[0] == 'E');
            assert(("picture")@ != ("Episode")@);
            assert((("picture")@)[0] == 'p' && (("episode")@)[0] == 'e');
            assert(("picture")@ != ("episode")@);
            assert((("picture")@).len() != (("Album")@).len());
            assert(("picture")@ != ("Album")@);
            assert((("picture")@).len() != (("album")@).len());
            assert(("picture")@ != ("album")@);
            assert((("picture")@).len() != (("track_no")@).len());
            assert(("picture")@ != ("track_no")@);
            assert((("picture")@).len() != (("track")@).len());
            assert(("picture")@ != ("track")@);
            assert((("picture")@).len() != (("track#")@).len());
            assert(("picture")@ != ("track#")@);
            assert((("picture")@)[0] == 'p' && (("TrackNo")@)[0] == 'T');
            assert(("picture")@ != ("TrackNo")@);
            assert((("picture")@).len() != (("studio")@).len());
            assert(("picture")@ != ("studio")@);
            assert((("picture")@).len() != (("Studio")@).len());
            assert(("picture")@ != ("Studio")@);
            assert((("picture")@).len() != (("director")@).len());
            assert(("picture")@ != ("director")@);
            assert((("picture")@).len() != (("Director")@).len());
            assert(("picture")@ != ("Director")@);
            assert((("picture")@).len() != (("artist")@).len());
            assert(("picture")@ != ("artist")@);
            assert((("picture")@).len() != (("Artist")@).len());
            assert(("picture")@ != ("Artist")@);
            assert((("picture")@).len() != (("composer")@).len());
            assert(("picture")@ != ("composer")@);
            assert((("picture")@).len() != (("Composer")@).len());
            assert(("picture")@ != ("Composer")@);
            assert((("picture")@).len() != (("cast")@).len());
            assert(("picture")@ != ("cast")@);
            assert((("picture")@).len() != (("Cast")@).len());
            assert(("picture")@ != ("Cast")@);
            assert((("picture")@).len() != (("photographer")@).len());
            assert(("picture")@ != ("photographer")@);
            assert((("picture")@).len() != (("Photographer")@).len());
            assert(("picture")@ != ("Photographer")@);
            assert((("picture")@).len() != (("year")@).len());
            assert(("picture")@ != ("year")@);
            assert((("picture")@).len() != (("Year")@).len());
            assert(("picture")@ != ("Year")@);
            assert((("picture")@)[0] == 'p' && (("airdate")@)[0] == 'a');
            assert(("picture")@ != ("airdate")@);
            assert((("picture")@)[0] == 'p' && (("Airdate")@)[0] == 'A');
            assert(("picture")@ != ("Airdate")@);
            assert((("picture")@)[0] == 'p' && (("comment")@)[0] == 'c');
            assert(("picture")@ != ("comment")@);
            assert((("picture")@)[0] == 'p' && (("Comment")@)[0] == 'C');
            assert(("picture")@ != ("Comment")@);
            assert((("picture")@)[0] == 'p' && (("summary")@)[0] == 's');
            assert(("picture")@ != ("summary")@);
            assert((("picture")@)[0] == 'p' && (("Summary")@)[0] == 'S');
            assert(("picture")@ != ("Summary")@);
            assert((("picture")@)[0] == 'p' && (("country")@)[0] == 'c');
            assert(("picture")@ != ("country")@);
            assert((("picture")@)[0] == 'p' && (("Country")@)[0] == 'C');
            assert(("picture")@ != ("Country")@);
            assert((("picture")@).len() != (("rating")@).len());
            assert(("picture")@ != ("rating")@);
            assert((("picture")@).len() != (("Rating")@).len());
            assert(("picture")@ != ("Rating")@);
            assert((("picture")@)[0] == 'p' && (("license")@)[0] == 'l');
            assert(("picture")@ != ("license")@);
            assert((("picture")@)[0] == 'p' && (("License")@)[0] == 'L');
            assert(("picture")@ != ("License")@);
            assert((("picture")@).len() != (("copyright")@).len());
            assert(("picture")@ != ("copyright")@);
            assert((("picture")@).len() != (("Copyright")@).len());
            assert(("picture")@ != ("Copyright")@);
            assert((("picture")@).len() != (("url")@).len());
            assert(("picture")@ != ("url")@);
            assert((("picture")@).len() != (("URL")@).len());
            assert(("picture")@ != ("URL")@);
            assert(crate::tags::spec_tag_of_name(("picture")@) == Some(t));
        },
        TagType::Runtime => {
            assert((("runtime")@).len() != (("title")@).len());
            assert(("runtime")@ != ("title")@);
            assert((("runtime")@).len() != (("Title")@).len());
            assert(("runtime")@ != ("Title")@);
            assert((("runtime")@).len() != (("media_type")@).len());
            assert(("runtime")@ != ("media_type")@);
            assert((("runtime")@).len() != (("mediatype")@).len());
            assert(("runtime")@ != ("mediatype")@);
            assert((("runtime")@).len() != (("MediaType")@).len());
            assert(("runtime")@ != ("MediaType")@);
            assert((("runtime")@).len() != (("genre")@).len());
            assert(("runtime")@ != ("genre")@);
            assert((("runtime")@).len() != (("Genre")@).len());
            assert(("runtime")@ != ("Genre")@);
            assert((("runtime")@).len() != (("series")@).len());
            assert(("runtime")@ != ("series")@);
            assert((("runtime")@).len() != (("Series")@).len());
            assert(("runtime")@ != ("Series")@);
            assert((("runtime")@).len() != (("season")@).len());
            assert(("runtime")@ != ("season")@);
            assert((("runtime")@).len() != (("Season")@).len());
            assert(("runtime")@ != ("Season")@);
            assert((("runtime")@)[0] == 'r' && (("Episode")@)[0] == 'E');
            assert(("runtime")@ != ("Episode")@);
            assert((("runtime")@)[0] == 'r' && (("episode")@)[0] == 'e');
            assert(("runtime")@ != ("episode")@);
            assert((("runtime")@).len() != (("Album")@).len());
            assert(("runtime")@ != ("Album")@);
            assert((("runtime")@).len() != (("album")@).len());
            assert(("runtime")@ != ("album")@);
            assert((("runtime")@).len() != (("track_no")@).len());
            assert(("runtime")@ != ("track_no")@);
            assert((("runtime")@).len() != (("track")@).len());
            assert(("runtime")@ != ("track")@);
            assert((("runtime")@).len() != (("track#")@).len());
            assert(("runtime")@ != ("track#")@);
            assert((("runtime")@)[0] == 'r' && (("TrackNo")@)[0] == 'T');
            assert(("runtime")@ != ("TrackNo")@);
            assert((("runtime")@).len() != (("studio")@).len());
            assert(("runtime")@ != ("studio")@);
            assert((("runtime")@).len() != (("Studio")@).len());
            assert(("runtime")@ != ("Studio")@);
            assert((("runtime")@).len() != (("director")@).len());
            assert(("runtime")@ != ("director")@);
            assert((("runtime")@).len() != (("Director")@).len());
            assert(("runtime")@ != ("Director")@);
            assert((("runtime")@).len() != (("artist")@).len());
            assert(("runtime")@ != ("artist")@);
            assert((("runtime")@).len() != (("Artist")@).len());
            assert(("runtime")@ != ("Artist")@);
            assert((("runtime")@).len() != (("composer")@).len());
            assert(("runtime")@ != ("composer")@);
            assert((("runtime")@).len() != (("Composer")@).len());
            assert(("runtime")@ != ("Composer")@);
            assert((("runtime")@).len() != (("cast")@).len());
            assert(("runtime")@ != ("cast")@);
            assert((("runtime")@).len() != (("Cast")@).len());
            assert(("runtime")@ != ("Cast")@);
            assert((("runtime")@).len() != (("photographer")@).len());
            assert(("runtime")@ != ("photographer")@);
            assert((("runtime")@).len() != (("Photographer")@).len());
            assert(("runtime")@ != ("Photographer")@);
            assert((("runtime")@).len() != (("year")@).len());
            assert(("runtime")@ != ("year")@);
            assert((("runtime")@).len() != (("Year")@).len());
            assert(("runtime")@ != ("Year")@);
            assert((("runtime")@)[0] == 'r' && (("airdate")@)[0] == 'a');
            assert(("runtime")@ != ("airdate")@);
            assert((("runtime")@)[0] == 'r' && (("Airdate")@)[0] == 'A');
            assert(("runtime")@ != ("Airdate")@);
            assert((("runtime")@)[0] == 'r' && (("comment")@)[0] == 'c');
            assert(("runtime")@ != ("comment")@);
            assert((("runtime")@)[0] == 'r' && (("Comment")@)[0] == 'C');
            assert(("runtime")@ != ("Comment")@);
            assert((("runtime")@)[0] == 'r' && (("summary")@)[0] == 's');
            assert(("runtime")@ != ("summary")@);
            assert((("runtime")@)[0] == 'r' && (("Summary")@)[0] == 'S');
            assert(("runtime")@ != ("Summary")@);
            assert((("runtime")@)[0] == 'r' && (("country")@)[0] == 'c');
            assert(("runtime")@ != ("country")@);
            assert((("runtime")@)[0] == 'r' && (("Country")@)[0] == 'C');
            assert(("runtime")@ != ("Country")@);
            assert((("runtime")@).len() != (("rating")@).len());
            assert(("runtime")@ != ("rating")@);
            assert((("runtime")@).len() != (("Rating")@).len());
            assert(("runtime")@ != ("Rating")@);
            assert((("runtime")@)[0] == 'r' && (("license")@)[0] == 'l');
            assert(("runtime")@ != ("license")@);
            assert((("runtime")@)[0] == 'r' && (("License")@)[0] == 'L');
            assert(("runtime")@ != ("License")@);
            assert((("runtime")@).len() != (("copyright")@).len());
            assert(("runtime")@ != ("copyright")@);
            assert((("runtime")@).len() != (("Copyright")@).len());
            assert(("runtime")@ != ("Copyright")@);
            assert((("runtime")@).len() != (("url")@).len());
            assert(("runtime")@ != ("url")@);
            assert((("runtime")@).len() != (("URL")@).len());
            assert(("runtime")@ != ("URL")@);
            assert((("runtime")@)[0] == 'r' && (("picture")@)[0] == 'p');
            assert(("runtime")@ != ("picture")@);
            assert((("runtime")@)[0] == 'r' && (("Picture")@)[0] == 'P');
            assert(("runtime")@ != ("Picture")@);
            assert(crate::tags::spec_tag_of_name(("runtime")@) == Some(t));
        },
        TagType::AspectRatio => {
            assert((("aspect_ratio")@).len() != (("title")@).len());
            assert(("aspect_ratio")@ != ("title")@);
            assert((("aspect_ratio")@).len() != (("Title")@).len());
            assert(("aspect_ratio")@ != ("Title")@);
            assert((("aspect_ratio")@).len() != (("media_type")@).len());
            assert(("aspect_ratio")@ != ("media_type")@);
            assert((("aspect_ratio")@).len() != (("mediatype")@).len());
            assert(("aspect_ratio")@ != ("mediatype")@);
            assert((("aspect_ratio")@).len() != (("MediaType")@).len());
            assert(("aspect_ratio")@ != ("MediaType")@);
            assert((("aspect_ratio")@).len() != (("genre")@).len());
            assert(("aspect_ratio")@ != ("genre")@);
            assert((("aspect_ratio")@).len() != (("Genre")@).len());
            assert(("aspect_ratio")@ != ("Genre")@);
            assert((("aspect_ratio")@).len() != (("series")@).len());
            assert(("aspect_ratio")@ != ("series")@);
            assert((("aspect_ratio")@).len() != (("Series")@).len());
            assert(("aspect_ratio")@ != ("Series")@);
            assert((("aspect_ratio")@).len() != (("season")@).len());
            assert(("aspect_ratio")@ != ("season")@);
            assert((("aspect_ratio")@).len() != (("Season")@).len());
            assert(("aspect_ratio")@ != ("Season")@);
            assert((("aspect_ratio")@).len() != (("Episode")@).len());
            assert(("aspect_ratio")@ != ("Episode")@);
            assert((("aspect_ratio")@).len() != (("episode")@).len());
            assert(("aspect_ratio")@ != ("episode")@);
            assert((("aspect_ratio")@).len() != (("Album")@).len());
            assert(("aspect_ratio")@ != ("Album")@);
            assert((("aspect_ratio")@).len() != (("album")@).len());
            assert(("aspect_ratio")@ != ("album")@);
            assert((("aspect_ratio")@).len() != (("track_no")@).len());
            assert(("aspect_ratio")@ != ("track_no")@);
            assert((("aspect_ratio")@).len() != (("track")@).len());
            assert(("aspect_ratio")@ != ("track")@);
            assert((("aspect_ratio")@).len() != (("track#")@).len());
            assert(("aspect_ratio")@ != ("track#")@);
            assert((("aspect_ratio")@).len() != (("TrackNo")@).len());
            assert(("aspect_ratio")@ != ("TrackNo")@);
            assert((("aspect_ratio")@).len() != (("studio")@).len());
            assert(("aspect_ratio")@ != ("studio")@);
            assert((("aspect_ratio")@).len() != (("Studio")@).len());
            assert(("aspect_ratio")@ != ("Studio")@);
            assert((("aspect_ratio")@).len() != (("director")@).len());
            assert(("aspect_ratio")@ != ("director")@);
            assert((("aspect_ratio")@).len() != (("Director")@).len());
            assert(("aspect_ratio")@ != ("Director")@);
            assert((("aspect_ratio")@).len() != (("artist")@).len());
            assert(("aspect_ratio")@ != ("artist")@);
            assert((("aspect_ratio")@).len() != (("Artist")@).len());
            assert(("aspect_ratio")@ != ("Artist")@);
            assert((("aspect_ratio")@).len() != (("composer")@).len());
            assert(("aspect_ratio")@ != ("composer")@);
            assert((("aspect_ratio")@).len() != (("Composer")@).len());
            assert(("aspect_ratio")@ != ("Composer")@);
            assert((("aspect_ratio")@).len() != (("cast")@).len());
            assert(("aspect_ratio")@ != ("cast")@);
            assert((("aspect_ratio")@).len() != (("Cast")@).len());
            assert(("aspect_ratio")@ != ("Cast")@);
            assert((("aspect_ratio")@)[0] == 'a' && (("photographer")@)[0] == 'p');
            assert(("aspect_ratio")@ != ("photographer")@);
            assert((("aspect_ratio")@)[0] == 'a' && (("Photographer")@)[0] == 'P');
            assert(("aspect_ratio")@ != ("Photographer")@);
            assert((("aspect_ratio")@).len() != (("year")@).len());
            assert(("aspect_ratio")@ != ("year")@);
            assert((("aspect_ratio")@).len() != (("Year")@).len());
            assert(("aspect_ratio")@ != ("Year")@);
            assert((("aspect_ratio")@).len() != (("airdate")@).len());
            assert(("aspect_ratio")@ != ("airdate")@);
            assert((("aspect_ratio")@).len() != (("Airdate")@).len());
            assert(("aspect_ratio")@ != ("Airdate")@);
            assert((("aspect_ratio")@).len() != (("comment")@).len());
            assert(("aspect_ratio")@ != ("comment")@);
            assert((("aspect_ratio")@).len() != (("Comment")@).len());
            assert(("aspect_ratio")@ != ("Comment")@);
            assert((("aspect_ratio")@).len() != (("summary")@).len());
            assert(("aspect_ratio")@ != ("summary")@);
            assert((("aspect_ratio")@).len() != (("Summary")@).len());
            assert(("aspect_ratio")@ != ("Summary")@);
            assert((("aspect_ratio")@).len() != (("country")@).len());
            assert(("aspect_ratio")@ != ("country")@);
            assert((("aspect_ratio")@).len() != (("Country")@).len());
            assert(("aspect_ratio")@ != ("Country")@);
            assert((("aspect_ratio")@).len() != (("rating")@).len());
            assert(("aspect_ratio")@ != ("rating")@);
            assert((("aspect_ratio")@).len() != (("Rating")@).len());
            assert(("aspect_ratio")@ != ("Rating")@);
            assert((("aspect_ratio")@).len() != (("license")@).len());
            assert(("aspect_ratio")@ != ("license")@);
            assert((("aspect_ratio")@).len() != (("License")@).len());
            assert(("aspect_ratio")@ != ("License")@);
            assert((("aspect_ratio")@).len() != (("copyright")@).len());
            assert(("aspect_ratio")@ != ("copyright")@);
            assert((("aspect_ratio")@).len() != (("Copyright")@).len());
            assert(("aspect_ratio")@ != ("Copyright")@);
            assert((("aspect_ratio")@).len() != (("url")@).len());
            assert(("aspect_ratio")@ != ("url")@);
            assert((("aspect_ratio")@).len() != (("URL")@).len());
            assert(("aspect_ratio")@ != ("URL")@);
            assert((("aspect_ratio")@).len() != (("picture")@).len());
            assert(("aspect_ratio")@ != ("picture")@);
            assert((("aspect_ratio")@).len() != (("Picture")@).len());
            assert(("aspect_ratio")@ != ("Picture")@);
            assert((("aspect_ratio")@).len() != (("runtime")@).len());
            assert(("aspect_ratio")@ != ("runtime")@);
            assert((("aspect_ratio")@).len() != (("Runtime")@).len());
            assert(("aspect_ratio")@ != ("Runtime")@);
            assert(crate::tags::spec_tag_of_name(("aspect_ratio")@) == Some(t));
        },
        TagType::AudioTracks => {
            assert((("audio_tracks")@).len() != (("title")@).len());
            assert(("audio_tracks")@ != ("title")@);
            assert((("audio_tracks")@).len() != (("Title")@).len());
            assert(("audio_tracks")@ != ("Title")@);
            assert((("audio_tracks")@).len() != (("media_type")@).len());
            assert(("audio_tracks")@ != ("media_type")@);
            assert((("audio_tracks")@).len() != (("mediatype")@).len());
            assert(("audio_tracks")@ != ("mediatype")@);
            assert((("audio_tracks")@).len() != (("MediaType")@).len());
            assert(("audio_tracks")@ != ("MediaType")@);
            assert((("audio_tracks")@).len() != (("genre")@).len());
            assert(("audio_tracks")@ != ("genre")@);
            assert((("audio_tracks")@).len() != (("Genre")@).len());
            assert(("audio_tracks")@ != ("Genre")@);
            assert((("audio_tracks")@).len() != (("series")@).len());
            assert(("audio_tracks")@ != ("series")@);
            assert((("audio_tracks")@).len() != (("Series")@).len());
            assert(("audio_tracks")@ != ("Series")@);
            assert((("audio_tracks")@).len() != (("season")@).len());
            assert(("audio_tracks")@ != ("season")@);
            assert((("audio_tracks")@).len() != (("Season")@).len());
            assert(("audio_tracks")@ != ("Season")@);
            assert((("audio_tracks")@).len() != (("Episode")@).len());
            assert(("audio_tracks")@ != ("Episode")@);
            assert((("audio_tracks")@).len() != (("episode")@).len());
            assert(("audio_tracks")@ != ("episode")@);
            assert((("audio_tracks")@).len() != (("Album")@).len());
            assert(("audio_tracks")@ != ("Album")@);
            assert((("audio_tracks")@).len() != (("album")@).len());
            assert(("audio_tracks")@ != ("album")@);
            assert((("audio_tracks")@).len() != (("track_no")@).len());
            assert(("audio_tracks")@ != ("track_no")@);
            assert((("audio_tracks")@).len() != (("track")@).len());
            assert(("audio_tracks")@ != ("track")@);
            assert((("audio_tracks")@).len() != (("track#")@).len());
            assert(("audio_tracks")@ != ("track#")@);
            assert((("audio_tracks")@).len() != (("TrackNo")@).len());
            assert(("audio_tracks")@ != ("TrackNo")@);
            assert((("audio_tracks")@).len() != (("studio")@).len());
            assert(("audio_tracks")@ != ("studio")@);
            assert((("audio_tracks")@).len() != (("Studio")@).len());
            assert(("audio_tracks")@ != ("Studio")@);
            assert((("audio_tracks")@).len() != (("director")@).len());
            assert(("audio_tracks")@ != ("director")@);
            assert((("audio_tracks")@).len() != (("Director")@).len());
            assert(("audio_tracks")@ != ("Director")@);
            assert((("audio_tracks")@).len() != (("artist")@).len());
            assert(("audio_tracks")@ != ("artist")@);
            assert((("audio_tracks")@).len() != (("Artist")@).len());
            assert(("audio_tracks")@ != ("Artist")@);
            assert((("audio_tracks")@).len() != (("composer")@).len());
            assert(("audio_tracks")@ != ("composer")@);
            assert((("audio_tracks")@).len() != (("Composer")@).len());
            assert(("audio_tracks")@ != ("Composer")@);
            assert((("audio_tracks")@).len() != (("cast")@).len());
            assert(("audio_tracks")@ != ("cast")@);
            assert((("audio_tracks")@).len() != (("Cast")@).len());
            assert(("audio_tracks")@ != ("Cast")@);
            assert((("audio_tracks")@)[0] == 'a' && (("photographer")@)[0] == 'p');
            assert(("audio_tracks")@ != ("photographer")@);
            assert((("audio_tracks")@)[0] == 'a' && (("Photographer")@)[0] == 'P');
            assert(("audio_tracks")@ != ("Photographer")@);
            assert((("audio_tracks")@).len() != (("year")@).len());
            assert(("audio_tracks")@ != ("year")@);
            assert((("audio_tracks")@).len() != (("Year")@).len());
            assert(("audio_tracks")@ != ("Year")@);
            assert((("audio_tracks")@).len() != (("airdate")@).len());
            assert(("audio_tracks")@ != ("airdate")@);
            assert((("audio_tracks")@).len() != (("Airdate")@).len());
            assert(("audio_tracks")@ != ("Airdate")@);
            assert((("audio_tracks")@).len() != (("comment")@).len());
            assert(("audio_tracks")@ != ("comment")@);
            assert((("audio_tracks")@).len() != (("Comment")@).len());
            assert(("audio_tracks")@ != ("Comment")@);
            assert((("audio_tracks")@).len() != (("summary")@).len());
            assert(("audio_tracks")@ != ("summary")@);
            assert((("audio_tracks")@).len() != (("Summary")@).len());
            assert(("audio_tracks")@ != ("Summary")@);
            assert((("audio_tracks")@).len() != (("country")@).len());
            assert(("audio_tracks")@ != ("country")@);
            assert((("audio_tracks")@).len() != (("Country")@).len());
            assert(("audio_tracks")@ != ("Country")@);
            assert((("audio_tracks")@).len() != (("rating")@).len());
            assert(("audio_tracks")@ != ("rating")@);
            assert((("audio_tracks")@).len() != (("Rating")@).len());
            assert(("audio_tracks")@ != ("Rating")@);
            assert((("audio_tracks")@).len() != (("license")@).len());
            assert(("audio_tracks")@ != ("license")@);
            assert((("audio_tracks")@).len() != (("License")@).len());
            assert(("audio_tracks")@ != ("License")@);
            assert((("audio_tracks")@).len() != (("copyright")@).len());
            assert(("audio_tracks")@ != ("copyright")@);
            assert((("audio_tracks")@).len() != (("Copyright")@).len());
            assert(("audio_tracks")@ != ("Copyright")@);
            assert((("audio_tracks")@).len() != (("url")@).len());
            assert(("audio_tracks")@ != ("url")@);
            assert((("audio_tracks")@).len() != (("URL")@).len());
            assert(("audio_tracks")@ != ("URL")@);
            assert((("audio_tracks")@).len() != (("picture")@).len());
            assert(("audio_tracks")@ != ("picture")@);
            assert((("audio_tracks")@).len() != (("Picture")@).len());
            assert(("audio_tracks")@ != ("Picture")@);
            assert((("audio_tracks")@).len() != (("runtime")@).len());
            assert(("audio_tracks")@ != ("runtime")@);
            assert((("audio_tracks")@).len() != (("Runtime")@).len());
            assert(("audio_tracks")@ != ("Runtime")@);
            assert((("audio_tracks")@)[1] == 'u' && (("aspect_ratio")@)[1] == 's');
            assert(("audio_tracks")@ != ("aspect_ratio")@);
            assert((("audio_tracks")@).len() != (("AspectRatio")@).len());
            assert(("audio_tracks")@ != ("AspectRatio")@);
            assert((("audio_tracks")@)[0] == 'a' && (("Aspect_Ratio")@)[0] == 'A');
            assert(("audio_tracks")@ != ("Aspect_Ratio")@);
            assert(crate::tags::spec_tag_of_name(("audio_tracks")@) == Some(t));
        },
        TagType::Subtitles => {
            assert((("subtitles")@).len() != (("title")@).len());
            assert(("subtitles")@ != ("title")@);
            assert((("subtitles")@).len() != (("Title")@).len());
            assert(("subtitles")@ != ("Title")@);
            assert((("subtitles")@).len() != (("media_type")@).len());
            assert(("subtitles")@ != ("media_type")@);
            assert((("subtitles")@)[0] == 's' && (("mediatype")@)[0] == 'm');
            assert(("subtitles")@ != ("mediatype")@);
            assert((("subtitles")@)[0] == 's' && (("MediaType")@)[0] == 'M');
            assert(("subtitles")@ != ("MediaType")@);
            assert((("subtitles")@).len() != (("genre")@).len());
            assert(("subtitles")@ != ("genre")@);
            assert((("subtitles")@).len() != (("Genre")@).len());
            assert(("subtitles")@ != ("Genre")@);
            assert((("subtitles")@).len() != (("series")@).len());
            assert(("subtitles")@ != ("series")@);
            assert((("subtitles")@).len() != (("Series")@).len());
            assert(("subtitles")@ != ("Series")@);
            assert((("subtitles")@).len() != (("season")@).len());
            assert(("subtitles")@ != ("season")@);
            assert((("subtitles")@).len() != (("Season")@).len());
            assert(("subtitles")@ != ("Season")@);
            assert((("subtitles")@).len() != (("Episode")@).len());
            assert(("subtitles")@ != ("Episode")@);
            assert((("subtitles")@).len() != (("episode")@).len());
            assert(("subtitles")@ != ("episode")@);
            assert((("subtitles")@).len() != (("Album")@).len());
            assert(("subtitles")@ != ("Album")@);
            assert((("subtitles")@).len() != (("album")@).len());
            assert(("subtitles")@ != ("album")@);
            assert((("subtitles")@).len() != (("track_no")@).len());
            assert(("subtitles")@ != ("track_no")@);
            assert((("subtitles")@).len() != (("track")@).len());
            assert(("subtitles")@ != ("track")@);
            assert((("subtitles")@).len() != (("track#")@).len());
            assert(("subtitles")@ != ("track#")@);
            assert((("subtitles")@).len() != (("TrackNo")@).len());
            assert(("subtitles")@ != ("TrackNo")@);
            assert((("subtitles")@).len() != (("studio")@).len());
            assert(("subtitles")@ != ("studio")@);
            assert((("subtitles")@).len() != (("Studio")@).len());
            assert(("subtitles")@ != ("Studio")@);
            assert((("subtitles")@).len() != (("director")@).len());
            assert(("subtitles")@ != ("director")@);
            assert((("subtitles")@).len() != (("Director")@).len());
            assert(("subtitles")@ != ("Director")@);
            assert((("subtitles")@).len() != (("artist")@).len());
            assert(("subtitles")@ != ("artist")@);
            assert((("subtitles")@).len() != (("Artist")@).len());
            assert(("subtitles")@ != ("Artist")@);
            assert((("subtitles")@).len() != (("composer")@).len());
            assert(("subtitles")@ != ("composer")@);
            assert((("subtitles")@).len() != (("Composer")@).len());
            assert(("subtitles")@ != ("Composer")@);
            assert((("subtitles")@).len() != (("cast")@).len());
            assert(("subtitles")@ != ("cast")@);
            assert((("subtitles")@).len() != (("Cast")@).len());
            assert(("subtitles")@ != ("Cast")@);
            assert((("subtitles")@).len() != (("photographer")@).len());
            assert(("subtitles")@ != ("photographer")@);
            assert((("subtitles")@).len() != (("Photographer")@).len());
            assert(("subtitles")@ != ("Photographer")@);
            assert((("subtitles")@).len() != (("year")@).len());
            assert(("subtitles")@ != ("year")@);
            assert((("subtitles")@).len() != (("Year")@).len());
            assert(("subtitles")@ != ("Year")@);
            assert((("subtitles")@).len() != (("airdate")@).len());
            assert(("subtitles")@ != ("airdate")@);
            assert((("subtitles")@).len() != (("Airdate")@).len());
            assert(("subtitles")@ != ("Airdate")@);
            assert((("subtitles")@).len() != (("comment")@).len());
            assert(("subtitles")@ != ("comment")@);
            assert((("subtitles")@).len() != (("Comment")@).len());
            assert(("subtitles")@ != ("Comment")@);
            assert((("subtitles")@).len() != (("summary")@).len());
            assert(("subtitles")@ != ("summary")@);
            assert((("subtitles")@).len() != (("Summary")@).len());
            assert(("subtitles")@ != ("Summary")@);
            assert((("subtitles")@).len() != (("country")@).len());
            assert(("subtitles")@ != ("country")@);
            assert((("subtitles")@).len() != (("Country")@).len());
            assert(("subtitles")@ != ("Country")@);
            assert((("subtitles")@).len() != (("rating")@).len());
            assert(("subtitles")@ != ("rating")@);
            assert((("subtitles")@).len() != (("Rating")@).len());
            assert(("subtitles")@ != ("Rating")@);
            assert((("subtitles")@).len() != (("license")@).len());
            assert(("subtitles")@ != ("license")@);
            assert((("subtitles")@).len() != (("License")@).len());
            assert(("subtitles")@ != ("License")@);
            assert((("subtitles")@)[0] == 's' && (("copyright")@)[0] == 'c');
            assert(("subtitles")@ != ("copyright")@);
            assert((("subtitles")@)[0] == 's' && (("Copyright")@)[0] == 'C');
            assert(("subtitles")@ != ("Copyright")@);
            assert((("subtitles")@).len() != (("url")@).len());
            assert(("subtitles")@ != ("url")@);
            assert((("subtitles")@).len() != (("URL")@).len());
            assert(("subtitles")@ != ("URL")@);
            assert((("subtitles")@).len() != (("picture")@).len());
            assert(("subtitles")@ != ("picture")@);
            assert((("subtitles")@).len() != (("Picture")@).len());
            assert(("subtitles")@ != ("Picture")@);
            assert((("subtitles")@).len() != (("runtime")@).len());
            assert(("subtitles")@ != ("runtime")@);
            assert((("subtitles")@).len() != (("Runtime")@).len());
            assert(("subtitles")@ != ("Runtime")@);
            assert((("subtitles")@).len() != (("aspect_ratio")@).len());
            assert(("subtitles")@ != ("aspect_ratio")@);
            assert((("subtitles")@).len() != (("AspectRatio")@).len());
            assert(("subtitles")@ != ("AspectRatio")@);
            assert((("subtitles")@).len() != (("Aspect_Ratio")@).len());
            assert(("subtitles")@ != ("Aspect_Ratio")@);
            assert((("subtitles")@).len() != (("audio_tracks")@).len());
            assert(("subtitles")@ != ("audio_tracks")@);
            assert((("subtitles")@).len() != (("AudioTracks")@).len());
            assert(("subtitles")@ != ("AudioTracks")@);
            assert((("subtitles")@).len() != (("Audio_Tracks")@).len());
            assert(("subtitles")@ != ("Audio_Tracks")@);
            assert(crate::tags::spec_tag_of_name(("subtitles")@) == Some(t));
        },
    }
}


/// A quoted value without embedded quotes, wherever it stands, is read by
/// the full rule chain as exactly one literal token holding that value.
pub proof fn lemma_quoted_token(content: Seq<char>, rest: Seq<char>)
    requires
        forall|i: int| 0 <= i < content.len() ==> #[trigger] content[i] != '"',
    ensures
        crate::parse::spec_rule(quoted(content) + rest, 0) == crate::parse::RuleV::Tok(
            crate::parse::TokenV::Data(content),
            (content.len() + 2) as nat,
        ),
{
    let s = quoted(content) + rest;
    assert(s[0] == '"');
    lemma_quoted_reads_back(content, rest);
    assert(crate::parse::spec_is_paren(s, 0) is NoMatch);
    reveal_strlit("list ");
    reveal_strlit("tags ");
    reveal_strlit("play");
    reveal_strlit("local ");
    reveal_strlit("network ");
    reveal_strlit("program ");
    reveal_strlit("schedule ");
    reveal_strlit("instr ");
    assert(!crate::parse::starts_with_at(s, 0, "list "@)) by {
        if crate::parse::starts_with_at(s, 0, "list "@) {
            assert(s.subrange(0, 5)[0] == s[0]);
        }
    }
    assert(!crate::parse::starts_with_at(s, 0, "tags "@)) by {
        if crate::parse::starts_with_at(s, 0, "tags "@) {
            assert(s.subrange(0, 5)[0] == s[0]);
        }
    }
    assert(!crate::parse::starts_with_at(s, 0, "play"@)) by {
        if crate::parse::starts_with_at(s, 0, "play"@) {
            assert(s.subrange(0, 4)[0] == s[0]);
        }
    }
    assert(!crate::parse::starts_with_at(s, 0, "local "@)) by {
        if crate::parse::starts_with_at(s, 0, "local "@) {
            assert(s.subrange(0, 6)[0] == s[0]);
        }
    }
    assert(!crate::parse::starts_with_at(s, 0, "network "@)) by {
        if crate::parse::starts_with_at(s, 0, "network "@) {
            assert(s.subrange(0, 8)[0] == s[0]);
        }
    }
    assert(!crate::parse::starts_with_at(s, 0, "program "@)) by {
        if crate::parse::starts_with_at(s, 0, "program "@) {
            assert(s.subrange(0, 8)[0] == s[0]);
        }
    }
    assert(!crate::parse::starts_with_at(s, 0, "schedule "@)) by {
        if crate::parse::starts_with_at(s, 0, "schedule "@) {
            assert(s.subrange(0, 9)[0] == s[0]);
        }
    }
    assert(!crate::parse::starts_with_at(s, 0, "instr "@)) by {
        if crate::parse::starts_with_at(s, 0, "instr "@) {
            assert(s.subrange(0, 6)[0] == s[0]);
        }
    }
    assert(crate::parse::spec_is_keyword(s, 0) is NoMatch);
}

/// A rendered time of at most `99:59:59`, wherever it stands, is read by
/// the full rule chain as exactly one time token worth that time.
pub proof fn lemma_time_token(t: int, rest: Seq<char>)
    requires
        0 <= t <= 359999,
    ensures
        crate::parse::spec_rule(time_text(t) + rest, 0) == crate::parse::RuleV::Tok(
            crate::parse::TokenV::Time(t as usize),
            8,
        ),
{
    let s = time_text(t) + rest;
    lemma_time_text_reads_back(t);
    assert(forall|i: int| 0 <= i < 8 ==> s[i] == #[trigger] time_text(t)[i]);
    assert(crate::parse::time_pattern_at(s, 0));
    assert(crate::parse::time_value_at(s, 0) == t);
    assert(crate::chars::is_digit_char(s[0]));
    assert('0' <= s[0] <= '9');
    assert(crate::parse::spec_is_paren(s, 0) is NoMatch);
    reveal_strlit("list ");
    reveal_strlit("tags ");
    reveal_strlit("play");
    reveal_strlit("local ");
    reveal_strlit("network ");
    reveal_strlit("program ");
    reveal_strlit("schedule ");
    reveal_strlit("instr ");
    assert(!crate::parse::starts_with_at(s, 0, "list "@)) by {
        if crate::parse::starts_with_at(s, 0, "list "@) {
            assert(s.subrange(0, 5)[0] == s[0]);
        }
    }
    assert(!crate::parse::starts_with_at(s, 0, "tags "@)) by {
        if crate::parse::starts_with_at(s, 0, "tags "@) {
            assert(s.subrange(0, 5)[0] == s[0]);
        }
    }
    assert(!crate::parse::starts_with_at(s, 0, "play"@)) by {
        if crate::parse::starts_with_at(s, 0, "play"@) {
            assert(s.subrange(0, 4)[0] == s[0]);
        }
    }
    assert(!crate::parse::starts_with_at(s, 0, "local "@)) by {
        if crate::parse::starts_with_at(s, 0, "local "@) {
            assert(s.subrange(0, 6)[0] == s[0]);
        }
    }
    assert(!crate::parse::starts_with_at(s, 0, "network "@)) by {
        if crate::parse::starts_with_at(s, 0, "network "@) {
            assert(s.subrange(0, 8)[0] == s[0]);
        }
    }
    assert(!crate::parse::starts_with_at(s, 0, "program "@)) by {
        if crate::parse::starts_with_at(s, 0, "program "@) {
            assert(s.subrange(0, 8)[0] == s[0]);
        }
    }
    assert(!crate::parse::starts_with_at(s, 0, "schedule "@)) by {
        if crate::parse::starts_with_at(s, 0, "schedule "@) {
            assert(s.subrange(0, 9)[0] == s[0]);
        }
    }
    assert(!crate::parse::starts_with_at(s, 0, "instr "@)) by {
        if crate::parse::starts_with_at(s, 0, "instr "@) {
            assert(s.subrange(0, 6)[0] == s[0]);
        }
    }
    assert(crate::parse::spec_is_keyword(s, 0) is NoMatch);
    assert(crate::parse::spec_is_data(s, 0) is NoMatch);
}
} // verus!
