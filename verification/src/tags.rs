//! Typed optional metadata attached to a program, and the string coercions
//! through which every tag value enters the system.

use vstd::prelude::*;
use crate::chars::{
    all_digits, dec_value, is_digit_char, range_eq_str, seq_dec_val, str_to_chars,
};
use crate::parse::ParseError;

verus! {

#[derive(Clone, Copy, PartialEq, Eq, Structural, Debug)]
pub enum VideoType {
    Movie,
    LiveAction,
    Cartoon,
    Anime,
    MusicVideo,
    Short,
    Advert,
}

#[derive(Clone, Copy, PartialEq, Eq, Structural, Debug)]
pub enum AudioType {
    Album,
    Song,
    Radio,
    Podcast,
    Clip,
    Misc,
}

#[derive(Clone, Copy, PartialEq, Eq, Structural, Debug)]
pub enum MediaType {
    Video(VideoType),
    Audio(AudioType),
    Image,
}

#[derive(Clone, Copy, PartialEq, Eq, Structural, Debug)]
pub enum TagType {
    Title,
    MediaType,
    Genre,
    Series,
    Season,
    Episode,
    Album,
    TrackNo,
    Studio,
    Director,
    Artist,
    Composer,
    Cast,
    Photographer,
    Year,
    Airdate,
    Comment,
    Summary,
    Country,
    Rating,
    License,
    Copyright,
    URL,
    Picture,
    Runtime,
    AspectRatio,
    AudioTracks,
    Subtitles,
}

// ---------------------------------------------------------------------------
// Names: how each enum reads from and renders to the textual format.
// ---------------------------------------------------------------------------

pub open spec fn spec_video_of_name(s: Seq<char>) -> Option<VideoType> {
    if s == "movie"@ || s == "Movie"@ {
        Some(VideoType::Movie)
    } else if s == "live action"@ || s == "Live Action"@ || s == "live Action"@ || s
        == "Live action"@ {
        Some(VideoType::LiveAction)
    } else if s == "cartoon"@ || s == "Cartoon"@ {
        Some(VideoType::Cartoon)
    } else if s == "anime"@ || s == "Anime"@ {
        Some(VideoType::Anime)
    } else if s == "music video"@ || s == "Music Video"@ || s == "music Video"@ || s
        == "Music video"@ {
        Some(VideoType::MusicVideo)
    } else if s == "short"@ || s == "Short"@ {
        Some(VideoType::Short)
    } else if s == "ad"@ || s == "advert"@ || s == "advertisement"@ || s == "Ad"@ || s == "Advert"@
        || s == "Advertisement"@ {
        Some(VideoType::Advert)
    } else {
        None
    }
}

pub open spec fn spec_audio_of_name(s: Seq<char>) -> Option<AudioType> {
    if s == "Album"@ || s == "album"@ {
        Some(AudioType::Album)
    } else if s == "Song"@ || s == "song"@ {
        Some(AudioType::Song)
    } else if s == "Radio"@ || s == "radio"@ {
        Some(AudioType::Radio)
    } else if s == "podcast"@ || s == "Podcast"@ {
        Some(AudioType::Podcast)
    } else if s == "clip"@ || s == "Clip"@ {
        Some(AudioType::Clip)
    } else if s == "misc"@ || s == "Misc"@ || s == "miscellaneous"@ || s == "Miscellaneous"@ {
        Some(AudioType::Misc)
    } else {
        None
    }
}

/// A media kind reads as a video kind first, an audio kind second,
/// and the image kind last.
pub open spec fn spec_media_of_name(s: Seq<char>) -> Option<MediaType> {
    match spec_video_of_name(s) {
        Some(v) => Some(MediaType::Video(v)),
        None => match spec_audio_of_name(s) {
            Some(a) => Some(MediaType::Audio(a)),
            None => if s == "image"@ || s == "Image"@ {
                Some(MediaType::Image)
            } else {
                None
            },
        },
    }
}

pub open spec fn spec_tag_of_name(s: Seq<char>) -> Option<TagType> {
    if s == "title"@ || s == "Title"@ {
        Some(TagType::Title)
    } else if s == "media_type"@ || s == "mediatype"@ || s == "MediaType"@ {
        Some(TagType::MediaType)
    } else if s == "genre"@ || s == "Genre"@ {
        Some(TagType::Genre)
    } else if s == "series"@ || s == "Series"@ {
        Some(TagType::Series)
    } else if s == "season"@ || s == "Season"@ {
        Some(TagType::Season)
    } else if s == "Episode"@ || s == "episode"@ {
        Some(TagType::Episode)
    } else if s == "Album"@ || s == "album"@ {
        Some(TagType::Album)
    } else if s == "track_no"@ || s == "track"@ || s == "track#"@ || s == "TrackNo"@ {
        Some(TagType::TrackNo)
    } else if s == "studio"@ || s == "Studio"@ {
        Some(TagType::Studio)
    } else if s == "director"@ || s == "Director"@ {
        Some(TagType::Director)
    } else if s == "artist"@ || s == "Artist"@ {
        Some(TagType::Artist)
    } else if s == "composer"@ || s == "Composer"@ {
        Some(TagType::Composer)
    } else if s == "cast"@ || s == "Cast"@ {
        Some(TagType::Cast)
    } else if s == "photographer"@ || s == "Photographer"@ {
        Some(TagType::Photographer)
    } else if s == "year"@ || s == "Year"@ {
        Some(TagType::Year)
    } else if s == "airdate"@ || s == "Airdate"@ {
        Some(TagType::Airdate)
    } else if s == "comment"@ || s == "Comment"@ {
        Some(TagType::Comment)
    } else if s == "summary"@ || s == "Summary"@ {
        Some(TagType::Summary)
    } else if s == "country"@ || s == "Country"@ {
        Some(TagType::Country)
    } else if s == "rating"@ || s == "Rating"@ {
        Some(TagType::Rating)
    } else if s == "license"@ || s == "License"@ {
        Some(TagType::License)
    } else if s == "copyright"@ || s == "Copyright"@ {
        Some(TagType::Copyright)
    } else if s == "url"@ || s == "URL"@ {
        Some(TagType::URL)
    } else if s == "picture"@ || s == "Picture"@ {
        Some(TagType::Picture)
    } else if s == "runtime"@ || s == "Runtime"@ {
        Some(TagType::Runtime)
    } else if s == "aspect_ratio"@ || s == "AspectRatio"@ || s == "Aspect_Ratio"@ {
        Some(TagType::AspectRatio)
    } else if s == "audio_tracks"@ || s == "AudioTracks"@ || s == "Audio_Tracks"@ {
        Some(TagType::AudioTracks)
    } else if s == "subtitles"@ || s == "Subtitles"@ {
        Some(TagType::Subtitles)
    } else {
        None
    }
}

impl VideoType {
    pub fn of_name(s: &Vec<char>, from: usize, to: usize) -> (r: Option<VideoType>)
        requires
            from <= to <= s@.len(),
        ensures
            r == spec_video_of_name(s@.subrange(from as int, to as int)),
    {
        if range_eq_str(s, from, to, "movie") || range_eq_str(s, from, to, "Movie") {
            Some(VideoType::Movie)
        } else if range_eq_str(s, from, to, "live action") || range_eq_str(s, from, to, "Live Action")
            || range_eq_str(s, from, to, "live Action") || range_eq_str(s, from, to, "Live action") {
            Some(VideoType::LiveAction)
        } else if range_eq_str(s, from, to, "cartoon") || range_eq_str(s, from, to, "Cartoon") {
            Some(VideoType::Cartoon)
        } else if range_eq_str(s, from, to, "anime") || range_eq_str(s, from, to, "Anime") {
            Some(VideoType::Anime)
        } else if range_eq_str(s, from, to, "music video") || range_eq_str(s, from, to, "Music Video")
            || range_eq_str(s, from, to, "music Video") || range_eq_str(s, from, to, "Music video") {
            Some(VideoType::MusicVideo)
        } else if range_eq_str(s, from, to, "short") || range_eq_str(s, from, to, "Short") {
            Some(VideoType::Short)
        } else if range_eq_str(s, from, to, "ad") || range_eq_str(s, from, to, "advert")
            || range_eq_str(s, from, to, "advertisement") || range_eq_str(s, from, to, "Ad")
            || range_eq_str(s, from, to, "Advert") || range_eq_str(s, from, to, "Advertisement") {
            Some(VideoType::Advert)
        } else {
            None
        }
    }
}

impl AudioType {
    pub fn of_name(s: &Vec<char>, from: usize, to: usize) -> (r: Option<AudioType>)
        requires
            from <= to <= s@.len(),
        ensures
            r == spec_audio_of_name(s@.subrange(from as int, to as int)),
    {
        if range_eq_str(s, from, to, "Album") || range_eq_str(s, from, to, "album") {
            Some(AudioType::Album)
        } else if range_eq_str(s, from, to, "Song") || range_eq_str(s, from, to, "song") {
            Some(AudioType::Song)
        } else if range_eq_str(s, from, to, "Radio") || range_eq_str(s, from, to, "radio") {
            Some(AudioType::Radio)
        } else if range_eq_str(s, from, to, "podcast") || range_eq_str(s, from, to, "Podcast") {
            Some(AudioType::Podcast)
        } else if range_eq_str(s, from, to, "clip") || range_eq_str(s, from, to, "Clip") {
            Some(AudioType::Clip)
        } else if range_eq_str(s, from, to, "misc") || range_eq_str(s, from, to, "Misc")
            || range_eq_str(s, from, to, "miscellaneous") || range_eq_str(s, from, to, "Miscellaneous") {
            Some(AudioType::Misc)
        } else {
            None
        }
    }
}

impl MediaType {
    pub fn of_name(s: &Vec<char>, from: usize, to: usize) -> (r: Option<MediaType>)
        requires
            from <= to <= s@.len(),
        ensures
            r == spec_media_of_name(s@.subrange(from as int, to as int)),
    {
        match VideoType::of_name(s, from, to) {
            Some(v) => Some(MediaType::Video(v)),
            None => match AudioType::of_name(s, from, to) {
                Some(a) => Some(MediaType::Audio(a)),
                None => {
                    if range_eq_str(s, from, to, "image") || range_eq_str(s, from, to, "Image") {
                        Some(MediaType::Image)
                    } else {
                        None
                    }
                },
            },
        }
    }
}

impl TagType {
    pub fn of_name(s: &Vec<char>, from: usize, to: usize) -> (r: Option<TagType>)
        requires
            from <= to <= s@.len(),
        ensures
            r == spec_tag_of_name(s@.subrange(from as int, to as int)),
    {
        if range_eq_str(s, from, to, "title") || range_eq_str(s, from, to, "Title") {
            Some(TagType::Title)
        } else if range_eq_str(s, from, to, "media_type") || range_eq_str(s, from, to, "mediatype")
            || range_eq_str(s, from, to, "MediaType") {
            Some(TagType::MediaType)
        } else if range_eq_str(s, from, to, "genre") || range_eq_str(s, from, to, "Genre") {
            Some(TagType::Genre)
        } else if range_eq_str(s, from, to, "series") || range_eq_str(s, from, to, "Series") {
            Some(TagType::Series)
        } else if range_eq_str(s, from, to, "season") || range_eq_str(s, from, to, "Season") {
            Some(TagType::Season)
        } else if range_eq_str(s, from, to, "Episode") || range_eq_str(s, from, to, "episode") {
            Some(TagType::Episode)
        } else if range_eq_str(s, from, to, "Album") || range_eq_str(s, from, to, "album") {
            Some(TagType::Album)
        } else if range_eq_str(s, from, to, "track_no") || range_eq_str(s, from, to, "track")
            || range_eq_str(s, from, to, "track#") || range_eq_str(s, from, to, "TrackNo") {
            Some(TagType::TrackNo)
        } else if range_eq_str(s, from, to, "studio") || range_eq_str(s, from, to, "Studio") {
            Some(TagType::Studio)
        } else if range_eq_str(s, from, to, "director") || range_eq_str(s, from, to, "Director") {
            Some(TagType::Director)
        } else if range_eq_str(s, from, to, "artist") || range_eq_str(s, from, to, "Artist") {
            Some(TagType::Artist)
        } else if range_eq_str(s, from, to, "composer") || range_eq_str(s, from, to, "Composer") {
            Some(TagType::Composer)
        } else if range_eq_str(s, from, to, "cast") || range_eq_str(s, from, to, "Cast") {
            Some(TagType::Cast)
        } else if range_eq_str(s, from, to, "photographer") || range_eq_str(s, from, to, "Photographer") {
            Some(TagType::Photographer)
        } else if range_eq_str(s, from, to, "year") || range_eq_str(s, from, to, "Year") {
            Some(TagType::Year)
        } else if range_eq_str(s, from, to, "airdate") || range_eq_str(s, from, to, "Airdate") {
            Some(TagType::Airdate)
        } else if range_eq_str(s, from, to, "comment") || range_eq_str(s, from, to, "Comment") {
            Some(TagType::Comment)
        } else if range_eq_str(s, from, to, "summary") || range_eq_str(s, from, to, "Summary") {
            Some(TagType::Summary)
        } else if range_eq_str(s, from, to, "country") || range_eq_str(s, from, to, "Country") {
            Some(TagType::Country)
        } else if range_eq_str(s, from, to, "rating") || range_eq_str(s, from, to, "Rating") {
            Some(TagType::Rating)
        } else if range_eq_str(s, from, to, "license") || range_eq_str(s, from, to, "License") {
            Some(TagType::License)
        } else if range_eq_str(s, from, to, "copyright") || range_eq_str(s, from, to, "Copyright") {
            Some(TagType::Copyright)
        } else if range_eq_str(s, from, to, "url") || range_eq_str(s, from, to, "URL") {
            Some(TagType::URL)
        } else if range_eq_str(s, from, to, "picture") || range_eq_str(s, from, to, "Picture") {
            Some(TagType::Picture)
        } else if range_eq_str(s, from, to, "runtime") || range_eq_str(s, from, to, "Runtime") {
            Some(TagType::Runtime)
        } else if range_eq_str(s, from, to, "aspect_ratio") || range_eq_str(s, from, to, "AspectRatio")
            || range_eq_str(s, from, to, "Aspect_Ratio") {
            Some(TagType::AspectRatio)
        } else if range_eq_str(s, from, to, "audio_tracks") || range_eq_str(s, from, to, "AudioTracks")
            || range_eq_str(s, from, to, "Audio_Tracks") {
            Some(TagType::AudioTracks)
        } else if range_eq_str(s, from, to, "subtitles") || range_eq_str(s, from, to, "Subtitles") {
            Some(TagType::Subtitles)
        } else {
            None
        }
    }
}

// ---------------------------------------------------------------------------
// Dates, as plain year / month / day values under the Gregorian calendar.
// ---------------------------------------------------------------------------

pub open spec fn is_leap_year(y: int) -> bool {
    y % 4 == 0 && (y % 100 != 0 || y % 400 == 0)
}

pub open spec fn days_in_month(y: int, m: int) -> int {
    if m == 2 {
        if is_leap_year(y) {
            29
        } else {
            28
        }
    } else if m == 4 || m == 6 || m == 9 || m == 11 {
        30
    } else {
        31
    }
}

pub open spec fn valid_ymd(y: int, m: int, d: int) -> bool {
    1 <= m <= 12 && 1 <= d <= days_in_month(y, m)
}

/// Relies on chrono's `NaiveDate::from_ymd_opt`: it returns `Some` exactly for
/// the calendar-valid dates of the proleptic Gregorian calendar (every `u16`
/// year lies well inside chrono's supported year range, and the call never
/// panics).
#[verifier::external_body]
fn ymd_is_valid(y: u16, m: u8, d: u8) -> (r: bool)
    ensures
        r == valid_ymd(y as int, m as int, d as int),
{
    chrono::NaiveDate::from_ymd_opt(y as i32, m as u32, d as u32).is_some()
}

/// A calendar date with a four-digit year, as the `airdate` tag stores it.
#[derive(Clone, Copy, PartialEq, Eq, Structural, Debug)]
pub struct Date {
    pub year: u16,
    pub month: u8,
    pub day: u8,
}

pub open spec fn date_wf(d: Date) -> bool {
    valid_ymd(d.year as int, d.month as int, d.day as int) && d.year <= 9999
}

impl Date {
    /// A date is built only from a calendar-valid year / month / day triple
    /// with a year of at most four digits.
    pub fn new(year: u16, month: u8, day: u8) -> (r: Option<Date>)
        ensures
            match r {
                Some(d) => d == (Date { year, month, day }) && date_wf(d),
                None => !(valid_ymd(year as int, month as int, day as int) && year <= 9999),
            },
    {
        if year <= 9999 && ymd_is_valid(year, month, day) {
            Some(Date { year, month, day })
        } else {
            None
        }
    }
}

// ---------------------------------------------------------------------------
// The tag record and its view.
// ---------------------------------------------------------------------------

#[derive(PartialEq, Debug)]
pub struct Tags {
    pub title: Option<String>,
    pub media_type: Option<MediaType>,
    pub genre: Option<String>,
    pub series: Option<String>,
    pub season: Option<u8>,
    pub episode: Option<u16>,
    pub album: Option<String>,
    pub track_no: Option<u16>,
    pub studio: Option<String>,
    pub director: Option<String>,
    pub artist: Option<String>,
    pub composer: Option<String>,
    pub cast: Option<Vec<String>>,
    pub photographer: Option<String>,
    pub year: Option<u16>,
    pub airdate: Option<Date>,
    pub comment: Option<String>,
    pub summary: Option<String>,
    pub country: Option<String>,
    pub rating: Option<String>,
    pub license: Option<String>,
    pub copyright: Option<String>,
    pub url: Option<String>,
    pub picture: Option<String>,
    pub runtime: Option<usize>,
    pub aspect_ratio: Option<String>,
    pub audio_tracks: Option<Vec<String>>,
    pub subtitles: Option<Vec<String>>,
}

/// The mathematical value of a tag record: every string as its
/// character sequence.
pub ghost struct TagsV {
    pub title: Option<Seq<char>>,
    pub media_type: Option<MediaType>,
    pub genre: Option<Seq<char>>,
    pub series: Option<Seq<char>>,
    pub season: Option<u8>,
    pub episode: Option<u16>,
    pub album: Option<Seq<char>>,
    pub track_no: Option<u16>,
    pub studio: Option<Seq<char>>,
    pub director: Option<Seq<char>>,
    pub artist: Option<Seq<char>>,
    pub composer: Option<Seq<char>>,
    pub cast: Option<Seq<Seq<char>>>,
    pub photographer: Option<Seq<char>>,
    pub year: Option<u16>,
    pub airdate: Option<Date>,
    pub comment: Option<Seq<char>>,
    pub summary: Option<Seq<char>>,
    pub country: Option<Seq<char>>,
    pub rating: Option<Seq<char>>,
    pub license: Option<Seq<char>>,
    pub copyright: Option<Seq<char>>,
    pub url: Option<Seq<char>>,
    pub picture: Option<Seq<char>>,
    pub runtime: Option<usize>,
    pub aspect_ratio: Option<Seq<char>>,
    pub audio_tracks: Option<Seq<Seq<char>>>,
    pub subtitles: Option<Seq<Seq<char>>>,
}

pub open spec fn opt_str_view(o: Option<String>) -> Option<Seq<char>> {
    match o {
        Some(s) => Some(s@),
        None => None,
    }
}

pub open spec fn opt_strs_view(o: Option<Vec<String>>) -> Option<Seq<Seq<char>>> {
    match o {
        Some(v) => Some(Seq::new(v@.len(), |i: int| v@[i]@)),
        None => None,
    }
}

impl View for Tags {
    type V = TagsV;

    open spec fn view(&self) -> TagsV {
        TagsV {
            title: opt_str_view(self.title),
            media_type: self.media_type,
            genre: opt_str_view(self.genre),
            series: opt_str_view(self.series),
            season: self.season,
            episode: self.episode,
            album: opt_str_view(self.album),
            track_no: self.track_no,
            studio: opt_str_view(self.studio),
            director: opt_str_view(self.director),
            artist: opt_str_view(self.artist),
            composer: opt_str_view(self.composer),
            cast: opt_strs_view(self.cast),
            photographer: opt_str_view(self.photographer),
            year: self.year,
            airdate: self.airdate,
            comment: opt_str_view(self.comment),
            summary: opt_str_view(self.summary),
            country: opt_str_view(self.country),
            rating: opt_str_view(self.rating),
            license: opt_str_view(self.license),
            copyright: opt_str_view(self.copyright),
            url: opt_str_view(self.url),
            picture: opt_str_view(self.picture),
            runtime: self.runtime,
            aspect_ratio: opt_str_view(self.aspect_ratio),
            audio_tracks: opt_strs_view(self.audio_tracks),
            subtitles: opt_strs_view(self.subtitles),
        }
    }
}

pub open spec fn empty_tags() -> TagsV {
    TagsV {
        title: None,
        media_type: None,
        genre: None,
        series: None,
        season: None,
        episode: None,
        album: None,
        track_no: None,
        studio: None,
        director: None,
        artist: None,
        composer: None,
        cast: None,
        photographer: None,
        year: None,
        airdate: None,
        comment: None,
        summary: None,
        country: None,
        rating: None,
        license: None,
        copyright: None,
        url: None,
        picture: None,
        runtime: None,
        aspect_ratio: None,
        audio_tracks: None,
        subtitles: None,
    }
}

/// A well-formed tag record: a date it holds is calendar-valid.
pub open spec fn tags_wf(t: TagsV) -> bool {
    match t.airdate {
        Some(d) => date_wf(d),
        None => true,
    }
}

// ---------------------------------------------------------------------------
// Coercions of tag values.
// ---------------------------------------------------------------------------

/// A comma-separated string splits into the pieces between the commas;
/// a string without commas is a single piece, and the empty string is
/// one empty piece.
pub open spec fn split_commas(s: Seq<char>) -> Seq<Seq<char>>
    decreases s.len(),
{
    if s.len() == 0 {
        seq![Seq::<char>::empty()]
    } else if s[0] == ',' {
        seq![Seq::<char>::empty()] + split_commas(s.skip(1))
    } else {
        let r = split_commas(s.skip(1));
        seq![seq![s[0]] + r[0]] + r.skip(1)
    }
}

pub proof fn lemma_split_commas_len(s: Seq<char>)
    ensures
        split_commas(s).len() >= 1,
    decreases s.len(),
{
    if s.len() != 0 {
        lemma_split_commas_len(s.skip(1));
    }
}

/// The pieces of `v[from..]` between commas, each as its own character vector.
fn split_chars(v: &Vec<char>, from: usize) -> (r: Vec<Vec<char>>)
    requires
        from <= v@.len(),
    ensures
        r@.len() == split_commas(v@.skip(from as int)).len(),
        forall|i: int|
            0 <= i < r@.len() ==> (#[trigger] r@[i])@ == split_commas(v@.skip(from as int))[i],
        r@.len() >= 1,
    decreases v@.len() - from,
{
    proof {
        lemma_split_commas_len(v@.skip(from as int));
    }
    if from == v.len() {
        let mut r: Vec<Vec<char>> = Vec::new();
        r.push(Vec::new());
        proof {
            assert(v@.skip(from as int).len() == 0);
            assert(r@[0]@ =~= split_commas(v@.skip(from as int))[0]);
        }
        r
    } else {
        let c = v[from];
        let ghost s = v@.skip(from as int);
        proof {
            assert(s.len() > 0);
            assert(s[0] == v@[from as int]);
            assert(s.skip(1) =~= v@.skip(from + 1));
        }
        if c == ',' {
            let mut r = split_chars(v, from + 1);
            r.insert(0, Vec::new());
            proof {
                let sp = split_commas(s);
                assert(sp =~= seq![Seq::<char>::empty()] + split_commas(s.skip(1)));
                assert(r@[0]@ =~= Seq::<char>::empty());
                assert forall|i: int| 0 <= i < r@.len() implies (#[trigger] r@[i])@ == sp[i] by {
                }
            }
            r
        } else {
            let mut r = split_chars(v, from + 1);
            proof {
                lemma_split_commas_len(v@.skip(from + 1));
            }
            let mut first = r.remove(0);
            first.insert(0, c);
            r.insert(0, first);
            proof {
                let sp = split_commas(s);
                let rp = split_commas(s.skip(1));
                assert(sp =~= seq![seq![s[0]] + rp[0]] + rp.skip(1));
                assert(r@[0]@ =~= seq![s[0]] + rp[0]);
                assert forall|i: int| 0 <= i < r@.len() implies (#[trigger] r@[i])@ == sp[i] by {
                    if i > 0 {
                        assert(rp.skip(1)[i - 1] == rp[i]);
                    }
                }
            }
            r
        }
    }
}

/// The comma-separated pieces of `v`, as strings.
pub fn split_commas_strings(v: &Vec<char>) -> (r: Vec<String>)
    ensures
        r@.len() == split_commas(v@).len(),
        forall|i: int| 0 <= i < r@.len() ==> (#[trigger] r@[i])@ == split_commas(v@)[i],
{
    let parts = split_chars(v, 0);
    proof {
        assert(v@.skip(0) =~= v@);
    }
    let mut out: Vec<String> = Vec::new();
    let mut i: usize = 0;
    while i < parts.len()
        invariant
            0 <= i <= parts@.len(),
            parts@.len() == split_commas(v@).len(),
            forall|j: int|
                0 <= j < parts@.len() ==> (#[trigger] parts@[j])@ == split_commas(v@)[j],
            out@.len() == i,
            forall|j: int| 0 <= j < i ==> (#[trigger] out@[j])@ == split_commas(v@)[j],
        decreases parts@.len() - i,
    {
        out.push(crate::chars::chars_to_string(&parts[i]));
        i = i + 1;
    }
    out
}

/// A date value reads as `yyyy-mm-dd`, all fields decimal digits,
/// and must be calendar-valid.
pub open spec fn spec_date_of(s: Seq<char>) -> Option<Date> {
    if s.len() == 10 && s[4] == '-' && s[7] == '-' && all_digits(s.subrange(0, 4)) && all_digits(
        s.subrange(5, 7),
    ) && all_digits(s.subrange(8, 10)) {
        let y = seq_dec_val(s.subrange(0, 4));
        let m = seq_dec_val(s.subrange(5, 7));
        let d = seq_dec_val(s.subrange(8, 10));
        if valid_ymd(y, m, d) {
            Some(Date { year: y as u16, month: m as u8, day: d as u8 })
        } else {
            None
        }
    } else {
        None
    }
}

/// A duration reads as decimal digits followed by one of `h`, `m` or `s`,
/// and is stored in seconds.
pub open spec fn runtime_scale(c: char) -> int {
    if c == 'h' {
        3600
    } else if c == 'm' {
        60
    } else {
        1
    }
}

pub open spec fn spec_runtime_of(s: Seq<char>) -> Option<usize> {
    if s.len() >= 2 && (s.last() == 'h' || s.last() == 'm' || s.last() == 's') && all_digits(
        s.drop_last(),
    ) {
        let amt = seq_dec_val(s.drop_last());
        let total = amt * runtime_scale(s.last());
        if total <= usize::MAX {
            Some(total as usize)
        } else {
            None
        }
    } else {
        None
    }
}

/// What a single tag assignment does to a tag record: the new record, or
/// `None` when the value fails the tag's coercion.
pub open spec fn spec_modify_tag(t: TagsV, tag: TagType, data: Seq<char>) -> Option<TagsV> {
    match tag {
        TagType::Title => Some(TagsV { title: Some(data), ..t }),
        TagType::MediaType => match spec_media_of_name(data) {
            Some(m) => Some(TagsV { media_type: Some(m), ..t }),
            None => None,
        },
        TagType::Genre => Some(TagsV { genre: Some(data), ..t }),
        TagType::Series => Some(TagsV { series: Some(data), ..t }),
        TagType::Season => if data.len() > 0 && all_digits(data) && seq_dec_val(data) <= 255 {
            Some(TagsV { season: Some(seq_dec_val(data) as u8), ..t })
        } else {
            None
        },
        TagType::Episode => if data.len() > 0 && all_digits(data) && seq_dec_val(data) <= 65535 {
            Some(TagsV { episode: Some(seq_dec_val(data) as u16), ..t })
        } else {
            None
        },
        TagType::Album => Some(TagsV { album: Some(data), ..t }),
        TagType::TrackNo => if data.len() > 0 && all_digits(data) && seq_dec_val(data) <= 65535 {
            Some(TagsV { track_no: Some(seq_dec_val(data) as u16), ..t })
        } else {
            None
        },
        TagType::Studio => Some(TagsV { studio: Some(data), ..t }),
        TagType::Director => Some(TagsV { director: Some(data), ..t }),
        TagType::Artist => Some(TagsV { artist: Some(data), ..t }),
        TagType::Composer => Some(TagsV { composer: Some(data), ..t }),
        TagType::Cast => Some(TagsV { cast: Some(split_commas(data)), ..t }),
        TagType::Photographer => Some(TagsV { photographer: Some(data), ..t }),
        TagType::Year => if data.len() > 0 && all_digits(data) && seq_dec_val(data) <= 65535 {
            Some(TagsV { year: Some(seq_dec_val(data) as u16), ..t })
        } else {
            None
        },
        TagType::Airdate => match spec_date_of(data) {
            Some(d) => Some(TagsV { airdate: Some(d), ..t }),
            None => None,
        },
        TagType::Comment => Some(TagsV { comment: Some(data), ..t }),
        TagType::Summary => Some(TagsV { summary: Some(data), ..t }),
        TagType::Country => Some(TagsV { country: Some(data), ..t }),
        TagType::Rating => Some(TagsV { rating: Some(data), ..t }),
        TagType::License => Some(TagsV { license: Some(data), ..t }),
        TagType::Copyright => Some(TagsV { copyright: Some(data), ..t }),
        TagType::URL => Some(TagsV { url: Some(data), ..t }),
        TagType::Picture => Some(TagsV { picture: Some(data), ..t }),
        TagType::Runtime => match spec_runtime_of(data) {
            Some(n) => Some(TagsV { runtime: Some(n), ..t }),
            None => None,
        },
        TagType::AspectRatio => Some(TagsV { aspect_ratio: Some(data), ..t }),
        TagType::AudioTracks => Some(TagsV { audio_tracks: Some(split_commas(data)), ..t }),
        TagType::Subtitles => Some(TagsV { subtitles: Some(split_commas(data)), ..t }),
    }
}

/// What replacing a list-valued tag with an explicit list does: the three
/// list tags accept it, every other tag refuses it.
pub open spec fn spec_modify_multi(t: TagsV, tag: TagType, list: Seq<Seq<char>>) -> Option<TagsV> {
    match tag {
        TagType::Cast => Some(TagsV { cast: Some(list), ..t }),
        TagType::AudioTracks => Some(TagsV { audio_tracks: Some(list), ..t }),
        TagType::Subtitles => Some(TagsV { subtitles: Some(list), ..t }),
        _ => None,
    }
}

impl Tags {
    /// The record with every tag absent.
    pub fn new() -> (r: Tags)
        ensures
            r@ == empty_tags(),
    {
        Tags {
            title: None,
            media_type: None,
            genre: None,
            series: None,
            season: None,
            episode: None,
            album: None,
            track_no: None,
            studio: None,
            director: None,
            artist: None,
            composer: None,
            cast: None,
            photographer: None,
            year: None,
            airdate: None,
            comment: None,
            summary: None,
            country: None,
            rating: None,
            license: None,
            copyright: None,
            url: None,
            picture: None,
            runtime: None,
            aspect_ratio: None,
            audio_tracks: None,
            subtitles: None,
        }
    }

    /// Sets one tag from its textual value; a value that fails the tag's
    /// coercion is an error and leaves the record unchanged.
    pub fn modify_tag(&mut self, tagname: &TagType, tagdata: &str) -> (r: Result<(), ParseError>)
        ensures
            match r {
                Ok(_) => spec_modify_tag(old(self)@, *tagname, tagdata@) == Some(final (self)@),
                Err(e) => spec_modify_tag(old(self)@, *tagname, tagdata@) is None && final (self)@
                    == old(self)@ && e is BadToken,
            },
    {
        let data = str_to_chars(tagdata);
        let n = data.len();
        let ghost dv = tagdata@;
        proof {
            assert(data@.subrange(0, dv.len() as int) =~= dv);
        }
        match *tagname {
            TagType::Title => {
                self.title = Some(chars_vec_to_string(&data));
                Ok(())
            },
            TagType::MediaType => {
                match MediaType::of_name(&data, 0, n) {
                    Some(m) => {
                        self.media_type = Some(m);
                        Ok(())
                    },
                    None => Err(ParseError::expected("Expected kind of media")),
                }
            },
            TagType::Genre => {
                self.genre = Some(chars_vec_to_string(&data));
                Ok(())
            },
            TagType::Series => {
                self.series = Some(chars_vec_to_string(&data));
                Ok(())
            },
            TagType::Season => {
                match parse_bounded(&data, 255) {
                    Some(v) => {
                        self.season = Some(v as u8);
                        Ok(())
                    },
                    None => Err(ParseError::expected("Expected unsigned integer")),
                }
            },
            TagType::Episode => {
                match parse_bounded(&data, 65535) {
                    Some(v) => {
                        self.episode = Some(v as u16);
                        Ok(())
                    },
                    None => Err(ParseError::expected("Expected unsigned integer")),
                }
            },
            TagType::Album => {
                self.album = Some(chars_vec_to_string(&data));
                Ok(())
            },
            TagType::TrackNo => {
                match parse_bounded(&data, 65535) {
                    Some(v) => {
                        self.track_no = Some(v as u16);
                        Ok(())
                    },
                    None => Err(ParseError::expected("Expected unsigned integer")),
                }
            },
            TagType::Studio => {
                self.studio = Some(chars_vec_to_string(&data));
                Ok(())
            },
            TagType::Director => {
                self.director = Some(chars_vec_to_string(&data));
                Ok(())
            },
            TagType::Artist => {
                self.artist = Some(chars_vec_to_string(&data));
                Ok(())
            },
            TagType::Composer => {
                self.composer = Some(chars_vec_to_string(&data));
                Ok(())
            },
            TagType::Cast => {
                self.cast = Some(split_commas_strings(&data));
                proof {
                    assert(opt_strs_view(self.cast) =~~= Some(split_commas(dv)));
                }
                Ok(())
            },
            TagType::Photographer => {
                self.photographer = Some(chars_vec_to_string(&data));
                Ok(())
            },
            TagType::Year => {
                match parse_bounded(&data, 65535) {
                    Some(v) => {
                        self.year = Some(v as u16);
                        Ok(())
                    },
                    None => Err(ParseError::expected("Expected unsigned integer")),
                }
            },
            TagType::Airdate => {
                match parse_date(&data) {
                    Some(d) => {
                        self.airdate = Some(d);
                        Ok(())
                    },
                    None => Err(ParseError::expected("Input dates as yyyy-mm-dd")),
                }
            },
            TagType::Comment => {
                self.comment = Some(chars_vec_to_string(&data));
                Ok(())
            },
            TagType::Summary => {
                self.summary = Some(chars_vec_to_string(&data));
                Ok(())
            },
            TagType::Country => {
                self.country = Some(chars_vec_to_string(&data));
                Ok(())
            },
            TagType::Rating => {
                self.rating = Some(chars_vec_to_string(&data));
                Ok(())
            },
            TagType::License => {
                self.license = Some(chars_vec_to_string(&data));
                Ok(())
            },
            TagType::Copyright => {
                self.copyright = Some(chars_vec_to_string(&data));
                Ok(())
            },
            TagType::URL => {
                self.url = Some(chars_vec_to_string(&data));
                Ok(())
            },
            TagType::Picture => {
                self.picture = Some(chars_vec_to_string(&data));
                Ok(())
            },
            TagType::Runtime => {
                match parse_runtime(&data) {
                    Some(v) => {
                        self.runtime = Some(v);
                        Ok(())
                    },
                    None => Err(ParseError::expected("Time requires an amount and s, m or h")),
                }
            },
            TagType::AspectRatio => {
                self.aspect_ratio = Some(chars_vec_to_string(&data));
                Ok(())
            },
            TagType::AudioTracks => {
                self.audio_tracks = Some(split_commas_strings(&data));
                proof {
                    assert(opt_strs_view(self.audio_tracks) =~~= Some(split_commas(dv)));
                }
                Ok(())
            },
            TagType::Subtitles => {
                self.subtitles = Some(split_commas_strings(&data));
                proof {
                    assert(opt_strs_view(self.subtitles) =~~= Some(split_commas(dv)));
                }
                Ok(())
            },
        }
    }

    /// Replaces one of the list-valued tags with an explicit list of values.
    pub fn modify_multi(&mut self, list: &Vec<String>, tagtype: &TagType) -> (r: Result<
        (),
        ParseError,
    >)
        ensures
            match r {
                Ok(_) => spec_modify_multi(old(self)@, *tagtype, strs_seq(*list)) == Some(
                    final (self)@,
                ),
                Err(e) => spec_modify_multi(old(self)@, *tagtype, strs_seq(*list)) is None
                    && final (self)@ == old(self)@ && e is BadToken,
            },
    {
        match *tagtype {
            TagType::Cast => {
                self.cast = Some(list.clone());
                proof {
                    assert(opt_strs_view(self.cast) =~~= Some(strs_seq(*list)));
                }
                Ok(())
            },
            TagType::AudioTracks => {
                self.audio_tracks = Some(list.clone());
                proof {
                    assert(opt_strs_view(self.audio_tracks) =~~= Some(strs_seq(*list)));
                }
                Ok(())
            },
            TagType::Subtitles => {
                self.subtitles = Some(list.clone());
                proof {
                    assert(opt_strs_view(self.subtitles) =~~= Some(strs_seq(*list)));
                }
                Ok(())
            },
            _ => Err(ParseError::expected("Expected a list-valued tag")),
        }
    }
}

/// The character sequences of a vector of strings.
pub open spec fn strs_seq(v: Vec<String>) -> Seq<Seq<char>> {
    Seq::new(v@.len(), |i: int| v@[i]@)
}

fn chars_vec_to_string(v: &Vec<char>) -> (s: String)
    ensures
        s@ == v@,
{
    crate::chars::chars_to_string(v)
}

/// The value of an all-digit string when it is at most `bound`.
fn parse_bounded(data: &Vec<char>, bound: usize) -> (r: Option<usize>)
    ensures
        match r {
            Some(v) => data@.len() > 0 && all_digits(data@) && seq_dec_val(data@) == v && v
                <= bound,
            None => !(data@.len() > 0 && all_digits(data@) && seq_dec_val(data@) <= bound as int),
        },
{
    if data.len() == 0 {
        return None;
    }
    if !check_all_digits(data) {
        return None;
    }
    proof {
        assert(data@.subrange(0, data@.len() as int) =~= data@);
    }
    match dec_value(data, 0, data.len()) {
        Some(v) => {
            if v <= bound {
                Some(v)
            } else {
                None
            }
        },
        None => None,
    }
}

fn check_all_digits(data: &Vec<char>) -> (r: bool)
    ensures
        r == all_digits(data@),
{
    let mut i: usize = 0;
    while i < data.len()
        invariant
            0 <= i <= data@.len(),
            forall|j: int| 0 <= j < i ==> is_digit_char(#[trigger] data@[j]),
        decreases data@.len() - i,
    {
        let c = data[i];
        if !('0' <= c && c <= '9') {
            return false;
        }
        i = i + 1;
    }
    true
}

fn parse_date(data: &Vec<char>) -> (r: Option<Date>)
    ensures
        r == spec_date_of(data@),
{
    if data.len() != 10 {
        return None;
    }
    if !(data[4] == '-' && data[7] == '-') {
        return None;
    }
    if !(check_digits_range(data, 0, 4) && check_digits_range(data, 5, 7) && check_digits_range(
        data,
        8,
        10,
    )) {
        return None;
    }
    proof {
        lemma_four_digit_bound(data@.subrange(0, 4));
        lemma_two_digit_bound(data@.subrange(5, 7));
        lemma_two_digit_bound(data@.subrange(8, 10));
    }
    let y = match dec_value(data, 0, 4) {
        Some(v) => v,
        None => {
            proof {
                assert(false);
            }
            return None;
        },
    };
    let m = match dec_value(data, 5, 7) {
        Some(v) => v,
        None => {
            proof {
                assert(false);
            }
            return None;
        },
    };
    let d = match dec_value(data, 8, 10) {
        Some(v) => v,
        None => {
            proof {
                assert(false);
            }
            return None;
        },
    };
    if ymd_is_valid(y as u16, m as u8, d as u8) {
        Some(Date { year: y as u16, month: m as u8, day: d as u8 })
    } else {
        None
    }
}

fn check_digits_range(data: &Vec<char>, from: usize, to: usize) -> (r: bool)
    requires
        from <= to <= data@.len(),
    ensures
        r == all_digits(data@.subrange(from as int, to as int)),
{
    let mut i: usize = from;
    while i < to
        invariant
            from <= i <= to <= data@.len(),
            forall|j: int| from <= j < i ==> is_digit_char(#[trigger] data@[j]),
        decreases to - i,
    {
        let c = data[i];
        if !('0' <= c && c <= '9') {
            proof {
                assert(data@.subrange(from as int, to as int)[i - from] == data@[i as int]);
            }
            return false;
        }
        i = i + 1;
    }
    proof {
        assert forall|j: int| 0 <= j < to - from implies is_digit_char(
            #[trigger] data@.subrange(from as int, to as int)[j],
        ) by {
            assert(data@.subrange(from as int, to as int)[j] == data@[from + j]);
        }
    }
    true
}

proof fn lemma_four_digit_bound(s: Seq<char>)
    requires
        s.len() == 4,
        all_digits(s),
    ensures
        0 <= seq_dec_val(s) <= 9999,
{
    lemma_digit_string_bound(s);
    assert(ten_pow(0) == 1);
    assert(ten_pow(1) == 10);
    assert(ten_pow(2) == 100);
    assert(ten_pow(3) == 1000);
    assert(ten_pow(4) == 10000);
}

proof fn lemma_two_digit_bound(s: Seq<char>)
    requires
        s.len() == 2,
        all_digits(s),
    ensures
        0 <= seq_dec_val(s) <= 99,
{
    lemma_digit_string_bound(s);
    assert(ten_pow(0) == 1);
    assert(ten_pow(1) == 10);
    assert(ten_pow(2) == 100);
}

pub open spec fn ten_pow(n: nat) -> int
    decreases n,
{
    if n == 0 {
        1
    } else {
        10 * ten_pow((n - 1) as nat)
    }
}

/// A digit string of length n has value below 10^n.
pub proof fn lemma_digit_string_bound(s: Seq<char>)
    requires
        all_digits(s),
    ensures
        0 <= seq_dec_val(s) < ten_pow(s.len()),
    decreases s.len(),
{
    if s.len() > 0 {
        assert(all_digits(s.drop_last()));
        lemma_digit_string_bound(s.drop_last());
        assert(is_digit_char(s.last()));
    }
}

fn parse_runtime(data: &Vec<char>) -> (r: Option<usize>)
    ensures
        r == spec_runtime_of(data@),
{
    let n = data.len();
    if n < 2 {
        return None;
    }
    let last = data[n - 1];
    if !(last == 'h' || last == 'm' || last == 's') {
        return None;
    }
    if !check_digits_range(data, 0, n - 1) {
        proof {
            assert(data@.subrange(0, n - 1) =~= data@.drop_last());
        }
        return None;
    }
    proof {
        assert(data@.subrange(0, n - 1) =~= data@.drop_last());
    }
    let amt = match dec_value(data, 0, n - 1) {
        Some(v) => v,
        None => {
            proof {
                let ghost sc = runtime_scale(data@.last());
                crate::chars::lemma_seq_dec_val_nonneg(data@.drop_last());
                assert(seq_dec_val(data@.drop_last()) * sc >= seq_dec_val(data@.drop_last()))
                    by (nonlinear_arith)
                    requires
                        seq_dec_val(data@.drop_last()) >= 0,
                        sc >= 1,
                ;
            }
            return None;
        },
    };
    let scale: usize = if last == 'h' {
        3600
    } else if last == 'm' {
        60
    } else {
        1
    };
    match amt.checked_mul(scale) {
        Some(total) => Some(total),
        None => None,
    }
}


impl Clone for Tags {
    /// A clone keeps every tag's value.
    fn clone(&self) -> (r: Self)
        ensures
            r@ == self@,
    {
        let r = Tags {
            title: clone_opt_string(&self.title),
            media_type: self.media_type,
            genre: clone_opt_string(&self.genre),
            series: clone_opt_string(&self.series),
            season: self.season,
            episode: self.episode,
            album: clone_opt_string(&self.album),
            track_no: self.track_no,
            studio: clone_opt_string(&self.studio),
            director: clone_opt_string(&self.director),
            artist: clone_opt_string(&self.artist),
            composer: clone_opt_string(&self.composer),
            cast: clone_opt_strings(&self.cast),
            photographer: clone_opt_string(&self.photographer),
            year: self.year,
            airdate: self.airdate,
            comment: clone_opt_string(&self.comment),
            summary: clone_opt_string(&self.summary),
            country: clone_opt_string(&self.country),
            rating: clone_opt_string(&self.rating),
            license: clone_opt_string(&self.license),
            copyright: clone_opt_string(&self.copyright),
            url: clone_opt_string(&self.url),
            picture: clone_opt_string(&self.picture),
            runtime: self.runtime,
            aspect_ratio: clone_opt_string(&self.aspect_ratio),
            audio_tracks: clone_opt_strings(&self.audio_tracks),
            subtitles: clone_opt_strings(&self.subtitles),
        };
        proof {
            assert(r@ =~~= self@);
        }
        r
    }
}

fn clone_opt_string(o: &Option<String>) -> (r: Option<String>)
    ensures
        opt_str_view(r) == opt_str_view(*o),
{
    match o {
        Some(s) => Some(s.clone()),
        None => None,
    }
}

fn clone_opt_strings(o: &Option<Vec<String>>) -> (r: Option<Vec<String>>)
    ensures
        opt_strs_view(r) == opt_strs_view(*o),
{
    match o {
        Some(v) => {
            let mut out: Vec<String> = Vec::new();
            let mut i: usize = 0;
            while i < v.len()
                invariant
                    0 <= i <= v@.len(),
                    out@.len() == i,
                    forall|j: int| 0 <= j < i ==> (#[trigger] out@[j])@ == v@[j]@,
                decreases v@.len() - i,
            {
                out.push(v[i].clone());
                i = i + 1;
            }
            proof {
                assert(opt_strs_view(Some(out)) =~~= opt_strs_view(Some(*v)));
            }
            Some(out)
        },
        None => None,
    }
}


/// The canonical name under which each media kind is rendered; each one
/// reads back as the same kind.
pub open spec fn spec_media_name(m: MediaType) -> Seq<char> {
    match m {
        MediaType::Video(v) => match v {
            VideoType::Movie => "Movie"@,
            VideoType::LiveAction => "Live Action"@,
            VideoType::Cartoon => "Cartoon"@,
            VideoType::Anime => "Anime"@,
            VideoType::MusicVideo => "Music Video"@,
            VideoType::Short => "Short"@,
            VideoType::Advert => "Advert"@,
        },
        MediaType::Audio(a) => match a {
            AudioType::Album => "Album"@,
            AudioType::Song => "Song"@,
            AudioType::Radio => "Radio"@,
            AudioType::Podcast => "Podcast"@,
            AudioType::Clip => "Clip"@,
            AudioType::Misc => "Misc"@,
        },
        MediaType::Image => "Image"@,
    }
}

pub fn push_media_name(out: &mut Vec<char>, m: &MediaType)
    ensures
        final (out)@ == old(out)@ + spec_media_name(*m),
{
    let name: &str = match m {
        MediaType::Video(v) => match v {
            VideoType::Movie => "Movie",
            VideoType::LiveAction => "Live Action",
            VideoType::Cartoon => "Cartoon",
            VideoType::Anime => "Anime",
            VideoType::MusicVideo => "Music Video",
            VideoType::Short => "Short",
            VideoType::Advert => "Advert",
        },
        MediaType::Audio(a) => match a {
            AudioType::Album => "Album",
            AudioType::Song => "Song",
            AudioType::Radio => "Radio",
            AudioType::Podcast => "Podcast",
            AudioType::Clip => "Clip",
            AudioType::Misc => "Misc",
        },
        MediaType::Image => "Image",
    };
    let mut v = str_to_chars(name);
    out.append(&mut v);
}


/// A date read from its textual form is calendar-valid with a
/// four-digit year.
pub proof fn lemma_spec_date_wf(s: Seq<char>)
    ensures
        spec_date_of(s) matches Some(d) ==> date_wf(d),
{
    if spec_date_of(s) is Some {
        lemma_four_digit_bound(s.subrange(0, 4));
        lemma_two_digit_bound(s.subrange(5, 7));
        lemma_two_digit_bound(s.subrange(8, 10));
    }
}

/// A tag assignment never makes a well-formed record ill-formed.
pub proof fn lemma_modify_tag_wf(t: TagsV, tag: TagType, data: Seq<char>)
    requires
        tags_wf(t),
    ensures
        spec_modify_tag(t, tag, data) matches Some(t2) ==> tags_wf(t2),
{
    lemma_spec_date_wf(data);
}

/// A list assignment never makes a well-formed record ill-formed.
pub proof fn lemma_modify_multi_wf(t: TagsV, tag: TagType, list: Seq<Seq<char>>)
    requires
        tags_wf(t),
    ensures
        spec_modify_multi(t, tag, list) matches Some(t2) ==> tags_wf(t2),
{
}

} // verus!
