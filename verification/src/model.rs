//! The normalized, caller-facing domain types, and the conversions from each
//! endpoint's raw items into them. Field-level anomalies in the remote
//! payload are repaired here, never raised: unparseable ids read as zero and
//! malformed dates read as absent.

use crate::protocol::{exist, recommend, search};
use crate::util::{opt_view, push_char, spec_parse_u32, str_eq};
use vstd::prelude::*;
use vstd::string::StrSliceExecFns;
use vstd::string::StringExecFns;

verus! {

#[derive(Debug, PartialEq, Eq, Structural, Clone, Copy)]
pub struct SongId(pub u32);

#[derive(Debug, PartialEq, Eq, Structural, Clone, Copy)]
pub struct ArtistId(pub u32);

#[derive(Debug, PartialEq)]
pub struct Artist {
    pub id: ArtistId,
    pub name: String,
    pub first_kana: Option<char>,
}

#[derive(Debug, PartialEq)]
pub struct Song {
    pub id: SongId,
    pub title: String,
    pub artist: Artist,
    pub date_added: Option<String>,
    pub end_date: Option<String>,
    pub lyrics: Option<String>,
    pub series: Option<String>,
    pub has_video: bool,
    pub first_kana: Option<char>,
}

#[derive(Debug, PartialEq)]
pub struct Series {
    pub title: String,
    pub first_kana: Option<char>,
}

/// One decoded page of results, together with the artist- and series-context
/// category ids recomputed from the request's category code.
#[derive(Debug, PartialEq)]
pub struct Paginated<T> {
    pub page: u32,
    pub artist_category_id: String,
    pub series_category_id: Option<String>,
    pub total_items: u32,
    pub total_pages: u32,
    pub items: Vec<T>,
}

#[verifier::ext_equal]
pub struct ArtistView {
    pub id: u32,
    pub name: Seq<char>,
    pub first_kana: Option<char>,
}

#[verifier::ext_equal]
pub struct SongView {
    pub id: u32,
    pub title: Seq<char>,
    pub artist: ArtistView,
    pub date_added: Option<Seq<char>>,
    pub end_date: Option<Seq<char>>,
    pub lyrics: Option<Seq<char>>,
    pub series: Option<Seq<char>>,
    pub has_video: bool,
    pub first_kana: Option<char>,
}

#[verifier::ext_equal]
pub struct SeriesView {
    pub title: Seq<char>,
    pub first_kana: Option<char>,
}

impl View for Artist {
    type V = ArtistView;

    open spec fn view(&self) -> ArtistView {
        ArtistView { id: self.id.0, name: self.name@, first_kana: self.first_kana }
    }
}

impl View for Song {
    type V = SongView;

    open spec fn view(&self) -> SongView {
        SongView {
            id: self.id.0,
            title: self.title@,
            artist: self.artist@,
            date_added: opt_view(self.date_added),
            end_date: opt_view(self.end_date),
            lyrics: opt_view(self.lyrics),
            series: opt_view(self.series),
            has_video: self.has_video,
            first_kana: self.first_kana,
        }
    }
}

impl View for Series {
    type V = SeriesView;

    open spec fn view(&self) -> SeriesView {
        SeriesView { title: self.title@, first_kana: self.first_kana }
    }
}

impl<T> Paginated<T> {
    /// The number of the page after this one, while there is one.
    pub fn next_page(&self) -> (r: Option<u32>)
        ensures
            r == (if self.page < self.total_pages {
                Some((self.page + 1) as u32)
            } else {
                None::<u32>
            }),
    {
        if self.page < self.total_pages {
            Some(self.page + 1)
        } else {
            None
        }
    }

    /// The number of the page before this one, while there is one.
    pub fn prev_page(&self) -> (r: Option<u32>)
        ensures
            r == (if self.page > 1 {
                Some((self.page - 1) as u32)
            } else {
                None::<u32>
            }),
    {
        if self.page > 1 {
            Some(self.page - 1)
        } else {
            None
        }
    }
}

pub open spec fn non_hyphen(c: char) -> bool {
    c != '-'
}

/// A string with its hyphens dropped.
pub open spec fn spec_remove_hyphens(s: Seq<char>) -> Seq<char> {
    s.filter(|c: char| non_hyphen(c))
}

/// A song id's wire encoding may carry hyphens anywhere; the digits around
/// them make the number.
pub open spec fn spec_song_id(s: Seq<char>) -> u32 {
    spec_parse_u32(spec_remove_hyphens(s))
}

impl SongId {
    /// Reads a song id from its wire encoding, hyphens dropped; anything
    /// unparseable reads as the sentinel zero.
    pub fn parse(s: &str) -> (r: SongId)
        ensures
            r.0 == spec_song_id(s@),
    {
        let len = s.unicode_len();
        let mut kept = String::new();
        let mut i: usize = 0;
        proof {
            reveal(Seq::filter);
            assert(spec_remove_hyphens(s@.take(0)) =~= Seq::<char>::empty());
        }
        while i < len
            invariant
                len == s@.len(),
                i <= len,
                kept@ == spec_remove_hyphens(s@.take(i as int)),
            decreases len - i,
        {
            let c = s.get_char(i);
            proof {
                assert(s@.take(i + 1).drop_last() =~= s@.take(i as int));
                assert(s@.take(i + 1).last() == s@[i as int]);
                reveal(Seq::filter);
            }
            if c != '-' {
                push_char(&mut kept, c);
            }
            i += 1;
        }
        proof {
            assert(s@.take(len as int) =~= s@);
        }
        SongId(crate::util::parse_u32(kept.as_str()))
    }
}

impl ArtistId {
    /// Reads an artist id from its wire encoding; anything unparseable reads
    /// as the sentinel zero.
    pub fn parse(s: &str) -> (r: ArtistId)
        ensures
            r.0 == spec_parse_u32(s@),
    {
        ArtistId(crate::util::parse_u32(s))
    }
}

/// A string, unless it is empty.
pub fn none_if_empty(s: String) -> (r: Option<String>)
    ensures
        r == (if s@.len() == 0 {
            None::<String>
        } else {
            Some(s)
        }),
{
    if s.as_str().is_empty() {
        None
    } else {
        Some(s)
    }
}

/// The first character of a string, if it has one.
pub fn first_char(s: String) -> (r: Option<char>)
    ensures
        r == (if s@.len() == 0 {
            None::<char>
        } else {
            Some(s@[0])
        }),
{
    if s.as_str().is_empty() {
        None
    } else {
        Some(s.as_str().get_char(0))
    }
}

/// An eight-digit wire date rewritten with slashes; the service's
/// no-end-date sentinel and anything that is not eight characters long read
/// as absent.
pub open spec fn spec_format_date(s: Seq<char>) -> Option<Seq<char>> {
    if s.len() != 8 || s == "99999999"@ {
        None
    } else {
        Some(s.take(4) + seq!['/'] + s.subrange(4, 6) + seq!['/'] + s.subrange(6, 8))
    }
}

/// Turns "20170315" into "2017/03/15"; "99999999" means no date.
pub fn format_date(input: String) -> (r: Option<String>)
    ensures
        opt_view(r) == spec_format_date(input@),
{
    let len = input.as_str().unicode_len();
    if len != 8 || str_eq(input.as_str(), "99999999") {
        None
    } else {
        let mut s = input.as_str().substring_char(0, 4).to_owned();
        push_char(&mut s, '/');
        s.append(input.as_str().substring_char(4, 6));
        push_char(&mut s, '/');
        s.append(input.as_str().substring_char(6, 8));
        proof {
            assert(s@ =~= input@.take(4) + seq!['/'] + input@.subrange(4, 6) + seq!['/']
                + input@.subrange(6, 8));
        }
        Some(s)
    }
}

/// The song a raw search result stands for.
pub open spec fn song_of_search_item(it: search::Item) -> SongView {
    SongView {
        id: spec_song_id(it.req_no@),
        title: it.song_name@,
        artist: ArtistView { id: spec_parse_u32(it.artist_id@), name: it.artist_name@, first_kana: None },
        date_added: spec_format_date(it.dist_start@),
        end_date: spec_format_date(it.dist_end@),
        lyrics: Some(it.first_bars@),
        series: if it.program_title@.len() == 0 {
            None
        } else {
            Some(it.program_title@)
        },
        has_video: it.func_anime_picture@ == "1"@ || it.func_person_picture@ == "1"@,
        first_kana: if it.title_first_kana@.len() == 0 {
            None
        } else {
            Some(it.title_first_kana@[0])
        },
    }
}

/// The artist a raw search result stands for.
pub open spec fn artist_of_search_item(it: search::Item) -> ArtistView {
    ArtistView {
        id: spec_parse_u32(it.artist_id@),
        name: it.artist_name@,
        first_kana: if it.title_first_kana@.len() == 0 {
            None
        } else {
            Some(it.title_first_kana@[0])
        },
    }
}

/// The series a raw search result stands for.
pub open spec fn series_of_search_item(it: search::Item) -> SeriesView {
    SeriesView {
        title: it.program_title@,
        first_kana: if it.title_first_kana@.len() == 0 {
            None
        } else {
            Some(it.title_first_kana@[0])
        },
    }
}

/// The song a raw lookup answer stands for.
pub open spec fn song_of_exist_item(it: exist::Item) -> SongView {
    SongView {
        id: spec_song_id(it.req_no@),
        title: it.song_name@,
        artist: ArtistView { id: spec_parse_u32(it.artist_id@), name: it.artist_name@, first_kana: None },
        date_added: spec_format_date(it.dist_start@),
        end_date: spec_format_date(it.dist_end@),
        lyrics: Some(it.first_bars@),
        series: None,
        has_video: it.func_anime_picture@ == "1"@ || it.func_person_picture@ == "1"@,
        first_kana: None,
    }
}

/// The song a raw recommended item stands for, reshaped from the
/// recommendation endpoint's differently named fields.
pub open spec fn song_of_recommend_item(it: recommend::Item) -> SongView {
    SongView {
        id: spec_song_id(it.request_no@),
        title: it.denmoku_contents@,
        artist: ArtistView {
            id: spec_parse_u32(it.dam_artist_code@),
            name: it.artist@,
            first_kana: if it.d_artist_name_yomi@.len() == 0 {
                None
            } else {
                Some(it.d_artist_name_yomi@[0])
            },
        },
        date_added: None,
        end_date: None,
        lyrics: None,
        series: None,
        has_video: false,
        first_kana: if it.d_song_name_yomi@.len() == 0 {
            None
        } else {
            Some(it.d_song_name_yomi@[0])
        },
    }
}

impl Song {
    pub fn from_search_item(it: search::Item) -> (s: Song)
        ensures
            s@ == song_of_search_item(it),
    {
        let ghost orig = it;
        let has_video = str_eq(it.func_anime_picture.as_str(), "1") || str_eq(
            it.func_person_picture.as_str(),
            "1",
        );
        let id = SongId::parse(it.req_no.as_str());
        let artist_id = ArtistId::parse(it.artist_id.as_str());
        let s = Song {
            id,
            title: it.song_name,
            artist: Artist { id: artist_id, name: it.artist_name, first_kana: None },
            date_added: format_date(it.dist_start),
            end_date: format_date(it.dist_end),
            lyrics: Some(it.first_bars),
            series: none_if_empty(it.program_title),
            has_video,
            first_kana: first_char(it.title_first_kana),
        };
        proof {
            assert(s@ =~= song_of_search_item(orig));
        }
        s
    }

    pub fn from_exist_item(it: exist::Item) -> (s: Song)
        ensures
            s@ == song_of_exist_item(it),
    {
        let ghost orig = it;
        let has_video = str_eq(it.func_anime_picture.as_str(), "1") || str_eq(
            it.func_person_picture.as_str(),
            "1",
        );
        let id = SongId::parse(it.req_no.as_str());
        let artist_id = ArtistId::parse(it.artist_id.as_str());
        let s = Song {
            id,
            title: it.song_name,
            artist: Artist { id: artist_id, name: it.artist_name, first_kana: None },
            date_added: format_date(it.dist_start),
            end_date: format_date(it.dist_end),
            lyrics: Some(it.first_bars),
            series: None,
            has_video,
            first_kana: None,
        };
        proof {
            assert(s@ =~= song_of_exist_item(orig));
        }
        s
    }

    pub fn from_recommend_item(it: recommend::Item) -> (s: Song)
        ensures
            s@ == song_of_recommend_item(it),
    {
        let ghost orig = it;
        let id = SongId::parse(it.request_no.as_str());
        let artist_id = ArtistId::parse(it.dam_artist_code.as_str());
        let s = Song {
            id,
            title: it.denmoku_contents,
            artist: Artist {
                id: artist_id,
                name: it.artist,
                first_kana: first_char(it.d_artist_name_yomi),
            },
            date_added: None,
            end_date: None,
            lyrics: None,
            series: None,
            has_video: false,
            first_kana: first_char(it.d_song_name_yomi),
        };
        proof {
            assert(s@ =~= song_of_recommend_item(orig));
        }
        s
    }
}

impl Artist {
    pub fn from_search_item(it: search::Item) -> (a: Artist)
        ensures
            a@ == artist_of_search_item(it),
    {
        let ghost orig = it;
        let id = ArtistId::parse(it.artist_id.as_str());
        let a = Artist { id, name: it.artist_name, first_kana: first_char(it.title_first_kana) };
        proof {
            assert(a@ =~= artist_of_search_item(orig));
        }
        a
    }
}

impl Series {
    pub fn from_search_item(it: search::Item) -> (r: Series)
        ensures
            r@ == series_of_search_item(it),
    {
        let ghost orig = it;
        let r = Series { title: it.program_title, first_kana: first_char(it.title_first_kana) };
        proof {
            assert(r@ =~= series_of_search_item(orig));
        }
        r
    }
}

} // verus!
