//! The category taxonomy: the fixed catalog of six-digit category codes the
//! remote service understands, grouped by the kind of collection a code
//! searches, plus the classification functions that recover the artist- and
//! series-context categories implied by a request's category code.

pub mod new_songs;
pub mod ranking;
pub mod series;
pub mod vocaloid;

use core::marker::PhantomData;
use vstd::prelude::*;

verus! {

/// The six-digit wire code of a category.
pub struct CategoryId(pub &'static str);

/// Marker for the kind of collection a category searches.
pub trait CategoryType {}

pub struct SongCategory;

impl CategoryType for SongCategory {

}

pub struct ArtistCategory;

impl CategoryType for ArtistCategory {

}

pub struct SeriesCategory;

impl CategoryType for SeriesCategory {

}

/// A localized, human-readable description of a category.
pub struct Description {
    pub en: &'static str,
    pub ja: &'static str,
}

/// One entry of the taxonomy, tagged with the kind of collection it searches.
pub struct Category<T: CategoryType> {
    pub id: CategoryId,
    pub description: Description,
    pub category_type: PhantomData<T>,
}

fn make<T: CategoryType>(id: &'static str, ja: &'static str, en: &'static str) -> (c: Category<T>)
    ensures
        c.id.0@ == id@,
        c.description.ja@ == ja@,
        c.description.en@ == en@,
{
    Category { id: CategoryId(id), description: Description { en, ja }, category_type: PhantomData }
}

pub fn song_name() -> (c: Category<SongCategory>)
    ensures
        c.id.0@ == "020000"@,
        c.description.ja@ == "曲名"@,
        c.description.en@ == "Song Name"@,
{
    make("020000", "曲名", "Song Name")
}

pub fn artist_name() -> (c: Category<ArtistCategory>)
    ensures
        c.id.0@ == "010000"@,
        c.description.ja@ == "歌手名"@,
        c.description.en@ == "Artist Name"@,
{
    make("010000", "歌手名", "Artist Name")
}

pub fn live_performance() -> (c: Category<ArtistCategory>)
    ensures
        c.id.0@ == "040000"@,
        c.description.ja@ == "本人映像"@,
        c.description.en@ == "Live Performance"@,
{
    make("040000", "本人映像", "Live Performance")
}

/// The code of the artist-context category implied by a request's category
/// code: the live-performance category for its own code, the generic
/// artist-name category for every other code.
pub open spec fn artist_code_of(code: Seq<char>) -> Seq<char> {
    if code == "040000"@ {
        "040000"@
    } else {
        "010000"@
    }
}

/// The code of the series-context category implied by a request's category
/// code, if the code has one: the anime series category for the anime-flavored
/// codes (new-song anime/game, series anime, ranking anime/tokusatsu), the
/// tokusatsu series category for the tokusatsu-flavored codes, the music-video
/// series category for its own code.
pub open spec fn series_code_of(code: Seq<char>) -> Option<Seq<char>> {
    if code == "030301"@ || code == "050100"@ || code == "070500"@ {
        Some("050100"@)
    } else if code == "030302"@ || code == "050200"@ {
        Some("050200"@)
    } else if code == "050300"@ {
        Some("050300"@)
    } else {
        None
    }
}

/// A category value is one of the three series-taxonomy entries, with the
/// description that belongs to its code.
pub open spec fn series_entry_wf(c: Category<SeriesCategory>) -> bool {
    ||| (c.id.0@ == "050100"@ && c.description.ja@ == "アニメ"@ && c.description.en@ == "Anime"@)
    ||| (c.id.0@ == "050200"@ && c.description.ja@ == "特撮"@ && c.description.en@
        == "Tokusatsu"@)
    ||| (c.id.0@ == "050300"@ && c.description.ja@ == "映像"@ && c.description.en@
        == "Music Video"@)
}

/// The artist-context category implied by a category code.
pub fn artist_category(input: &str) -> (c: Category<ArtistCategory>)
    ensures
        c.id.0@ == artist_code_of(input@),
        input@ == "040000"@ ==> c.description.ja@ == "本人映像"@ && c.description.en@
            == "Live Performance"@,
        input@ != "040000"@ ==> c.description.ja@ == "歌手名"@ && c.description.en@
            == "Artist Name"@,
{
    if crate::util::str_eq(input, "040000") {
        live_performance()
    } else {
        artist_name()
    }
}

/// The series-context category implied by a category code, if it has one.
pub fn series_category(input: &str) -> (r: Option<Category<SeriesCategory>>)
    ensures
        match r {
            Some(c) => series_code_of(input@) == Some(c.id.0@) && series_entry_wf(c),
            None => series_code_of(input@) is None,
        },
{
    if crate::util::str_eq(input, "030301") || crate::util::str_eq(input, "050100")
        || crate::util::str_eq(input, "070500") {
        Some(series::anime())
    } else if crate::util::str_eq(input, "030302") || crate::util::str_eq(input, "050200") {
        Some(series::tokusatsu())
    } else if crate::util::str_eq(input, "050300") {
        Some(series::music_video())
    } else {
        None
    }
}

/// The series classification echoes each series-taxonomy code back unchanged,
/// and assigns no series context to the song-name search code.
pub proof fn lemma_series_category_round_trip()
    ensures
        series_code_of("050100"@) == Some("050100"@),
        series_code_of("050200"@) == Some("050200"@),
        series_code_of("050300"@) == Some("050300"@),
        series_code_of("020000"@) is None,
{
    reveal_strlit("020000");
    reveal_strlit("030301");
    reveal_strlit("030302");
    reveal_strlit("050100");
    reveal_strlit("050200");
    reveal_strlit("050300");
    reveal_strlit("070500");
    assert("050200"@ != "030301"@ && "050200"@ != "050100"@ && "050200"@ != "070500"@) by {
        assert("050200"@[1] == '5' && "050200"@[3] == '2');
    }
    assert("050300"@ != "030301"@ && "050300"@ != "050100"@ && "050300"@ != "070500"@
        && "050300"@ != "030302"@ && "050300"@ != "050200"@) by {
        assert("050300"@[1] == '5' && "050300"@[3] == '3' && "050300"@[2] == '0');
    }
    assert("020000"@ != "030301"@ && "020000"@ != "050100"@ && "020000"@ != "070500"@
        && "020000"@ != "030302"@ && "020000"@ != "050200"@ && "020000"@ != "050300"@) by {
        assert("020000"@[1] == '2');
    }
}

} // verus!
