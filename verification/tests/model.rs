use clubdarn::model::{first_char, format_date, none_if_empty, ArtistId, Paginated, Song, SongId};
use clubdarn::protocol::{exist, recommend, search};
use clubdarn::{Artist, Series};

fn sample_search_item() -> search::Item {
    search::Item {
        artist_id: "96028".to_string(),
        artist_name: "りさ、えいみ".to_string(),
        dist_end: "99999999".to_string(),
        dist_start: "20131102".to_string(),
        first_bars: "毎日違うわたしに 気づいてるかな".to_string(),
        func_anime_picture: "0".to_string(),
        func_person_picture: "0".to_string(),
        func_recording: "0".to_string(),
        func_score: "1".to_string(),
        indication_month: "".to_string(),
        my_key: "0".to_string(),
        org_key: "0".to_string(),
        program_title: "".to_string(),
        req_no: "3668-69".to_string(),
        song_name: "Wake up my music".to_string(),
        title_first_kana: "わ".to_string(),
    }
}

#[test]
fn song_id_parses_dashed_encoding() {
    assert_eq!(SongId::parse("1234-56"), SongId(123456));
}

#[test]
fn song_id_parse_failure_is_sentinel_zero() {
    assert_eq!(SongId::parse("abc"), SongId(0));
    assert_eq!(SongId::parse(""), SongId(0));
    assert_eq!(SongId::parse("-"), SongId(0));
    assert_eq!(SongId::parse("12a34"), SongId(0));
}

#[test]
fn song_id_parse_overflow_is_sentinel_zero() {
    assert_eq!(SongId::parse("99999999999"), SongId(0));
    assert_eq!(SongId::parse("4294967295"), SongId(u32::MAX));
    assert_eq!(SongId::parse("4294967296"), SongId(0));
}

#[test]
fn artist_id_keeps_hyphens_out_of_numbers() {
    assert_eq!(ArtistId::parse("96028"), ArtistId(96028));
    // the artist encoding is plain, so a hyphen makes the id unparseable
    assert_eq!(ArtistId::parse("12-3"), ArtistId(0));
}

#[test]
fn format_date_rewrites_eight_digits() {
    assert_eq!(format_date("20170315".to_string()), Some("2017/03/15".to_string()));
}

#[test]
fn format_date_sentinel_is_absent() {
    assert_eq!(format_date("99999999".to_string()), None);
}

#[test]
fn format_date_short_input_is_absent() {
    assert_eq!(format_date("2017".to_string()), None);
    assert_eq!(format_date("201703151".to_string()), None);
    assert_eq!(format_date("".to_string()), None);
}

#[test]
fn first_char_takes_only_the_first() {
    assert_eq!(first_char("わか".to_string()), Some('わ'));
    assert_eq!(first_char("".to_string()), None);
}

#[test]
fn none_if_empty_drops_only_empty() {
    assert_eq!(none_if_empty("".to_string()), None);
    assert_eq!(none_if_empty("x".to_string()), Some("x".to_string()));
}

#[test]
fn song_from_search_item_normalizes_fields() {
    let song = Song::from_search_item(sample_search_item());
    let expected = Song {
        id: SongId(366869),
        title: "Wake up my music".to_string(),
        artist: Artist {
            id: ArtistId(96028),
            name: "りさ、えいみ".to_string(),
            first_kana: None,
        },
        date_added: Some("2013/11/02".to_string()),
        end_date: None,
        lyrics: Some("毎日違うわたしに 気づいてるかな".to_string()),
        series: None,
        has_video: false,
        first_kana: Some('わ'),
    };
    assert_eq!(song, expected);
}

#[test]
fn song_from_search_item_has_video_is_an_or_of_two_flags() {
    let mut it = sample_search_item();
    it.func_anime_picture = "1".to_string();
    assert!(Song::from_search_item(it).has_video);
    let mut it = sample_search_item();
    it.func_person_picture = "1".to_string();
    assert!(Song::from_search_item(it).has_video);
    let it = sample_search_item();
    assert!(!Song::from_search_item(it).has_video);
}

#[test]
fn song_from_search_item_keeps_nonempty_series() {
    let mut it = sample_search_item();
    it.program_title = "アイカツ!".to_string();
    let song = Song::from_search_item(it);
    assert_eq!(song.series, Some("アイカツ!".to_string()));
}

#[test]
fn artist_from_search_item_takes_kana_from_title_kana() {
    let a = Artist::from_search_item(sample_search_item());
    assert_eq!(
        a,
        Artist { id: ArtistId(96028), name: "りさ、えいみ".to_string(), first_kana: Some('わ') }
    );
}

#[test]
fn series_from_search_item_takes_program_title() {
    let mut it = sample_search_item();
    it.program_title = "アイカツ!".to_string();
    let s = Series::from_search_item(it);
    assert_eq!(s, Series { title: "アイカツ!".to_string(), first_kana: Some('わ') });
}

#[test]
fn song_from_exist_item_has_no_series_and_no_kana() {
    let it = exist::Item {
        artist_id: "96028".to_string(),
        artist_name: "りさ、えいみ".to_string(),
        dist_end: "99999999".to_string(),
        dist_start: "20131102".to_string(),
        first_bars: "毎日違うわたしに 気づいてるかな".to_string(),
        func_anime_picture: "0".to_string(),
        func_person_picture: "1".to_string(),
        func_recording: "0".to_string(),
        func_score: "1".to_string(),
        my_key: "0".to_string(),
        org_key: "0".to_string(),
        req_no: "3668-69".to_string(),
        song_name: "Wake up my music".to_string(),
    };
    let song = Song::from_exist_item(it);
    assert_eq!(song.id, SongId(366869));
    assert_eq!(song.series, None);
    assert_eq!(song.first_kana, None);
    assert_eq!(song.date_added, Some("2013/11/02".to_string()));
    assert_eq!(song.end_date, None);
    assert!(song.has_video);
}

#[test]
fn song_from_recommend_item_reshapes_the_fields() {
    let it = recommend::Item {
        artist: "りさ、えいみ".to_string(),
        artist_code: "0".to_string(),
        contents: "Wake up my music".to_string(),
        contents_id: "0".to_string(),
        contents_yomi: "".to_string(),
        d_artist_name_yomi: "りさえいみ".to_string(),
        d_song_name_yomi: "うえいくあっぷまいみゅーじっく".to_string(),
        dam_artist_code: "96028".to_string(),
        denmoku_artist: "".to_string(),
        denmoku_contents: "Wake up my music".to_string(),
        name_yomi: "".to_string(),
        request_no: "3668-69".to_string(),
    };
    let song = Song::from_recommend_item(it);
    assert_eq!(song.id, SongId(366869));
    assert_eq!(song.title, "Wake up my music".to_string());
    assert_eq!(song.artist.id, ArtistId(96028));
    assert_eq!(song.artist.first_kana, Some('り'));
    assert_eq!(song.first_kana, Some('う'));
    assert_eq!(song.date_added, None);
    assert_eq!(song.lyrics, None);
    assert!(!song.has_video);
}

#[test]
fn next_and_prev_page_stay_inside_the_range() {
    let p: Paginated<Song> = Paginated {
        page: 2,
        artist_category_id: "010000".to_string(),
        series_category_id: None,
        total_items: 50,
        total_pages: 3,
        items: Vec::new(),
    };
    assert_eq!(p.next_page(), Some(3));
    assert_eq!(p.prev_page(), Some(1));
    let last: Paginated<Song> = Paginated { page: 3, total_pages: 3, ..p };
    assert_eq!(last.next_page(), None);
    assert_eq!(last.prev_page(), Some(2));
    let first: Paginated<Song> = Paginated { page: 1, total_pages: 1, ..last };
    assert_eq!(first.next_page(), None);
    assert_eq!(first.prev_page(), None);
}
