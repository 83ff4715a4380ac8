use clubdarn::protocol::{exist, recommend, search};
use clubdarn::{Artist, ArtistId, Client, Paginated, Song, SongId};

fn wake_up_my_music_item() -> search::Item {
    search::Item {
        artist_id: "96028".to_string(),
        artist_name: "りさ、えいみ".to_string(),
        dist_end: "99999999".to_string(),
        dist_start: "20131102".to_string(),
        first_bars: "毎日違うわたしに 気づいてるかな".to_string(),
        func_anime_picture: "0".to_string(),
        func_person_picture: "0".to_string(),
        func_recording: "0".to_string(),
        func_score: "1".to_string(),
        indication_month: "".to_string(),
        my_key: "0".to_string(),
        org_key: "0".to_string(),
        program_title: "".to_string(),
        req_no: "3668-69".to_string(),
        song_name: "Wake up my music".to_string(),
        title_first_kana: "".to_string(),
    }
}

fn single_result_response() -> search::Response {
    search::Response {
        search_result: vec![wake_up_my_music_item()],
        total_count: 1,
        total_page: 1,
    }
}

#[test]
fn songs_by_title() {
    let client = Client::default();
    let request = client.songs().starting_with("wake up my music");

    let response = request.paginate(single_result_response());

    let expected_song = Song {
        id: SongId(366869),
        title: "Wake up my music".into(),
        date_added: Some("2013/11/02".into()),
        end_date: None,
        lyrics: Some("毎日違うわたしに 気づいてるかな".into()),
        series: None,
        first_kana: None,
        has_video: false,
        artist: Artist {
            id: ArtistId(96028),
            name: "りさ、えいみ".into(),
            first_kana: None,
        },
    };

    let expected_response = Paginated {
        page: 1,
        artist_category_id: "010000".into(),
        series_category_id: None,
        total_items: 1,
        total_pages: 1,
        items: vec![expected_song],
    };

    assert_eq!(response, expected_response);
}

#[test]
fn first_page_reports_page_one_and_consistent_counts() {
    let client = Client::default();
    let request = client.songs().containing("music");
    let response = request.paginate(search::Response {
        search_result: vec![wake_up_my_music_item()],
        total_count: 40,
        total_page: 2,
    });
    assert_eq!(response.page, 1);
    assert!(response.total_pages >= 1);
    assert!(response.items.len() as u32 <= response.total_items);
}

#[test]
fn paginate_is_deterministic() {
    let client = Client::default();
    let request = client.songs().starting_with("wake up my music");
    let first = request.paginate(single_result_response());
    let second = request.paginate(single_result_response());
    assert_eq!(first, second);
}

#[test]
fn single_page_correction_overrides_the_reported_count() {
    let client = Client::default();
    let request = client.songs().containing("music");
    let response = request.paginate(search::Response {
        search_result: vec![wake_up_my_music_item()],
        total_count: 1,
        total_page: 5,
    });
    assert_eq!(response.total_pages, 1);
    assert_eq!(response.total_items, 1);
    assert_eq!(response.items.len(), 1);
}

#[test]
fn uncorrected_page_count_is_kept_when_more_items_remain() {
    let client = Client::default();
    let request = client.songs().containing("music");
    let response = request.paginate(search::Response {
        search_result: vec![wake_up_my_music_item()],
        total_count: 40,
        total_page: 2,
    });
    assert_eq!(response.total_pages, 2);
    assert_eq!(response.total_items, 40);
}

#[test]
fn series_query_round_trips_its_category_id() {
    for code in ["050100", "050200", "050300"] {
        let client = Client::default();
        let request = client.songs().by_series_in_category_id("アイカツ!", code);
        let response = request.paginate(search::Response {
            search_result: Vec::new(),
            total_count: 0,
            total_page: 0,
        });
        assert_eq!(response.series_category_id, Some(code.to_string()));
    }
}

#[test]
fn title_query_has_no_series_category() {
    let client = Client::default();
    let request = client.songs().starting_with("wake up my music");
    let response = request.paginate(single_result_response());
    assert_eq!(response.series_category_id, None);
    assert_eq!(response.artist_category_id, "010000");
}

#[test]
fn live_performance_query_keeps_its_artist_category() {
    let client = Client::default();
    let request = client.artists().live_performance();
    let response = request.paginate(search::Response {
        search_result: Vec::new(),
        total_count: 0,
        total_page: 0,
    });
    assert_eq!(response.artist_category_id, "040000");
    assert_eq!(response.series_category_id, None);
}

#[test]
fn artists_paginate_converts_names() {
    let client = Client::default();
    let request = client.artists().starting_with("りさ");
    let response = request.paginate(single_result_response());
    assert_eq!(response.items.len(), 1);
    assert_eq!(
        response.items[0],
        Artist { id: ArtistId(96028), name: "りさ、えいみ".to_string(), first_kana: None }
    );
}

fn exist_entry(req_no: &str) -> exist::Item {
    exist::Item {
        artist_id: "96028".to_string(),
        artist_name: "りさ、えいみ".to_string(),
        dist_end: "99999999".to_string(),
        dist_start: "20131102".to_string(),
        first_bars: "毎日違うわたしに 気づいてるかな".to_string(),
        func_anime_picture: "0".to_string(),
        func_person_picture: "0".to_string(),
        func_recording: "0".to_string(),
        func_score: "1".to_string(),
        my_key: "0".to_string(),
        org_key: "0".to_string(),
        req_no: req_no.to_string(),
        song_name: "Wake up my music".to_string(),
    }
}

#[test]
fn lookup_paginate_drops_not_found_placeholders() {
    let client = Client::default();
    let request = client.songs().by_ids(&[366869, 1]);
    let response = request.paginate(exist::Response {
        is_exist: vec![exist_entry("3668-69"), exist_entry("")],
    });
    assert_eq!(response.items.len(), 1);
    assert_eq!(response.items[0].id, SongId(366869));
    assert_eq!(response.total_items, 1);
    assert_eq!(response.total_pages, 1);
    assert_eq!(response.page, 1);
    assert_eq!(response.artist_category_id, "010000");
    assert_eq!(response.series_category_id, None);
}

#[test]
fn recommendation_paginate_is_a_single_full_page() {
    let client = Client::default();
    let request = client.songs().similar_to(372915);
    let response = request.paginate(recommend::Response {
        list: vec![recommend::Item {
            artist: "りさ、えいみ".to_string(),
            artist_code: "0".to_string(),
            contents: "Wake up my music".to_string(),
            contents_id: "0".to_string(),
            contents_yomi: "".to_string(),
            d_artist_name_yomi: "りさえいみ".to_string(),
            d_song_name_yomi: "うえいくあっぷ".to_string(),
            dam_artist_code: "96028".to_string(),
            denmoku_artist: "".to_string(),
            denmoku_contents: "Wake up my music".to_string(),
            name_yomi: "".to_string(),
            request_no: "3668-69".to_string(),
        }],
    });
    assert_eq!(response.total_pages, 1);
    assert_eq!(response.total_items, 1);
    assert_eq!(response.items.len(), 1);
    assert_eq!(response.items[0].id, SongId(366869));
    assert_eq!(response.items[0].first_kana, Some('う'));
}
