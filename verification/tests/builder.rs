use clubdarn::category;
use clubdarn::protocol::api::Request as _;
use clubdarn::{Client, MatchType, TitleAndArtist};

#[test]
fn default_client_metadata() {
    let c = Client::default();
    assert_eq!(c.meta.app_ver, "1.2.0");
    assert_eq!(c.meta.device_id, "");
    assert_eq!(c.meta.device_nm, "clubdarn");
    assert_eq!(c.meta.serial_no, None);
}

#[test]
fn default_serial_no_reaches_the_request() {
    let c = Client::default().set_default_serial_no(Some("AB316238".to_string()));
    let b = c.songs().starting_with("x");
    assert_eq!(b.request.serial_no, Some("AB316238".to_string()));
}

#[test]
fn by_title_fills_the_song_query() {
    let c = Client::default();
    let b = c.songs().by_title("on flower", MatchType::Contains);
    assert_eq!(b.request.song_name, Some("on flower".to_string()));
    assert_eq!(b.request.song_match_type, Some("1".to_string()));
    assert_eq!(b.request.category_cd, "020000");
    assert_eq!(b.request.page, 1);
    assert_eq!(b.request.artist_id, None);
    assert_eq!(b.request.artist_name, None);
    assert_eq!(b.request.program_title, None);
}

#[test]
fn starting_with_equals_explicit_starts_with() {
    let c = Client::default();
    let sugar = c.songs().starting_with("x");
    let explicit = c.songs().by_title("x", MatchType::StartsWith);
    assert_eq!(sugar.request, explicit.request);
    assert_eq!(sugar.request.song_match_type, Some("0".to_string()));
}

#[test]
fn artist_starting_with_equals_explicit_starts_with() {
    let c = Client::default();
    let sugar = c.artists().starting_with("aikatsu");
    let explicit = c.artists().by_name("aikatsu", MatchType::StartsWith);
    assert_eq!(sugar.request, explicit.request);
    assert_eq!(sugar.request.artist_match_type, Some("0".to_string()));
    assert_eq!(sugar.request.category_cd, "010000");
}

#[test]
fn by_artist_id_uses_the_artist_name_category() {
    let c = Client::default();
    let b = c.songs().by_artist_id(96028);
    assert_eq!(b.request.artist_id, Some(96028));
    assert_eq!(b.request.category_cd, "010000");
    assert_eq!(b.request.song_name, None);
}

#[test]
fn by_series_carries_title_and_category() {
    let c = Client::default();
    let b = c.songs().by_series("アイカツ!", category::series::anime());
    assert_eq!(b.request.program_title, Some("アイカツ!".to_string()));
    assert_eq!(b.request.category_cd, "050100");
}

#[test]
fn series_by_category_takes_the_category_code() {
    let c = Client::default();
    let b = c.series().by_category(category::series::tokusatsu());
    assert_eq!(b.request.category_cd, "050200");
    assert_eq!(b.request.program_title, None);
}

#[test]
fn live_performance_uses_its_own_category() {
    let c = Client::default();
    let b = c.artists().live_performance();
    assert_eq!(b.request.category_cd, "040000");
    assert_eq!(b.request.artist_name, None);
}

#[test]
fn by_ids_builds_one_lookup_target_per_id() {
    let c = Client::default();
    let b = c.songs().by_ids(&[369073, 366869]);
    assert_eq!(b.request.is_exist.len(), 2);
    assert_eq!(b.request.is_exist[0].req_no, Some(369073));
    assert_eq!(b.request.is_exist[1].req_no, Some(366869));
    assert_eq!(b.request.is_exist[0].song_name, None);
    assert_eq!(b.request.is_exist[0].artist_name, None);
}

#[test]
fn by_ids_with_no_ids_builds_an_empty_batch() {
    let c = Client::default();
    let b = c.songs().by_ids(&[]);
    assert!(b.request.is_exist.is_empty());
}

#[test]
fn by_id_is_a_batch_of_one() {
    let c = Client::default();
    let b = c.songs().by_id(369073);
    assert_eq!(b.request.is_exist.len(), 1);
    assert_eq!(b.request.is_exist[0].req_no, Some(369073));
}

#[test]
fn by_titles_and_artists_builds_pairs() {
    let c = Client::default();
    let pairs = vec![TitleAndArtist {
        title: "wake up my music".to_string(),
        artist: "りさ、えいみ".to_string(),
    }];
    let b = c.songs().by_titles_and_artists(&pairs);
    assert_eq!(b.request.is_exist.len(), 1);
    assert_eq!(b.request.is_exist[0].song_name, Some("wake up my music".to_string()));
    assert_eq!(b.request.is_exist[0].artist_name, Some("りさ、えいみ".to_string()));
    assert_eq!(b.request.is_exist[0].req_no, None);
}

#[test]
fn by_title_and_artist_is_a_batch_of_one() {
    let c = Client::default();
    let b = c.songs().by_title_and_artist("wake up my music", "りさ、えいみ");
    assert_eq!(b.request.is_exist.len(), 1);
    assert_eq!(b.request.is_exist[0].song_name, Some("wake up my music".to_string()));
    assert_eq!(b.request.is_exist[0].req_no, None);
}

#[test]
fn similar_to_hyphenates_long_ids() {
    let c = Client::default();
    let b = c.songs().similar_to(372915);
    assert_eq!(b.request.request_no_list, "3729-15");
}

#[test]
fn similar_to_sends_short_ids_unchanged() {
    let c = Client::default();
    let b = c.songs().similar_to(42);
    assert_eq!(b.request.request_no_list, "42");
    let b4 = c.songs().similar_to(1234);
    assert_eq!(b4.request.request_no_list, "1234");
    let b5 = c.songs().similar_to(12345);
    assert_eq!(b5.request.request_no_list, "1234-5");
}

#[test]
fn similar_to_carries_the_fixed_credentials() {
    let c = Client::default().set_default_serial_no(Some("AB316238".to_string()));
    let b = c.songs().similar_to(372915);
    assert_eq!(b.request.comp_id, 1);
    assert_eq!(b.request.contract_id, 1);
    assert_eq!(b.request.comp_auth_key, "2/Qb9R@8s*");
    assert_eq!(b.request.format, "json");
    assert_eq!(b.request.serial, Some("AB316238".to_string()));
}

#[test]
fn set_page_moves_a_search_request() {
    let c = Client::default();
    let mut b = c.songs().containing("flower");
    b.set_page(3);
    assert_eq!(b.request.page, 3);
}

#[test]
fn set_page_is_inert_on_a_lookup_request() {
    let c = Client::default();
    let mut b = c.songs().by_id(369073);
    b.set_page(3);
    assert_eq!(b.request.page(), 1);
}

#[test]
fn set_serial_no_overrides_one_request() {
    let c = Client::default();
    let mut b = c.songs().containing("flower");
    b.set_serial_no(Some("AB316238".to_string()));
    assert_eq!(b.request.serial_no, Some("AB316238".to_string()));
    b.set_serial_no(None);
    assert_eq!(b.request.serial_no, None);
}

#[test]
fn match_type_wire_codes_are_fixed() {
    assert_eq!(MatchType::StartsWith.wire_code(), "0");
    assert_eq!(MatchType::Contains.wire_code(), "1");
}
