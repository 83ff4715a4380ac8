use clubdarn::category;

#[test]
fn artist_category_defaults_to_artist_name() {
    let c = category::artist_category("020000");
    assert_eq!(c.id.0, "010000");
    assert_eq!(c.description.en, "Artist Name");
}

#[test]
fn artist_category_keeps_live_performance() {
    let c = category::artist_category("040000");
    assert_eq!(c.id.0, "040000");
    assert_eq!(c.description.en, "Live Performance");
}

#[test]
fn series_category_maps_anime_flavored_codes() {
    for code in ["030301", "050100", "070500"] {
        let c = category::series_category(code).unwrap();
        assert_eq!(c.id.0, "050100");
        assert_eq!(c.description.en, "Anime");
    }
}

#[test]
fn series_category_maps_tokusatsu_flavored_codes() {
    for code in ["030302", "050200"] {
        let c = category::series_category(code).unwrap();
        assert_eq!(c.id.0, "050200");
        assert_eq!(c.description.en, "Tokusatsu");
    }
}

#[test]
fn series_category_maps_music_video() {
    let c = category::series_category("050300").unwrap();
    assert_eq!(c.id.0, "050300");
    assert_eq!(c.description.en, "Music Video");
}

#[test]
fn series_category_rejects_everything_else() {
    assert!(category::series_category("020000").is_none());
    assert!(category::series_category("010000").is_none());
    assert!(category::series_category("030100").is_none());
    assert!(category::series_category("").is_none());
}

#[test]
fn series_codes_round_trip_through_classification() {
    for code in ["050100", "050200", "050300"] {
        let c = category::series_category(code).unwrap();
        assert_eq!(c.id.0, code);
    }
}

#[test]
fn fixed_categories_have_their_codes() {
    assert_eq!(category::song_name().id.0, "020000");
    assert_eq!(category::artist_name().id.0, "010000");
    assert_eq!(category::live_performance().id.0, "040000");
}

#[test]
fn catalog_groups_are_complete() {
    assert_eq!(category::new_songs::categories().len(), 13);
    assert_eq!(category::series::categories().len(), 3);
    assert_eq!(category::vocaloid::categories().len(), 9);
    assert_eq!(category::ranking::categories().len(), 10);
}

#[test]
fn catalog_entries_keep_their_descriptions() {
    assert_eq!(category::new_songs::anime_game().description.ja, "アニメ・ゲーム");
    assert_eq!(category::new_songs::tokusatsu().id.0, "030302");
    assert_eq!(category::vocaloid::miku().description.ja, "初音ミク");
    assert_eq!(category::ranking::anime_tokusatsu().id.0, "070500");
    assert_eq!(category::series::music_video().description.ja, "映像");
}
