//! The new-song categories: recently delivered songs, grouped by flavor.

use super::{Category, SongCategory};
use vstd::prelude::*;

verus! {

pub fn all() -> (c: Category<SongCategory>)
    ensures
        c.id.0@ == "030100"@,
        c.description.ja@ == "全曲"@,
        c.description.en@ == "All"@,
{
    super::make("030100", "全曲", "All")
}

pub fn live_karaoke() -> (c: Category<SongCategory>)
    ensures
        c.id.0@ == "030201"@,
        c.description.ja@ == "LIVEカラオケ"@,
        c.description.en@ == "Live Karaoke"@,
{
    super::make("030201", "LIVEカラオケ", "Live Karaoke")
}

pub fn music_video() -> (c: Category<SongCategory>)
    ensures
        c.id.0@ == "030202"@,
        c.description.ja@ == "本人出演映像"@,
        c.description.en@ == "Music Video"@,
{
    super::make("030202", "本人出演映像", "Music Video")
}

pub fn limited_time_video() -> (c: Category<SongCategory>)
    ensures
        c.id.0@ == "030203"@,
        c.description.ja@ == "今だけクリップ"@,
        c.description.en@ == "Limited Time Video"@,
{
    super::make("030203", "今だけクリップ", "Limited Time Video")
}

pub fn anime_game() -> (c: Category<SongCategory>)
    ensures
        c.id.0@ == "030301"@,
        c.description.ja@ == "アニメ・ゲーム"@,
        c.description.en@ == "Anime/Game"@,
{
    super::make("030301", "アニメ・ゲーム", "Anime/Game")
}

pub fn tokusatsu() -> (c: Category<SongCategory>)
    ensures
        c.id.0@ == "030302"@,
        c.description.ja@ == "特撮"@,
        c.description.en@ == "Tokusatsu"@,
{
    super::make("030302", "特撮", "Tokusatsu")
}

pub fn cm() -> (c: Category<SongCategory>)
    ensures
        c.id.0@ == "030401"@,
        c.description.ja@ == "CM"@,
        c.description.en@ == "Commercial"@,
{
    super::make("030401", "CM", "Commercial")
}

pub fn drama_movie() -> (c: Category<SongCategory>)
    ensures
        c.id.0@ == "030402"@,
        c.description.ja@ == "ドラマ・映画"@,
        c.description.en@ == "Drama/Movie"@,
{
    super::make("030402", "ドラマ・映画", "Drama/Movie")
}

pub fn variety() -> (c: Category<SongCategory>)
    ensures
        c.id.0@ == "030403"@,
        c.description.ja@ == "バラエティ"@,
        c.description.en@ == "Variety"@,
{
    super::make("030403", "バラエティ", "Variety")
}

pub fn music_program() -> (c: Category<SongCategory>)
    ensures
        c.id.0@ == "030404"@,
        c.description.ja@ == "音楽番組"@,
        c.description.en@ == "Music Program"@,
{
    super::make("030404", "音楽番組", "Music Program")
}

pub fn information_program() -> (c: Category<SongCategory>)
    ensures
        c.id.0@ == "030405"@,
        c.description.ja@ == "情報番組"@,
        c.description.en@ == "Information Program"@,
{
    super::make("030405", "情報番組", "Information Program")
}

pub fn sports() -> (c: Category<SongCategory>)
    ensures
        c.id.0@ == "030406"@,
        c.description.ja@ == "スポーツ"@,
        c.description.en@ == "Sports"@,
{
    super::make("030406", "スポーツ", "Sports")
}

pub fn coming_soon() -> (c: Category<SongCategory>)
    ensures
        c.id.0@ == "030500"@,
        c.description.ja@ == "もうすぐ配信"@,
        c.description.en@ == "Coming Soon"@,
{
    super::make("030500", "もうすぐ配信", "Coming Soon")
}

pub fn categories() -> (v: Vec<Category<SongCategory>>)
    ensures
        v@.len() == 13,
        v@[0].id.0@ == "030100"@,
        v@[1].id.0@ == "030201"@,
        v@[2].id.0@ == "030202"@,
        v@[3].id.0@ == "030203"@,
        v@[4].id.0@ == "030301"@,
        v@[5].id.0@ == "030302"@,
        v@[6].id.0@ == "030401"@,
        v@[7].id.0@ == "030402"@,
        v@[8].id.0@ == "030403"@,
        v@[9].id.0@ == "030404"@,
        v@[10].id.0@ == "030405"@,
        v@[11].id.0@ == "030406"@,
        v@[12].id.0@ == "030500"@,
{
    let mut v: Vec<Category<SongCategory>> = Vec::new();
    v.push(all());
    v.push(live_karaoke());
    v.push(music_video());
    v.push(limited_time_video());
    v.push(anime_game());
    v.push(tokusatsu());
    v.push(cm());
    v.push(drama_movie());
    v.push(variety());
    v.push(music_program());
    v.push(information_program());
    v.push(sports());
    v.push(coming_soon());
    v
}

} // verus!
