//! The ranking categories: popularity charts, one per bucket.

use super::{Category, SongCategory};
use vstd::prelude::*;

verus! {

pub fn pop() -> (c: Category<SongCategory>)
    ensures
        c.id.0@ == "070100"@,
        c.description.ja@ == "POPS"@,
        c.description.en@ == "Pop"@,
{
    super::make("070100", "POPS", "Pop")
}

pub fn ballad() -> (c: Category<SongCategory>)
    ensures
        c.id.0@ == "070200"@,
        c.description.ja@ == "演歌"@,
        c.description.en@ == "Ballad"@,
{
    super::make("070200", "演歌", "Ballad")
}

pub fn western() -> (c: Category<SongCategory>)
    ensures
        c.id.0@ == "070300"@,
        c.description.ja@ == "洋楽"@,
        c.description.en@ == "Western"@,
{
    super::make("070300", "洋楽", "Western")
}

pub fn duet() -> (c: Category<SongCategory>)
    ensures
        c.id.0@ == "070400"@,
        c.description.ja@ == "デュエット"@,
        c.description.en@ == "Duet"@,
{
    super::make("070400", "デュエット", "Duet")
}

pub fn anime_tokusatsu() -> (c: Category<SongCategory>)
    ensures
        c.id.0@ == "070500"@,
        c.description.ja@ == "アニメ・特撮"@,
        c.description.en@ == "Anime/Tokusatsu"@,
{
    super::make("070500", "アニメ・特撮", "Anime/Tokusatsu")
}

pub fn recommended1() -> (c: Category<SongCategory>)
    ensures
        c.id.0@ == "071100"@,
        c.description.ja@ == "Recommended (1)"@,
        c.description.en@ == "Recommended (1)"@,
{
    super::make("071100", "Recommended (1)", "Recommended (1)")
}

pub fn recommended2() -> (c: Category<SongCategory>)
    ensures
        c.id.0@ == "071200"@,
        c.description.ja@ == "Recommended (2)"@,
        c.description.en@ == "Recommended (2)"@,
{
    super::make("071200", "Recommended (2)", "Recommended (2)")
}

pub fn recommended3() -> (c: Category<SongCategory>)
    ensures
        c.id.0@ == "071300"@,
        c.description.ja@ == "Recommended (3)"@,
        c.description.en@ == "Recommended (3)"@,
{
    super::make("071300", "Recommended (3)", "Recommended (3)")
}

pub fn recommended4() -> (c: Category<SongCategory>)
    ensures
        c.id.0@ == "071400"@,
        c.description.ja@ == "Recommended (4)"@,
        c.description.en@ == "Recommended (4)"@,
{
    super::make("071400", "Recommended (4)", "Recommended (4)")
}

pub fn recommended5() -> (c: Category<SongCategory>)
    ensures
        c.id.0@ == "071500"@,
        c.description.ja@ == "Recommended (5)"@,
        c.description.en@ == "Recommended (5)"@,
{
    super::make("071500", "Recommended (5)", "Recommended (5)")
}

pub fn categories() -> (v: Vec<Category<SongCategory>>)
    ensures
        v@.len() == 10,
        v@[0].id.0@ == "070100"@,
        v@[1].id.0@ == "070200"@,
        v@[2].id.0@ == "070300"@,
        v@[3].id.0@ == "070400"@,
        v@[4].id.0@ == "070500"@,
        v@[5].id.0@ == "071100"@,
        v@[6].id.0@ == "071200"@,
        v@[7].id.0@ == "071300"@,
        v@[8].id.0@ == "071400"@,
        v@[9].id.0@ == "071500"@,
{
    let mut v: Vec<Category<SongCategory>> = Vec::new();
    v.push(pop());
    v.push(ballad());
    v.push(western());
    v.push(duet());
    v.push(anime_tokusatsu());
    v.push(recommended1());
    v.push(recommended2());
    v.push(recommended3());
    v.push(recommended4());
    v.push(recommended5());
    v
}

} // verus!
