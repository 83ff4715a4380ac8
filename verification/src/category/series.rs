//! The series categories: collections of songs tied to a program or video
//! series.

use super::{Category, SeriesCategory};
use vstd::prelude::*;

verus! {

pub fn anime() -> (c: Category<SeriesCategory>)
    ensures
        c.id.0@ == "050100"@,
        c.description.ja@ == "アニメ"@,
        c.description.en@ == "Anime"@,
{
    super::make("050100", "アニメ", "Anime")
}

pub fn tokusatsu() -> (c: Category<SeriesCategory>)
    ensures
        c.id.0@ == "050200"@,
        c.description.ja@ == "特撮"@,
        c.description.en@ == "Tokusatsu"@,
{
    super::make("050200", "特撮", "Tokusatsu")
}

pub fn music_video() -> (c: Category<SeriesCategory>)
    ensures
        c.id.0@ == "050300"@,
        c.description.ja@ == "映像"@,
        c.description.en@ == "Music Video"@,
{
    super::make("050300", "映像", "Music Video")
}

pub fn categories() -> (v: Vec<Category<SeriesCategory>>)
    ensures
        v@.len() == 3,
        v@[0].id.0@ == "050100"@,
        v@[1].id.0@ == "050200"@,
        v@[2].id.0@ == "050300"@,
{
    let mut v: Vec<Category<SeriesCategory>> = Vec::new();
    v.push(anime());
    v.push(tokusatsu());
    v.push(music_video());
    v
}

} // verus!
