//! The vocaloid categories: songs grouped by synthesized-voice character.

use super::{Category, SongCategory};
use vstd::prelude::*;

verus! {

pub fn miku() -> (c: Category<SongCategory>)
    ensures
        c.id.0@ == "060100"@,
        c.description.ja@ == "初音ミク"@,
        c.description.en@ == "Miku"@,
{
    super::make("060100", "初音ミク", "Miku")
}

pub fn rin_len() -> (c: Category<SongCategory>)
    ensures
        c.id.0@ == "060200"@,
        c.description.ja@ == "鏡音リン・鏡音レン"@,
        c.description.en@ == "Rin/Len"@,
{
    super::make("060200", "鏡音リン・鏡音レン", "Rin/Len")
}

pub fn luka() -> (c: Category<SongCategory>)
    ensures
        c.id.0@ == "060300"@,
        c.description.ja@ == "巡音ルカ"@,
        c.description.en@ == "Luka"@,
{
    super::make("060300", "巡音ルカ", "Luka")
}

pub fn kaito_meiko() -> (c: Category<SongCategory>)
    ensures
        c.id.0@ == "060400"@,
        c.description.ja@ == "KAITO・MEIKO"@,
        c.description.en@ == "Kaito/Meiko"@,
{
    super::make("060400", "KAITO・MEIKO", "Kaito/Meiko")
}

pub fn gumi() -> (c: Category<SongCategory>)
    ensures
        c.id.0@ == "060500"@,
        c.description.ja@ == "GUMI"@,
        c.description.en@ == "GUMI"@,
{
    super::make("060500", "GUMI", "GUMI")
}

pub fn gakupo() -> (c: Category<SongCategory>)
    ensures
        c.id.0@ == "060600"@,
        c.description.ja@ == "神威がくぽ"@,
        c.description.en@ == "Gakupo"@,
{
    super::make("060600", "神威がくぽ", "Gakupo")
}

pub fn lily() -> (c: Category<SongCategory>)
    ensures
        c.id.0@ == "060700"@,
        c.description.ja@ == "Lily"@,
        c.description.en@ == "Lily"@,
{
    super::make("060700", "Lily", "Lily")
}

pub fn other() -> (c: Category<SongCategory>)
    ensures
        c.id.0@ == "060800"@,
        c.description.ja@ == "その他"@,
        c.description.en@ == "Other"@,
{
    super::make("060800", "その他", "Other")
}

pub fn image() -> (c: Category<SongCategory>)
    ensures
        c.id.0@ == "060900"@,
        c.description.ja@ == "映像"@,
        c.description.en@ == "Music Video"@,
{
    super::make("060900", "映像", "Music Video")
}

pub fn categories() -> (v: Vec<Category<SongCategory>>)
    ensures
        v@.len() == 9,
        v@[0].id.0@ == "060100"@,
        v@[1].id.0@ == "060200"@,
        v@[2].id.0@ == "060300"@,
        v@[3].id.0@ == "060400"@,
        v@[4].id.0@ == "060500"@,
        v@[5].id.0@ == "060600"@,
        v@[6].id.0@ == "060700"@,
        v@[7].id.0@ == "060800"@,
        v@[8].id.0@ == "060900"@,
{
    let mut v: Vec<Category<SongCategory>> = Vec::new();
    v.push(miku());
    v.push(rin_len());
    v.push(luka());
    v.push(kaito_meiko());
    v.push(gumi());
    v.push(gakupo());
    v.push(lily());
    v.push(other());
    v.push(image());
    v
}

} // verus!
