//! The existence-lookup endpoint: a batch of song lookups, answered item by
//! item, with placeholder entries for the songs the service does not carry.

use super::api;
use crate::client::Metadata;
use crate::util::opt_view;
use vstd::prelude::*;

verus! {

pub const API_URL: &'static str = "https://denmoku.clubdam.com/dkdenmoku/DkDamIsExistServlet";

/// A lookup request: the metadata fields plus the batch of lookup targets.
#[derive(Debug, PartialEq)]
pub struct Request {
    pub app_ver: String,
    pub device_id: String,
    pub device_nm: String,
    pub os_ver: String,
    pub serial_no: Option<String>,
    pub is_exist: Vec<RequestItem>,
}

/// One lookup target: either a song id, or a title and artist pair.
#[derive(Debug, PartialEq)]
pub struct RequestItem {
    pub artist_name: Option<String>,
    pub song_name: Option<String>,
    pub req_no: Option<u32>,
}

impl RequestItem {
    pub fn from_id(id: u32) -> (r: RequestItem)
        ensures
            r.req_no == Some(id),
            r.song_name is None,
            r.artist_name is None,
    {
        RequestItem { song_name: None, artist_name: None, req_no: Some(id) }
    }

    pub fn from_title_and_artist(title: &str, artist: &str) -> (r: RequestItem)
        ensures
            opt_view(r.song_name) == Some(title@),
            opt_view(r.artist_name) == Some(artist@),
            r.req_no is None,
    {
        RequestItem { song_name: Some(title.to_owned()), artist_name: Some(artist.to_owned()), req_no: None }
    }
}

/// The metadata fields of a request read back the client's metadata.
pub open spec fn meta_fields(r: Request, meta: Metadata) -> bool {
    &&& r.app_ver@ == meta.app_ver@
    &&& r.device_id@ == meta.device_id@
    &&& r.device_nm@ == meta.device_nm@
    &&& r.os_ver@ == meta.os_ver@
    &&& opt_view(r.serial_no) == opt_view(meta.serial_no)
}

impl api::Request for Request {
    type ResponseType = Response;

    open spec fn spec_url() -> Seq<char> {
        "https://denmoku.clubdam.com/dkdenmoku/DkDamIsExistServlet"@
    }

    open spec fn spec_request_type() -> api::RequestType {
        api::RequestType::Json
    }

    open spec fn wire_page(&self) -> u32 {
        1
    }

    open spec fn wire_serial(&self) -> Option<Seq<char>> {
        opt_view(self.serial_no)
    }

    open spec fn wire_category(&self) -> Option<Seq<char>> {
        None
    }

    open spec fn with_page(self, page_num: u32) -> Self {
        self
    }

    open spec fn with_serial(self, serial_no: Option<String>) -> Self {
        Request { serial_no, ..self }
    }

    open spec fn from_meta_post(r: Self, meta: Metadata) -> bool {
        &&& meta_fields(r, meta)
        &&& r.is_exist@.len() == 0
    }

    fn request_type() -> api::RequestType {
        api::RequestType::Json
    }

    fn url() -> &'static str {
        API_URL
    }

    fn from_client_metadata(meta: &Metadata) -> Self {
        Request {
            app_ver: meta.app_ver.clone(),
            device_id: meta.device_id.clone(),
            device_nm: meta.device_nm.clone(),
            os_ver: meta.os_ver.clone(),
            serial_no: match &meta.serial_no {
                Some(s) => Some(s.clone()),
                None => None,
            },
            is_exist: Vec::new(),
        }
    }

    fn set_serial_no(&mut self, serial_no: Option<String>) {
        self.serial_no = serial_no;
    }

    fn page(&self) -> u32 {
        1
    }

    #[allow(unused_variables)]
    fn set_page(&mut self, page_num: u32) {
    }

    fn category<'a>(&'a self) -> Option<&'a str> {
        None
    }
}

/// An entry answers a lookup when it names a song; a placeholder with an
/// empty id says the song is not carried.
pub open spec fn answers_lookup(item: Item) -> bool {
    item.req_no@.len() != 0
}

/// The entries that answer their lookup, in wire order.
pub open spec fn kept_items(entries: Seq<Item>) -> Seq<Item> {
    entries.filter(|item: Item| answers_lookup(item))
}

/// Dropping placeholders never adds entries.
pub proof fn lemma_kept_items_len(entries: Seq<Item>)
    ensures
        kept_items(entries).len() <= entries.len(),
    decreases entries.len(),
{
    reveal(Seq::filter);
    if entries.len() > 0 {
        lemma_kept_items_len(entries.drop_last());
    }
}

/// A decoded lookup response: one entry per lookup target, placeholders
/// included.
#[derive(Debug, PartialEq)]
pub struct Response {
    pub is_exist: Vec<Item>,
}

impl api::Response for Response {
    type ItemType = Item;

    open spec fn inv(&self) -> bool {
        true
    }

    open spec fn spec_items(&self) -> Seq<Item> {
        kept_items(self.is_exist@)
    }

    open spec fn spec_total_pages(&self) -> u32 {
        1
    }

    open spec fn spec_total_items(&self) -> Option<u32> {
        None
    }

    fn take_items(self) -> (items: Vec<Item>)
        ensures
            items@ == self.spec_items(),
    {
        let mut rest = self.is_exist;
        let ghost orig = rest@;
        let mut out: Vec<Item> = Vec::new();
        let ghost mut processed: int = 0;
        proof {
            reveal(Seq::filter);
            assert(kept_items(orig.take(0)) =~= Seq::<Item>::empty());
            assert(rest@ =~= orig.skip(0));
        }
        while rest.len() > 0
            invariant
                0 <= processed <= orig.len(),
                rest@ == orig.skip(processed),
                out@ == kept_items(orig.take(processed)),
            decreases rest.len(),
        {
            let item = rest.remove(0);
            proof {
                assert(item == orig[processed]);
                assert(rest@ =~= orig.skip(processed + 1));
                assert(orig.take(processed + 1).drop_last() =~= orig.take(processed));
                assert(orig.take(processed + 1).last() == orig[processed]);
                reveal(Seq::filter);
            }
            if !item.req_no.as_str().is_empty() {
                out.push(item);
            }
            proof {
                processed = processed + 1;
            }
        }
        proof {
            assert(orig.take(processed) =~= orig);
        }
        out
    }

    fn total_pages(&self) -> u32 {
        1
    }

    fn total_items(&self) -> Option<u32> {
        None
    }
}

/// One raw lookup answer, with every field in the service's own encoding.
#[derive(Debug, PartialEq)]
pub struct Item {
    pub artist_id: String,
    pub artist_name: String,
    pub dist_end: String,
    pub dist_start: String,
    pub first_bars: String,
    pub func_anime_picture: String,
    pub func_person_picture: String,
    pub func_recording: String,
    pub func_score: String,
    pub my_key: String,
    pub org_key: String,
    pub req_no: String,
    pub song_name: String,
}

} // verus!
