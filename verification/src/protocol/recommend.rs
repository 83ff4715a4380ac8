//! The recommendation endpoint: similar songs for a seed song, requested
//! form-encoded with the terminal application's fixed service credentials.

use super::api;
use crate::client::Metadata;
use crate::util::opt_view;
use vstd::prelude::*;

verus! {

pub const API_URL: &'static str = "https://csgw.clubdam.com/minsei/recommend/GetRecommendSongs.api";

/// A recommendation request: the fixed service credentials plus the list of
/// seed song ids and the optional serial number.
#[derive(Debug, PartialEq)]
pub struct Request {
    pub comp_id: i8,
    pub contract_id: i8,
    pub comp_auth_key: String,
    pub format: String,
    pub request_no_list: String,
    pub serial: Option<String>,
}

impl api::Request for Request {
    type ResponseType = Response;

    open spec fn spec_url() -> Seq<char> {
        "https://csgw.clubdam.com/minsei/recommend/GetRecommendSongs.api"@
    }

    open spec fn spec_request_type() -> api::RequestType {
        api::RequestType::FormData
    }

    open spec fn wire_page(&self) -> u32 {
        1
    }

    open spec fn wire_serial(&self) -> Option<Seq<char>> {
        opt_view(self.serial)
    }

    open spec fn wire_category(&self) -> Option<Seq<char>> {
        None
    }

    open spec fn with_page(self, page_num: u32) -> Self {
        self
    }

    open spec fn with_serial(self, serial_no: Option<String>) -> Self {
        Request { serial: serial_no, ..self }
    }

    open spec fn from_meta_post(r: Self, meta: Metadata) -> bool {
        &&& r.comp_id == 1
        &&& r.contract_id == 1
        &&& r.comp_auth_key@ == "2/Qb9R@8s*"@
        &&& r.format@ == "json"@
        &&& r.request_no_list@.len() == 0
        &&& opt_view(r.serial) == opt_view(meta.serial_no)
    }

    fn request_type() -> api::RequestType {
        api::RequestType::FormData
    }

    fn url() -> &'static str {
        API_URL
    }

    fn from_client_metadata(meta: &Metadata) -> Self {
        // The same values the terminal application itself sends.
        Request {
            comp_id: 1,
            contract_id: 1,
            comp_auth_key: "2/Qb9R@8s*".to_owned(),
            format: "json".to_owned(),
            request_no_list: String::new(),
            serial: match &meta.serial_no {
                Some(s) => Some(s.clone()),
                None => None,
            },
        }
    }

    fn set_serial_no(&mut self, serial_no: Option<String>) {
        self.serial = serial_no;
    }

    fn page(&self) -> u32 {
        1
    }

    #[allow(unused_variables)]
    fn set_page(&mut self, page_num: u32) {
    }

    fn category<'a>(&'a self) -> Option<&'a str> {
        None
    }
}

/// A decoded recommendation response: the list of similar songs, always one
/// page.
#[derive(Debug, PartialEq)]
pub struct Response {
    pub list: Vec<Item>,
}

impl api::Response for Response {
    type ItemType = Item;

    open spec fn inv(&self) -> bool {
        self.list@.len() <= u32::MAX
    }

    open spec fn spec_items(&self) -> Seq<Item> {
        self.list@
    }

    open spec fn spec_total_pages(&self) -> u32 {
        1
    }

    open spec fn spec_total_items(&self) -> Option<u32> {
        Some(self.list@.len() as u32)
    }

    fn take_items(self) -> Vec<Item> {
        self.list
    }

    fn total_pages(&self) -> u32 {
        1
    }

    fn total_items(&self) -> Option<u32> {
        Some(self.list.len() as u32)
    }
}

/// One raw recommended song, with every field in the service's own encoding.
#[derive(Debug, PartialEq)]
pub struct Item {
    pub artist: String,
    pub artist_code: String,
    pub contents: String,
    pub contents_id: String,
    pub contents_yomi: String,
    pub d_artist_name_yomi: String,
    pub d_song_name_yomi: String,
    pub dam_artist_code: String,
    pub denmoku_artist: String,
    pub denmoku_contents: String,
    pub name_yomi: String,
    pub request_no: String,
}

} // verus!
