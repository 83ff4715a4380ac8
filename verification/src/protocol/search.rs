//! The free-text search endpoint: its request and response shapes, and the
//! single-page correction its pagination counters need.

use super::api;
use crate::client::Metadata;
use crate::util::opt_view;
use vstd::prelude::*;

verus! {

pub const API_URL: &'static str = "https://denmoku.clubdam.com/dkdenmoku/DkDamSearchServlet";

/// A search request: the metadata fields, the page, the category code, and
/// at most one of the query shapes (song text, artist text, artist id,
/// program title).
#[derive(Debug, PartialEq)]
pub struct Request {
    pub app_ver: String,
    pub device_id: String,
    pub device_nm: String,
    pub os_ver: String,
    pub serial_no: Option<String>,
    pub page: u32,
    pub category_cd: String,
    pub artist_id: Option<u32>,
    pub artist_name: Option<String>,
    pub artist_match_type: Option<String>,
    pub song_name: Option<String>,
    pub song_match_type: Option<String>,
    pub program_title: Option<String>,
}

/// The metadata fields of a request read back the client's metadata.
pub open spec fn meta_fields(r: Request, meta: Metadata) -> bool {
    &&& r.app_ver@ == meta.app_ver@
    &&& r.device_id@ == meta.device_id@
    &&& r.device_nm@ == meta.device_nm@
    &&& r.os_ver@ == meta.os_ver@
    &&& opt_view(r.serial_no) == opt_view(meta.serial_no)
}

impl api::Request for Request {
    type ResponseType = Response;

    open spec fn spec_url() -> Seq<char> {
        "https://denmoku.clubdam.com/dkdenmoku/DkDamSearchServlet"@
    }

    open spec fn spec_request_type() -> api::RequestType {
        api::RequestType::Json
    }

    open spec fn wire_page(&self) -> u32 {
        self.page
    }

    open spec fn wire_serial(&self) -> Option<Seq<char>> {
        opt_view(self.serial_no)
    }

    open spec fn wire_category(&self) -> Option<Seq<char>> {
        Some(self.category_cd@)
    }

    open spec fn with_page(self, page_num: u32) -> Self {
        Request { page: page_num, ..self }
    }

    open spec fn with_serial(self, serial_no: Option<String>) -> Self {
        Request { serial_no, ..self }
    }

    open spec fn from_meta_post(r: Self, meta: Metadata) -> bool {
        &&& meta_fields(r, meta)
        &&& r.page == 1
        &&& r.category_cd@.len() == 0
        &&& r.artist_id is None
        &&& r.artist_name is None
        &&& r.artist_match_type is None
        &&& r.song_name is None
        &&& r.song_match_type is None
        &&& r.program_title is None
    }

    fn request_type() -> api::RequestType {
        api::RequestType::Json
    }

    fn url() -> &'static str {
        API_URL
    }

    fn from_client_metadata(meta: &Metadata) -> Self {
        Request {
            app_ver: meta.app_ver.clone(),
            device_id: meta.device_id.clone(),
            device_nm: meta.device_nm.clone(),
            os_ver: meta.os_ver.clone(),
            serial_no: match &meta.serial_no {
                Some(s) => Some(s.clone()),
                None => None,
            },
            page: 1,
            category_cd: String::new(),
            artist_id: None,
            artist_name: None,
            artist_match_type: None,
            song_name: None,
            song_match_type: None,
            program_title: None,
        }
    }

    fn set_serial_no(&mut self, serial_no: Option<String>) {
        self.serial_no = serial_no;
    }

    fn page(&self) -> u32 {
        self.page
    }

    fn set_page(&mut self, page_num: u32) {
        self.page = page_num;
    }

    fn category<'a>(&'a self) -> Option<&'a str> {
        Some(self.category_cd.as_str())
    }
}

/// A decoded search response: the matching items of the requested page and
/// the total item and page counts, which the service reports as
/// numbers-in-strings and which are not always consistent with each other.
#[derive(Debug, PartialEq)]
pub struct Response {
    pub search_result: Vec<Item>,
    pub total_count: u32,
    pub total_page: u32,
}

/// The page count after the single-page correction: the service sometimes
/// claims several pages while returning every result at once, so a page that
/// already holds the whole reported count is the only page.
pub open spec fn corrected_total_pages(r: Response) -> u32 {
    if r.search_result@.len() >= r.total_count {
        1
    } else {
        r.total_page
    }
}

/// A response that already holds every item the service claims is a
/// single-page response, whatever page count it reports.
pub proof fn lemma_single_page_correction(r: Response)
    ensures
        r.search_result@.len() >= r.total_count ==> corrected_total_pages(r) == 1,
{
}

impl api::Response for Response {
    type ItemType = Item;

    open spec fn inv(&self) -> bool {
        true
    }

    open spec fn spec_items(&self) -> Seq<Item> {
        self.search_result@
    }

    open spec fn spec_total_pages(&self) -> u32 {
        corrected_total_pages(*self)
    }

    open spec fn spec_total_items(&self) -> Option<u32> {
        Some(self.total_count)
    }

    fn take_items(self) -> Vec<Item> {
        self.search_result
    }

    fn total_pages(&self) -> u32 {
        if self.search_result.len() >= self.total_count as usize {
            1
        } else {
            self.total_page
        }
    }

    fn total_items(&self) -> Option<u32> {
        Some(self.total_count)
    }
}

/// One raw search result, with every field in the service's own encoding.
#[derive(Debug, PartialEq)]
pub struct Item {
    pub artist_id: String,
    pub artist_name: String,
    pub dist_end: String,
    pub dist_start: String,
    pub first_bars: String,
    pub func_anime_picture: String,
    pub func_person_picture: String,
    pub func_recording: String,
    pub func_score: String,
    pub indication_month: String,
    pub my_key: String,
    pub org_key: String,
    pub program_title: String,
    pub req_no: String,
    pub song_name: String,
    pub title_first_kana: String,
}

} // verus!
