//! The client: per-client metadata, the fluent request builder, and the
//! normalization of decoded wire responses into paginated domain values.

use crate::category;
use crate::category::{artist_code_of, Category, SeriesCategory, SongCategory, series_code_of};
use crate::model::{
    Artist, Paginated, Series, Song, artist_of_search_item, series_of_search_item,
    song_of_exist_item, song_of_recommend_item, song_of_search_item,
};
use crate::protocol::{api, exist, recommend, search};
use crate::protocol::api::Request as ApiRequest;
use crate::protocol::api::Response as ApiResponse;
use crate::util::{opt_view, push_char, spec_u32_digits, u32_to_string};
use core::marker::PhantomData;
use vstd::prelude::*;
use vstd::string::StrSliceExecFns;
use vstd::string::StringExecFns;

verus! {

/// Per-client configuration, copied into every outgoing request. The serial
/// number identifies a physical terminal and is the one field a single
/// request may override.
pub struct Metadata {
    pub app_ver: String,
    pub device_id: String,
    pub device_nm: String,
    pub os_ver: String,
    pub serial_no: Option<String>,
}

impl Clone for Metadata {
    fn clone(&self) -> (r: Metadata)
        ensures
            r == *self,
    {
        Metadata {
            app_ver: self.app_ver.clone(),
            device_id: self.device_id.clone(),
            device_nm: self.device_nm.clone(),
            os_ver: self.os_ver.clone(),
            serial_no: match &self.serial_no {
                Some(s) => Some(s.clone()),
                None => None,
            },
        }
    }
}

impl Default for Metadata {
    /// The values the bundled terminal application would send.
    fn default() -> (r: Metadata)
        ensures
            r.app_ver@ == "1.2.0"@,
            r.device_id@ == ""@,
            r.device_nm@ == "clubdarn"@,
            r.os_ver@ == "0.1.0"@,
            r.serial_no is None,
    {
        Metadata {
            app_ver: "1.2.0".to_owned(),
            device_id: "".to_owned(),
            device_nm: "clubdarn".to_owned(),
            os_ver: "0.1.0".to_owned(),
            serial_no: None,
        }
    }
}

/// A builder not yet bound to a query: it only carries the client's metadata.
pub struct Pending(pub Metadata);

/// One title-and-artist pair of a batch lookup.
#[derive(Debug, PartialEq)]
pub struct TitleAndArtist {
    pub title: String,
    pub artist: String,
}

/// Prefix search against substring search.
#[derive(Debug, PartialEq, Eq, Structural, Clone, Copy)]
pub enum MatchType {
    StartsWith,
    Contains,
}

/// The wire encoding of a match mode: "0" for a prefix search, "1" for a
/// substring search — fixed literals, never inferred from ordinal position.
pub open spec fn match_code(mt: MatchType) -> Seq<char> {
    match mt {
        MatchType::StartsWith => "0"@,
        MatchType::Contains => "1"@,
    }
}

impl MatchType {
    pub fn wire_code(&self) -> (r: &'static str)
        ensures
            r@ == match_code(*self),
    {
        match self {
            MatchType::StartsWith => "0",
            MatchType::Contains => "1",
        }
    }
}

/// A client: the metadata every request starts from. The builders it hands
/// out are independent value objects.
pub struct Client {
    pub meta: Metadata,
}

impl Client {
    pub fn new(meta: Metadata) -> (c: Client)
        ensures
            c.meta == meta,
    {
        Client { meta }
    }

    pub fn default() -> (c: Client)
        ensures
            c.meta.app_ver@ == "1.2.0"@,
            c.meta.device_id@ == ""@,
            c.meta.device_nm@ == "clubdarn"@,
            c.meta.os_ver@ == "0.1.0"@,
            c.meta.serial_no is None,
    {
        Client::new(Metadata::default())
    }

    /// Replaces the serial number every request of this client starts from.
    pub fn set_default_serial_no(self, serial_no: Option<String>) -> (c: Client)
        ensures
            c.meta.app_ver == self.meta.app_ver,
            c.meta.device_id == self.meta.device_id,
            c.meta.device_nm == self.meta.device_nm,
            c.meta.os_ver == self.meta.os_ver,
            c.meta.serial_no == serial_no,
    {
        Client {
            meta: Metadata {
                app_ver: self.meta.app_ver,
                device_id: self.meta.device_id,
                device_nm: self.meta.device_nm,
                os_ver: self.meta.os_ver,
                serial_no,
            },
        }
    }

    pub fn artists(&self) -> (b: RequestBuilder<Pending, Artist>)
        ensures
            b.request.0 == self.meta,
    {
        RequestBuilder { request: Pending(self.meta.clone()), item: PhantomData }
    }

    pub fn songs(&self) -> (b: RequestBuilder<Pending, Song>)
        ensures
            b.request.0 == self.meta,
    {
        RequestBuilder { request: Pending(self.meta.clone()), item: PhantomData }
    }

    pub fn series(&self) -> (b: RequestBuilder<Pending, Series>)
        ensures
            b.request.0 == self.meta,
    {
        RequestBuilder { request: Pending(self.meta.clone()), item: PhantomData }
    }
}

/// A fluent builder. `RequestT` is `Pending` until a query constructor picks
/// a wire request; afterwards it is that request, bound to the domain item
/// type the response will be converted to.
pub struct RequestBuilder<RequestT, ResponseItemT> {
    pub request: RequestT,
    pub item: PhantomData<ResponseItemT>,
}

impl<I> RequestBuilder<Pending, I> {
    fn default_request<R: api::Request>(&self) -> (b: RequestBuilder<R, I>)
        ensures
            R::from_meta_post(b.request, self.request.0),
            b.request.wire_page() == 1,
            b.request.wire_serial() == opt_view(self.request.0.serial_no),
    {
        RequestBuilder { request: R::from_client_metadata(&self.request.0), item: PhantomData }
    }
}

/// What a title query builds: a search request over the song-name category,
/// with the title and the encoded match mode and nothing else filled in.
pub open spec fn by_title_post(
    q: search::Request,
    m: Metadata,
    title: Seq<char>,
    mt: MatchType,
) -> bool {
    &&& search::meta_fields(q, m)
    &&& q.page == 1
    &&& q.category_cd@ == "020000"@
    &&& opt_view(q.song_name) == Some(title)
    &&& opt_view(q.song_match_type) == Some(match_code(mt))
    &&& q.artist_id is None
    &&& q.artist_name is None
    &&& q.artist_match_type is None
    &&& q.program_title is None
}

/// What an artist-id query builds: a search request over the given category
/// with only the artist id filled in.
pub open spec fn by_artist_in_category_post(
    q: search::Request,
    m: Metadata,
    artist_id: u32,
    cat: Seq<char>,
) -> bool {
    &&& search::meta_fields(q, m)
    &&& q.page == 1
    &&& q.category_cd@ == cat
    &&& q.artist_id == Some(artist_id)
    &&& q.song_name is None
    &&& q.song_match_type is None
    &&& q.artist_name is None
    &&& q.artist_match_type is None
    &&& q.program_title is None
}

/// What a series-title query builds: a search request over the given category
/// with only the program title filled in.
pub open spec fn by_series_in_category_post(
    q: search::Request,
    m: Metadata,
    title: Seq<char>,
    cat: Seq<char>,
) -> bool {
    &&& search::meta_fields(q, m)
    &&& q.page == 1
    &&& q.category_cd@ == cat
    &&& opt_view(q.program_title) == Some(title)
    &&& q.artist_id is None
    &&& q.song_name is None
    &&& q.song_match_type is None
    &&& q.artist_name is None
    &&& q.artist_match_type is None
}

/// What a bare category query builds: a search request over the given
/// category with no further query fields.
pub open spec fn by_category_post(q: search::Request, m: Metadata, cat: Seq<char>) -> bool {
    &&& search::meta_fields(q, m)
    &&& q.page == 1
    &&& q.category_cd@ == cat
    &&& q.artist_id is None
    &&& q.song_name is None
    &&& q.song_match_type is None
    &&& q.artist_name is None
    &&& q.artist_match_type is None
    &&& q.program_title is None
}

/// What an artist-name query builds: a search request over the artist-name
/// category, with the name and the encoded match mode and nothing else.
pub open spec fn by_name_post(
    q: search::Request,
    m: Metadata,
    name: Seq<char>,
    mt: MatchType,
) -> bool {
    &&& search::meta_fields(q, m)
    &&& q.page == 1
    &&& q.category_cd@ == "010000"@
    &&& opt_view(q.artist_name) == Some(name)
    &&& opt_view(q.artist_match_type) == Some(match_code(mt))
    &&& q.artist_id is None
    &&& q.song_name is None
    &&& q.song_match_type is None
    &&& q.program_title is None
}

/// What a batch id lookup builds: one lookup target per id, in order.
pub open spec fn by_ids_post(q: exist::Request, m: Metadata, ids: Seq<u32>) -> bool {
    &&& exist::meta_fields(q, m)
    &&& q.is_exist@.len() == ids.len()
    &&& forall|i: int|
        0 <= i < ids.len() ==> {
            &&& (#[trigger] q.is_exist@[i]).req_no == Some(ids[i])
            &&& q.is_exist@[i].song_name is None
            &&& q.is_exist@[i].artist_name is None
        }
}

/// What a batch title-and-artist lookup builds: one lookup target per pair,
/// in order.
pub open spec fn by_titles_and_artists_post(
    q: exist::Request,
    m: Metadata,
    pairs: Seq<TitleAndArtist>,
) -> bool {
    &&& exist::meta_fields(q, m)
    &&& q.is_exist@.len() == pairs.len()
    &&& forall|i: int|
        0 <= i < pairs.len() ==> {
            &&& opt_view((#[trigger] q.is_exist@[i]).song_name) == Some(pairs[i].title@)
            &&& opt_view(q.is_exist@[i].artist_name) == Some(pairs[i].artist@)
            &&& q.is_exist@[i].req_no is None
        }
}

/// A similar-song id on the wire: ids longer than four digits get a hyphen
/// after the fourth digit, shorter ids go out unchanged.
pub open spec fn spec_similar_id(n: u32) -> Seq<char> {
    let d = spec_u32_digits(n as nat);
    if d.len() > 4 {
        d.take(4) + seq!['-'] + d.skip(4)
    } else {
        d
    }
}

/// What a similar-song query builds: a recommendation request whose seed list
/// is the formatted id.
pub open spec fn similar_to_post(q: recommend::Request, m: Metadata, song_id: u32) -> bool {
    &&& q.comp_id == 1
    &&& q.contract_id == 1
    &&& q.comp_auth_key@ == "2/Qb9R@8s*"@
    &&& q.format@ == "json"@
    &&& opt_view(q.serial) == opt_view(m.serial_no)
    &&& q.request_no_list@ == spec_similar_id(song_id)
}

impl RequestBuilder<Pending, Song> {
    /// Songs whose title matches the text under the given mode.
    pub fn by_title(self, title: &str, match_type: MatchType) -> (b: RequestBuilder<
        search::Request,
        Song,
    >)
        ensures
            by_title_post(b.request, self.request.0, title@, match_type),
    {
        let mut b = self.default_request::<search::Request>();
        b.request.song_name = Some(title.to_owned());
        b.request.song_match_type = Some(match_type.wire_code().to_owned());
        b.request.category_cd = category::song_name().id.0.to_owned();
        b
    }

    /// Songs whose title starts with the text.
    pub fn starting_with(self, title: &str) -> (b: RequestBuilder<search::Request, Song>)
        ensures
            by_title_post(b.request, self.request.0, title@, MatchType::StartsWith),
    {
        self.by_title(title, MatchType::StartsWith)
    }

    /// Songs whose title contains the text.
    pub fn containing(self, title: &str) -> (b: RequestBuilder<search::Request, Song>)
        ensures
            by_title_post(b.request, self.request.0, title@, MatchType::Contains),
    {
        self.by_title(title, MatchType::Contains)
    }

    /// Songs of one artist, searched in the artist-name category.
    pub fn by_artist_id(self, id: u32) -> (b: RequestBuilder<search::Request, Song>)
        ensures
            by_artist_in_category_post(b.request, self.request.0, id, "010000"@),
    {
        let cat = category::artist_name();
        self.by_artist_in_category_id(id, cat.id.0)
    }

    /// Songs of one artist, searched in the given category.
    pub fn by_artist_in_category_id(self, artist_id: u32, category_id: &str) -> (b: RequestBuilder<
        search::Request,
        Song,
    >)
        ensures
            by_artist_in_category_post(b.request, self.request.0, artist_id, category_id@),
    {
        let mut b = self.default_request::<search::Request>();
        b.request.artist_id = Some(artist_id);
        b.request.category_cd = category_id.to_owned();
        b
    }

    /// Songs of one series, searched in the given category.
    pub fn by_series_in_category_id(self, title: &str, category_id: &str) -> (b: RequestBuilder<
        search::Request,
        Song,
    >)
        ensures
            by_series_in_category_post(b.request, self.request.0, title@, category_id@),
    {
        let mut b = self.default_request::<search::Request>();
        b.request.program_title = Some(title.to_owned());
        b.request.category_cd = category_id.to_owned();
        b
    }

    /// Songs of one series, searched in the given series category.
    pub fn by_series(self, title: &str, category: Category<SeriesCategory>) -> (b: RequestBuilder<
        search::Request,
        Song,
    >)
        ensures
            by_series_in_category_post(b.request, self.request.0, title@, category.id.0@),
    {
        self.by_series_in_category_id(title, category.id.0)
    }

    /// Every song of the given category.
    pub fn by_category_id(self, category_id: &str) -> (b: RequestBuilder<search::Request, Song>)
        ensures
            by_category_post(b.request, self.request.0, category_id@),
    {
        let mut b = self.default_request::<search::Request>();
        b.request.category_cd = category_id.to_owned();
        b
    }

    /// Every song of the given song category.
    pub fn by_category(self, category: Category<SongCategory>) -> (b: RequestBuilder<
        search::Request,
        Song,
    >)
        ensures
            by_category_post(b.request, self.request.0, category.id.0@),
    {
        self.by_category_id(category.id.0)
    }

    /// The songs with the given ids, looked up as a batch.
    pub fn by_ids(self, ids: &[u32]) -> (b: RequestBuilder<exist::Request, Song>)
        ensures
            by_ids_post(b.request, self.request.0, ids@),
    {
        let mut items: Vec<exist::RequestItem> = Vec::new();
        let mut i: usize = 0;
        while i < ids.len()
            invariant
                i <= ids@.len(),
                items@.len() == i,
                forall|j: int|
                    0 <= j < i ==> {
                        &&& (#[trigger] items@[j]).req_no == Some(ids@[j])
                        &&& items@[j].song_name is None
                        &&& items@[j].artist_name is None
                    },
            decreases ids@.len() - i,
        {
            items.push(exist::RequestItem::from_id(ids[i]));
            i += 1;
        }
        let mut b = self.default_request::<exist::Request>();
        b.request.is_exist = items;
        b
    }

    /// The song with the given id, looked up alone.
    pub fn by_id(self, id: u32) -> (b: RequestBuilder<exist::Request, Song>)
        ensures
            by_ids_post(b.request, self.request.0, seq![id]),
    {
        let mut one: Vec<u32> = Vec::new();
        one.push(id);
        let b = self.by_ids(one.as_slice());
        proof {
            assert(one@ =~= seq![id]);
        }
        b
    }

    /// The songs with the given titles and artists, looked up as a batch.
    pub fn by_titles_and_artists(self, titles_and_artists: &[TitleAndArtist]) -> (b: RequestBuilder<
        exist::Request,
        Song,
    >)
        ensures
            by_titles_and_artists_post(b.request, self.request.0, titles_and_artists@),
    {
        let mut items: Vec<exist::RequestItem> = Vec::new();
        let mut i: usize = 0;
        while i < titles_and_artists.len()
            invariant
                i <= titles_and_artists@.len(),
                items@.len() == i,
                forall|j: int|
                    0 <= j < i ==> {
                        &&& opt_view((#[trigger] items@[j]).song_name) == Some(
                            titles_and_artists@[j].title@,
                        )
                        &&& opt_view(items@[j].artist_name) == Some(titles_and_artists@[j].artist@)
                        &&& items@[j].req_no is None
                    },
            decreases titles_and_artists@.len() - i,
        {
            let pair = &titles_and_artists[i];
            items.push(exist::RequestItem::from_title_and_artist(
                pair.title.as_str(),
                pair.artist.as_str(),
            ));
            i += 1;
        }
        let mut b = self.default_request::<exist::Request>();
        b.request.is_exist = items;
        b
    }

    /// The song with the given title and artist, looked up alone.
    pub fn by_title_and_artist(self, title: &str, artist: &str) -> (b: RequestBuilder<
        exist::Request,
        Song,
    >)
        ensures
            exist::meta_fields(b.request, self.request.0),
            b.request.is_exist@.len() == 1,
            opt_view(b.request.is_exist@[0].song_name) == Some(title@),
            opt_view(b.request.is_exist@[0].artist_name) == Some(artist@),
            b.request.is_exist@[0].req_no is None,
    {
        let item = exist::RequestItem::from_title_and_artist(title, artist);
        let mut b = self.default_request::<exist::Request>();
        let mut items: Vec<exist::RequestItem> = Vec::new();
        items.push(item);
        b.request.is_exist = items;
        b
    }

    /// Songs similar to the given song.
    pub fn similar_to(self, song_id: u32) -> (b: RequestBuilder<recommend::Request, Song>)
        ensures
            similar_to_post(b.request, self.request.0, song_id),
    {
        let mut b = self.default_request::<recommend::Request>();
        let s = u32_to_string(song_id);
        let n = s.as_str().unicode_len();
        if n > 4 {
            let mut formatted = s.as_str().substring_char(0, 4).to_owned();
            push_char(&mut formatted, '-');
            formatted.append(s.as_str().substring_char(4, n));
            proof {
                assert(formatted@ =~= spec_similar_id(song_id));
            }
            b.request.request_no_list = formatted;
        } else {
            b.request.request_no_list = s;
        }
        b
    }
}

impl RequestBuilder<Pending, Artist> {
    /// Artists whose name matches the text under the given mode.
    pub fn by_name(self, name: &str, match_type: MatchType) -> (b: RequestBuilder<
        search::Request,
        Artist,
    >)
        ensures
            by_name_post(b.request, self.request.0, name@, match_type),
    {
        let mut b = self.default_request::<search::Request>();
        b.request.artist_name = Some(name.to_owned());
        b.request.artist_match_type = Some(match_type.wire_code().to_owned());
        b.request.category_cd = category::artist_name().id.0.to_owned();
        b
    }

    /// Artists whose name starts with the text.
    pub fn starting_with(self, name: &str) -> (b: RequestBuilder<search::Request, Artist>)
        ensures
            by_name_post(b.request, self.request.0, name@, MatchType::StartsWith),
    {
        self.by_name(name, MatchType::StartsWith)
    }

    /// Artists whose name contains the text.
    pub fn containing(self, name: &str) -> (b: RequestBuilder<search::Request, Artist>)
        ensures
            by_name_post(b.request, self.request.0, name@, MatchType::Contains),
    {
        self.by_name(name, MatchType::Contains)
    }

    /// Artists with live-performance footage.
    pub fn live_performance(self) -> (b: RequestBuilder<search::Request, Artist>)
        ensures
            by_category_post(b.request, self.request.0, "040000"@),
    {
        let mut b = self.default_request::<search::Request>();
        b.request.category_cd = category::live_performance().id.0.to_owned();
        b
    }
}

impl RequestBuilder<Pending, Series> {
    /// Every series of the given category.
    pub fn by_category_id(self, category_id: &str) -> (b: RequestBuilder<search::Request, Series>)
        ensures
            by_category_post(b.request, self.request.0, category_id@),
    {
        let mut b = self.default_request::<search::Request>();
        b.request.category_cd = category_id.to_owned();
        b
    }

    /// Every series of the given series category.
    pub fn by_category(self, category: Category<SeriesCategory>) -> (b: RequestBuilder<
        search::Request,
        Series,
    >)
        ensures
            by_category_post(b.request, self.request.0, category.id.0@),
    {
        self.by_category_id(category.id.0)
    }
}

impl<R: api::Request, I> RequestBuilder<R, I> {
    /// Moves the request to another page, where its endpoint has pages.
    pub fn set_page(&mut self, page_num: u32)
        ensures
            final (self).request == old(self).request.with_page(page_num),
    {
        self.request.set_page(page_num);
    }

    /// Overrides the serial number for this one request.
    pub fn set_serial_no(&mut self, serial_no: Option<String>)
        ensures
            final (self).request == old(self).request.with_serial(serial_no),
    {
        self.request.set_serial_no(serial_no);
    }
}

/// What the assembled page reports beside its items: the requested page
/// number and the artist- and series-context category ids recomputed from
/// the request's category code (the generic artist category and no series
/// context where the request has no category concept).
pub open spec fn paginated_context<T>(
    p: Paginated<T>,
    page: u32,
    category: Option<Seq<char>>,
) -> bool {
    &&& p.page == page
    &&& p.artist_category_id@ == match category {
        Some(c) => artist_code_of(c),
        None => "010000"@,
    }
    &&& opt_view(p.series_category_id) == match category {
        Some(c) => series_code_of(c),
        None => None::<Seq<char>>,
    }
}

/// What normalizing a search response yields: the context above, the
/// corrected page count, the reported item total, and every raw item
/// converted, in order.
pub open spec fn search_page_post<T: View>(
    p: Paginated<T>,
    q: search::Request,
    resp: search::Response,
    conv: spec_fn(search::Item) -> T::V,
) -> bool {
    &&& paginated_context(p, q.page, Some(q.category_cd@))
    &&& p.total_pages == search::corrected_total_pages(resp)
    &&& p.total_items == resp.total_count
    &&& p.items@.len() == resp.search_result@.len()
    &&& forall|i: int|
        0 <= i < resp.search_result@.len() ==> (#[trigger] p.items@[i])@ == conv(
            resp.search_result@[i],
        )
}

/// What normalizing a lookup response yields: one page, the placeholder
/// entries dropped, every kept item converted in order, and the item count
/// standing in for the total the endpoint does not report.
pub open spec fn exist_page_post<T: View>(
    p: Paginated<T>,
    resp: exist::Response,
    conv: spec_fn(exist::Item) -> T::V,
) -> bool {
    &&& paginated_context(p, 1, None)
    &&& p.total_pages == 1
    &&& p.items@.len() == exist::kept_items(resp.is_exist@).len()
    &&& p.total_items == p.items@.len()
    &&& forall|i: int|
        0 <= i < p.items@.len() ==> (#[trigger] p.items@[i])@ == conv(
            exist::kept_items(resp.is_exist@)[i],
        )
}

/// What normalizing a recommendation response yields: one page holding every
/// listed item, converted in order.
pub open spec fn recommend_page_post<T: View>(
    p: Paginated<T>,
    resp: recommend::Response,
    conv: spec_fn(recommend::Item) -> T::V,
) -> bool {
    &&& paginated_context(p, 1, None)
    &&& p.total_pages == 1
    &&& p.total_items == resp.list@.len()
    &&& p.items@.len() == resp.list@.len()
    &&& forall|i: int|
        0 <= i < resp.list@.len() ==> (#[trigger] p.items@[i])@ == conv(resp.list@[i])
}

/// The artist- and series-context category ids for a request's category
/// code, or the defaults where the request has none.
fn category_context(category: Option<&str>) -> (r: (String, Option<String>))
    ensures
        r.0@ == match opt_view(category) {
            Some(c) => artist_code_of(c),
            None => "010000"@,
        },
        opt_view(r.1) == match opt_view(category) {
            Some(c) => series_code_of(c),
            None => None::<Seq<char>>,
        },
{
    match category {
        Some(code) => {
            let artist = category::artist_category(code).id.0.to_owned();
            let series = match category::series_category(code) {
                Some(c) => Some(c.id.0.to_owned()),
                None => None,
            };
            (artist, series)
        },
        None => (category::artist_name().id.0.to_owned(), None),
    }
}

impl RequestBuilder<search::Request, Song> {
    /// Assembles a decoded search response into one page of songs.
    pub fn paginate(&self, resp: search::Response) -> (p: Paginated<Song>)
        ensures
            search_page_post(p, self.request, resp, |it: search::Item| song_of_search_item(it)),
    {
        let (artist_category_id, series_category_id) = category_context(self.request.category());
        let total_pages = resp.total_pages();
        let total_items_opt = resp.total_items();
        let ghost rawseq = resp.spec_items();
        let mut rest = resp.take_items();
        let mut items: Vec<Song> = Vec::new();
        let ghost mut processed: int = 0;
        proof {
            assert(rest@ =~= rawseq.skip(0));
        }
        while rest.len() > 0
            invariant
                0 <= processed <= rawseq.len(),
                rest@ == rawseq.skip(processed),
                items@.len() == processed,
                forall|j: int|
                    0 <= j < processed ==> (#[trigger] items@[j])@ == song_of_search_item(
                        rawseq[j],
                    ),
            decreases rest.len(),
        {
            let it = rest.remove(0);
            proof {
                assert(it == rawseq[processed]);
                assert(rest@ =~= rawseq.skip(processed + 1));
            }
            items.push(Song::from_search_item(it));
            proof {
                processed = processed + 1;
            }
        }
        let total_items = match total_items_opt {
            Some(n) => n,
            None => items.len() as u32,
        };
        Paginated {
            page: self.request.page(),
            artist_category_id,
            series_category_id,
            total_items,
            total_pages,
            items,
        }
    }
}

impl RequestBuilder<search::Request, Artist> {
    /// Assembles a decoded search response into one page of artists.
    pub fn paginate(&self, resp: search::Response) -> (p: Paginated<Artist>)
        ensures
            search_page_post(p, self.request, resp, |it: search::Item| artist_of_search_item(it)),
    {
        let (artist_category_id, series_category_id) = category_context(self.request.category());
        let total_pages = resp.total_pages();
        let total_items_opt = resp.total_items();
        let ghost rawseq = resp.spec_items();
        let mut rest = resp.take_items();
        let mut items: Vec<Artist> = Vec::new();
        let ghost mut processed: int = 0;
        proof {
            assert(rest@ =~= rawseq.skip(0));
        }
        while rest.len() > 0
            invariant
                0 <= processed <= rawseq.len(),
                rest@ == rawseq.skip(processed),
                items@.len() == processed,
                forall|j: int|
                    0 <= j < processed ==> (#[trigger] items@[j])@ == artist_of_search_item(
                        rawseq[j],
                    ),
            decreases rest.len(),
        {
            let it = rest.remove(0);
            proof {
                assert(it == rawseq[processed]);
                assert(rest@ =~= rawseq.skip(processed + 1));
            }
            items.push(Artist::from_search_item(it));
            proof {
                processed = processed + 1;
            }
        }
        let total_items = match total_items_opt {
            Some(n) => n,
            None => items.len() as u32,
        };
        Paginated {
            page: self.request.page(),
            artist_category_id,
            series_category_id,
            total_items,
            total_pages,
            items,
        }
    }
}

impl RequestBuilder<search::Request, Series> {
    /// Assembles a decoded search response into one page of series.
    pub fn paginate(&self, resp: search::Response) -> (p: Paginated<Series>)
        ensures
            search_page_post(p, self.request, resp, |it: search::Item| series_of_search_item(it)),
    {
        let (artist_category_id, series_category_id) = category_context(self.request.category());
        let total_pages = resp.total_pages();
        let total_items_opt = resp.total_items();
        let ghost rawseq = resp.spec_items();
        let mut rest = resp.take_items();
        let mut items: Vec<Series> = Vec::new();
        let ghost mut processed: int = 0;
        proof {
            assert(rest@ =~= rawseq.skip(0));
        }
        while rest.len() > 0
            invariant
                0 <= processed <= rawseq.len(),
                rest@ == rawseq.skip(processed),
                items@.len() == processed,
                forall|j: int|
                    0 <= j < processed ==> (#[trigger] items@[j])@ == series_of_search_item(
                        rawseq[j],
                    ),
            decreases rest.len(),
        {
            let it = rest.remove(0);
            proof {
                assert(it == rawseq[processed]);
                assert(rest@ =~= rawseq.skip(processed + 1));
            }
            items.push(Series::from_search_item(it));
            proof {
                processed = processed + 1;
            }
        }
        let total_items = match total_items_opt {
            Some(n) => n,
            None => items.len() as u32,
        };
        Paginated {
            page: self.request.page(),
            artist_category_id,
            series_category_id,
            total_items,
            total_pages,
            items,
        }
    }
}

impl RequestBuilder<exist::Request, Song> {
    /// Assembles a decoded lookup response into one page of songs, dropping
    /// the placeholder entries for songs the service does not carry.
    pub fn paginate(&self, resp: exist::Response) -> (p: Paginated<Song>)
        requires
            resp.is_exist@.len() <= u32::MAX,
        ensures
            exist_page_post(p, resp, |it: exist::Item| song_of_exist_item(it)),
    {
        let (artist_category_id, series_category_id) = category_context(self.request.category());
        let total_pages = resp.total_pages();
        let total_items_opt = resp.total_items();
        let ghost rawseq = resp.spec_items();
        proof {
            exist::lemma_kept_items_len(resp.is_exist@);
        }
        let mut rest = resp.take_items();
        let mut items: Vec<Song> = Vec::new();
        let ghost mut processed: int = 0;
        proof {
            assert(rest@ =~= rawseq.skip(0));
        }
        while rest.len() > 0
            invariant
                0 <= processed <= rawseq.len(),
                rest@ == rawseq.skip(processed),
                items@.len() == processed,
                forall|j: int|
                    0 <= j < processed ==> (#[trigger] items@[j])@ == song_of_exist_item(
                        rawseq[j],
                    ),
            decreases rest.len(),
        {
            let it = rest.remove(0);
            proof {
                assert(it == rawseq[processed]);
                assert(rest@ =~= rawseq.skip(processed + 1));
            }
            items.push(Song::from_exist_item(it));
            proof {
                processed = processed + 1;
            }
        }
        let total_items = match total_items_opt {
            Some(n) => n,
            None => items.len() as u32,
        };
        Paginated {
            page: self.request.page(),
            artist_category_id,
            series_category_id,
            total_items,
            total_pages,
            items,
        }
    }
}

impl RequestBuilder<recommend::Request, Song> {
    /// Assembles a decoded recommendation response into one page of songs.
    pub fn paginate(&self, resp: recommend::Response) -> (p: Paginated<Song>)
        requires
            resp.list@.len() <= u32::MAX,
        ensures
            recommend_page_post(p, resp, |it: recommend::Item| song_of_recommend_item(it)),
    {
        let (artist_category_id, series_category_id) = category_context(self.request.category());
        let total_pages = resp.total_pages();
        let total_items_opt = resp.total_items();
        let ghost rawseq = resp.spec_items();
        let mut rest = resp.take_items();
        let mut items: Vec<Song> = Vec::new();
        let ghost mut processed: int = 0;
        proof {
            assert(rest@ =~= rawseq.skip(0));
        }
        while rest.len() > 0
            invariant
                0 <= processed <= rawseq.len(),
                rest@ == rawseq.skip(processed),
                items@.len() == processed,
                forall|j: int|
                    0 <= j < processed ==> (#[trigger] items@[j])@ == song_of_recommend_item(
                        rawseq[j],
                    ),
            decreases rest.len(),
        {
            let it = rest.remove(0);
            proof {
                assert(it == rawseq[processed]);
                assert(rest@ =~= rawseq.skip(processed + 1));
            }
            items.push(Song::from_recommend_item(it));
            proof {
                processed = processed + 1;
            }
        }
        let total_items = match total_items_opt {
            Some(n) => n,
            None => items.len() as u32,
        };
        Paginated {
            page: self.request.page(),
            artist_category_id,
            series_category_id,
            total_items,
            total_pages,
            items,
        }
    }
}

/// On the first page of any well-formed search exchange, the page number is
/// one, at least one page is reported, and the page holds no more items than
/// the reported total. Well-formed means the service reported at least one
/// page and no more items on the page than the total claims.
pub proof fn lemma_first_page_shape<T: View>(
    p: Paginated<T>,
    q: search::Request,
    resp: search::Response,
    conv: spec_fn(search::Item) -> T::V,
)
    requires
        search_page_post(p, q, resp, conv),
        q.page == 1,
        resp.total_page >= 1,
        resp.search_result@.len() <= resp.total_count,
    ensures
        p.page == 1,
        p.total_pages >= 1,
        p.items@.len() <= p.total_items,
{
}

/// The paginated invariant: a page that already holds as many items as the
/// reported total is the only page.
pub proof fn lemma_paginated_single_page<T: View>(
    p: Paginated<T>,
    q: search::Request,
    resp: search::Response,
    conv: spec_fn(search::Item) -> T::V,
)
    requires
        search_page_post(p, q, resp, conv),
        p.items@.len() >= p.total_items,
    ensures
        p.total_pages == 1,
{
}

/// Normalization is a function of the built request and the decoded
/// response: two results of the same search exchange agree in every reported
/// field and hold the same items in the same order.
pub proof fn lemma_search_deterministic<T: View>(
    p1: Paginated<T>,
    p2: Paginated<T>,
    q: search::Request,
    resp: search::Response,
    conv: spec_fn(search::Item) -> T::V,
)
    requires
        search_page_post(p1, q, resp, conv),
        search_page_post(p2, q, resp, conv),
    ensures
        p1.page == p2.page,
        p1.artist_category_id@ == p2.artist_category_id@,
        opt_view(p1.series_category_id) == opt_view(p2.series_category_id),
        p1.total_items == p2.total_items,
        p1.total_pages == p2.total_pages,
        p1.items@.len() == p2.items@.len(),
        forall|i: int| 0 <= i < p1.items@.len() ==> (#[trigger] p1.items@[i])@ == p2.items@[i]@,
{
}

/// The same holds of a lookup exchange.
pub proof fn lemma_lookup_deterministic<T: View>(
    p1: Paginated<T>,
    p2: Paginated<T>,
    resp: exist::Response,
    conv: spec_fn(exist::Item) -> T::V,
)
    requires
        exist_page_post(p1, resp, conv),
        exist_page_post(p2, resp, conv),
    ensures
        p1.page == p2.page,
        p1.artist_category_id@ == p2.artist_category_id@,
        opt_view(p1.series_category_id) == opt_view(p2.series_category_id),
        p1.total_items == p2.total_items,
        p1.total_pages == p2.total_pages,
        p1.items@.len() == p2.items@.len(),
        forall|i: int| 0 <= i < p1.items@.len() ==> (#[trigger] p1.items@[i])@ == p2.items@[i]@,
{
}

/// And of a recommendation exchange.
pub proof fn lemma_recommend_deterministic<T: View>(
    p1: Paginated<T>,
    p2: Paginated<T>,
    resp: recommend::Response,
    conv: spec_fn(recommend::Item) -> T::V,
)
    requires
        recommend_page_post(p1, resp, conv),
        recommend_page_post(p2, resp, conv),
    ensures
        p1.page == p2.page,
        p1.artist_category_id@ == p2.artist_category_id@,
        opt_view(p1.series_category_id) == opt_view(p2.series_category_id),
        p1.total_items == p2.total_items,
        p1.total_pages == p2.total_pages,
        p1.items@.len() == p2.items@.len(),
        forall|i: int| 0 <= i < p1.items@.len() ==> (#[trigger] p1.items@[i])@ == p2.items@[i]@,
{
}

/// A series query in one of the three series categories comes back tagged
/// with that same series category id.
pub proof fn lemma_series_context_round_trip<T: View>(
    p: Paginated<T>,
    q: search::Request,
    resp: search::Response,
    conv: spec_fn(search::Item) -> T::V,
    m: Metadata,
    title: Seq<char>,
    code: Seq<char>,
)
    requires
        by_series_in_category_post(q, m, title, code),
        code == "050100"@ || code == "050200"@ || code == "050300"@,
        search_page_post(p, q, resp, conv),
    ensures
        opt_view(p.series_category_id) == Some(code),
{
    category::lemma_series_category_round_trip();
}

/// A title query comes back with no series context.
pub proof fn lemma_title_search_has_no_series_context<T: View>(
    p: Paginated<T>,
    q: search::Request,
    resp: search::Response,
    conv: spec_fn(search::Item) -> T::V,
    m: Metadata,
    title: Seq<char>,
    mt: MatchType,
)
    requires
        by_title_post(q, m, title, mt),
        search_page_post(p, q, resp, conv),
    ensures
        p.series_category_id is None,
{
    category::lemma_series_category_round_trip();
}

/// The prefix-search sugar and an explicit prefix-mode title query build the
/// same request: the same category, the same title, and the match mode
/// encoded as the wire literal "0" in both.
pub proof fn lemma_match_type_encoding(
    q1: search::Request,
    q2: search::Request,
    m: Metadata,
    title: Seq<char>,
)
    requires
        by_title_post(q1, m, title, MatchType::StartsWith),
        by_title_post(q2, m, title, MatchType::StartsWith),
    ensures
        opt_view(q1.song_match_type) == Some("0"@),
        opt_view(q1.song_match_type) == opt_view(q2.song_match_type),
        q1.category_cd@ == q2.category_cd@,
        opt_view(q1.song_name) == opt_view(q2.song_name),
{
}

} // verus!
