//! The capability contracts shared by the three wire-request and
//! wire-response types.

use crate::client::Metadata;
use crate::util::opt_view;
use vstd::prelude::*;

verus! {

/// How a request's body is put on the wire.
pub enum RequestType {
    Json,
    FormData,
}

/// What every wire-request type supports: a fixed target URL and transport
/// mode, construction from the client's metadata, reading and setting the
/// page, setting the serial number, and reading the category code the request
/// searches, where the endpoint has a category concept.
pub trait Request: Sized {
    type ResponseType: Response;

    /// The target URL.
    spec fn spec_url() -> Seq<char>;

    /// The transport mode.
    spec fn spec_request_type() -> RequestType;

    /// The page this request asks for.
    spec fn wire_page(&self) -> u32;

    /// The serial number this request carries, if any.
    spec fn wire_serial(&self) -> Option<Seq<char>>;

    /// The category code this request searches, if the endpoint has one.
    spec fn wire_category(&self) -> Option<Seq<char>>;

    /// This request with its page replaced; the request itself where the
    /// endpoint has no pages.
    spec fn with_page(self, page_num: u32) -> Self;

    /// This request with its serial number replaced.
    spec fn with_serial(self, serial_no: Option<String>) -> Self;

    /// What a fresh request holds: the metadata fields copied over, the first
    /// page, and the endpoint's defaults everywhere else.
    spec fn from_meta_post(r: Self, meta: Metadata) -> bool;

    fn request_type() -> (t: RequestType)
        ensures
            t == Self::spec_request_type(),
    ;

    fn url() -> (u: &'static str)
        ensures
            u@ == Self::spec_url(),
    ;

    fn from_client_metadata(meta: &Metadata) -> (r: Self)
        ensures
            Self::from_meta_post(r, *meta),
            r.wire_page() == 1,
            r.wire_serial() == opt_view(meta.serial_no),
    ;

    fn set_serial_no(&mut self, serial_no: Option<String>)
        ensures
            *final (self) == (*old(self)).with_serial(serial_no),
    ;

    fn page(&self) -> (p: u32)
        ensures
            p == self.wire_page(),
    ;

    fn set_page(&mut self, page_num: u32)
        ensures
            *final (self) == (*old(self)).with_page(page_num),
    ;

    fn category<'a>(&'a self) -> (c: Option<&'a str>)
        ensures
            opt_view(c) == self.wire_category(),
    ;
}

/// What every wire-response type supports: consuming itself into its list of
/// items with placeholders dropped, the page count after the single-page
/// correction, and the reported total item count where the endpoint has one.
pub trait Response: Sized {
    type ItemType;

    /// Whether the counters of this response can be read without overflow.
    spec fn inv(&self) -> bool;

    /// The items this response carries, placeholders dropped, in wire order.
    spec fn spec_items(&self) -> Seq<Self::ItemType>;

    /// The page count this response stands for.
    spec fn spec_total_pages(&self) -> u32;

    /// The total number of matching items, where the endpoint reports one.
    spec fn spec_total_items(&self) -> Option<u32>;

    fn take_items(self) -> (items: Vec<Self::ItemType>)
        ensures
            items@ == self.spec_items(),
    ;

    fn total_pages(&self) -> (n: u32)
        requires
            self.inv(),
        ensures
            n == self.spec_total_pages(),
    ;

    fn total_items(&self) -> (n: Option<u32>)
        requires
            self.inv(),
        ensures
            n == self.spec_total_items(),
    ;
}

} // verus!
