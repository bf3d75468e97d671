//! Resolving short codes: the redirect, and the click event recorded for it.

use crate::allocator::lookup;
use crate::buffer::{after_append, EventBuffer};
use crate::headers::{first_named, flag_of, text_of, Headers, TypedHeaderValues};
use crate::id::{generate_id, is_code};
use crate::metrics::{Coordinate, Metric};
use crate::storage::Storage;
use vstd::prelude::*;

verus! {

/// The name of the cookie that carries the visitor's anonymous identifier.
pub const VISITOR_COOKIE: &'static str = "visitor-id";

/// The status of a redirect to the target URL.
pub const TEMPORARY_REDIRECT: u16 = 307;

/// The status of the answer for an unknown code.
pub const NOT_FOUND: u16 = 404;

/// What a short code resolves to.
#[derive(Debug, Clone, PartialEq, Eq)]
pub enum Resolution {
    /// The code is mapped: the request is redirected to `location`.
    Redirect { location: String },
    /// The code is unknown.
    NotFound,
}

impl Resolution {
    /// The status of the answer.
    pub fn status(&self) -> (status: u16)
        ensures
            status == match *self {
                Resolution::Redirect { .. } => TEMPORARY_REDIRECT,
                Resolution::NotFound => NOT_FOUND,
            },
    {
        match self {
            Resolution::Redirect { .. } => TEMPORARY_REDIRECT,
            Resolution::NotFound => NOT_FOUND,
        }
    }
}

/// Looks `code` up in the mapping.
pub fn resolve<S: Storage>(store: &S, code: &str) -> (resolution: Resolution)
    ensures
        store.exact() ==> match resolution {
            Resolution::Redirect { location } => lookup(store.contents(), code@) == Some(
                location@,
            ),
            Resolution::NotFound => lookup(store.contents(), code@) is None,
        },
{
    match store.get(code) {
        Some(location) => Resolution::Redirect { location },
        None => Resolution::NotFound,
    }
}

/// The visitor behind a request.
#[derive(Debug, Clone, PartialEq, Eq)]
pub struct Visitor {
    pub id: String,
    /// Whether the identifier was made for this request, so that the answer
    /// has to set the cookie.
    pub is_new: bool,
}

/// The visitor of a request: known by the cookie it carries, or given a
/// fresh random identifier where it carries none.
pub fn identify_visitor(cookie: Option<String>) -> (visitor: Visitor)
    ensures
        match cookie {
            Some(id) => visitor.id == id && !visitor.is_new,
            None => is_code(visitor.id@) && visitor.is_new,
        },
{
    match cookie {
        Some(id) => Visitor { id, is_new: false },
        None => Visitor { id: generate_id(), is_new: true },
    }
}

/// What a resolve request carries.
pub struct ResolveRequest {
    /// The short code of the path.
    pub code: String,
    /// The value of the visitor cookie, if the request has one.
    pub visitor_cookie: Option<String>,
    pub headers: Headers,
    /// The address of the peer of the connection.
    pub peer_ip: String,
    /// The time of the request, in nanoseconds since the Unix epoch.
    pub received_at: i128,
    /// The longitude that the request states, where it states one.
    pub longitude: Option<Coordinate>,
    /// The latitude that the request states, where it states one.
    pub latitude: Option<Coordinate>,
}

/// The header's text, or `fallback` where there is none.
pub open spec fn text_or(text: Option<String>, fallback: String) -> String {
    match text {
        Some(text) => text,
        None => fallback,
    }
}

/// The click event of a request by the visitor `visitor_id` that resolved to
/// `url`. The client address is the one that the edge network reports, else
/// that of the peer.
pub open spec fn metric_of(request: ResolveRequest, visitor_id: String, url: String) -> Metric {
    let headers = request.headers.entries@;
    Metric {
        visitor_id,
        shorthand_id: request.code,
        created_at: request.received_at,
        url,
        ip: text_or(
            text_of(first_named(headers, "cloudfront-viewer-address"@)),
            request.peer_ip,
        ),
        android: flag_of(first_named(headers, "cloudfront-is-android-viewer"@)),
        ios: flag_of(first_named(headers, "cloudfront-is-ios-viewer"@)),
        mobile: flag_of(first_named(headers, "cloudfront-is-mobile-viewer"@)),
        region_name: text_of(first_named(headers, "cloudfront-viewer-country-region-name"@)),
        country: text_of(first_named(headers, "cloudfront-viewer-country"@)),
        city: text_of(first_named(headers, "cloudfront-viewer-city"@)),
        zip_code: text_of(first_named(headers, "cloudfront-viewer-postal-code"@)),
        time_zone: text_of(first_named(headers, "cloudfront-viewer-time-zone"@)),
        user_agent: text_of(first_named(headers, "user-agent"@)),
        longitude: request.longitude,
        latitude: request.latitude,
    }
}

/// The click event of `request`.
pub fn build_metric(request: ResolveRequest, visitor_id: String, url: String) -> (metric: Metric)
    ensures
        metric == metric_of(request, visitor_id, url),
{
    let ip: String = match request.headers.string("cloudfront-viewer-address") {
        Some(address) => address,
        None => request.peer_ip,
    };
    Metric {
        visitor_id,
        shorthand_id: request.code,
        created_at: request.received_at,
        url,
        ip,
        android: request.headers.bool("cloudfront-is-android-viewer"),
        ios: request.headers.bool("cloudfront-is-ios-viewer"),
        mobile: request.headers.bool("cloudfront-is-mobile-viewer"),
        region_name: request.headers.string("cloudfront-viewer-country-region-name"),
        country: request.headers.string("cloudfront-viewer-country"),
        city: request.headers.string("cloudfront-viewer-city"),
        zip_code: request.headers.string("cloudfront-viewer-postal-code"),
        time_zone: request.headers.string("cloudfront-viewer-time-zone"),
        user_agent: request.headers.string("user-agent"),
        longitude: request.longitude,
        latitude: request.latitude,
    }
}

/// The answer to a resolve request, and what follows from it.
pub struct Redirected {
    pub visitor: Visitor,
    pub resolution: Resolution,
    /// The batch that the click event made the buffer hand over, to be
    /// loaded in the background.
    pub batch: Option<Vec<Metric>>,
}

/// Serves a resolve request. A mapped code is answered with the redirect, and
/// its click event is appended to the buffer; the buffer is drained where
/// that makes it reach its threshold. An unknown code leaves the buffer as
/// it is.
pub fn redirect_to_url<S: Storage>(
    store: &S,
    buffer: &mut EventBuffer,
    request: ResolveRequest,
) -> (served: Redirected)
    ensures
        final(buffer).threshold() == old(buffer).threshold(),
        match request.visitor_cookie {
            Some(id) => served.visitor.id == id && !served.visitor.is_new,
            None => is_code(served.visitor.id@) && served.visitor.is_new,
        },
        match served.resolution {
            Resolution::Redirect { location } => {
                let event = metric_of(request, served.visitor.id, location);
                let appended = after_append(old(buffer)@, old(buffer).threshold(), event);
                &&& store.exact() ==> lookup(store.contents(), request.code@) == Some(location@)
                &&& final(buffer)@ == appended.remaining
                &&& match served.batch {
                    Some(events) => Some(events@) == appended.batch,
                    None => appended.batch is None,
                }
            },
            Resolution::NotFound => {
                &&& store.exact() ==> lookup(store.contents(), request.code@) is None
                &&& final(buffer)@ == old(buffer)@
                &&& served.batch is None
            },
        },
{
    let visitor = identify_visitor(copy_cookie(&request.visitor_cookie));
    match store.get(request.code.as_str()) {
        Some(location) => {
            let event = build_metric(request, visitor.id.clone(), location.clone());
            let batch = buffer.append(event);
            Redirected { visitor, resolution: Resolution::Redirect { location }, batch }
        },
        None => Redirected { visitor, resolution: Resolution::NotFound, batch: None },
    }
}

/// A copy of the cookie's value.
fn copy_cookie(cookie: &Option<String>) -> (copy: Option<String>)
    ensures
        copy == *cookie,
{
    match cookie {
        Some(id) => Some(id.clone()),
        None => None,
    }
}

} // verus!
