//! Scripts served by community CDNs, which a page owner does not control.
use vstd::prelude::*;
use crate::text::text_eq;
use crate::urls::{domain_of, url_domain};

verus! {

/// Whether `host` is one of the community CDN hosts, compared exactly.
pub open spec fn is_cdn_host(host: Seq<char>) -> bool {
    host == "ssl.google-analytics.com"@
        || host == "cdn.js.com"@
        || host == "ajax.googleapis.com"@
        || host == "cdn.ravenjs.com"@
        || host == "cdn.jsdelivr.net"@
}

/// Whether the URL `url` is served from a community CDN host.
pub open spec fn is_cdn_url(url: Seq<char>) -> bool {
    match domain_of(url) {
        Some(h) => is_cdn_host(h),
        None => false,
    }
}

/// Whether `host` exactly equals one of the community CDN hosts.
pub fn is_community_cdn_host(host: &str) -> (r: bool)
    ensures
        r == is_cdn_host(host@),
{
    proof {
        reveal_strlit("ssl.google-analytics.com");
        reveal_strlit("cdn.js.com");
        reveal_strlit("ajax.googleapis.com");
        reveal_strlit("cdn.ravenjs.com");
        reveal_strlit("cdn.jsdelivr.net");
    }
    text_eq(host, "ssl.google-analytics.com")
        || text_eq(host, "cdn.js.com")
        || text_eq(host, "ajax.googleapis.com")
        || text_eq(host, "cdn.ravenjs.com")
        || text_eq(host, "cdn.jsdelivr.net")
}

/// Whether the script at `url` is served from a community CDN host.
pub fn is_community_cdn_url(url: &str) -> (r: bool)
    ensures
        r == is_cdn_url(url@),
{
    match url_domain(url) {
        Some(h) => is_community_cdn_host(h.as_str()),
        None => false,
    }
}

} // verus!
