//! The host-meta document, which points WebFinger clients at this server.

use vstd::prelude::*;

verus! {

/// The media type of the host-meta document.
pub const HOST_META_CONTENT_TYPE: &'static str = "application/xrd+xml; charset=utf-8";

/// The document up to the host name. The template keeps a literal `$` before
/// the host, as the server has always written it.
pub const HOST_META_PREFIX: &'static str = "<?xml version=\"1.0\" encoding=\"UTF-8\"?>\n<XRD xmlns=\"http://docs.oasis-open.org/ns/xri/xrd-1.0\">\n    <Link rel=\"lrdd\" type=\"application/xrd+xml\" template=\"https://$";

/// The document after the host name.
pub const HOST_META_SUFFIX: &'static str = "/.well-known/webfinger?resource={uri}\"/>\n</XRD>";

/// The host-meta document of `host_name`.
pub fn host_meta_body(host_name: &str) -> (b: String)
    ensures
        b@ == HOST_META_PREFIX@ + host_name@ + HOST_META_SUFFIX@,
{
    let mut b = String::from_str(HOST_META_PREFIX);
    b.append(host_name);
    b.append(HOST_META_SUFFIX);
    b
}

} // verus!
