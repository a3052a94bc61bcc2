use omapak::proxy::{
    route_request, stored_object_headers, upstream_reply, upstream_url, ProxyRoute, RequestMethod,
    UpstreamReply,
};

#[test]
fn requests_are_routed_by_method_and_path() {
    assert_eq!(route_request(RequestMethod::Other, "/objects/x"), ProxyRoute::MethodNotAllowed);
    assert_eq!(route_request(RequestMethod::Get, "/"), ProxyRoute::NotFound);
    assert_eq!(route_request(RequestMethod::Head, "//objects/ab/cd.file"), ProxyRoute::Lookup("objects/ab/cd.file".into()));
}

#[test]
fn summary_is_short_lived_and_objects_immutable() {
    assert_eq!(stored_object_headers("summary.sig"), ("public, max-age=60, must-revalidate", "omapak"));
    assert_eq!(stored_object_headers("objects/a"), ("public, max-age=31536000, immutable", "cached"));
}

#[test]
fn repo_critical_files_never_come_from_upstream() {
    assert_eq!(upstream_url("summary"), None);
    assert_eq!(upstream_url("config"), None);
    assert_eq!(upstream_url("omapak.flatpakrepo"), None);
    assert_eq!(upstream_url("objects/a").as_deref(), Some("https://dl.flathub.org/repo/objects/a"));
}

#[test]
fn large_answers_stream_and_failures_are_not_found() {
    assert_eq!(upstream_reply(404, "objects/a", None), UpstreamReply::NotFound);
    assert_eq!(upstream_reply(200, "deltas/x", None), UpstreamReply::Stream);
    assert_eq!(upstream_reply(200, "objects/a", Some("8388609")), UpstreamReply::Stream);
    assert_eq!(upstream_reply(200, "objects/a", Some("8388608")), UpstreamReply::Cache);
    assert_eq!(upstream_reply(200, "objects/a", Some("abc")), UpstreamReply::Cache);
}
