use axum_responses::{ContentDisposition, File, Redirect};

#[test]
fn new_file_is_unnamed_octet_stream_attachment() {
    let f = File::new();
    assert_eq!(f.content_type_value(), "application/octet-stream");
    assert!(f.content().is_empty());
    assert_eq!(f.content_disposition(), "attachment; filename=\"file\"");
}

#[test]
fn file_builder_sets_every_part() {
    let f = File::new()
        .bytes(&[1, 2, 3])
        .content_type("application/pdf")
        .filename("report.pdf")
        .inline();
    assert_eq!(f.content(), &vec![1u8, 2, 3]);
    assert_eq!(f.content_type_value(), "application/pdf");
    assert_eq!(f.content_disposition(), "inline; filename=\"report.pdf\"");
    let f = f.attachment();
    assert_eq!(f.content_disposition(), "attachment; filename=\"report.pdf\"");
    let f = f.disposition(ContentDisposition::Inline);
    assert_eq!(f.content_disposition(), "inline; filename=\"report.pdf\"");
}

#[test]
fn file_headers_are_validated() {
    let f = File::new().header("X-Kind", "report").header("bad name", "x");
    assert_eq!(f.headers(), &vec![("x-kind".to_string(), "report".to_string())]);
}

#[test]
fn redirects_use_their_codes() {
    assert_eq!(Redirect::permanent("/a").code(), 301);
    assert_eq!(Redirect::found("/a").code(), 302);
    assert_eq!(Redirect::see_other("/a").code(), 303);
    assert_eq!(Redirect::temporary("/a").code(), 307);
    assert_eq!(Redirect::permanent_redirect("/a").code(), 308);
    assert_eq!(Redirect::found("/login").location(), "/login");
}

#[test]
fn invalid_redirect_status_becomes_temporary() {
    assert_eq!(Redirect::status(42, "/x").code(), 307);
    assert_eq!(Redirect::status(700, "/x").code(), 307);
    assert_eq!(Redirect::status(301, "/x").code(), 301);
}

#[test]
fn redirect_headers_replace_by_name() {
    let r = Redirect::temporary("/temp")
        .header("X-Redirect-Reason", "maintenance")
        .header("x-redirect-reason", "upgrade");
    assert_eq!(r.headers(), &vec![("x-redirect-reason".to_string(), "upgrade".to_string())]);
}
