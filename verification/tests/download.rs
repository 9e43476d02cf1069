use webshell::download::{plan_after_response, plan_download, DownloadError};

#[test]
fn rejects_non_http_scheme() {
    match plan_download("ftp://example.com/a.png") {
        Err(DownloadError::UnsupportedScheme(s)) => assert_eq!(s, "ftp"),
        _ => panic!("expected a scheme rejection"),
    }
}

#[test]
fn rejects_file_scheme() {
    match plan_download("file:///etc/hosts") {
        Err(DownloadError::UnsupportedScheme(s)) => assert_eq!(s, "file"),
        _ => panic!("expected a scheme rejection"),
    }
}

#[test]
fn rejects_unparseable_url() {
    assert!(matches!(plan_download("not a url"), Err(DownloadError::InvalidUrl)));
}

#[test]
fn accepts_https_and_normalizes() {
    let fetch = plan_download("https://example.com").unwrap();
    assert_eq!(fetch, "https://example.com/");
}

#[test]
fn accepts_http() {
    let fetch = plan_download("http://example.com/img/cat.png").unwrap();
    assert_eq!(fetch, "http://example.com/img/cat.png");
}

#[test]
fn non_success_status_plans_no_write() {
    match plan_after_response(404, vec![1, 2, 3], "out/a.png") {
        Err(DownloadError::BadStatus(code)) => assert_eq!(code, 404),
        _ => panic!("expected a status failure"),
    }
}

#[test]
fn redirect_status_is_not_success() {
    assert!(matches!(
        plan_after_response(301, vec![], "a.png"),
        Err(DownloadError::BadStatus(301))
    ));
}

#[test]
fn success_carries_body_and_parent() {
    let job = plan_after_response(200, vec![9, 8, 7], "a/b/c.png").unwrap();
    assert_eq!(job.bytes, vec![9, 8, 7]);
    assert_eq!(job.path, "a/b/c.png");
    assert_eq!(job.parent.as_deref(), Some("a/b"));
}

#[test]
fn bare_file_name_has_no_parent_to_create() {
    let job = plan_after_response(204, vec![], "c.png").unwrap();
    assert!(job.parent.is_none());
}

#[test]
fn error_messages_are_descriptive() {
    assert_eq!(DownloadError::InvalidUrl.message(), "invalid url");
    assert_eq!(
        DownloadError::UnsupportedScheme("ftp".to_string()).message(),
        "unsupported url scheme: ftp"
    );
    assert_eq!(
        DownloadError::BadStatus(404).message(),
        "request failed with status: 404"
    );
    assert_eq!(
        DownloadError::WriteFailed("disk full".to_string()).message(),
        "failed to write file: disk full"
    );
    assert_eq!(
        DownloadError::RequestFailed("timed out".to_string()).message(),
        "request failed: timed out"
    );
    assert_eq!(
        DownloadError::BodyReadFailed("cut off".to_string()).message(),
        "failed to read response body: cut off"
    );
    assert_eq!(
        DownloadError::CreateDirFailed("denied".to_string()).message(),
        "failed to create parent directory: denied"
    );
}
