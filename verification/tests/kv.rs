use wrangler::kv::{
    kv_value_endpoint, put, put_body, put_query_params, put_reply, put_request, PathKind, PutBody,
    PutError, PutReply, UrlError,
};

#[test]
fn value_endpoint() {
    assert_eq!(
        kv_value_endpoint("acc", "ns", "my%2Fkey"),
        "https://api.cloudflare.com/client/v4/accounts/acc/storage/kv/namespaces/ns/values/my%2Fkey"
    );
}

#[test]
fn query_follows_expiry_options() {
    let p = |a: &str, b: &str| (a.to_string(), b.to_string());
    assert_eq!(put_query_params(None, None), vec![]);
    assert_eq!(put_query_params(Some("1700000000"), None), vec![p("expiration", "1700000000")]);
    assert_eq!(put_query_params(None, Some("60")), vec![p("expiration_ttl", "60")]);
    assert_eq!(
        put_query_params(Some("1700000000"), Some("60")),
        vec![p("expiration", "1700000000"), p("expiration_ttl", "60")]
    );
}

#[test]
fn value_source() {
    match put_body("hello", false, None) {
        Ok(PutBody::Text(t)) => assert_eq!(t, "hello"),
        _ => panic!("expected the value itself"),
    }
    match put_body("v.txt", true, Some(Ok(PathKind::File))) {
        Ok(PutBody::File(p)) => assert_eq!(p, "v.txt"),
        _ => panic!("expected the file"),
    }
    assert_eq!(
        put_body("dir", true, Some(Ok(PathKind::Directory))).err(),
        Some("--path argument takes a file, dir is a directory".to_string())
    );
    assert_eq!(
        put_body("link", true, Some(Ok(PathKind::Other))).err(),
        Some("--path argument takes a file, link is a symlink".to_string())
    );
    assert_eq!(
        put_body("gone", true, Some(Err("No such file or directory (os error 2)".to_string()))).err(),
        Some("No such file or directory (os error 2)".to_string())
    );
}

#[test]
fn request_with_query() {
    match put("acc", "ns", "k", "v", false, Some("1700000000"), Some("60"), None) {
        Ok(req) => {
            assert_eq!(
                req.url,
                "https://api.cloudflare.com/client/v4/accounts/acc/storage/kv/namespaces/ns/values/k?expiration=1700000000&expiration_ttl=60"
            );
            match req.body {
                PutBody::Text(t) => assert_eq!(t, "v"),
                PutBody::File(_) => panic!("expected the value itself"),
            }
        }
        Err(_) => panic!("expected a request"),
    }
}

#[test]
fn request_without_query() {
    // `Url::parse_with_params` opens a query even when it gets no pairs.
    match put("acc", "ns", "k", "v", false, None, None, None) {
        Ok(req) => assert_eq!(
            req.url,
            "https://api.cloudflare.com/client/v4/accounts/acc/storage/kv/namespaces/ns/values/k?"
        ),
        Err(_) => panic!("expected a request"),
    }
}

#[test]
fn directory_refused_before_sending() {
    match put("acc", "ns", "k", "somedir", true, None, None, Some(Ok(PathKind::Directory))) {
        Err(PutError::BadValuePath(m)) => assert_eq!(m, "--path argument takes a file, somedir is a directory"),
        _ => panic!("expected a refusal"),
    }
}

#[test]
fn refused_value_comes_before_bad_url() {
    match put_request(Err(UrlError::EmptyHost), Err("bad path".to_string())) {
        Err(PutError::BadValuePath(m)) => assert_eq!(m, "bad path"),
        _ => panic!("expected the value's refusal"),
    }
    match put_request(Err(UrlError::EmptyHost), Ok(PutBody::Text("v".to_string()))) {
        Err(PutError::InvalidUrl(e)) => assert_eq!(e, UrlError::EmptyHost),
        _ => panic!("expected the URL's refusal"),
    }
    match put_request(Ok("https://x/".to_string()), Ok(PutBody::File("f".to_string()))) {
        Ok(req) => assert_eq!(req.url, "https://x/"),
        Err(_) => panic!("expected a request"),
    }
}

#[test]
fn reply_reported_either_way() {
    match put_reply(true) {
        PutReply::Succeeded(m) => assert_eq!(m, "Success"),
        PutReply::ApiErrors => panic!("expected success"),
    }
    assert!(matches!(put_reply(false), PutReply::ApiErrors));
}

#[test]
fn refused_address_keeps_its_kind() {
    match put_request(Err(UrlError::RelativeUrlWithoutBase), Ok(PutBody::Text("v".to_string()))) {
        Err(PutError::InvalidUrl(e)) => assert_eq!(e, UrlError::RelativeUrlWithoutBase),
        _ => panic!("expected the URL's refusal"),
    }
}
