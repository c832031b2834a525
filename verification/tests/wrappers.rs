use utoipa_helper::html_response::HtmlResponse;
use utoipa_helper::json_response::JsonResponse;
use utoipa_helper::transport::HeaderName;

#[test]
fn cookies_render_in_insertion_order() {
    let resp = HtmlResponse::new(b"hello".to_vec())
        .with_cookie("a=1".to_string())
        .with_cookie("b=2".to_string())
        .into_response();
    assert_eq!(resp.status, 200);
    assert_eq!(resp.headers.len(), 2);
    assert_eq!(resp.headers[0].name, HeaderName::SetCookie);
    assert_eq!(resp.headers[0].value, "a=1");
    assert_eq!(resp.headers[1].name, HeaderName::SetCookie);
    assert_eq!(resp.headers[1].value, "b=2");
    assert_eq!(resp.body, b"hello".to_vec());
}

#[test]
fn duplicate_cookies_are_kept() {
    let resp = JsonResponse::new(b"{}".to_vec())
        .with_cookie("a=1".to_string())
        .with_cookie("a=1".to_string())
        .into_response();
    let cookies: Vec<&str> = resp
        .headers
        .iter()
        .filter(|h| h.name == HeaderName::SetCookie)
        .map(|h| h.value.as_str())
        .collect();
    assert_eq!(cookies, vec!["a=1", "a=1"]);
}

#[test]
fn unencodable_cookie_is_dropped_and_rendering_proceeds() {
    let resp = HtmlResponse::new(b"x".to_vec())
        .with_cookie("good=1".to_string())
        .with_cookie("bad\nvalue".to_string())
        .with_cookie("also=good".to_string())
        .into_response();
    let cookies: Vec<&str> = resp
        .headers
        .iter()
        .filter(|h| h.name == HeaderName::SetCookie)
        .map(|h| h.value.as_str())
        .collect();
    assert_eq!(cookies, vec!["good=1", "also=good"]);
    assert_eq!(resp.body, b"x".to_vec());
}

#[test]
fn html_wrapper_sets_no_content_type_of_its_own() {
    let resp = HtmlResponse::new(b"<p>hi</p>".to_vec()).into_response();
    assert_eq!(resp.status, 200);
    assert!(resp
        .headers
        .iter()
        .all(|h| h.name != HeaderName::ContentType));
    assert_eq!(resp.body, b"<p>hi</p>".to_vec());
}

#[test]
fn json_wrapper_chooses_application_json() {
    let resp = JsonResponse::new(br#"{"a":1}"#.to_vec()).into_response();
    assert_eq!(resp.status, 200);
    assert_eq!(resp.headers[0].name, HeaderName::ContentType);
    assert_eq!(resp.headers[0].value, "application/json");
    assert_eq!(resp.body, br#"{"a":1}"#.to_vec());
}
