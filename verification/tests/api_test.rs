use metatube_cli::api::{
    actor_path, auth_header, first_result, interpret_response, movie_info_path,
    normalize_base_url, request_url, retry_delay, search_path, ApiErrorBody, ApiResponse,
};
use metatube_cli::error::ProcessError;

#[test]
fn base_url_loses_trailing_slashes() {
    assert_eq!(normalize_base_url("http://localhost:8080/"), "http://localhost:8080");
    assert_eq!(normalize_base_url("http://localhost:8080"), "http://localhost:8080");
    assert_eq!(normalize_base_url("http://h//"), "http://h");
    assert_eq!(normalize_base_url("///"), "");
}

#[test]
fn request_paths_are_percent_encoded() {
    assert_eq!(search_path("hello world"), "/v1/movies/search?q=hello%20world&fallback=true");
    assert_eq!(search_path("你好"), "/v1/movies/search?q=%E4%BD%A0%E5%A5%BD&fallback=true");
    assert_eq!(search_path("ABP-030 @test"), "/v1/movies/search?q=ABP-030%20%40test&fallback=true");
    assert_eq!(movie_info_path("fanza", "a/b"), "/v1/movies/fanza/a%2Fb?lazy=false");
    assert_eq!(actor_path("a+b"), "/v1/actors/gfriends/a%2Bb");
    assert_eq!(request_url("http://localhost", "/test"), "http://localhost/test");
}

#[test]
fn auth_header_only_with_token() {
    assert_eq!(auth_header(&Some("mytoken".to_string())), Some("Bearer mytoken".to_string()));
    assert_eq!(auth_header(&None), None);
}

fn body(data: Option<u32>, error: Option<(u16, &str)>) -> ApiResponse<u32> {
    ApiResponse { data, error: error.map(|(code, m)| ApiErrorBody { code, message: m.into() }) }
}

#[test]
fn interpret_success_and_errors() {
    assert!(matches!(interpret_response(true, 200, "200 OK".into(), Ok(body(Some(7), None))), Ok(7)));
    match interpret_response(true, 200, "200 OK".into(), Ok(body(None, None))) {
        Err(ProcessError::Api { code, message }) => {
            assert_eq!(code, 500);
            assert_eq!(message, "empty data");
        }
        other => panic!("unexpected {:?}", other),
    }
    match interpret_response(true, 200, "200 OK".into(), Ok(body(Some(1), Some((404, "gone"))))) {
        Err(ProcessError::Api { code, message }) => {
            assert_eq!(code, 404);
            assert_eq!(message, "gone");
        }
        other => panic!("unexpected {:?}", other),
    }
    match interpret_response::<u32>(true, 200, "200 OK".into(), Err("bad json".into())) {
        Err(ProcessError::Http(m)) => assert_eq!(m, "bad json"),
        other => panic!("unexpected {:?}", other),
    }
    match interpret_response::<u32>(false, 502, "502 Bad Gateway".into(), Err("x".into())) {
        Err(ProcessError::Api { code, message }) => {
            assert_eq!(code, 502);
            assert_eq!(message, "502 Bad Gateway");
        }
        other => panic!("unexpected {:?}", other),
    }
    match interpret_response(false, 500, "500".into(), Ok(body(None, Some((503, "busy"))))) {
        Err(ProcessError::Api { code, message }) => {
            assert_eq!(code, 503);
            assert_eq!(message, "busy");
        }
        other => panic!("unexpected {:?}", other),
    }
}

#[test]
fn first_result_or_no_results() {
    assert_eq!(first_result(vec![3, 4], "k").unwrap(), 3);
    match first_result(Vec::<u8>::new(), "ABC-123") {
        Err(ProcessError::NoResults(k)) => assert_eq!(k, "ABC-123"),
        other => panic!("unexpected {:?}", other),
    }
}

#[test]
fn retries_only_transport_errors_twice() {
    let http = ProcessError::Http("timeout".into());
    assert_eq!(retry_delay(&http, 0), Some(1));
    assert_eq!(retry_delay(&http, 1), Some(2));
    assert_eq!(retry_delay(&http, 2), None);
    let api = ProcessError::Api { code: 503, message: "x".into() };
    assert_eq!(retry_delay(&api, 0), None);
}

/// The percent-encoding that the request paths use, read back from the actor
/// lookup path.
fn encode(s: &str) -> String {
    let path = actor_path(s);
    path["/v1/actors/gfriends/".len()..].to_string()
}

#[test]
fn test_urlencode() {
    assert_eq!(encode("hello world"), "hello%20world");
    assert_eq!(encode("no_spaces"), "no_spaces");
    assert_eq!(encode(""), "");
}

#[test]
fn test_urlencode_special_chars() {
    assert_eq!(encode("你好"), "%E4%BD%A0%E5%A5%BD");
    assert_eq!(encode("a+b"), "a%2Bb");
    assert_eq!(encode("a/b"), "a%2Fb");
    assert_eq!(encode("ABP-030 @test"), "ABP-030%20%40test");
}

#[test]
fn test_client_new_base_url_trim() {
    assert_eq!(normalize_base_url("http://localhost:8080/"), "http://localhost:8080");
    assert_eq!(normalize_base_url("http://localhost:8080"), "http://localhost:8080");
}

#[test]
fn test_client_request_auth_header() {
    assert!(auth_header(&Some("mytoken".into())).is_some());
    assert!(auth_header(&None).is_none());
}
