use sitegen::http::build_response;
use sitegen::http::index_file_path;
use sitegen::http::is_root_request;
use sitegen::http::not_found_file_path;
use sitegen::http::output_file_path;
use sitegen::http::reload_script;
use sitegen::http::request_path;
use sitegen::http::select_served_file;
use sitegen::http::status_not_found;
use sitegen::http::status_ok;

#[test]
fn root_request_is_recognized() {
    assert!(is_root_request("GET / HTTP/1.1\r\nHost: localhost\r\n\r\n"));
    assert!(!is_root_request("GET /pages/a.html HTTP/1.1\r\n\r\n"));
    assert!(!is_root_request(""));
}

#[test]
fn request_path_is_second_token() {
    assert_eq!(
        request_path("GET /pages/hello.html HTTP/1.1\r\nHost: x\r\n\r\n"),
        Some("/pages/hello.html".to_string())
    );
    assert_eq!(request_path("GET /a HTTP/1.1"), Some("/a".to_string()));
}

#[test]
fn request_without_path_yields_none() {
    assert_eq!(request_path("GETONLY"), None);
    assert_eq!(request_path(""), None);
    assert_eq!(request_path("   \r\nGET /x HTTP/1.1"), None);
}

#[test]
fn request_path_resolves_into_output_tree() {
    assert_eq!(
        output_file_path("/pages/hello.html"),
        "output/pages/hello.html"
    );
}

#[test]
fn existing_file_is_served_with_ok() {
    let (status, file) = select_served_file("output/pages/hello.html".to_string(), true);
    assert_eq!(status, "HTTP/1.1 200 OK\r\n\r\n");
    assert_eq!(status, status_ok());
    assert_eq!(file, "output/pages/hello.html");
}

#[test]
fn missing_file_is_served_with_not_found() {
    let (status, file) = select_served_file("output/pages/nope.html".to_string(), false);
    assert_eq!(status, "HTTP/1.1 404 NOT FOUND\r\n\r\n");
    assert_eq!(status, status_not_found());
    assert_eq!(file, "output/pages/404.html");
    assert_eq!(file, not_found_file_path());
}

#[test]
fn root_serves_index_document() {
    assert_eq!(index_file_path(), "output/pages/index.html");
}

#[test]
fn response_appends_reload_script() {
    let response = build_response(status_ok(), "<h1>Hi</h1>");
    let expected = format!(
        "HTTP/1.1 200 OK\r\n\r\n<h1>Hi</h1>{}",
        reload_script()
    );
    assert_eq!(response, expected);
    assert!(response.ends_with("</script>"));
    assert!(response.contains("new WebSocket('ws://127.0.0.1:7879')"));
    assert!(response.contains("location.reload()"));
}

#[test]
fn not_found_response_carries_script_too() {
    let response = build_response(status_not_found(), "<p>gone</p>");
    assert!(response.starts_with("HTTP/1.1 404 NOT FOUND\r\n\r\n<p>gone</p>"));
    assert!(response.ends_with("</script>"));
}
