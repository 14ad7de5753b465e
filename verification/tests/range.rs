use thumbcache::http::not_found_head;
use thumbcache::http::plan_send;
use thumbcache::http::range_unsatisfiable_head;
use thumbcache::http::server_error_head;
use thumbcache::http::success_head;
use thumbcache::http::video_head_for;

#[test]
fn partial_range_of_thousand_byte_file() {
    let plan = plan_send(Some((100, 199)), 1000);
    assert_eq!(plan.status, 206);
    assert_eq!(plan.start, 100);
    assert_eq!(plan.end, 199);
    assert_eq!(plan.len, 100);
}

#[test]
fn range_past_end_falls_back_to_full_response() {
    let plan = plan_send(Some((900, 999999)), 1000);
    assert_eq!(plan.status, 200);
    assert_eq!(plan.start, 0);
    assert_eq!(plan.end, 999);
    assert_eq!(plan.len, 1000);
}

#[test]
fn no_range_serves_whole_file() {
    let plan = plan_send(None, 1000);
    assert_eq!(plan.status, 200);
    assert_eq!(plan.start, 0);
    assert_eq!(plan.end, 999);
    assert_eq!(plan.len, 1000);
}

#[test]
fn range_end_at_total_is_rejected() {
    let plan = plan_send(Some((0, 1000)), 1000);
    assert_eq!(plan.status, 200);
    let edge = plan_send(Some((0, 999)), 1000);
    assert_eq!(edge.status, 206);
    assert_eq!(edge.len, 1000);
}

#[test]
fn empty_or_backward_range_is_rejected() {
    assert_eq!(plan_send(Some((5, 5)), 1000).status, 200);
    assert_eq!(plan_send(Some((9, 2)), 1000).status, 200);
}

#[test]
fn partial_head_text_is_exact() {
    let plan = plan_send(Some((100, 199)), 1000);
    let head = success_head(&plan, "video/mp4", 1000);
    assert_eq!(
        head.as_str(),
        "HTTP/1.1 206 Partial Content\r\nContent-Type: video/mp4\r\nAccept-Ranges: bytes\r\nContent-Length: 100\r\nContent-Range: bytes 100-199/1000\r\nConnection: close\r\n\r\n"
    );
}

#[test]
fn full_head_text_is_exact() {
    let plan = plan_send(None, 1000);
    let head = success_head(&plan, "video/mp4", 1000);
    assert_eq!(
        head.as_str(),
        "HTTP/1.1 200 OK\r\nContent-Type: video/mp4\r\nAccept-Ranges: bytes\r\nContent-Length: 1000\r\nConnection: close\r\n\r\n"
    );
}

#[test]
fn head_for_path_uses_guessed_type() {
    let head = video_head_for("/tmp/movie.mp4", Some((100, 199)), 1000);
    let mime = mime_guess::from_path("/tmp/movie.mp4").first_or_octet_stream();
    let expected = format!(
        "HTTP/1.1 206 Partial Content\r\nContent-Type: {}\r\nAccept-Ranges: bytes\r\nContent-Length: 100\r\nContent-Range: bytes 100-199/1000\r\nConnection: close\r\n\r\n",
        mime
    );
    assert_eq!(head.as_str(), expected.as_str());
    assert!(head.contains("Content-Type: video/mp4"));
}

#[test]
fn unknown_path_type_is_octet_stream() {
    let head = video_head_for("/tmp/file.qqq", None, 5);
    assert!(head.contains("Content-Type: application/octet-stream"));
}

#[test]
fn error_heads_have_empty_bodies() {
    assert_eq!(not_found_head(), "HTTP/1.1 404 Not Found\r\nContent-Length:0\r\n\r\n");
    assert_eq!(
        range_unsatisfiable_head(),
        "HTTP/1.1 416 Range Not Satisfiable\r\nContent-Length:0\r\n\r\n"
    );
    assert_eq!(
        server_error_head(),
        "HTTP/1.1 500 Internal Server Error\r\nContent-Length:0\r\n\r\n"
    );
}

#[test]
fn empty_file_is_served_whole_with_no_body() {
    let plan = plan_send(None, 0);
    assert_eq!(plan.status, 200);
    assert_eq!(plan.len, 0);
    let ranged = plan_send(Some((0, 5)), 0);
    assert_eq!(ranged.status, 200);
    assert_eq!(ranged.len, 0);
    let head = video_head_for("/tmp/empty.mp4", None, 0);
    let mime = mime_guess::from_path("/tmp/empty.mp4").first_or_octet_stream();
    let expected = format!(
        "HTTP/1.1 200 OK\r\nContent-Type: {}\r\nAccept-Ranges: bytes\r\nContent-Length: 0\r\nConnection: close\r\n\r\n",
        mime
    );
    assert_eq!(head.as_str(), expected.as_str());
}
