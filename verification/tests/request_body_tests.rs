use worker::body::{
    ReadOutcome,
    chunk_step, frame_size_hint, stream_size_hint, BodyStore, ChunkStep, FrameEvent,
};
use worker::request::{
    body_read_error, param, param_values, request_creation_error, request_path, url_param,
    url_param_values, BodyFormat, Request,
};
use worker::{Error, Method};

#[test]
fn store_reads_in_order() {
    let mut store = BodyStore::new();
    assert!(store.is_empty());
    store.push_chunk(&[1, 2, 3, 4, 5]);
    let mut buf = [0u8; 2];
    assert_eq!(store.read_into(&mut buf), 2);
    assert_eq!(buf, [1, 2]);
    store.push_chunk(&[6]);
    let mut big = [9u8; 8];
    assert_eq!(store.read_into(&mut big), 4);
    assert_eq!(big, [3, 4, 5, 6, 9, 9, 9, 9]);
    assert!(store.is_empty());
    assert_eq!(store.read_into(&mut big), 0);
}

#[test]
fn store_read_into_empty_buffer() {
    let mut store = BodyStore::new();
    store.push_chunk(&[7, 8]);
    let mut none: [u8; 0] = [];
    assert_eq!(store.read_into(&mut none), 0);
    assert!(!store.is_empty());
}

#[test]
fn request_paths() {
    assert_eq!(request_path("https://example.com/foo.html?a=foo&b=bar&a=baz"), "/foo.html");
    assert_eq!(request_path("https://example.com"), "/");
    assert_eq!(request_path("/relative/path"), "/relative/path");
    assert_eq!(request_path("relative"), "/relative");
    assert_eq!(request_path(""), "/");
}

#[test]
fn request_state() {
    let mut req = Request::from_parts("https://example.com/a/b", "post", None, true);
    assert_eq!(req.method(), Method::Post);
    assert_eq!(req.path(), "/a/b");
    assert!(req.cf().is_none());
    assert!(req.is_immutable());
    assert!(!req.body_used());
    match req.path_mut() {
        Err(Error::JsError(m)) => assert_eq!(m, "Cannot get a mutable reference to an immutable path."),
        _ => panic!("expected an error"),
    }
    match req.check_headers_mutable() {
        Err(Error::JsError(m)) => {
            assert_eq!(m, "Cannot get a mutable reference to an immutable headers object.")
        }
        _ => panic!("expected an error"),
    }
    assert!(req.take_body().is_ok());
    assert!(matches!(req.take_body(), Err(Error::BodyUsed)));
    assert!(req.body_used());
}

#[test]
fn request_mutable_path() {
    let mut req = Request::from_parts("https://example.com/x", "GET", None, false);
    req.path_mut().unwrap().push_str("/y");
    assert_eq!(req.path(), "/x/y");
    assert!(req.check_headers_mutable().is_ok());
}

#[test]
fn request_url_parse() {
    let req = Request::from_parts("https://example.com/p?q=1", "GET", None, true);
    let url = req.url().unwrap();
    assert_eq!(url.query(), Some("q=1"));
    let bad = Request::from_parts("not a url", "GET", None, true);
    match bad.url() {
        Err(Error::RustError(m)) => {
            assert_eq!(m, "failed to parse Url from relative URL without a base: not a url")
        }
        _ => panic!("expected an error"),
    }
}

#[test]
fn url_param_works() {
    let url = url::Url::parse("https://example.com/foo.html?a=foo&b=bar&a=baz").unwrap();
    assert_eq!(url_param(url.as_str(), "a").as_deref(), Some("foo"));
    assert_eq!(url_param(url.as_str(), "b").as_deref(), Some("bar"));
    assert_eq!(url_param(url.as_str(), "c").as_deref(), None);
    let mut a_values = url_param_values(url.as_str(), "a").into_iter();
    assert_eq!(a_values.next().as_deref(), Some("foo"));
    assert_eq!(a_values.next().as_deref(), Some("baz"));
    assert_eq!(a_values.next(), None);
}

#[test]
fn params_of_decoded_pairs() {
    let pairs = vec![
        ("x".to_string(), "1".to_string()),
        ("y".to_string(), "2".to_string()),
        ("x".to_string(), "3".to_string()),
    ];
    assert_eq!(param_values(&pairs, "x"), vec!["1".to_string(), "3".to_string()]);
    assert_eq!(param(&pairs, "y"), Some("2".to_string()));
    assert_eq!(param(&pairs, "z"), None);
    assert!(param_values(&pairs, "z").is_empty());
}

#[test]
fn body_read_errors_use_thrown_text_or_fallback() {
    match body_read_error(BodyFormat::Json, None) {
        Error::JsError(m) => assert_eq!(m, "failed to get JSON for body value"),
        _ => panic!("expected JsError"),
    }
    match body_read_error(BodyFormat::Bytes, None) {
        Error::JsError(m) => assert_eq!(m, "failed to read array buffer from request"),
        _ => panic!("expected JsError"),
    }
    match body_read_error(BodyFormat::Text, Some("aborted".to_string())) {
        Error::JsError(m) => assert_eq!(m, "aborted"),
        _ => panic!("expected JsError"),
    }
    match request_creation_error(false, None) {
        Error::JsError(m) => assert_eq!(m, "invalid URL or method for Request"),
        _ => panic!("expected JsError"),
    }
    match request_creation_error(true, None) {
        Error::JsError(m) => assert_eq!(m, "invalid URL or options for Request"),
        _ => panic!("expected JsError"),
    }
}

#[test]
fn frames_become_chunks() {
    assert_eq!(chunk_step(FrameEvent::Data(vec![1u8, 2])), ChunkStep::Chunk(vec![1u8, 2]));
    assert_eq!(chunk_step::<u8>(FrameEvent::Pending), ChunkStep::Pending);
    assert_eq!(chunk_step::<u8>(FrameEvent::Finished), ChunkStep::Done);
    assert_eq!(chunk_step::<u8>(FrameEvent::Trailers), ChunkStep::Done);
    assert_eq!(chunk_step::<u8>(FrameEvent::Failed), ChunkStep::Failed);
    match worker::body::polling_error() {
        Error::RustError(m) => assert_eq!(m, "Error polling body"),
        _ => panic!("expected the polling error"),
    }
}

#[test]
fn size_hints() {
    assert_eq!(stream_size_hint(None), (0, Some(0)));
    assert_eq!(stream_size_hint(Some((3, Some(9)))), (3, Some(9)));
    assert_eq!(stream_size_hint(Some((5, None))), (5, None));
    assert_eq!(frame_size_hint(4, Some(10)), (4, Some(10)));
    assert_eq!(frame_size_hint(0, None), (0, None));
}

#[test]
fn url_params_of_unparsable_urls_are_empty() {
    assert_eq!(url_param("not a url", "a"), None);
    assert!(url_param_values("not a url", "a").is_empty());
    assert_eq!(url_param("https://example.com/?a=%20x", "a").as_deref(), Some(" x"));
}

#[test]
fn request_keeps_its_edge_properties() {
    let req = Request::from_parts("https://example.com/p", "get", None, false);
    assert!(req.cf().is_none());
    assert_eq!(req.path(), "/p");
    assert_eq!(req.method(), Method::Get);
}

#[test]
fn read_steps_after_polling() {
    let mut store = BodyStore::new();
    let mut buf = [0u8; 3];
    assert_eq!(store.read_step(ChunkStep::Pending, &mut buf), ReadOutcome::Pending);
    assert_eq!(store.read_step(ChunkStep::Failed, &mut buf), ReadOutcome::Failed);
    assert_eq!(store.read_step(ChunkStep::Done, &mut buf), ReadOutcome::Read(0));
    assert_eq!(store.read_step(ChunkStep::Chunk(&[1, 2, 3, 4, 5]), &mut buf), ReadOutcome::Read(3));
    assert_eq!(buf, [1, 2, 3]);
    assert_eq!(store.read_into(&mut buf), 2);
    assert_eq!(&buf[..2], &[4, 5]);
    assert!(store.is_empty());
}

#[test]
fn empty_bodies_by_hint() {
    assert!(worker::body::is_empty_hint(0, Some(0)));
    assert!(!worker::body::is_empty_hint(0, None));
    assert!(!worker::body::is_empty_hint(0, Some(4)));
    assert!(!worker::body::is_empty_hint(3, Some(3)));
}
