use kvstore::server::{STATUS_BAD_REQUEST, STATUS_NOT_FOUND, STATUS_OK};
use kvstore::{HashStorage, Method, MyServer, Response};

fn server() -> MyServer<HashStorage> {
    MyServer::new(HashStorage::new())
}

fn get(s: &mut MyServer<HashStorage>, path: &str) -> Response {
    s.call(Method::Get, String::from(path), Vec::new())
}

fn post(s: &mut MyServer<HashStorage>, path: &str, body: &[u8]) -> Response {
    s.call(Method::Post, String::from(path), body.to_vec())
}

#[test]
fn get_nothing() {
    let mut s = server();
    let result = get(&mut s, "/foo");
    assert_eq!(STATUS_NOT_FOUND, result.status);
    assert_eq!("", result.body);
}

#[test]
fn put_empty_get() {
    let mut s = server();
    let body = String::from("123");
    let path = "/get_put";

    let put = post(&mut s, path, body.as_bytes());
    assert_eq!(STATUS_OK, put.status);
    assert_eq!("", put.body);

    let got = get(&mut s, path);
    assert_eq!(STATUS_OK, got.status);
    assert_eq!(body, got.body);
}

#[test]
fn put_put_get() {
    let mut s = server();
    let body = String::from("a body");
    let body2 = String::from("A different body with a pithy saying");
    let path = "/put_put";

    let first = post(&mut s, path, body.as_bytes());
    assert_eq!(STATUS_OK, first.status);
    assert_eq!("", first.body);

    let second = post(&mut s, path, body2.as_bytes());
    assert_eq!(STATUS_OK, second.status);
    assert_eq!(body, second.body);

    let got = get(&mut s, path);
    assert_eq!(STATUS_OK, got.status);
    assert_eq!(body2, got.body);
}

#[test]
fn put_put_get_short_value() {
    let mut s = server();
    assert_eq!("", post(&mut s, "/put_put", b"a body").body);
    let second = post(&mut s, "/put_put", b"new");
    assert_eq!(STATUS_OK, second.status);
    assert_eq!("a body", second.body);
    let got = get(&mut s, "/put_put");
    assert_eq!(STATUS_OK, got.status);
    assert_eq!("new", got.body);
}

#[test]
fn unsupported_method_is_bad_request() {
    let mut s = server();
    let r = s.call(Method::Other, String::from("/anything"), Vec::new());
    assert_eq!(STATUS_BAD_REQUEST, r.status);
    assert_eq!("", r.body);
    assert_eq!(STATUS_NOT_FOUND, get(&mut s, "/anything").status);
}

#[test]
fn unsupported_method_leaves_existing_value() {
    let mut s = server();
    post(&mut s, "/k", b"v");
    let r = s.call(Method::Other, String::from("/k"), b"w".to_vec());
    assert_eq!(STATUS_BAD_REQUEST, r.status);
    assert_eq!("v", get(&mut s, "/k").body);
}

#[test]
fn invalid_utf8_is_bad_request_without_write() {
    let mut s = server();
    let r = post(&mut s, "/x", &[0xff, 0xfe, 0x41]);
    assert_eq!(STATUS_BAD_REQUEST, r.status);
    assert_eq!("", r.body);
    assert_eq!(STATUS_NOT_FOUND, get(&mut s, "/x").status);
}

#[test]
fn invalid_utf8_keeps_previous_value() {
    let mut s = server();
    post(&mut s, "/x", b"kept");
    let r = post(&mut s, "/x", &[0xc3, 0x28]);
    assert_eq!(STATUS_BAD_REQUEST, r.status);
    let got = get(&mut s, "/x");
    assert_eq!(STATUS_OK, got.status);
    assert_eq!("kept", got.body);
}

#[test]
fn multibyte_value_round_trips() {
    let mut s = server();
    let value = "h\u{e9}llo \u{1f600}";
    assert_eq!(STATUS_OK, post(&mut s, "/u", value.as_bytes()).status);
    let got = get(&mut s, "/u");
    assert_eq!(STATUS_OK, got.status);
    assert_eq!(value, got.body);
}

#[test]
fn empty_value_is_stored() {
    let mut s = server();
    let put = post(&mut s, "/e", b"");
    assert_eq!(STATUS_OK, put.status);
    let got = get(&mut s, "/e");
    assert_eq!(STATUS_OK, got.status);
    assert_eq!("", got.body);
}

#[test]
fn same_put_twice_reads_second_value() {
    let mut s = server();
    post(&mut s, "/same", b"v");
    let again = post(&mut s, "/same", b"v");
    assert_eq!(STATUS_OK, again.status);
    assert_eq!("v", again.body);
    assert_eq!("v", get(&mut s, "/same").body);
}

#[test]
fn keys_are_paths_verbatim() {
    let mut s = server();
    post(&mut s, "/a", b"slash");
    assert_eq!(STATUS_NOT_FOUND, get(&mut s, "a").status);
    assert_eq!(STATUS_NOT_FOUND, get(&mut s, "/a/").status);
    assert_eq!("slash", get(&mut s, "/a").body);
}

#[test]
fn unwritten_key_after_other_writes_not_found() {
    let mut s = server();
    post(&mut s, "/one", b"1");
    post(&mut s, "/two", b"2");
    let r = get(&mut s, "/three");
    assert_eq!(STATUS_NOT_FOUND, r.status);
    assert_eq!("", r.body);
}

#[test]
fn get_and_post_methods_directly() {
    let mut s = server();
    let path = String::from("/direct");
    assert_eq!(STATUS_NOT_FOUND, s.get(&path).status);
    assert_eq!("", s.post(path.clone(), b"d".to_vec()).body);
    assert_eq!("d", s.post(path.clone(), b"e".to_vec()).body);
    assert_eq!("e", s.get(&path).body);
}
