use crate::storage::Storage;
use vstd::prelude::*;
use vstd::utf8::{decode_utf8, valid_utf8};

verus! {

/// Status sent with a successful read or write.
pub const STATUS_OK: u16 = 200;

/// Status sent for an unsupported method or an undecodable body.
pub const STATUS_BAD_REQUEST: u16 = 400;

/// Status sent when a read finds no value.
pub const STATUS_NOT_FOUND: u16 = 404;

/// The request methods the dispatcher tells apart.
#[derive(Clone, Copy, Debug, PartialEq, Eq, Structural)]
pub enum Method {
    /// Read the value stored under the path.
    Get,
    /// Write the body as the value stored under the path.
    Post,
    /// Any method without a route.
    Other,
}

/// What the dispatcher answers: a status code and a body.
#[derive(Debug)]
pub struct Response {
    pub status: u16,
    pub body: String,
}

/// The store after a request: a write with a decodable body sets the key,
/// every other request leaves the store as it was.
pub open spec fn store_after(
    store: Map<Seq<char>, Seq<char>>,
    method: Method,
    key: Seq<char>,
    body: Seq<u8>,
) -> Map<Seq<char>, Seq<char>> {
    match method {
        Method::Post => if valid_utf8(body) {
            store.insert(key, decode_utf8(body))
        } else {
            store
        },
        _ => store,
    }
}

/// The status answered to a request made against `store`.
pub open spec fn status_of(
    store: Map<Seq<char>, Seq<char>>,
    method: Method,
    key: Seq<char>,
    body: Seq<u8>,
) -> u16 {
    match method {
        Method::Get => if store.contains_key(key) {
            STATUS_OK
        } else {
            STATUS_NOT_FOUND
        },
        Method::Post => if valid_utf8(body) {
            STATUS_OK
        } else {
            STATUS_BAD_REQUEST
        },
        Method::Other => STATUS_BAD_REQUEST,
    }
}

/// The body answered to a request made against `store`: a read gives the
/// stored value, a write gives the value it replaced; otherwise it is empty.
pub open spec fn body_of(
    store: Map<Seq<char>, Seq<char>>,
    method: Method,
    key: Seq<char>,
    body: Seq<u8>,
) -> Seq<char> {
    match method {
        Method::Get => if store.contains_key(key) {
            store[key]
        } else {
            seq![]
        },
        Method::Post => if valid_utf8(body) && store.contains_key(key) {
            store[key]
        } else {
            seq![]
        },
        Method::Other => seq![],
    }
}

/// Relies on String::from_utf8: it succeeds exactly on valid UTF-8 and then
/// holds the characters that the bytes encode.
#[verifier::external_body]
fn decode_body(bytes: Vec<u8>) -> (r: Option<String>)
    ensures
        match r {
            Some(s) => valid_utf8(bytes@) && s@ == decode_utf8(bytes@),
            None => !valid_utf8(bytes@),
        },
{
    String::from_utf8(bytes).ok()
}

/// The request dispatcher. It owns the one store that every request reaches;
/// `&mut self` grants the single mutable access that a write needs.
pub struct MyServer<S: Storage> {
    storage: S,
}

impl<S: Storage> MyServer<S> {
    /// What the store holds.
    pub closed spec fn store(&self) -> Map<Seq<char>, Seq<char>> {
        self.storage.contents()
    }

    /// The backend's invariant holds.
    pub closed spec fn well_formed(&self) -> bool {
        self.storage.well_formed()
    }

    /// A dispatcher over `storage`.
    pub fn new(storage: S) -> (r: MyServer<S>)
        requires
            storage.well_formed(),
        ensures
            r.well_formed(),
            r.store() == storage.contents(),
    {
        MyServer { storage }
    }

    /// Answers a read of `path`: 200 with the stored value, or 404.
    pub fn get(&self, path: &String) -> (r: Response)
        requires
            self.well_formed(),
        ensures
            r.status == status_of(self.store(), Method::Get, path@, seq![]),
            r.body@ == body_of(self.store(), Method::Get, path@, seq![]),
    {
        match self.storage.get(path) {
            Some(v) => Response { status: STATUS_OK, body: v },
            None => Response { status: STATUS_NOT_FOUND, body: String::new() },
        }
    }

    /// Answers a write of `body` to `path`: on valid UTF-8 the value is
    /// stored and the reply holds the value it replaced, or is empty; on any
    /// other bytes the reply is 400 and the store is untouched.
    pub fn post(&mut self, path: String, body: Vec<u8>) -> (r: Response)
        requires
            old(self).well_formed(),
        ensures
            final(self).well_formed(),
            final(self).store() == store_after(old(self).store(), Method::Post, path@, body@),
            r.status == status_of(old(self).store(), Method::Post, path@, body@),
            r.body@ == body_of(old(self).store(), Method::Post, path@, body@),
    {
        match decode_body(body) {
            Some(value) => match self.storage.put(path, value) {
                Some(previous) => Response { status: STATUS_OK, body: previous },
                None => Response { status: STATUS_OK, body: String::new() },
            },
            None => Response { status: STATUS_BAD_REQUEST, body: String::new() },
        }
    }

    /// Routes one request by its method: reads and writes as above, 400 for
    /// any other method.
    pub fn call(&mut self, method: Method, path: String, body: Vec<u8>) -> (r: Response)
        requires
            old(self).well_formed(),
        ensures
            final(self).well_formed(),
            final(self).store() == store_after(old(self).store(), method, path@, body@),
            r.status == status_of(old(self).store(), method, path@, body@),
            r.body@ == body_of(old(self).store(), method, path@, body@),
    {
        match method {
            Method::Get => self.get(&path),
            Method::Post => self.post(path, body),
            Method::Other => Response { status: STATUS_BAD_REQUEST, body: String::new() },
        }
    }
}

} // verus!
