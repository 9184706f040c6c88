use crate::server::{body_of, status_of, store_after, Method, STATUS_NOT_FOUND, STATUS_OK};
use vstd::prelude::*;
use vstd::utf8::{decode_utf8, encode_utf8, encode_utf8_decode_utf8, encode_utf8_valid_utf8, valid_utf8};

verus! {

/// The store after a sequence of writes, each a key and a raw body, applied
/// in order to `store`.
pub open spec fn replay(
    store: Map<Seq<char>, Seq<char>>,
    writes: Seq<(Seq<char>, Seq<u8>)>,
) -> Map<Seq<char>, Seq<char>>
    decreases writes.len(),
{
    if writes.len() == 0 {
        store
    } else {
        let last = writes.last();
        store_after(replay(store, writes.drop_last()), Method::Post, last.0, last.1)
    }
}

/// The keys of those writes whose body decodes.
pub open spec fn written_keys(writes: Seq<(Seq<char>, Seq<u8>)>) -> Set<Seq<char>> {
    Set::new(|k: Seq<char>| exists|i: int| 0 <= i < writes.len() && #[trigger] writes[i].0 == k && valid_utf8(writes[i].1))
}

/// A read of a key that no write ever named answers 404 with an empty body.
pub proof fn lemma_unwritten_key_not_found(writes: Seq<(Seq<char>, Seq<u8>)>, key: Seq<char>)
    requires
        forall|i: int| 0 <= i < writes.len() ==> #[trigger] writes[i].0 != key,
    ensures
        status_of(replay(Map::empty(), writes), Method::Get, key, seq![]) == STATUS_NOT_FOUND,
        body_of(replay(Map::empty(), writes), Method::Get, key, seq![]) == Seq::<char>::empty(),
    decreases writes.len(),
{
    if writes.len() > 0 {
        let front = writes.drop_last();
        assert forall|i: int| 0 <= i < front.len() implies #[trigger] front[i].0 != key by {
            assert(front[i] == writes[i]);
        }
        lemma_unwritten_key_not_found(front, key);
        assert(writes.last() == writes[writes.len() - 1]);
    }
}

/// Writing the encoding of `value` to `key` answers 200, and a read of `key`
/// then answers 200 with `value`.
pub proof fn lemma_put_then_get(store: Map<Seq<char>, Seq<char>>, key: Seq<char>, value: Seq<char>)
    ensures
        status_of(store, Method::Post, key, encode_utf8(value)) == STATUS_OK,
        status_of(store_after(store, Method::Post, key, encode_utf8(value)), Method::Get, key, seq![])
            == STATUS_OK,
        body_of(store_after(store, Method::Post, key, encode_utf8(value)), Method::Get, key, seq![])
            == value,
{
    encode_utf8_valid_utf8(value);
    encode_utf8_decode_utf8(value);
}

/// On a key not yet set, a first write answers 200 with an empty body, a
/// second answers 200 with the first value, and a read then gives the second.
pub proof fn lemma_put_put_get(
    store: Map<Seq<char>, Seq<char>>,
    key: Seq<char>,
    first: Seq<char>,
    second: Seq<char>,
)
    requires
        !store.contains_key(key),
    ensures
        status_of(store, Method::Post, key, encode_utf8(first)) == STATUS_OK,
        body_of(store, Method::Post, key, encode_utf8(first)) == Seq::<char>::empty(),
        ({
            let s1 = store_after(store, Method::Post, key, encode_utf8(first));
            let s2 = store_after(s1, Method::Post, key, encode_utf8(second));
            &&& status_of(s1, Method::Post, key, encode_utf8(second)) == STATUS_OK
            &&& body_of(s1, Method::Post, key, encode_utf8(second)) == first
            &&& status_of(s2, Method::Get, key, seq![]) == STATUS_OK
            &&& body_of(s2, Method::Get, key, seq![]) == second
        }),
{
    encode_utf8_valid_utf8(first);
    encode_utf8_decode_utf8(first);
    encode_utf8_valid_utf8(second);
    encode_utf8_decode_utf8(second);
}

/// After a sequence of writes to an empty store, the keys held are exactly
/// the keys written with a decodable body, so their number is the number of
/// distinct such keys.
pub proof fn lemma_size_counts_written_keys(writes: Seq<(Seq<char>, Seq<u8>)>)
    ensures
        replay(Map::empty(), writes).dom() == written_keys(writes),
        replay(Map::empty(), writes).dom().finite(),
        replay(Map::empty(), writes).dom().len() == written_keys(writes).len(),
    decreases writes.len(),
{
    if writes.len() > 0 {
        let front = writes.drop_last();
        let last = writes.last();
        lemma_size_counts_written_keys(front);
        assert forall|k: Seq<char>| #[trigger] written_keys(writes).contains(k) <==> (
            written_keys(front).contains(k) || (k == last.0 && valid_utf8(last.1))) by {
            if written_keys(writes).contains(k) {
                let i = choose|i: int| 0 <= i < writes.len() && #[trigger] writes[i].0 == k && valid_utf8(writes[i].1);
                if i < front.len() {
                    assert(front[i] == writes[i]);
                }
            }
            if written_keys(front).contains(k) {
                let i = choose|i: int| 0 <= i < front.len() && #[trigger] front[i].0 == k && valid_utf8(front[i].1);
                assert(front[i] == writes[i]);
            }
            if k == last.0 && valid_utf8(last.1) {
                assert(writes[writes.len() - 1].0 == k);
            }
        }
        assert(replay(Map::empty(), writes).dom() =~= written_keys(writes));
    } else {
        assert(written_keys(writes) =~= Set::empty());
        assert(replay(Map::empty(), writes).dom() =~= Set::empty());
    }
}

/// Issuing the same write twice leaves the store as one write does, and a
/// read then gives the written value.
pub proof fn lemma_repeated_put(store: Map<Seq<char>, Seq<char>>, key: Seq<char>, body: Seq<u8>)
    requires
        valid_utf8(body),
    ensures
        ({
            let s1 = store_after(store, Method::Post, key, body);
            let s2 = store_after(s1, Method::Post, key, body);
            &&& s2 == s1
            &&& status_of(s2, Method::Get, key, seq![]) == STATUS_OK
            &&& body_of(s2, Method::Get, key, seq![]) == decode_utf8(body)
        }),
{
    let s1 = store_after(store, Method::Post, key, body);
    assert(store_after(s1, Method::Post, key, body) =~= s1);
}

} // verus!
