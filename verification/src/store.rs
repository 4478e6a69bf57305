//! The two concurrent key-value stores of the registry.
//!
//! The stores are `dashmap::DashMap`s. Nothing in this file is proved: each
//! function states what the map's own method does, over the entries that the
//! map holds. Mutating functions take the map by `&mut`, so that a caller
//! with exclusive access can speak of the entries before and after.

use vstd::prelude::*;
use dashmap::DashMap;
use crate::messages::string_views;
use crate::state::{Connection, ConnectionView, Stream, StreamView};

verus! {

/// `dashmap::DashMap`, whose inside is not looked into.
#[verifier::external_type_specification]
#[verifier::external_body]
#[verifier::reject_recursive_types(K)]
#[verifier::reject_recursive_types(V)]
#[verifier::reject_recursive_types(S)]
pub struct ExDashMap<K, V, S>(DashMap<K, V, S>);

/// The store of connections by identifier.
pub type ConnectionMap = DashMap<String, Connection>;

/// The store of streams by identifier.
pub type StreamMap = DashMap<String, Stream>;

/// The entries that a connection store holds, by key.
pub uninterp spec fn connection_entries(m: DashMap<String, Connection>) -> Map<Seq<char>, ConnectionView>;

/// The entries that a stream store holds, by key.
pub uninterp spec fn stream_entries(m: DashMap<String, Stream>) -> Map<Seq<char>, StreamView>;

/// `DashMap::new`: a map without entries.
#[verifier::external_body]
pub(crate) fn connections_new() -> (fresh: ConnectionMap)
    ensures
        connection_entries(fresh).dom() == Set::<Seq<char>>::empty(),
{
    DashMap::new()
}

/// `DashMap::insert`: the value stands under the key afterwards, other keys
/// keep their values, and the value that stood there before is returned.
#[verifier::external_body]
pub(crate) fn connections_insert(m: &mut ConnectionMap, key: String, value: Connection) -> (prev: Option<Connection>)
    ensures
        connection_entries(*final(m)) == connection_entries(*old(m)).insert(key@, value@),
        prev is Some == connection_entries(*old(m)).dom().contains(key@),
        prev matches Some(p) ==> p@ == connection_entries(*old(m))[key@],
{
    m.insert(key, value)
}

/// `DashMap::get`, with the value cloned out of the guard: the value under
/// the key, if the key is present. The map is left as it was.
#[verifier::external_body]
pub(crate) fn connections_get(m: &ConnectionMap, key: &str) -> (found: Option<Connection>)
    ensures
        found is Some == connection_entries(*m).dom().contains(key@),
        found matches Some(c) ==> c@ == connection_entries(*m)[key@],
{
    m.get(key).map(|entry| entry.value().clone())
}

/// `DashMap::remove`: the key is absent afterwards, other keys keep their
/// values, and the value that stood under the key is returned.
#[verifier::external_body]
pub(crate) fn connections_remove(m: &mut ConnectionMap, key: &str) -> (removed: Option<Connection>)
    ensures
        connection_entries(*final(m)) == connection_entries(*old(m)).remove(key@),
        removed is Some == connection_entries(*old(m)).dom().contains(key@),
        removed matches Some(c) ==> c@ == connection_entries(*old(m))[key@],
{
    m.remove(key).map(|pair| pair.1)
}

/// `DashMap::len`: the number of entries.
#[verifier::external_body]
pub(crate) fn connections_len(m: &ConnectionMap) -> (n: usize)
    ensures
        n == connection_entries(*m).dom().len(),
{
    m.len()
}

/// `DashMap::new`: a map without entries.
#[verifier::external_body]
pub(crate) fn streams_new() -> (fresh: StreamMap)
    ensures
        stream_entries(fresh).dom() == Set::<Seq<char>>::empty(),
{
    DashMap::new()
}

/// `DashMap::insert`: the value stands under the key afterwards, other keys
/// keep their values, and the value that stood there before is returned.
#[verifier::external_body]
pub(crate) fn streams_insert(m: &mut StreamMap, key: String, value: Stream) -> (prev: Option<Stream>)
    ensures
        stream_entries(*final(m)) == stream_entries(*old(m)).insert(key@, value@),
        prev is Some == stream_entries(*old(m)).dom().contains(key@),
        prev matches Some(p) ==> p@ == stream_entries(*old(m))[key@],
{
    m.insert(key, value)
}

/// `DashMap::get`, with the value cloned out of the guard: the value under
/// the key, if the key is present. The map is left as it was.
#[verifier::external_body]
pub(crate) fn streams_get(m: &StreamMap, key: &str) -> (found: Option<Stream>)
    ensures
        found is Some == stream_entries(*m).dom().contains(key@),
        found matches Some(s) ==> s@ == stream_entries(*m)[key@],
{
    m.get(key).map(|entry| entry.value().clone())
}

/// `DashMap::remove`: the key is absent afterwards, other keys keep their
/// values, and the value that stood under the key is returned.
#[verifier::external_body]
pub(crate) fn streams_remove(m: &mut StreamMap, key: &str) -> (removed: Option<Stream>)
    ensures
        stream_entries(*final(m)) == stream_entries(*old(m)).remove(key@),
        removed is Some == stream_entries(*old(m)).dom().contains(key@),
        removed matches Some(s) ==> s@ == stream_entries(*old(m))[key@],
{
    m.remove(key).map(|pair| pair.1)
}

/// `DashMap::len`: the number of entries.
#[verifier::external_body]
pub(crate) fn streams_len(m: &StreamMap) -> (n: usize)
    ensures
        n == stream_entries(*m).dom().len(),
{
    m.len()
}

/// `DashMap::iter`, with each key cloned out: every key of the map exactly
/// once, in the order in which the map happens to be walked.
#[verifier::external_body]
pub(crate) fn streams_keys(m: &StreamMap) -> (keys: Vec<String>)
    ensures
        string_views(keys@).no_duplicates(),
        string_views(keys@).to_set() == stream_entries(*m).dom(),
{
    m.iter().map(|entry| entry.key().clone()).collect()
}

} // verus!
