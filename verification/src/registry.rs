//! The table of clients a server knows, kept in a hash map of the `ahash`
//! crate. Verus does not look inside that map: what this file says of it is
//! taken on trust from the crate's source.

use vstd::prelude::*;
use ahash::AHashMap;
use ahash::RandomState;

verus! {

/// `ahash::AHashMap`, a `std` hash map with the crate's own hasher.
#[verifier::external_type_specification]
#[verifier::external_body]
#[verifier::reject_recursive_types(K)]
#[verifier::reject_recursive_types(V)]
#[verifier::reject_recursive_types(S)]
pub struct ExAHashMap<K, V, S>(AHashMap<K, V, S>);

/// `ahash::RandomState`, the hasher state that an `AHashMap` is built with.
#[verifier::external_type_specification]
#[verifier::external_body]
pub struct ExRandomState(RandomState);

/// What a client is filed under: the resource its traffic runs through, its
/// address and its port.
pub type ClientKey = (u64, u128, u16);

/// The table itself: a name for every client that is known.
pub type ClientTable = AHashMap<ClientKey, String>;

/// What a client table holds: for each key, the name stored under it.
pub uninterp spec fn table_entries(table: ClientTable) -> Map<ClientKey, Seq<char>>;

/// `AHashMap::new`: a map that holds nothing.
#[verifier::external_body]
pub(crate) fn table_new() -> (table: ClientTable)
    ensures
        table_entries(table).dom() == Set::<ClientKey>::empty(),
{
    AHashMap::new()
}

/// `AHashMap::insert`: afterwards `key` holds `name` and every other key holds
/// what it held. The result is what `key` held before, if anything.
#[verifier::external_body]
pub(crate) fn table_insert(
    table: &mut ClientTable,
    key: ClientKey,
    name: String,
) -> (previous: Option<String>)
    ensures
        table_entries(*final(table)) == table_entries(*old(table)).insert(key, name@),
        previous is Some == table_entries(*old(table)).contains_key(key),
        previous matches Some(text) ==> text@ == table_entries(*old(table))[key],
{
    table.insert(key, name)
}

/// `AHashMap::get`, with the value copied out: the name that `key` holds, or
/// `None` where the table has no such key.
#[verifier::external_body]
pub(crate) fn table_get(table: &ClientTable, key: &ClientKey) -> (name: Option<String>)
    ensures
        name is Some == table_entries(*table).contains_key(*key),
        name matches Some(text) ==> text@ == table_entries(*table)[*key],
{
    table.get(key).cloned()
}

} // verus!
