//! The genesis runtime code, as it stands in a chain's genesis storage.

use vstd::prelude::*;
use sp_core::storage::Storage;

verus! {

#[verifier::external_type_specification]
#[verifier::external_body]
pub struct ExStorage(Storage);

/// What the top trie of a genesis storage holds, key by key.
pub uninterp spec fn top_of(s: Storage) -> Map<Seq<u8>, Seq<u8>>;

/// The well-known storage key `:code`, under which genesis keeps the runtime.
pub open spec fn code_key_spec() -> Seq<u8> {
    seq![58u8, 99u8, 111u8, 100u8, 101u8]
}

/// The message of the error for a genesis storage without runtime code.
pub open spec fn missing_code_message() -> Seq<char> {
    "Could not find wasm file in genesis state!"@
}

/// Relies on `sp_core::storage::well_known_keys::CODE`, the byte string `:code`.
#[verifier::external_body]
fn code_key() -> (r: Vec<u8>)
    ensures
        r@ == code_key_spec(),
{
    sp_core::storage::well_known_keys::CODE.to_vec()
}

/// Relies on `BTreeMap::remove` on the `top` map of `sp_core::storage::Storage`:
/// the entry under `key` is taken out and its value returned, if there was one.
#[verifier::external_body]
fn remove_top(storage: &mut Storage, key: &Vec<u8>) -> (r: Option<Vec<u8>>)
    ensures
        top_of(*final(storage)) == top_of(*old(storage)).remove(key@),
        match r {
            Some(v) => top_of(*old(storage)).contains_key(key@) && v@ == top_of(
                *old(storage),
            )[key@],
            None => !top_of(*old(storage)).contains_key(key@),
        },
{
    storage.top.remove(key)
}

/// Takes the runtime code out of a genesis storage: the value under `:code`,
/// or an error that says it is missing.
pub fn extract_genesis_wasm(storage: Storage) -> (r: Result<Vec<u8>, String>)
    ensures
        top_of(storage).contains_key(code_key_spec()) <==> r is Ok,
        match r {
            Ok(code) => code@ == top_of(storage)[code_key_spec()],
            Err(e) => e@ == missing_code_message(),
        },
{
    let mut storage = storage;
    let key = code_key();
    match remove_top(&mut storage, &key) {
        Some(code) => Ok(code),
        None => Err("Could not find wasm file in genesis state!".to_owned()),
    }
}

} // verus!
