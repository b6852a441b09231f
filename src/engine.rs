//! The storage engine as this library sees it: the `kv` crate's types, the
//! contents of a bucket as a map from raw keys to raw values, and one wrapper
//! for each engine call that the store makes.
//!
//! A bucket's entries live on disk and `kv` changes them through `&self`.
//! The wrappers that change them take the handle `&mut`, so that the change
//! can be stated over the handle's value before and after; the store owns its
//! handle alone and never clones it.

use vstd::prelude::*;
use kv::{Bucket, Config, Error, Item, Iter, Raw, Store};

verus! {

#[verifier::external_type_specification]
#[verifier::external_body]
pub struct ExRaw(kv::Raw);

#[verifier::external_type_specification]
#[verifier::external_body]
pub struct ExConfig(kv::Config);

#[verifier::external_type_specification]
#[verifier::external_body]
pub struct ExStore(kv::Store);

#[verifier::external_type_specification]
#[verifier::external_body]
pub struct ExError(kv::Error);

/// An open bucket of raw keys and values. Verus cannot take `kv::Bucket`
/// itself (its parameters are bound by `kv`'s own traits), so the handle is
/// held here, out of Verus's sight.
#[verifier::external_body]
pub struct RawBucket {
    inner: Bucket<'static, Raw, Raw>,
}

#[verifier::external_type_specification]
#[verifier::external_body]
#[verifier::reject_recursive_types(K)]
#[verifier::reject_recursive_types(V)]
pub struct ExIter<K, V>(kv::Iter<K, V>);

#[verifier::external_type_specification]
#[verifier::external_body]
#[verifier::reject_recursive_types(K)]
#[verifier::reject_recursive_types(V)]
pub struct ExItem<K, V>(kv::Item<K, V>);

/// The entries that a bucket holds, from raw key to raw value.
pub uninterp spec fn bucket_entries(b: RawBucket) -> Map<Seq<u8>, Seq<u8>>;

/// The keys that an iterator over a bucket has still to yield, in order.
pub uninterp spec fn iter_keys(it: Iter<Raw, Raw>) -> Seq<Seq<u8>>;

/// The raw key of an item that an iterator yielded.
pub uninterp spec fn item_key(item: Item<Raw, Raw>) -> Seq<u8>;

/// Relies on `kv::Config::new`: a default configuration rooted at `path`.
#[verifier::external_body]
pub(crate) fn new_config(path: &str) -> (r: Config) {
    Config::new(path)
}

/// Relies on `kv::Store::new`: opens, or creates, the store that `config`
/// names.
#[verifier::external_body]
pub(crate) fn open_store(config: Config) -> (r: Result<Store, Error>) {
    Store::new(config)
}

/// Relies on `kv::Store::bucket`: opens, or creates, the bucket `name`.
#[verifier::external_body]
pub(crate) fn open_bucket(store: &Store, name: &str) -> (r: Result<RawBucket, Error>) {
    store.bucket::<Raw, Raw>(Some(name)).map(|inner| RawBucket { inner })
}

/// Relies on `kv::Bucket::contains`: whether `key` has an entry.
#[verifier::external_body]
pub(crate) fn bucket_contains(b: &RawBucket, key: &[u8]) -> (r: Result<bool, Error>)
    ensures
        r matches Ok(found) ==> found == bucket_entries(*b).contains_key(key@),
{
    b.inner.contains(&Raw::from(key))
}

/// Relies on `kv::Bucket::get`: the value stored under `key`, if any.
#[verifier::external_body]
pub(crate) fn bucket_get(b: &RawBucket, key: &[u8]) -> (r: Result<Option<Vec<u8>>, Error>)
    ensures
        r matches Ok(Some(v)) ==> bucket_entries(*b).contains_key(key@) && v@ == bucket_entries(*b)[key@],
        r matches Ok(None) ==> !bucket_entries(*b).contains_key(key@),
{
    b.inner.get(&Raw::from(key)).map(|found| found.map(|v| v.to_vec()))
}

/// Relies on `kv::Bucket::set`: stores `value` under `key`, replacing any
/// earlier value. sled installs the new entry in one step; an error that
/// comes after that step (completing the log write, paging out) is reported
/// with the entry already in place, so a failed call has written all of it or
/// nothing.
#[verifier::external_body]
pub(crate) fn bucket_set(b: &mut RawBucket, key: &[u8], value: &[u8]) -> (r: Result<(), Error>)
    ensures
        r is Ok ==> bucket_entries(*final(b)) == bucket_entries(*old(b)).insert(key@, value@),
        r is Err ==> bucket_entries(*final(b)) == bucket_entries(*old(b))
            || bucket_entries(*final(b)) == bucket_entries(*old(b)).insert(key@, value@),
{
    b.inner.set(&Raw::from(key), &Raw::from(value)).map(|_| ())
}

/// Relies on `kv::Bucket::remove`: deletes the entry of `key`; a key without
/// an entry is no error. As with `set`, sled removes the entry in one step, so
/// a failed call has removed it or left it.
#[verifier::external_body]
pub(crate) fn bucket_remove(b: &mut RawBucket, key: &[u8]) -> (r: Result<(), Error>)
    ensures
        r is Ok ==> bucket_entries(*final(b)) == bucket_entries(*old(b)).remove(key@),
        r is Err ==> bucket_entries(*final(b)) == bucket_entries(*old(b))
            || bucket_entries(*final(b)) == bucket_entries(*old(b)).remove(key@),
{
    b.inner.remove(&Raw::from(key)).map(|_| ())
}

/// Relies on `kv::Bucket::clear`: removes every entry.
#[verifier::external_body]
pub(crate) fn bucket_clear(b: &mut RawBucket) -> (r: Result<(), Error>)
    ensures
        r is Ok ==> bucket_entries(*final(b)).dom() == Set::<Seq<u8>>::empty(),
{
    b.inner.clear()
}

/// Relies on `kv::Bucket::iter`: an iterator that yields each entry once.
#[verifier::external_body]
pub(crate) fn bucket_iter(b: &RawBucket) -> (r: Iter<Raw, Raw>)
    ensures
        iter_keys(r).no_duplicates(),
        iter_keys(r).to_set() == bucket_entries(*b).dom(),
{
    b.inner.iter()
}

/// Relies on `kv::Iter::next`: the next item, an error, or the end.
#[verifier::external_body]
pub(crate) fn iter_next(it: &mut Iter<Raw, Raw>) -> (r: Option<Result<Item<Raw, Raw>, Error>>)
    ensures
        r is None ==> iter_keys(*old(it)).len() == 0,
        r matches Some(Ok(item)) ==> {
            &&& iter_keys(*old(it)).len() > 0
            &&& item_key(item) == iter_keys(*old(it))[0]
            &&& iter_keys(*final(it)) == iter_keys(*old(it)).drop_first()
        },
{
    it.next()
}

/// Relies on `kv::Item::key`: the item's key, which for raw keys is always
/// there.
#[verifier::external_body]
pub(crate) fn item_key_bytes(item: &Item<Raw, Raw>) -> (r: Result<Vec<u8>, Error>)
    ensures
        r is Ok,
        r matches Ok(k) ==> k@ == item_key(*item),
{
    item.key::<Raw>().map(|k| k.to_vec())
}

/// Relies on the `Display` impl of `kv::Error`: its message.
#[verifier::external_body]
pub(crate) fn error_message(e: &Error) -> (r: String) {
    e.to_string()
}

} // verus!
