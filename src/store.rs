//! One store instance: an id and a data path given by the host, and the
//! bucket that `initialize` opens at that path.

use vstd::prelude::*;
use crate::engine::{
    bucket_clear, bucket_contains, bucket_entries, bucket_get, bucket_iter,
    bucket_remove, bucket_set, item_key_bytes, iter_keys, iter_next, new_config,
    open_bucket, open_store, RawBucket,
};
use crate::error::{count_outcome, escalate, get_outcome, is_fatal_in, keys_outcome, KvError, Op};
use crate::model::{all_ok, is_key_order, lists_keys, ok_keys, text_lookup};
use crate::text::{raw_of, text_of, to_raw};

verus! {

/// The name of the one bucket that each store holds.
pub const BUCKET_NAME: &'static str = "craby_kv";

/// What the host gives an instance: its id and where its data lives.
pub struct Context {
    pub id: usize,
    pub data_path: String,
}

impl Context {
    pub fn new(id: usize, data_path: String) -> (r: Context)
        ensures
            r.id == id,
            r.data_path == data_path,
    {
        Context { id, data_path }
    }
}

/// A key-value store over one bucket, opened by `initialize`.
pub struct CrabyKv {
    ctx: Context,
    bucket: Option<RawBucket>,
}

impl CrabyKv {
    /// Whether `initialize` has opened the bucket.
    pub closed spec fn initialized(&self) -> bool {
        self.bucket is Some
    }

    /// The entries of the bucket, from raw key to raw value; none before
    /// `initialize`.
    pub closed spec fn entries(&self) -> Map<Seq<u8>, Seq<u8>> {
        match self.bucket {
            Some(b) => bucket_entries(b),
            None => Map::empty(),
        }
    }

    /// The id that the host gave.
    pub closed spec fn instance_id(&self) -> usize {
        self.ctx.id
    }

    /// The path where the data lives.
    pub closed spec fn data_path(&self) -> Seq<char> {
        self.ctx.data_path@
    }

    /// An instance for `ctx`; nothing is opened yet.
    pub fn new(ctx: Context) -> (r: Self)
        ensures
            !r.initialized(),
            r.instance_id() == ctx.id,
            r.data_path() == ctx.data_path@,
    {
        CrabyKv { ctx, bucket: None }
    }

    pub fn id(&self) -> (r: usize)
        ensures
            r == self.instance_id(),
    {
        self.ctx.id
    }

    pub fn is_initialized(&self) -> (r: bool)
        ensures
            r == self.initialized(),
    {
        self.bucket.is_some()
    }

    fn get_bucket(&self) -> (r: &RawBucket)
        requires
            self.initialized(),
        ensures
            self.bucket == Some(*r),
    {
        self.bucket.as_ref().unwrap()
    }

    fn get_bucket_mut(&mut self) -> (r: &mut RawBucket)
        requires
            old(self).initialized(),
        ensures
            old(self).bucket == Some(*r),
            final(self).bucket == Some(*final(r)),
            final(self).ctx == old(self).ctx,
    {
        self.bucket.as_mut().unwrap()
    }

    /// Opens, or creates, the store at the data path and its bucket. A handle
    /// opened before is released first, so calling this again reopens the
    /// store.
    pub fn initialize(&mut self) -> (r: Result<(), KvError>)
        ensures
            final(self).initialized() <==> r is Ok,
            final(self).instance_id() == old(self).instance_id(),
            final(self).data_path() == old(self).data_path(),
            r matches Err(e) ==> is_fatal_in(e, Op::OpenStore) || is_fatal_in(e, Op::OpenBucket),
    {
        self.bucket = None;
        let config = new_config(self.ctx.data_path.as_str());
        let store = escalate(Op::OpenStore, open_store(config))?;
        let b = escalate(Op::OpenBucket, open_bucket(&store, BUCKET_NAME))?;
        self.bucket = Some(b);
        Ok(())
    }

    /// Walks the bucket's keys. The walk stops after the first error that the
    /// engine hands back (sled's iterator does not move past a failed read);
    /// when there is none, the keys are each key of the bucket once.
    fn read_keys(b: &RawBucket) -> (items: Vec<Result<Vec<u8>, kv::Error>>)
        ensures
            all_ok(items@) ==> is_key_order(ok_keys(items@), bucket_entries(*b)),
    {
        let mut it = bucket_iter(b);
        let ghost order = iter_keys(it);
        let mut items: Vec<Result<Vec<u8>, kv::Error>> = Vec::new();
        loop
            invariant_except_break
                all_ok(items@),
                ok_keys(items@) + iter_keys(it) == order,
            ensures
                all_ok(items@) ==> ok_keys(items@) == order,
            decreases iter_keys(it).len(),
        {
            let ghost before = iter_keys(it);
            let ghost prev = items@;
            match iter_next(&mut it) {
                None => {
                    assert(ok_keys(items@) =~= order);
                    break;
                },
                Some(Err(e)) => {
                    items.push(Err(e));
                    assert(!(items@[items@.len() - 1] is Ok));
                    break;
                },
                Some(Ok(item)) => match item_key_bytes(&item) {
                    Ok(k) => {
                        items.push(Ok(k));
                        assert(ok_keys(items@) =~= ok_keys(prev).push(k@));
                        assert(ok_keys(prev).push(k@) + iter_keys(it) =~= ok_keys(prev) + before);
                    },
                    Err(e) => {
                        items.push(Err(e));
                        assert(!(items@[items@.len() - 1] is Ok));
                        break;
                    },
                },
            }
        }
        items
    }

    /// Every key of the bucket as text, each once, in the engine's order.
    pub fn keys(&mut self) -> (r: Result<Vec<String>, KvError>)
        requires
            old(self).initialized(),
        ensures
            *final(self) == *old(self),
            r matches Ok(ks) ==> lists_keys(ks@.map_values(|k: String| k@), old(self).entries()),
            r matches Err(e) ==> is_fatal_in(e, Op::Keys),
    {
        let items = Self::read_keys(self.get_bucket());
        let r = keys_outcome(&items);
        proof {
            if r is Ok {
                let ks = r->Ok_0;
                let order = ok_keys(items@);
                assert(ks@.map_values(|k: String| k@) =~= order.map_values(|k: Seq<u8>| text_of(k)));
                assert(is_key_order(order, self.entries()));
            }
        }
        r
    }

    /// Removes every entry.
    pub fn clear(&mut self) -> (r: Result<(), KvError>)
        requires
            old(self).initialized(),
        ensures
            final(self).initialized(),
            final(self).instance_id() == old(self).instance_id(),
            final(self).data_path() == old(self).data_path(),
            r is Ok ==> final(self).entries().dom() == Set::<Seq<u8>>::empty(),
            r matches Err(e) ==> is_fatal_in(e, Op::Clear),
    {
        escalate(Op::Clear, bucket_clear(self.get_bucket_mut()))
    }

    /// Whether `key` has an entry.
    pub fn contains(&mut self, key: &str) -> (r: Result<bool, KvError>)
        requires
            old(self).initialized(),
        ensures
            *final(self) == *old(self),
            r matches Ok(found) ==> found == old(self).entries().contains_key(raw_of(key@)),
            r matches Err(e) ==> is_fatal_in(e, Op::Contains),
    {
        escalate(Op::Contains, bucket_contains(self.get_bucket(), to_raw(key)))
    }

    /// The value stored under `key` as text, or `None` when there is none. An
    /// engine error is handed back as a recoverable failure.
    pub fn get(&mut self, key: &str) -> (r: Result<Option<String>, KvError>)
        requires
            old(self).initialized(),
        ensures
            *final(self) == *old(self),
            r matches Ok(found) ==> match found {
                Some(v) => text_lookup(old(self).entries(), key@) == Some(v@),
                None => text_lookup(old(self).entries(), key@) is None,
            },
            r matches Err(e) ==> e matches KvError::Recoverable { op: Op::Get, .. },
    {
        get_outcome(bucket_get(self.get_bucket(), to_raw(key)))
    }

    /// Deletes the entry of `key`; a key without an entry is left as it is,
    /// with no error.
    pub fn remove(&mut self, key: &str) -> (r: Result<(), KvError>)
        requires
            old(self).initialized(),
        ensures
            final(self).initialized(),
            final(self).instance_id() == old(self).instance_id(),
            final(self).data_path() == old(self).data_path(),
            r is Ok ==> final(self).entries() == old(self).entries().remove(raw_of(key@)),
            r is Err ==> final(self).entries() == old(self).entries()
                || final(self).entries() == old(self).entries().remove(raw_of(key@)),
            r matches Err(e) ==> is_fatal_in(e, Op::Remove),
    {
        escalate(Op::Remove, bucket_remove(self.get_bucket_mut(), to_raw(key)))
    }

    /// Stores `value` under `key`, replacing any earlier value.
    pub fn set(&mut self, key: &str, value: &str) -> (r: Result<(), KvError>)
        requires
            old(self).initialized(),
        ensures
            final(self).initialized(),
            final(self).instance_id() == old(self).instance_id(),
            final(self).data_path() == old(self).data_path(),
            r is Ok ==> final(self).entries() == old(self).entries().insert(raw_of(key@), raw_of(value@)),
            r is Err ==> final(self).entries() == old(self).entries()
                || final(self).entries() == old(self).entries().insert(raw_of(key@), raw_of(value@)),
            r matches Err(e) ==> is_fatal_in(e, Op::SetValue),
    {
        escalate(Op::SetValue, bucket_set(self.get_bucket_mut(), to_raw(key), to_raw(value)))
    }

    /// The number of entries.
    pub fn size(&mut self) -> (r: Result<u64, KvError>)
        requires
            old(self).initialized(),
        ensures
            *final(self) == *old(self),
            r matches Ok(n) ==> n == old(self).entries().dom().len(),
            r matches Err(e) ==> is_fatal_in(e, Op::Size),
    {
        let items = Self::read_keys(self.get_bucket());
        let r = count_outcome(&items);
        proof {
            if r is Ok {
                let order = ok_keys(items@);
                order.unique_seq_to_set();
            }
        }
        r
    }
}

} // verus!
