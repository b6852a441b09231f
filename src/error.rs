//! How engine failures reach the caller: every operation but `get` treats an
//! engine error as fatal; `get` hands it back as a recoverable failure.

use vstd::prelude::*;
use crate::engine::error_message;
use crate::model::all_ok;
use crate::text::{from_raw_lossy, text_of};

verus! {

/// The operation during which an engine error came.
#[derive(Clone, Copy, Debug, PartialEq, Eq, Structural)]
pub enum Op {
    OpenStore,
    OpenBucket,
    Clear,
    Contains,
    Get,
    Keys,
    Remove,
    Size,
    SetValue,
}

/// A failure of the engine, with the operation it came in and the engine's
/// own message.
#[derive(Debug)]
pub enum KvError {
    /// The environment is broken (disk full, corruption): the caller cannot
    /// repair it inline and is expected to abort.
    Fatal { op: Op, message: String },
    /// A read failed; the caller may retry, report or abort.
    Recoverable { op: Op, message: String },
}

impl KvError {
    /// The operation that failed.
    pub fn op(&self) -> (r: Op)
        ensures
            r == match self {
                KvError::Fatal { op, .. } => *op,
                KvError::Recoverable { op, .. } => *op,
            },
    {
        match self {
            KvError::Fatal { op, .. } => *op,
            KvError::Recoverable { op, .. } => *op,
        }
    }

    /// Whether the failure is fatal.
    pub fn is_fatal(&self) -> (r: bool)
        ensures
            r == self is Fatal,
    {
        match self {
            KvError::Fatal { .. } => true,
            KvError::Recoverable { .. } => false,
        }
    }

    /// The engine's message.
    pub fn message(&self) -> (r: &String)
        ensures
            *r == match self {
                KvError::Fatal { message, .. } => *message,
                KvError::Recoverable { message, .. } => *message,
            },
    {
        match self {
            KvError::Fatal { message, .. } => message,
            KvError::Recoverable { message, .. } => message,
        }
    }
}

/// True when `e` is the fatal failure of `op`.
pub open spec fn is_fatal_in(e: KvError, op: Op) -> bool {
    e matches KvError::Fatal { op: o, .. } && o == op
}

/// The fatal failure of `op` that the engine error `e` stands for.
pub fn fatal(op: Op, e: &kv::Error) -> (r: KvError)
    ensures
        is_fatal_in(r, op),
{
    KvError::Fatal { op, message: error_message(e) }
}

/// What every operation but `get` returns for what the engine answered: its
/// value unchanged, or an engine error as the fatal failure of `op`.
pub fn escalate<T>(op: Op, r: Result<T, kv::Error>) -> (out: Result<T, KvError>)
    ensures
        match r {
            Ok(v) => out matches Ok(w) && w == v,
            Err(_) => out matches Err(e) && is_fatal_in(e, op),
        },
{
    match r {
        Ok(v) => Ok(v),
        Err(e) => Err(fatal(op, &e)),
    }
}

/// What `get` returns for what the engine answered: the stored bytes read as
/// text, absence as `None`, and an engine error as a recoverable failure.
pub fn get_outcome(found: Result<Option<Vec<u8>>, kv::Error>) -> (r: Result<Option<String>, KvError>)
    ensures
        match found {
            Ok(Some(v)) => r matches Ok(Some(s)) && s@ == text_of(v@),
            Ok(None) => r matches Ok(None),
            Err(_) => r matches Err(KvError::Recoverable { op: Op::Get, .. }),
        },
{
    match found {
        Ok(Some(v)) => Ok(Some(from_raw_lossy(v.as_slice()))),
        Ok(None) => Ok(None),
        Err(e) => Err(KvError::Recoverable { op: Op::Get, message: error_message(&e) }),
    }
}

/// What `keys` returns for the items that the engine handed back: each key
/// read as text, in order, or the fatal failure of `keys` if any item is an
/// error.
pub fn keys_outcome(items: &Vec<Result<Vec<u8>, kv::Error>>) -> (r: Result<Vec<String>, KvError>)
    ensures
        r is Ok <==> all_ok(items@),
        r matches Ok(ks) ==> ks@.len() == items@.len(),
        r matches Ok(ks) ==> forall|i: int|
            0 <= i < ks@.len() ==> #[trigger] ks@[i]@ == text_of(items@[i]->Ok_0@),
        r matches Err(e) ==> is_fatal_in(e, Op::Keys),
{
    let mut out: Vec<String> = Vec::new();
    let mut i: usize = 0;
    while i < items.len()
        invariant
            i <= items@.len(),
            out@.len() == i,
            forall|j: int| 0 <= j < i ==> #[trigger] items@[j] is Ok,
            forall|j: int| 0 <= j < i ==> #[trigger] out@[j]@ == text_of(items@[j]->Ok_0@),
        decreases items@.len() - i,
    {
        match &items[i] {
            Ok(k) => out.push(from_raw_lossy(k.as_slice())),
            Err(e) => return Err(fatal(Op::Keys, e)),
        }
        i += 1;
    }
    Ok(out)
}

/// What `size` returns for the items that the engine handed back: how many
/// there are, or the fatal failure of `size` if any item is an error.
pub fn count_outcome(items: &Vec<Result<Vec<u8>, kv::Error>>) -> (r: Result<u64, KvError>)
    ensures
        r is Ok <==> all_ok(items@),
        r matches Ok(n) ==> n == items@.len(),
        r matches Err(e) ==> is_fatal_in(e, Op::Size),
{
    let mut i: usize = 0;
    while i < items.len()
        invariant
            i <= items@.len(),
            forall|j: int| 0 <= j < i ==> #[trigger] items@[j] is Ok,
        decreases items@.len() - i,
    {
        match &items[i] {
            Ok(_) => {},
            Err(e) => return Err(fatal(Op::Size, e)),
        }
        i += 1;
    }
    Ok(items.len() as u64)
}

} // verus!
