//! The area store: declare, look up, clean and adjust the scores of areas.
//!
//! A store holds only where its backend lives. Each operation is decided
//! from what the backend answered to a read of the area's record, and
//! yields an [`Action`]: a reply, or one record to write before replying.
//! The caller performs the read and the write against the backend, so the
//! read-then-write of `adjust_score` is atomic only as far as the caller
//! keeps other writers of that record away in between.

use vstd::prelude::*;
use crate::codec::{convert_from, convert_to, decoded, le_bytes, StoreError};

verus! {

/// What the backend holds: for each key, the bytes of its record.
pub type Records = Map<Seq<char>, Seq<u8>>;

/// Where a store's records live and how to reach them.
pub struct Store {
    database_address: Option<String>,
}

/// What the backend answered to a read of one record.
pub enum Fetched {
    /// No record has that key.
    Absent,
    /// The record's bytes.
    Present(Vec<u8>),
    /// The read failed.
    Failed,
}

/// One record to write: `record` under `key`.
pub struct Write {
    pub key: String,
    pub record: [u8; 4],
}

/// What an operation asks of its caller.
pub enum Action<T> {
    /// Reply with this result; nothing is written.
    Reply(Result<T, StoreError>),
    /// Write the record, then reply with the value if the write succeeded.
    Persist(Write, T),
}

/// `f` is a successful, truthful answer of `m` to a read of key `n`.
pub open spec fn answers(f: Fetched, m: Records, n: Seq<char>) -> bool {
    match f {
        Fetched::Absent => !m.contains_key(n),
        Fetched::Present(v) => m.contains_key(n) && v@ == m[n],
        Fetched::Failed => false,
    }
}

/// The records once the caller has carried out `a` successfully.
pub open spec fn after<T>(m: Records, a: Action<T>) -> Records {
    match a {
        Action::Persist(w, _) => m.insert(w.key@, w.record@),
        Action::Reply(_) => m,
    }
}

/// `a` writes `record` under `n`, then replies with `v`.
pub open spec fn persists<T>(a: Action<T>, n: Seq<char>, record: Seq<u8>, v: T) -> bool {
    &&& a is Persist
    &&& a->Persist_0.key@ == n
    &&& a->Persist_0.record@ == record
    &&& a->Persist_1 == v
}

/// What `score_of` returns after the read answered `f`.
pub open spec fn score_result(f: Fetched) -> Result<Option<u32>, StoreError> {
    match f {
        Fetched::Absent => Ok(None),
        Fetched::Present(v) => match decoded(v@) {
            Ok(x) => Ok(Some(x)),
            Err(e) => Err(e),
        },
        Fetched::Failed => Err(StoreError::BackendRead),
    }
}

/// The score `current` moved by `delta`, held at zero below and at `u32::MAX` above.
pub open spec fn adjusted(current: u32, delta: i32) -> u32 {
    let s = current as int + delta as int;
    if s < 0 {
        0
    } else if s > u32::MAX as int {
        u32::MAX
    } else {
        s as u32
    }
}

/// What `declare_area(n)` does after the read answered `f`.
pub open spec fn declare_outcome(n: Seq<char>, f: Fetched, a: Action<String>) -> bool {
    match f {
        Fetched::Absent => a is Persist && persists(a, n, le_bytes(0), a->Persist_1)
            && a->Persist_1@ == n,
        Fetched::Present(_) => a == Action::<String>::Reply(Err(StoreError::AlreadyExists)),
        Fetched::Failed => a == Action::<String>::Reply(Err(StoreError::BackendRead)),
    }
}

/// What `clean_area(n)` does after the read answered `f`.
pub open spec fn clean_outcome(n: Seq<char>, f: Fetched, a: Action<String>) -> bool {
    match f {
        Fetched::Absent => a == Action::<String>::Reply(Err(StoreError::NotFound)),
        Fetched::Present(_) => a is Persist && persists(a, n, le_bytes(0), a->Persist_1)
            && a->Persist_1@ == n,
        Fetched::Failed => a == Action::<String>::Reply(Err(StoreError::BackendRead)),
    }
}

/// What `adjust_score(n, delta)` does after the read answered `f`.
pub open spec fn adjust_outcome(n: Seq<char>, delta: i32, f: Fetched, a: Action<u32>) -> bool {
    match f {
        Fetched::Absent => a == Action::<u32>::Reply(Err(StoreError::NotFound)),
        Fetched::Present(v) => match decoded(v@) {
            Ok(c) => persists(a, n, le_bytes(adjusted(c, delta)), adjusted(c, delta)),
            Err(e) => a == Action::<u32>::Reply(Err(e)),
        },
        Fetched::Failed => a == Action::<u32>::Reply(Err(StoreError::BackendRead)),
    }
}

impl<T> Action<T> {
    /// The reply, given whether the caller's write succeeded.
    pub fn complete(self, written: bool) -> (r: Result<T, StoreError>)
        ensures
            match self {
                Action::Reply(x) => r == x,
                Action::Persist(_, v) => r == if written {
                    Ok::<T, StoreError>(v)
                } else {
                    Err(StoreError::BackendWrite)
                },
            },
    {
        match self {
            Action::Reply(x) => x,
            Action::Persist(_, v) => if written {
                Ok(v)
            } else {
                Err(StoreError::BackendWrite)
            },
        }
    }
}


impl Store {
    /// Where the records live: a path, or `None` for a private temporary backend.
    pub closed spec fn location(&self) -> Option<Seq<char>> {
        match self.database_address {
            Some(a) => Some(a@),
            None => None,
        }
    }

    /// A store on a fresh temporary backend, discarded when it is closed.
    pub fn initialize() -> (r: Store)
        ensures
            r.location() == None::<Seq<char>>,
    {
        Store { database_address: None }
    }

    /// A store on the durable backend at `database_address`, created there if absent.
    pub fn initialize_from(database_address: &str) -> (r: Store)
        ensures
            r.location() == Some(database_address@),
    {
        Store { database_address: Some(database_address.to_owned()) }
    }

    /// The path of the backend, or `None` for a temporary one.
    pub fn address(&self) -> (r: Option<&str>)
        ensures
            match r {
                Some(a) => self.location() == Some(a@),
                None => self.location() == None::<Seq<char>>,
            },
    {
        match &self.database_address {
            Some(a) => Some(a.as_str()),
            None => None,
        }
    }

    /// Creates the area `area_name` with score zero, unless it exists already.
    ///
    /// `fetched` is the backend's answer to a read of the record `area_name`.
    pub fn declare_area(&self, area_name: &str, fetched: &Fetched) -> (r: Action<String>)
        ensures
            declare_outcome(area_name@, *fetched, r),
    {
        match fetched {
            Fetched::Absent => {
                let record = convert_to(0);
                Action::Persist(Write { key: area_name.to_owned(), record }, area_name.to_owned())
            },
            Fetched::Present(_) => Action::Reply(Err(StoreError::AlreadyExists)),
            Fetched::Failed => Action::Reply(Err(StoreError::BackendRead)),
        }
    }

    /// The score of `area_name`, `None` if it was never declared.
    ///
    /// `fetched` is the backend's answer to a read of the record `area_name`.
    pub fn score_of(&self, area_name: &str, fetched: &Fetched) -> (r: Result<Option<u32>, StoreError>)
        ensures
            r == score_result(*fetched),
    {
        match fetched {
            Fetched::Absent => Ok(None),
            Fetched::Present(v) => match convert_from(v) {
                Ok(x) => Ok(Some(x)),
                Err(e) => Err(e),
            },
            Fetched::Failed => Err(StoreError::BackendRead),
        }
    }

    /// Resets the score of the declared area `area_name` to zero.
    ///
    /// `fetched` is the backend's answer to a read of the record `area_name`.
    pub fn clean_area(&self, area_name: &str, fetched: &Fetched) -> (r: Action<String>)
        ensures
            clean_outcome(area_name@, *fetched, r),
    {
        match fetched {
            Fetched::Absent => Action::Reply(Err(StoreError::NotFound)),
            Fetched::Present(_) => {
                let record = convert_to(0);
                Action::Persist(Write { key: area_name.to_owned(), record }, area_name.to_owned())
            },
            Fetched::Failed => Action::Reply(Err(StoreError::BackendRead)),
        }
    }

    /// Moves the score of the declared area `area_name` by `increment_size`,
    /// never below zero (nor above `u32::MAX`).
    ///
    /// `fetched` is the backend's answer to a read of the record `area_name`.
    pub fn adjust_score(&self, area_name: &str, increment_size: i32, fetched: &Fetched) -> (r: Action<u32>)
        ensures
            adjust_outcome(area_name@, increment_size, *fetched, r),
    {
        match fetched {
            Fetched::Absent => Action::Reply(Err(StoreError::NotFound)),
            Fetched::Present(v) => match convert_from(v) {
                Ok(current) => {
                    let sum: i64 = current as i64 + increment_size as i64;
                    let new_score: u32 = if sum < 0 {
                        0
                    } else if sum > u32::MAX as i64 {
                        u32::MAX
                    } else {
                        sum as u32
                    };
                    let record = convert_to(new_score);
                    Action::Persist(Write { key: area_name.to_owned(), record }, new_score)
                },
                Err(e) => Action::Reply(Err(e)),
            },
            Fetched::Failed => Action::Reply(Err(StoreError::BackendRead)),
        }
    }
}

} // verus!
