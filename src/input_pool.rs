use vstd::prelude::*;
use crate::value::{InputValue, Json};

verus! {

/// Why a read of the input store failed.
#[derive(Debug, Clone, Copy, PartialEq, Eq, Structural)]
pub enum InputError {
    /// No value is stored under the key.
    NotFound,
    /// The stored value does not have the requested shape or range.
    TypeMismatch,
}

/// The value that change detection compares against: the stored value, or
/// null where the key is absent.
pub open spec fn prev_of(m: Map<Seq<char>, Json>, key: Seq<char>) -> Json {
    if m.contains_key(key) {
        m[key]
    } else {
        Json::Null
    }
}

/// Whether `v` counts as a change of `key`: not when both it and the previous
/// value are null; otherwise when the previous value is null or differs.
pub open spec fn is_change(m: Map<Seq<char>, Json>, key: Seq<char>, v: Json) -> bool {
    let prev = prev_of(m, key);
    !(v is Null && prev is Null) && (prev is Null || v != prev)
}

/// The store after change detection of `v` under `key`.
pub open spec fn after_detect(m: Map<Seq<char>, Json>, key: Seq<char>, v: Json) -> Map<
    Seq<char>,
    Json,
> {
    if is_change(m, key, v) {
        m.insert(key, v)
    } else {
        m
    }
}

pub open spec fn lookup_error(m: Map<Seq<char>, Json>, key: Seq<char>) -> InputError {
    if m.contains_key(key) {
        InputError::TypeMismatch
    } else {
        InputError::NotFound
    }
}

pub open spec fn fits_i64(n: int) -> bool {
    i64::MIN <= n <= i64::MAX
}

pub open spec fn fits_u64(n: int) -> bool {
    0 <= n <= u64::MAX
}

/// Once `v1` is stored under `key`, a different non-null `v2` counts as a
/// change and takes its place.
pub proof fn lemma_different_value_replaces(
    m: Map<Seq<char>, Json>,
    key: Seq<char>,
    v1: Json,
    v2: Json,
)
    requires
        v1 != v2,
        !(v1 is Null),
        !(v2 is Null),
    ensures
        is_change(m.insert(key, v1), key, v2),
        after_detect(m.insert(key, v1), key, v2) == m.insert(key, v1).insert(key, v2),
        after_detect(m.insert(key, v1), key, v2)[key] == v2,
{
}

/// Detecting the same value twice in a row: the second time is no change and
/// leaves the store as it was.
pub proof fn lemma_repeat_is_no_change(m: Map<Seq<char>, Json>, key: Seq<char>, v: Json)
    ensures
        !is_change(after_detect(m, key, v), key, v),
        after_detect(after_detect(m, key, v), key, v) == after_detect(m, key, v),
{
}

/// Null against an absent key is no change, and the store stays as it was.
pub proof fn lemma_null_on_absent_key(m: Map<Seq<char>, Json>, key: Seq<char>)
    requires
        !m.contains_key(key),
    ensures
        !is_change(m, key, Json::Null),
        after_detect(m, key, Json::Null) == m,
{
}

/// A non-null value against an absent key is a change, and creates the entry.
pub proof fn lemma_value_on_absent_key(m: Map<Seq<char>, Json>, key: Seq<char>, v: Json)
    requires
        !m.contains_key(key),
        !(v is Null),
    ensures
        is_change(m, key, v),
        after_detect(m, key, v) == m.insert(key, v),
        after_detect(m, key, v).contains_key(key),
{
}

/// The mapping from input name to the most recently accepted value.
pub struct InputPool {
    entries: Vec<(String, InputValue)>,
    contents: Ghost<Map<Seq<char>, Json>>,
}

impl View for InputPool {
    type V = Map<Seq<char>, Json>;

    closed spec fn view(&self) -> Map<Seq<char>, Json> {
        self.contents@
    }
}

impl InputPool {
    /// Keys are unique among the entries, and the entries are exactly the
    /// contents of the store.
    pub closed spec fn wf(&self) -> bool {
        &&& forall|i: int, j: int|
            0 <= i < j < self.entries@.len() ==> self.entries@[i].0@ != self.entries@[j].0@
        &&& forall|i: int|
            #![trigger self.entries@[i]]
            0 <= i < self.entries@.len() ==> self.contents@.contains_key(self.entries@[i].0@)
                && self.contents@[self.entries@[i].0@] == self.entries@[i].1@
        &&& forall|k: Seq<char>|
            #![trigger self.contents@.contains_key(k)]
            self.contents@.contains_key(k) ==> exists|i: int|
                0 <= i < self.entries@.len() && self.entries@[i].0@ == k
    }

    pub fn new() -> (r: InputPool)
        ensures
            r.wf(),
            r@ == Map::<Seq<char>, Json>::empty(),
    {
        InputPool { entries: Vec::new(), contents: Ghost(Map::empty()) }
    }

    fn find(&self, key: &String) -> (r: Option<usize>)
        requires
            self.wf(),
        ensures
            match r {
                Some(i) => i < self.entries@.len() && self.entries@[i as int].0@ == key@,
                None => !self@.contains_key(key@),
            },
    {
        let mut i: usize = 0;
        while i < self.entries.len()
            invariant
                self.wf(),
                i <= self.entries@.len(),
                forall|j: int| 0 <= j < i ==> self.entries@[j].0@ != key@,
            decreases self.entries@.len() - i,
        {
            if self.entries[i].0 == *key {
                return Some(i);
            }
            i = i + 1;
        }
        None
    }

    pub fn contains(&self, key: &str) -> (r: bool)
        requires
            self.wf(),
        ensures
            r == self@.contains_key(key@),
    {
        let k = key.to_string();
        self.find(&k).is_some()
    }

    /// Stores `value` under `key`, replacing what was there.
    pub fn insert(&mut self, key: &str, value: InputValue)
        requires
            old(self).wf(),
        ensures
            final(self).wf(),
            final(self)@ == old(self)@.insert(key@, value@),
    {
        let k = key.to_string();
        self.insert_owned(k, value);
    }

    fn insert_owned(&mut self, k: String, value: InputValue)
        requires
            old(self).wf(),
        ensures
            final(self).wf(),
            final(self)@ == old(self)@.insert(k@, value@),
    {
        let ghost kv = k@;
        let ghost vv = value@;
        let ghost old_entries = self.entries@;
        let found = self.find(&k);
        self.contents = Ghost(self.contents@.insert(kv, vv));
        match found {
            Some(i) => {
                self.entries[i] = (k, value);
                assert forall|k2: Seq<char>| #[trigger]
                    self.contents@.contains_key(k2) implies exists|j: int|
                    0 <= j < self.entries@.len() && self.entries@[j].0@ == k2 by {
                    if k2 != kv {
                        let j = choose|j: int| 0 <= j < old_entries.len() && old_entries[j].0@ == k2;
                        assert(self.entries@[j] == old_entries[j]);
                    } else {
                        assert(self.entries@[i as int].0@ == k2);
                    }
                }
            },
            None => {
                self.entries.push((k, value));
                assert forall|k2: Seq<char>| #[trigger]
                    self.contents@.contains_key(k2) implies exists|j: int|
                    0 <= j < self.entries@.len() && self.entries@[j].0@ == k2 by {
                    if k2 != kv {
                        let j = choose|j: int| 0 <= j < old_entries.len() && old_entries[j].0@ == k2;
                        assert(self.entries@[j] == old_entries[j]);
                    } else {
                        assert(self.entries@[old_entries.len() as int].0@ == k2);
                    }
                }
            },
        }
    }

    /// The value stored under `key`.
    pub fn get(&self, key: &str) -> (r: Result<&InputValue, InputError>)
        requires
            self.wf(),
        ensures
            match r {
                Ok(v) => self@.contains_key(key@) && v@ == self@[key@],
                Err(e) => !self@.contains_key(key@) && e == InputError::NotFound,
            },
    {
        let k = key.to_string();
        match self.find(&k) {
            Some(i) => Ok(&self.entries[i].1),
            None => Err(InputError::NotFound),
        }
    }

    /// The string stored under `key`.
    pub fn get_string(&self, key: &str) -> (r: Result<String, InputError>)
        requires
            self.wf(),
        ensures
            match r {
                Ok(s) => self@.contains_key(key@) && self@[key@] == Json::Str(s@),
                Err(e) => !(self@.contains_key(key@) && self@[key@] is Str) && e == lookup_error(
                    self@,
                    key@,
                ),
            },
    {
        match self.get(key)? {
            InputValue::Str(s) => Ok(s.clone()),
            _ => Err(InputError::TypeMismatch),
        }
    }

    /// The integer stored under `key`, where it fits in a `u64`.
    pub fn get_u64(&self, key: &str) -> (r: Result<u64, InputError>)
        requires
            self.wf(),
        ensures
            match r {
                Ok(n) => self@.contains_key(key@) && self@[key@] == Json::Integer(n as int),
                Err(e) => !(self@.contains_key(key@) && self@[key@] is Integer && fits_u64(
                    self@[key@]->Integer_0,
                )) && e == lookup_error(self@, key@),
            },
    {
        match self.get(key)? {
            InputValue::Integer(n) => {
                if 0 <= *n && *n <= u64::MAX as i128 {
                    Ok(*n as u64)
                } else {
                    Err(InputError::TypeMismatch)
                }
            },
            _ => Err(InputError::TypeMismatch),
        }
    }

    /// The integer stored under `key`, where it fits in an `i64`.
    pub fn get_i64(&self, key: &str) -> (r: Result<i64, InputError>)
        requires
            self.wf(),
        ensures
            match r {
                Ok(n) => self@.contains_key(key@) && self@[key@] == Json::Integer(n as int),
                Err(e) => !(self@.contains_key(key@) && self@[key@] is Integer && fits_i64(
                    self@[key@]->Integer_0,
                )) && e == lookup_error(self@, key@),
            },
    {
        match self.get(key)? {
            InputValue::Integer(n) => {
                if i64::MIN as i128 <= *n && *n <= i64::MAX as i128 {
                    Ok(*n as i64)
                } else {
                    Err(InputError::TypeMismatch)
                }
            },
            _ => Err(InputError::TypeMismatch),
        }
    }

    /// Change detection: compares `value` with what is stored under `key`
    /// (null where nothing is), stores it when it counts as a change, and
    /// says whether it did.
    pub fn check_change(&mut self, key: &str, value: InputValue) -> (changed: bool)
        requires
            old(self).wf(),
        ensures
            final(self).wf(),
            changed == is_change(old(self)@, key@, value@),
            final(self)@ == after_detect(old(self)@, key@, value@),
    {
        let k = key.to_string();
        let changed = match self.find(&k) {
            Some(i) => {
                let prev = &self.entries[i].1;
                if value.is_null() && prev.is_null() {
                    false
                } else {
                    prev.is_null() || !value.same_as(prev)
                }
            },
            None => !value.is_null(),
        };
        if changed {
            self.insert_owned(k, value);
        }
        changed
    }
}

impl Default for InputPool {
    fn default() -> (r: InputPool)
        ensures
            r.wf(),
            r@ == Map::<Seq<char>, Json>::empty(),
    {
        InputPool::new()
    }
}

} // verus!
