//! Server-authoritative state the sidecar holds for counters, lists and
//! player tracking, with the exact acceptance and rejection rules it
//! enforces: a counter's count stays within `[0, capacity]`, a list keeps
//! unique values under its capacity bound, and operations on names that were
//! never defined are rejected. The client never computes these decisions
//! itself; this model states them so they can be reasoned about and
//! exercised locally.

use crate::errors::RpcStatus;
use vstd::prelude::*;

verus! {

/// gRPC status code for an operation on a name that was never defined.
pub const CODE_NOT_FOUND: u32 = 5;

/// gRPC status code for an update that would leave the allowed range.
pub const CODE_OUT_OF_RANGE: u32 = 11;

/// gRPC status code for a malformed argument, such as a negative amount.
pub const CODE_INVALID_ARGUMENT: u32 = 3;

/// gRPC status code for appending a value that is already present.
pub const CODE_ALREADY_EXISTS: u32 = 6;

/// Largest capacity a list accepts.
pub const LIST_CAPACITY_LIMIT: i64 = 1000;

/// A named integer counter; the server keeps `count` within
/// `[0, capacity]`.
#[derive(Clone, Debug, PartialEq)]
pub struct Counter {
    pub name: String,
    pub count: i64,
    pub capacity: i64,
}

impl Counter {
    /// A counter the server would hold: the count within its bounds.
    pub open spec fn wf(self) -> bool {
        0 <= self.count <= self.capacity
    }
}

/// A named ordered collection of unique string values with a capacity
/// bound.
#[derive(Clone, Debug, PartialEq)]
pub struct List {
    pub name: String,
    pub values: Vec<String>,
    pub capacity: i64,
}

impl List {
    /// A list the server would hold: bounded capacity, length within it,
    /// values pairwise distinct.
    pub open spec fn wf(self) -> bool {
        &&& 0 <= self.capacity <= LIST_CAPACITY_LIMIT
        &&& self.values@.len() <= self.capacity
        &&& forall|i: int, j: int|
            0 <= i < j < self.values@.len() ==> self.values@[i]@ != self.values@[j]@
    }

    /// Whether some value of the list reads `v`.
    pub open spec fn has_value(self, v: Seq<char>) -> bool {
        exists|i: int| 0 <= i < self.values@.len() && self.values@[i]@ == v
    }

    /// Index of the value that reads `v`.
    pub open spec fn value_idx(self, v: Seq<char>) -> int {
        choose|i: int| 0 <= i < self.values@.len() && self.values@[i]@ == v
    }

    /// Position of the value that reads `v`, if it is present.
    pub fn position_of(&self, v: &str) -> (r: Option<usize>)
        requires
            self.wf(),
        ensures
            match r {
                Some(i) => i < self.values@.len() && self.values@[i as int]@ == v@ && i
                    == self.value_idx(v@),
                None => !self.has_value(v@),
            },
    {
        let n = self.values.len();
        let mut i: usize = 0;
        while i < n
            invariant
                self.wf(),
                n == self.values@.len(),
                i <= n,
                forall|j: int| 0 <= j < i ==> self.values@[j]@ != v@,
            decreases n - i,
        {
            if string_eq_str(&self.values[i], v) {
                proof {
                    assert(self.has_value(v@));
                    let k = self.value_idx(v@);
                    assert(0 <= k < self.values@.len() && self.values@[k]@ == v@);
                    assert(k == i);
                }
                return Some(i);
            }
            i = i + 1;
        }
        None
    }
}

/// The sidecar's counter and list state: each name defined at most once.
#[derive(Clone, Debug, PartialEq)]
pub struct SidecarState {
    pub counters: Vec<Counter>,
    pub lists: Vec<List>,
}

impl SidecarState {
    /// Well-formed server state: every entry well formed, names unique.
    pub open spec fn wf(self) -> bool {
        &&& forall|i: int| 0 <= i < self.counters@.len() ==> (#[trigger] self.counters@[i]).wf()
        &&& forall|i: int, j: int|
            0 <= i < j < self.counters@.len()
                ==> self.counters@[i].name@ != self.counters@[j].name@
        &&& forall|i: int| 0 <= i < self.lists@.len() ==> (#[trigger] self.lists@[i]).wf()
        &&& forall|i: int, j: int|
            0 <= i < j < self.lists@.len() ==> self.lists@[i].name@ != self.lists@[j].name@
    }

    /// Whether a counter of that name was defined.
    pub open spec fn has_counter(self, name: Seq<char>) -> bool {
        exists|i: int| 0 <= i < self.counters@.len() && self.counters@[i].name@ == name
    }

    /// Index of the counter of that name.
    pub open spec fn counter_idx(self, name: Seq<char>) -> int {
        choose|i: int| 0 <= i < self.counters@.len() && self.counters@[i].name@ == name
    }

    /// The counter of that name.
    pub open spec fn counter(self, name: Seq<char>) -> Counter {
        self.counters@[self.counter_idx(name)]
    }

    /// Whether a list of that name was defined.
    pub open spec fn has_list(self, name: Seq<char>) -> bool {
        exists|i: int| 0 <= i < self.lists@.len() && self.lists@[i].name@ == name
    }

    /// Index of the list of that name.
    pub open spec fn list_idx(self, name: Seq<char>) -> int {
        choose|i: int| 0 <= i < self.lists@.len() && self.lists@[i].name@ == name
    }

    /// The list of that name.
    pub open spec fn list(self, name: Seq<char>) -> List {
        self.lists@[self.list_idx(name)]
    }

    /// Empty server state.
    pub fn new() -> (s: Self)
        ensures
            s.wf(),
            s.counters@ == Seq::<Counter>::empty(),
            s.lists@ == Seq::<List>::empty(),
    {
        SidecarState { counters: Vec::new(), lists: Vec::new() }
    }

    /// Defines a counter, as the backing resource would on creation.
    /// Rejected (and the state left unchanged) when the name is taken or
    /// the count lies outside `[0, capacity]`.
    pub fn define_counter(&mut self, name: &str, count: i64, capacity: i64) -> (r: bool)
        requires
            old(self).wf(),
        ensures
            final(self).wf(),
            r == (!old(self).has_counter(name@) && 0 <= count <= capacity),
            r ==> final(self).has_counter(name@) && final(self).counter(name@).count == count
                && final(self).counter(name@).capacity == capacity,
            r ==> final(self).counters@.len() == old(self).counters@.len() + 1
                && final(self).counters@.subrange(0, old(self).counters@.len() as int) == old(self).counters@,
            !r ==> *final(self) == *old(self),
            final(self).lists == old(self).lists,
            forall|n: Seq<char>|
                n != name@ ==> final(self).has_counter(n) == old(self).has_counter(n),
            forall|n: Seq<char>|
                old(self).has_counter(n) && n != name@ ==> final(self).counter(n) == old(self).counter(n),
    {
        let present = self.find_counter(name).is_some();
        if present || count < 0 || count > capacity {
            return false;
        }
        let c = Counter { name: name.to_owned(), count, capacity };
        proof {
            assert(c.name@ == name@);
        }
        self.counters.push(c);
        proof {
            let cs = self.counters@;
            let n = cs.len() - 1;
            assert(cs[n].name@ == name@);
            assert(self.has_counter(name@));
            let i = self.counter_idx(name@);
            assert(0 <= i < cs.len() && cs[i].name@ == name@);
            assert forall|j: int| 0 <= j < n implies cs[j].name@ != name@ by {
                assert(old(self).counters@[j] == cs[j]);
            }
            assert(i == n);
            assert(cs.subrange(0, n) =~= old(self).counters@);
            assert forall|nm: Seq<char>|
                nm != name@ implies final(self).has_counter(nm) == old(self).has_counter(
                nm,
            ) by {
                if old(self).has_counter(nm) {
                    let k = old(self).counter_idx(nm);
                    assert(cs[k].name@ == nm);
                }
                if self.has_counter(nm) {
                    let k = self.counter_idx(nm);
                    assert(0 <= k < cs.len() && cs[k].name@ == nm);
                    assert(k != n);
                    assert(old(self).counters@[k].name@ == nm);
                }
            }
            assert forall|nm: Seq<char>|
                old(self).has_counter(nm) && nm != name@ implies final(self).counter(nm) == old(self).counter(nm) by {
                let k0 = old(self).counter_idx(nm);
                assert(cs[k0].name@ == nm);
                let k1 = self.counter_idx(nm);
                assert(0 <= k1 < cs.len() && cs[k1].name@ == nm);
                assert(k1 != n);
                assert(old(self).counters@[k1].name@ == nm);
                assert(k0 == k1);
            }
        }
        true
    }

    /// Count of the counter of that name; rejected when the name was
    /// never defined.
    pub fn get_counter_count(&self, key: &str) -> (r: Result<i64, RpcStatus>)
        requires
            self.wf(),
        ensures
            self.has_counter(key@) ==> r == Ok::<i64, RpcStatus>(self.counter(key@).count),
            !self.has_counter(key@) ==> (r matches Err(st) && st.code == CODE_NOT_FOUND
                && st.message@ == "counter not found"@),
    {
        match self.find_counter(key) {
            Some(i) => Ok(self.counters[i].count),
            None => Err(RpcStatus { code: CODE_NOT_FOUND, message: not_found_counter() }),
        }
    }

    /// Capacity of the counter of that name; rejected when the name was
    /// never defined.
    pub fn get_counter_capacity(&self, key: &str) -> (r: Result<i64, RpcStatus>)
        requires
            self.wf(),
        ensures
            self.has_counter(key@) ==> r == Ok::<i64, RpcStatus>(self.counter(key@).capacity),
            !self.has_counter(key@) ==> (r matches Err(st) && st.code == CODE_NOT_FOUND
                && st.message@ == "counter not found"@),
    {
        match self.find_counter(key) {
            Some(i) => Ok(self.counters[i].capacity),
            None => Err(RpcStatus { code: CODE_NOT_FOUND, message: not_found_counter() }),
        }
    }

    /// Sets the counter's count to an absolute value. Rejected, with the
    /// state unchanged, when the name was never defined or the value lies
    /// outside `[0, capacity]`.
    pub fn set_counter_count(&mut self, key: &str, amount: i64) -> (r: Result<(), RpcStatus>)
        requires
            old(self).wf(),
        ensures
            final(self).wf(),
            !old(self).has_counter(key@) ==> (r matches Err(st) && st.code == CODE_NOT_FOUND
                && st.message@ == "counter not found"@ && *final(self) == *old(self)),
            old(self).has_counter(key@) && !(0 <= amount <= old(self).counter(key@).capacity) ==> (
            r matches Err(st) && st.code == CODE_OUT_OF_RANGE && st.message@
                == "count out of range"@ && *final(self) == *old(self)),
            old(self).has_counter(key@) && 0 <= amount <= old(self).counter(key@).capacity ==> (
            r == Ok::<(), RpcStatus>(()) && final(self).counter(key@) == (Counter {
                count: amount,
                ..old(self).counter(key@)
            }) && final(self).counters_replaced_at(*old(self), key@)),
    {
        match self.find_counter(key) {
            Some(i) => {
                let cap = self.counters[i].capacity;
                if amount < 0 || amount > cap {
                    Err(RpcStatus { code: CODE_OUT_OF_RANGE, message: out_of_range_count() })
                } else {
                    let ghost pre = *self;
                    self.counters[i].count = amount;
                    proof {
                        lemma_counter_update(pre, *self, i as int, key@);
                    }
                    Ok(())
                }
            },
            None => Err(RpcStatus { code: CODE_NOT_FOUND, message: not_found_counter() }),
        }
    }

    /// Sets the counter's capacity; the count is clamped into the new
    /// bound. Rejected, with the state unchanged, when the name was never
    /// defined or the capacity is negative.
    pub fn set_counter_capacity(&mut self, key: &str, amount: i64) -> (r: Result<(), RpcStatus>)
        requires
            old(self).wf(),
        ensures
            final(self).wf(),
            !old(self).has_counter(key@) ==> (r matches Err(st) && st.code == CODE_NOT_FOUND
                && st.message@ == "counter not found"@ && *final(self) == *old(self)),
            old(self).has_counter(key@) && amount < 0 ==> (r matches Err(st) && st.code
                == CODE_INVALID_ARGUMENT && st.message@ == "capacity must not be negative"@
                && *final(self) == *old(self)),
            old(self).has_counter(key@) && amount >= 0 ==> (r == Ok::<(), RpcStatus>(()) && final(self).counter(key@) == (Counter {
                capacity: amount,
                count: if old(self).counter(key@).count <= amount {
                    old(self).counter(key@).count
                } else {
                    amount
                },
                ..old(self).counter(key@)
            }) && final(self).counters_replaced_at(*old(self), key@)),
    {
        match self.find_counter(key) {
            Some(i) => {
                if amount < 0 {
                    Err(
                        RpcStatus {
                            code: CODE_INVALID_ARGUMENT,
                            message: negative_capacity_message(),
                        },
                    )
                } else {
                    let ghost pre = *self;
                    self.counters[i].capacity = amount;
                    if self.counters[i].count > amount {
                        self.counters[i].count = amount;
                    }
                    proof {
                        lemma_counter_update(pre, *self, i as int, key@);
                    }
                    Ok(())
                }
            },
            None => Err(RpcStatus { code: CODE_NOT_FOUND, message: not_found_counter() }),
        }
    }

    /// Increases the count by a nonnegative amount. Rejected, with the
    /// count unchanged, when the name was never defined, the amount is
    /// negative, or the new count would exceed the capacity.
    pub fn increment_counter(&mut self, key: &str, amount: i64) -> (r: Result<(), RpcStatus>)
        requires
            old(self).wf(),
        ensures
            final(self).wf(),
            !old(self).has_counter(key@) ==> (r matches Err(st) && st.code == CODE_NOT_FOUND
                && st.message@ == "counter not found"@ && *final(self) == *old(self)),
            old(self).has_counter(key@) && amount < 0 ==> (r matches Err(st) && st.code
                == CODE_INVALID_ARGUMENT && st.message@ == "amount must not be negative"@
                && *final(self) == *old(self)),
            old(self).has_counter(key@) && amount >= 0 && old(self).counter(key@).count + amount
                > old(self).counter(key@).capacity ==> (r matches Err(st) && st.code
                == CODE_OUT_OF_RANGE && st.message@ == "count out of range"@ && *final(self)
                == *old(self)),
            old(self).has_counter(key@) && amount >= 0 && old(self).counter(key@).count + amount
                <= old(self).counter(key@).capacity ==> (r == Ok::<(), RpcStatus>(()) && final(self).counter(key@) == (Counter {
                count: (old(self).counter(key@).count + amount) as i64,
                ..old(self).counter(key@)
            }) && final(self).counters_replaced_at(*old(self), key@)),
    {
        match self.find_counter(key) {
            Some(i) => {
                if amount < 0 {
                    return Err(
                        RpcStatus { code: CODE_INVALID_ARGUMENT, message: negative_amount() },
                    );
                }
                let new_count: i128 = self.counters[i].count as i128 + amount as i128;
                if new_count > self.counters[i].capacity as i128 {
                    return Err(
                        RpcStatus { code: CODE_OUT_OF_RANGE, message: out_of_range_count() },
                    );
                }
                let ghost pre = *self;
                self.counters[i].count = new_count as i64;
                proof {
                    lemma_counter_update(pre, *self, i as int, key@);
                }
                Ok(())
            },
            None => Err(RpcStatus { code: CODE_NOT_FOUND, message: not_found_counter() }),
        }
    }

    /// Decreases the count by a nonnegative amount. Rejected, with the
    /// count unchanged, when the name was never defined, the amount is
    /// negative, or the new count would fall below zero.
    pub fn decrement_counter(&mut self, key: &str, amount: i64) -> (r: Result<(), RpcStatus>)
        requires
            old(self).wf(),
        ensures
            final(self).wf(),
            !old(self).has_counter(key@) ==> (r matches Err(st) && st.code == CODE_NOT_FOUND
                && st.message@ == "counter not found"@ && *final(self) == *old(self)),
            old(self).has_counter(key@) && amount < 0 ==> (r matches Err(st) && st.code
                == CODE_INVALID_ARGUMENT && st.message@ == "amount must not be negative"@
                && *final(self) == *old(self)),
            old(self).has_counter(key@) && amount >= 0 && old(self).counter(key@).count - amount
                < 0 ==> (r matches Err(st) && st.code == CODE_OUT_OF_RANGE && st.message@
                == "count out of range"@ && *final(self) == *old(self)),
            old(self).has_counter(key@) && amount >= 0 && old(self).counter(key@).count - amount
                >= 0 ==> (r == Ok::<(), RpcStatus>(()) && final(self).counter(key@) == (Counter {
                count: (old(self).counter(key@).count - amount) as i64,
                ..old(self).counter(key@)
            }) && final(self).counters_replaced_at(*old(self), key@)),
    {
        match self.find_counter(key) {
            Some(i) => {
                if amount < 0 {
                    return Err(
                        RpcStatus { code: CODE_INVALID_ARGUMENT, message: negative_amount() },
                    );
                }
                let new_count: i128 = self.counters[i].count as i128 - amount as i128;
                if new_count < 0 {
                    return Err(
                        RpcStatus { code: CODE_OUT_OF_RANGE, message: out_of_range_count() },
                    );
                }
                let ghost pre = *self;
                self.counters[i].count = new_count as i64;
                proof {
                    lemma_counter_update(pre, *self, i as int, key@);
                }
                Ok(())
            },
            None => Err(RpcStatus { code: CODE_NOT_FOUND, message: not_found_counter() }),
        }
    }

    /// The state differs from `pre` in at most the one counter named
    /// `name`, whose name was kept: every other counter, every list, and
    /// the set of defined names are unchanged.
    pub open spec fn counters_replaced_at(self, pre: SidecarState, name: Seq<char>) -> bool {
        &&& self.lists == pre.lists
        &&& self.counters@.len() == pre.counters@.len()
        &&& forall|n: Seq<char>| self.has_counter(n) == pre.has_counter(n)
        &&& forall|n: Seq<char>|
            pre.has_counter(n) && n != name ==> self.counter(n) == pre.counter(n)
        &&& self.counter(name).name == pre.counter(name).name
    }

    /// Defines a list, as the backing resource would on creation.
    /// Rejected (and the state left unchanged) when the name is taken or
    /// the list would not be well formed.
    pub fn define_list(&mut self, name: &str, capacity: i64, values: Vec<String>) -> (r: bool)
        requires
            old(self).wf(),
        ensures
            final(self).wf(),
            r == (!old(self).has_list(name@) && 0 <= capacity <= LIST_CAPACITY_LIMIT && values@.len()
                <= capacity && (forall|i: int, j: int|
                0 <= i < j < values@.len() ==> values@[i]@ != values@[j]@)),
            r ==> final(self).has_list(name@) && final(self).list(name@).values == values && final(self).list(name@).capacity == capacity,
            r ==> final(self).lists@.len() == old(self).lists@.len() + 1 && final(self).lists@.subrange(0, old(self).lists@.len() as int) == old(self).lists@,
            !r ==> *final(self) == *old(self),
            final(self).counters == old(self).counters,
            forall|n: Seq<char>| n != name@ ==> final(self).has_list(n) == old(self).has_list(n),
            forall|n: Seq<char>|
                old(self).has_list(n) && n != name@ ==> final(self).list(n) == old(self).list(n),
    {
        let present = self.find_list(name).is_some();
        if present || capacity < 0 || capacity > LIST_CAPACITY_LIMIT {
            return false;
        }
        if values.len() > capacity as usize {
            return false;
        }
        if !values_unique(&values) {
            return false;
        }
        let l = List { name: name.to_owned(), values, capacity };
        proof {
            assert(l.name@ == name@);
            assert(l.wf());
        }
        self.lists.push(l);
        proof {
            let ls = self.lists@;
            let n = ls.len() - 1;
            assert(ls[n].name@ == name@);
            assert(self.has_list(name@));
            let i = self.list_idx(name@);
            assert(0 <= i < ls.len() && ls[i].name@ == name@);
            assert forall|j: int| 0 <= j < n implies ls[j].name@ != name@ by {
                assert(old(self).lists@[j] == ls[j]);
            }
            assert(i == n);
            assert(ls.subrange(0, n) =~= old(self).lists@);
            assert forall|nm: Seq<char>|
                nm != name@ implies final(self).has_list(nm) == old(self).has_list(nm) by {
                if old(self).has_list(nm) {
                    let k = old(self).list_idx(nm);
                    assert(ls[k].name@ == nm);
                }
                if self.has_list(nm) {
                    let k = self.list_idx(nm);
                    assert(0 <= k < ls.len() && ls[k].name@ == nm);
                    assert(k != n);
                    assert(old(self).lists@[k].name@ == nm);
                }
            }
            assert forall|nm: Seq<char>|
                old(self).has_list(nm) && nm != name@ implies final(self).list(nm) == old(self).list(nm) by {
                let k0 = old(self).list_idx(nm);
                assert(ls[k0].name@ == nm);
                let k1 = self.list_idx(nm);
                assert(0 <= k1 < ls.len() && ls[k1].name@ == nm);
                assert(k1 != n);
                assert(old(self).lists@[k1].name@ == nm);
                assert(k0 == k1);
            }
        }
        true
    }

    /// Capacity of the list of that name; rejected when the name was never
    /// defined.
    pub fn get_list_capacity(&self, key: &str) -> (r: Result<i64, RpcStatus>)
        requires
            self.wf(),
        ensures
            self.has_list(key@) ==> r == Ok::<i64, RpcStatus>(self.list(key@).capacity),
            !self.has_list(key@) ==> (r matches Err(st) && st.code == CODE_NOT_FOUND && st.message@
                == "list not found"@),
    {
        match self.find_list(key) {
            Some(i) => Ok(self.lists[i].capacity),
            None => Err(RpcStatus { code: CODE_NOT_FOUND, message: not_found_list() }),
        }
    }

    /// Length of the list of that name; rejected when the name was never
    /// defined.
    pub fn get_list_length(&self, key: &str) -> (r: Result<usize, RpcStatus>)
        requires
            self.wf(),
        ensures
            self.has_list(key@) ==> r == Ok::<usize, RpcStatus>(
                self.list(key@).values@.len() as usize,
            ),
            !self.has_list(key@) ==> (r matches Err(st) && st.code == CODE_NOT_FOUND && st.message@
                == "list not found"@),
    {
        match self.find_list(key) {
            Some(i) => Ok(self.lists[i].values.len()),
            None => Err(RpcStatus { code: CODE_NOT_FOUND, message: not_found_list() }),
        }
    }

    /// A copy of the values of the list of that name, in order; rejected
    /// when the name was never defined.
    pub fn get_list_values(&self, key: &str) -> (r: Result<Vec<String>, RpcStatus>)
        requires
            self.wf(),
        ensures
            self.has_list(key@) ==> (r matches Ok(vs) && vs@ == self.list(key@).values@),
            !self.has_list(key@) ==> (r matches Err(st) && st.code == CODE_NOT_FOUND && st.message@
                == "list not found"@),
    {
        match self.find_list(key) {
            Some(i) => Ok(clone_string_vec(&self.lists[i].values)),
            None => Err(RpcStatus { code: CODE_NOT_FOUND, message: not_found_list() }),
        }
    }

    /// Whether the list of that name holds the value; case-sensitive.
    /// Rejected when the name was never defined.
    pub fn list_contains(&self, key: &str, value: &str) -> (r: Result<bool, RpcStatus>)
        requires
            self.wf(),
        ensures
            self.has_list(key@) ==> r == Ok::<bool, RpcStatus>(self.list(key@).has_value(value@)),
            !self.has_list(key@) ==> (r matches Err(st) && st.code == CODE_NOT_FOUND && st.message@
                == "list not found"@),
    {
        match self.find_list(key) {
            Some(i) => {
                let r = self.lists[i].position_of(value).is_some();
                Ok(r)
            },
            None => Err(RpcStatus { code: CODE_NOT_FOUND, message: not_found_list() }),
        }
    }

    /// Sets the list's capacity; values beyond the new bound are dropped
    /// from the back. Rejected, with the state unchanged, when the name was
    /// never defined or the capacity lies outside the allowed range.
    pub fn set_list_capacity(&mut self, key: &str, amount: i64) -> (r: Result<(), RpcStatus>)
        requires
            old(self).wf(),
        ensures
            final(self).wf(),
            !old(self).has_list(key@) ==> (r matches Err(st) && st.code == CODE_NOT_FOUND
                && st.message@ == "list not found"@ && *final(self) == *old(self)),
            old(self).has_list(key@) && !(0 <= amount <= LIST_CAPACITY_LIMIT) ==> (r matches Err(st)
                && st.code == CODE_OUT_OF_RANGE && st.message@ == "capacity out of range"@ && *final(self) == *old(self)),
            old(self).has_list(key@) && 0 <= amount <= LIST_CAPACITY_LIMIT ==> (r == Ok::<
                (),
                RpcStatus,
            >(()) && final(self).list(key@).capacity == amount && final(self).list(key@).values@
                == old(self).list(key@).values@.take(
                if old(self).list(key@).values@.len() <= amount {
                    old(self).list(key@).values@.len() as int
                } else {
                    amount as int
                },
            ) && final(self).lists_replaced_at(*old(self), key@)),
    {
        match self.find_list(key) {
            Some(i) => {
                if amount < 0 || amount > LIST_CAPACITY_LIMIT {
                    Err(RpcStatus { code: CODE_OUT_OF_RANGE, message: out_of_range_capacity() })
                } else {
                    let ghost pre = *self;
                    self.lists[i].capacity = amount;
                    if self.lists[i].values.len() as i64 > amount {
                        self.lists[i].values.truncate(amount as usize);
                    }
                    proof {
                        assert(self.lists@[i as int].wf());
                        lemma_list_update(pre, *self, i as int, key@);
                    }
                    Ok(())
                }
            },
            None => Err(RpcStatus { code: CODE_NOT_FOUND, message: not_found_list() }),
        }
    }

    /// Appends a value to the list of that name. Rejected, with the state
    /// unchanged, when the name was never defined, the list is at capacity,
    /// or the value is already present.
    pub fn append_list_value(&mut self, key: &str, value: &str) -> (r: Result<(), RpcStatus>)
        requires
            old(self).wf(),
        ensures
            final(self).wf(),
            !old(self).has_list(key@) ==> (r matches Err(st) && st.code == CODE_NOT_FOUND
                && st.message@ == "list not found"@ && *final(self) == *old(self)),
            old(self).has_list(key@) && old(self).list(key@).values@.len() >= old(self).list(
                key@,
            ).capacity ==> (r matches Err(st) && st.code == CODE_OUT_OF_RANGE && st.message@
                == "no available capacity"@ && *final(self) == *old(self)),
            old(self).has_list(key@) && old(self).list(key@).values@.len() < old(self).list(
                key@,
            ).capacity && old(self).list(key@).has_value(value@) ==> (r matches Err(st) && st.code
                == CODE_ALREADY_EXISTS && st.message@ == "already exists"@ && *final(self) == *old(self)),
            old(self).has_list(key@) && old(self).list(key@).values@.len() < old(self).list(
                key@,
            ).capacity && !old(self).list(key@).has_value(value@) ==> (r == Ok::<(), RpcStatus>(())
                && final(self).list(key@).values@.len() == old(self).list(key@).values@.len() + 1
                && final(self).list(key@).values@.drop_last() == old(self).list(key@).values@
                && final(self).list(key@).values@.last()@ == value@ && final(self).list(
                key@,
            ).capacity == old(self).list(key@).capacity && final(self).lists_replaced_at(
                *old(self),
                key@,
            )),
    {
        match self.find_list(key) {
            Some(i) => {
                if self.lists[i].values.len() as i64 >= self.lists[i].capacity {
                    return Err(
                        RpcStatus { code: CODE_OUT_OF_RANGE, message: no_available_capacity() },
                    );
                }
                if self.lists[i].position_of(value).is_some() {
                    return Err(
                        RpcStatus { code: CODE_ALREADY_EXISTS, message: already_exists() },
                    );
                }
                let ghost pre = *self;
                self.lists[i].values.push(value.to_owned());
                proof {
                    let vs = self.lists@[i as int].values@;
                    assert(vs.drop_last() =~= pre.lists@[i as int].values@);
                    assert forall|p: int, q: int| 0 <= p < q < vs.len() implies vs[p]@
                        != vs[q]@ by {
                        if q == vs.len() - 1 {
                            assert(!pre.lists@[i as int].has_value(value@));
                            assert(pre.lists@[i as int].values@[p]@ != value@);
                        }
                    }
                    assert(self.lists@[i as int].wf());
                    lemma_list_update(pre, *self, i as int, key@);
                }
                Ok(())
            },
            None => Err(RpcStatus { code: CODE_NOT_FOUND, message: not_found_list() }),
        }
    }

    /// Removes a value from the list of that name. Rejected, with the
    /// state unchanged, when the name was never defined or the value is
    /// absent.
    pub fn delete_list_value(&mut self, key: &str, value: &str) -> (r: Result<(), RpcStatus>)
        requires
            old(self).wf(),
        ensures
            final(self).wf(),
            !old(self).has_list(key@) ==> (r matches Err(st) && st.code == CODE_NOT_FOUND
                && st.message@ == "list not found"@ && *final(self) == *old(self)),
            old(self).has_list(key@) && !old(self).list(key@).has_value(value@) ==> (r matches Err(
                st,
            ) && st.code == CODE_NOT_FOUND && st.message@ == "value not found"@ && *final(self)
                == *old(self)),
            old(self).has_list(key@) && old(self).list(key@).has_value(value@) ==> (r == Ok::<
                (),
                RpcStatus,
            >(()) && final(self).list(key@).values@ == old(self).list(key@).values@.remove(
                old(self).list(key@).value_idx(value@),
            ) && final(self).list(key@).capacity == old(self).list(key@).capacity && final(self).lists_replaced_at(*old(self), key@)),
    {
        match self.find_list(key) {
            Some(i) => {
                match self.lists[i].position_of(value) {
                    Some(pos) => {
                        let ghost pre = *self;
                        let _ = self.lists[i].values.remove(pos);
                        proof {
                            let before = pre.lists@[i as int].values@;
                            let vs = self.lists@[i as int].values@;
                            assert(vs =~= before.remove(pos as int));
                            assert forall|p: int, q: int| 0 <= p < q < vs.len() implies vs[p]@
                                != vs[q]@ by {
                                let p0 = if p < pos { p } else { p + 1 };
                                let q0 = if q < pos { q } else { q + 1 };
                                assert(vs[p] == before[p0]);
                                assert(vs[q] == before[q0]);
                            }
                            assert(self.lists@[i as int].wf());
                            lemma_list_update(pre, *self, i as int, key@);
                        }
                        Ok(())
                    },
                    None => Err(RpcStatus { code: CODE_NOT_FOUND, message: not_found_value() }),
                }
            },
            None => Err(RpcStatus { code: CODE_NOT_FOUND, message: not_found_list() }),
        }
    }

    /// The state differs from `pre` in at most the one list named `name`,
    /// whose name was kept: every other list, every counter, and the set of
    /// defined names are unchanged.
    pub open spec fn lists_replaced_at(self, pre: SidecarState, name: Seq<char>) -> bool {
        &&& self.counters == pre.counters
        &&& self.lists@.len() == pre.lists@.len()
        &&& forall|n: Seq<char>| self.has_list(n) == pre.has_list(n)
        &&& forall|n: Seq<char>| pre.has_list(n) && n != name ==> self.list(n) == pre.list(n)
        &&& self.list(name).name == pre.list(name).name
    }

    /// Position of the list of that name, if one was defined.
    fn find_list(&self, key: &str) -> (r: Option<usize>)
        requires
            self.wf(),
        ensures
            match r {
                Some(i) => i < self.lists@.len() && self.lists@[i as int].name@ == key@ && i
                    == self.list_idx(key@),
                None => !self.has_list(key@),
            },
    {
        let n = self.lists.len();
        let mut i: usize = 0;
        while i < n
            invariant
                self.wf(),
                n == self.lists@.len(),
                i <= n,
                forall|j: int| 0 <= j < i ==> self.lists@[j].name@ != key@,
            decreases n - i,
        {
            if string_eq_str(&self.lists[i].name, key) {
                proof {
                    assert(self.has_list(key@));
                    let k = self.list_idx(key@);
                    assert(0 <= k < self.lists@.len() && self.lists@[k].name@ == key@);
                    assert(k == i);
                }
                return Some(i);
            }
            i = i + 1;
        }
        None
    }

    /// Position of the counter of that name, if one was defined.
    fn find_counter(&self, key: &str) -> (r: Option<usize>)
        requires
            self.wf(),
        ensures
            match r {
                Some(i) => i < self.counters@.len() && self.counters@[i as int].name@ == key@ && i
                    == self.counter_idx(key@),
                None => !self.has_counter(key@),
            },
    {
        let n = self.counters.len();
        let mut i: usize = 0;
        while i < n
            invariant
                self.wf(),
                n == self.counters@.len(),
                i <= n,
                forall|j: int| 0 <= j < i ==> self.counters@[j].name@ != key@,
            decreases n - i,
        {
            if string_eq_str(&self.counters[i].name, key) {
                proof {
                    assert(self.has_counter(key@));
                    let k = self.counter_idx(key@);
                    assert(0 <= k < self.counters@.len() && self.counters@[k].name@ == key@);
                    assert(k == i);
                }
                return Some(i);
            }
            i = i + 1;
        }
        None
    }
}

/// After replacing the entry at index `i` — its name kept — by another
/// well-formed counter, the state is still well formed, the defined names
/// are the same, and every other counter is untouched.
proof fn lemma_counter_update(pre: SidecarState, post: SidecarState, i: int, name: Seq<char>)
    requires
        pre.wf(),
        0 <= i < pre.counters@.len(),
        pre.counters@[i].name@ == name,
        post.counters@ =~= pre.counters@.update(i, post.counters@[i]),
        post.counters@[i].name == pre.counters@[i].name,
        post.counters@[i].wf(),
        post.lists == pre.lists,
    ensures
        post.wf(),
        post.counter_idx(name) == i,
        pre.counter_idx(name) == i,
        post.counter(name) == post.counters@[i],
        pre.counter(name) == pre.counters@[i],
        post.counters_replaced_at(pre, name),
{
    assert(forall|j: int|
        0 <= j < post.counters@.len() ==> post.counters@[j].name == pre.counters@[j].name);
    assert(post.wf());
    assert(post.has_counter(name) && pre.has_counter(name));
    let ip = post.counter_idx(name);
    assert(0 <= ip < post.counters@.len() && post.counters@[ip].name@ == name);
    assert(pre.counters@[ip].name@ == name);
    assert(ip == i);
    let iq = pre.counter_idx(name);
    assert(0 <= iq < pre.counters@.len() && pre.counters@[iq].name@ == name);
    assert(iq == i);
    assert forall|n: Seq<char>| post.has_counter(n) == pre.has_counter(n) by {
        if post.has_counter(n) {
            let k = post.counter_idx(n);
            assert(0 <= k < post.counters@.len() && post.counters@[k].name@ == n);
            if k == i {
                assert(pre.counters@[i].name@ == n);
            } else {
                assert(pre.counters@[k].name@ == n);
            }
            assert(pre.has_counter(n));
        }
        if pre.has_counter(n) {
            let k = pre.counter_idx(n);
            assert(0 <= k < pre.counters@.len() && pre.counters@[k].name@ == n);
            if k == i {
                assert(post.counters@[i].name@ == n);
            } else {
                assert(post.counters@[k].name@ == n);
            }
            assert(post.has_counter(n));
        }
    }
    assert forall|n: Seq<char>|
        pre.has_counter(n) && n != name implies post.counter(n) == pre.counter(n) by {
        let k = pre.counter_idx(n);
        assert(0 <= k < pre.counters@.len() && pre.counters@[k].name@ == n);
        assert(k != i);
        assert(post.counters@[k].name@ == n);
        let kp = post.counter_idx(n);
        assert(0 <= kp < post.counters@.len() && post.counters@[kp].name@ == n);
        if kp == i {
            assert(post.counters@[i].name@ == name);
        }
        assert(kp != i);
        assert(pre.counters@[kp].name@ == n);
        assert(kp == k);
        assert(post.counters@[k] == pre.counters@[k]);
    }
}

/// Player-tracking state the sidecar holds: a capacity and the ordered,
/// duplicate-free ids of the currently connected players.
#[derive(Clone, Debug, PartialEq)]
pub struct PlayerRegistry {
    pub capacity: i64,
    pub ids: Vec<String>,
}

impl PlayerRegistry {
    /// Well-formed registry: nonnegative capacity, ids pairwise distinct,
    /// count expressible as a signed 64-bit value.
    pub open spec fn wf(self) -> bool {
        &&& 0 <= self.capacity
        &&& self.ids@.len() <= i64::MAX
        &&& forall|i: int, j: int| 0 <= i < j < self.ids@.len() ==> self.ids@[i]@ != self.ids@[j]@
    }

    /// Whether a player of that id is connected.
    pub open spec fn has_player(self, id: Seq<char>) -> bool {
        exists|i: int| 0 <= i < self.ids@.len() && self.ids@[i]@ == id
    }

    /// Index of the player of that id.
    pub open spec fn player_idx(self, id: Seq<char>) -> int {
        choose|i: int| 0 <= i < self.ids@.len() && self.ids@[i]@ == id
    }

    /// Empty registry: no capacity, nobody connected.
    pub fn new() -> (r: Self)
        ensures
            r.wf(),
            r.capacity == 0,
            r.ids@ == Seq::<String>::empty(),
    {
        PlayerRegistry { capacity: 0, ids: Vec::new() }
    }

    /// Sets the player capacity; a negative value is rejected and the
    /// state left unchanged.
    pub fn set_player_capacity(&mut self, count: i64) -> (r: Result<(), RpcStatus>)
        requires
            old(self).wf(),
        ensures
            final(self).wf(),
            count < 0 ==> (r matches Err(st) && st.code == CODE_INVALID_ARGUMENT && st.message@
                == "capacity must not be negative"@ && *final(self) == *old(self)),
            count >= 0 ==> r == Ok::<(), RpcStatus>(()) && final(self).capacity == count && final(self).ids == old(self).ids,
    {
        if count < 0 {
            Err(RpcStatus { code: CODE_INVALID_ARGUMENT, message: negative_capacity_message() })
        } else {
            self.capacity = count;
            Ok(())
        }
    }

    /// The player capacity last set.
    pub fn get_player_capacity(&self) -> (r: i64)
        ensures
            r == self.capacity,
    {
        self.capacity
    }

    /// Connects a player: the id is appended and the count grows by one.
    /// An id already connected is not added again (`Ok(false)`); a
    /// registry at capacity rejects the connect.
    pub fn player_connect(&mut self, id: &str) -> (r: Result<bool, RpcStatus>)
        requires
            old(self).wf(),
        ensures
            final(self).wf(),
            old(self).has_player(id@) ==> r == Ok::<bool, RpcStatus>(false) && *final(self) == *old(self),
            !old(self).has_player(id@) && old(self).ids@.len() >= old(self).capacity ==> (r
                matches Err(st) && st.code == CODE_OUT_OF_RANGE && st.message@
                == "players are full"@ && *final(self) == *old(self)),
            !old(self).has_player(id@) && old(self).ids@.len() < old(self).capacity ==> (r == Ok::<
                bool,
                RpcStatus,
            >(true) && final(self).ids@.len() == old(self).ids@.len() + 1 && final(self).ids@.drop_last() == old(self).ids@ && final(self).ids@.last()@ == id@ && final(self).capacity == old(self).capacity),
    {
        if self.position_of_player(id).is_some() {
            return Ok(false);
        }
        if self.ids.len() as i64 >= self.capacity {
            return Err(RpcStatus { code: CODE_OUT_OF_RANGE, message: players_full() });
        }
        let ghost pre = *self;
        self.ids.push(id.to_owned());
        proof {
            let vs = self.ids@;
            assert(vs.drop_last() =~= pre.ids@);
            assert forall|p: int, q: int| 0 <= p < q < vs.len() implies vs[p]@ != vs[q]@ by {
                if q == vs.len() - 1 {
                    assert(!pre.has_player(id@));
                    assert(pre.ids@[p]@ != id@);
                }
            }
        }
        Ok(true)
    }

    /// Disconnects a player: the id is removed and the count shrinks by
    /// one. Returns whether the id was connected.
    pub fn player_disconnect(&mut self, id: &str) -> (r: bool)
        requires
            old(self).wf(),
        ensures
            final(self).wf(),
            r == old(self).has_player(id@),
            !r ==> *final(self) == *old(self),
            r ==> final(self).ids@ == old(self).ids@.remove(old(self).player_idx(id@)) && final(self).capacity == old(self).capacity,
    {
        match self.position_of_player(id) {
            Some(pos) => {
                let ghost pre = *self;
                let _ = self.ids.remove(pos);
                proof {
                    let before = pre.ids@;
                    let vs = self.ids@;
                    assert(vs =~= before.remove(pos as int));
                    assert forall|p: int, q: int| 0 <= p < q < vs.len() implies vs[p]@
                        != vs[q]@ by {
                        let p0 = if p < pos { p } else { p + 1 };
                        let q0 = if q < pos { q } else { q + 1 };
                        assert(vs[p] == before[p0]);
                        assert(vs[q] == before[q0]);
                    }
                }
                true
            },
            None => false,
        }
    }

    /// How many players are connected.
    pub fn get_player_count(&self) -> (r: i64)
        requires
            self.wf(),
        ensures
            r == self.ids@.len(),
    {
        self.ids.len() as i64
    }

    /// Whether the player of that id is currently connected.
    pub fn is_player_connected(&self, id: &str) -> (r: bool)
        requires
            self.wf(),
        ensures
            r == self.has_player(id@),
    {
        self.position_of_player(id).is_some()
    }

    /// A copy of the connected ids, in connection order.
    pub fn get_connected_players(&self) -> (r: Vec<String>)
        ensures
            r@ == self.ids@,
    {
        clone_string_vec(&self.ids)
    }

    /// Position of the id, if connected.
    fn position_of_player(&self, id: &str) -> (r: Option<usize>)
        requires
            self.wf(),
        ensures
            match r {
                Some(i) => i < self.ids@.len() && self.ids@[i as int]@ == id@ && i
                    == self.player_idx(id@) && self.has_player(id@),
                None => !self.has_player(id@),
            },
    {
        let n = self.ids.len();
        let mut i: usize = 0;
        while i < n
            invariant
                self.wf(),
                n == self.ids@.len(),
                i <= n,
                forall|j: int| 0 <= j < i ==> self.ids@[j]@ != id@,
            decreases n - i,
        {
            if string_eq_str(&self.ids[i], id) {
                proof {
                    assert(self.has_player(id@));
                    let k = self.player_idx(id@);
                    assert(0 <= k < self.ids@.len() && self.ids@[k]@ == id@);
                    assert(k == i);
                }
                return Some(i);
            }
            i = i + 1;
        }
        None
    }
}

/// Message of the rejection of a connect beyond the player capacity.
fn players_full() -> (s: String)
    ensures
        s@ == "players are full"@,
{
    "players are full".to_owned()
}

/// After replacing the entry at index `i` — its name kept — by another
/// well-formed list, the state is still well formed, the defined names are
/// the same, and every other list is untouched.
proof fn lemma_list_update(pre: SidecarState, post: SidecarState, i: int, name: Seq<char>)
    requires
        pre.wf(),
        0 <= i < pre.lists@.len(),
        pre.lists@[i].name@ == name,
        post.lists@ =~= pre.lists@.update(i, post.lists@[i]),
        post.lists@[i].name == pre.lists@[i].name,
        post.lists@[i].wf(),
        post.counters == pre.counters,
    ensures
        post.wf(),
        post.list_idx(name) == i,
        pre.list_idx(name) == i,
        post.list(name) == post.lists@[i],
        pre.list(name) == pre.lists@[i],
        post.lists_replaced_at(pre, name),
{
    assert(forall|j: int| 0 <= j < post.lists@.len() ==> post.lists@[j].name == pre.lists@[j].name);
    assert(post.wf());
    assert(post.has_list(name) && pre.has_list(name));
    let ip = post.list_idx(name);
    assert(0 <= ip < post.lists@.len() && post.lists@[ip].name@ == name);
    assert(pre.lists@[ip].name@ == name);
    assert(ip == i);
    let iq = pre.list_idx(name);
    assert(0 <= iq < pre.lists@.len() && pre.lists@[iq].name@ == name);
    assert(iq == i);
    assert forall|n: Seq<char>| post.has_list(n) == pre.has_list(n) by {
        if post.has_list(n) {
            let k = post.list_idx(n);
            assert(0 <= k < post.lists@.len() && post.lists@[k].name@ == n);
            if k == i {
                assert(pre.lists@[i].name@ == n);
            } else {
                assert(pre.lists@[k].name@ == n);
            }
            assert(pre.has_list(n));
        }
        if pre.has_list(n) {
            let k = pre.list_idx(n);
            assert(0 <= k < pre.lists@.len() && pre.lists@[k].name@ == n);
            if k == i {
                assert(post.lists@[i].name@ == n);
            } else {
                assert(post.lists@[k].name@ == n);
            }
            assert(post.has_list(n));
        }
    }
    assert forall|n: Seq<char>| pre.has_list(n) && n != name implies post.list(n) == pre.list(
        n,
    ) by {
        let k = pre.list_idx(n);
        assert(0 <= k < pre.lists@.len() && pre.lists@[k].name@ == n);
        assert(k != i);
        assert(post.lists@[k].name@ == n);
        let kp = post.list_idx(n);
        assert(0 <= kp < post.lists@.len() && post.lists@[kp].name@ == n);
        if kp == i {
            assert(post.lists@[i].name@ == name);
        }
        assert(kp != i);
        assert(pre.lists@[kp].name@ == n);
        assert(kp == k);
        assert(post.lists@[k] == pre.lists@[k]);
    }
}

/// Whether the values are pairwise distinct.
fn values_unique(values: &Vec<String>) -> (r: bool)
    ensures
        r == (forall|i: int, j: int|
            0 <= i < j < values@.len() ==> values@[i]@ != values@[j]@),
{
    let n = values.len();
    let mut i: usize = 0;
    while i < n
        invariant
            n == values@.len(),
            i <= n,
            forall|p: int, q: int| 0 <= p < q < i ==> values@[p]@ != values@[q]@,
        decreases n - i,
    {
        let mut j: usize = 0;
        while j < i
            invariant
                n == values@.len(),
                i < n,
                j <= i,
                forall|p: int, q: int| 0 <= p < q < i ==> values@[p]@ != values@[q]@,
                forall|p: int| 0 <= p < j ==> values@[p]@ != values@[i as int]@,
            decreases i - j,
        {
            if string_eq_str(&values[j], values[i].as_str()) {
                return false;
            }
            j = j + 1;
        }
        i = i + 1;
    }
    true
}

/// A copy of a vector of strings, element for element.
fn clone_string_vec(v: &Vec<String>) -> (r: Vec<String>)
    ensures
        r@ == v@,
{
    let n = v.len();
    let mut r: Vec<String> = Vec::new();
    let mut i: usize = 0;
    while i < n
        invariant
            n == v@.len(),
            i <= n,
            r@ =~= v@.subrange(0, i as int),
        decreases n - i,
    {
        r.push(v[i].clone());
        proof {
            assert(v@.subrange(0, i + 1 as int) =~= v@.subrange(0, i as int).push(v@[i as int]));
        }
        i = i + 1;
    }
    proof {
        assert(v@.subrange(0, n as int) =~= v@);
    }
    r
}

/// Message of the rejection of an operation on an undefined list.
fn not_found_list() -> (s: String)
    ensures
        s@ == "list not found"@,
{
    "list not found".to_owned()
}

/// Message of the rejection of a removal of an absent value.
fn not_found_value() -> (s: String)
    ensures
        s@ == "value not found"@,
{
    "value not found".to_owned()
}

/// Message of the rejection of a list capacity outside the allowed range.
fn out_of_range_capacity() -> (s: String)
    ensures
        s@ == "capacity out of range"@,
{
    "capacity out of range".to_owned()
}

/// Message of the rejection of an append to a full list.
fn no_available_capacity() -> (s: String)
    ensures
        s@ == "no available capacity"@,
{
    "no available capacity".to_owned()
}

/// Message of the rejection of an append of a value already present.
fn already_exists() -> (s: String)
    ensures
        s@ == "already exists"@,
{
    "already exists".to_owned()
}

/// Message of the rejection of an operation on an undefined counter.
fn not_found_counter() -> (s: String)
    ensures
        s@ == "counter not found"@,
{
    "counter not found".to_owned()
}

/// Message of the rejection of a count that would leave `[0, capacity]`.
fn out_of_range_count() -> (s: String)
    ensures
        s@ == "count out of range"@,
{
    "count out of range".to_owned()
}

/// Message of the rejection of a negative capacity.
fn negative_capacity_message() -> (s: String)
    ensures
        s@ == "capacity must not be negative"@,
{
    "capacity must not be negative".to_owned()
}

/// Message of the rejection of a negative increment or decrement amount.
fn negative_amount() -> (s: String)
    ensures
        s@ == "amount must not be negative"@,
{
    "amount must not be negative".to_owned()
}

/// Whether a `String` and a `&str` read the same characters.
pub fn string_eq_str(a: &String, b: &str) -> (r: bool)
    ensures
        r == (a@ == b@),
{
    *a == b.to_owned()
}

} // verus!

