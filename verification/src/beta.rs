//! Beta is an instance of the counter-and-list SDK surface: stateless
//! one-shot calls over the shared channel. Each method prepares the exact
//! request the wire protocol defines — the server alone enforces the
//! bounds — and the response interpreters below turn what came back into
//! plain values.

use crate::endpoint::Channel;
use crate::errors::{Error, RpcStatus};
use crate::proto;
use crate::sidecar::string_eq_str;
use vstd::prelude::*;

verus! {

/// One call on the counter-and-list service, ready for the transport.
#[derive(Clone, Debug, PartialEq)]
pub enum BetaRequest {
    GetCounter(proto::GetCounterRequest),
    UpdateCounter(proto::UpdateCounterRequest),
    GetList(proto::GetListRequest),
    UpdateList(proto::UpdateListRequest),
    AddListValue(proto::AddListValueRequest),
    RemoveListValue(proto::RemoveListValueRequest),
}

/// Beta is an instance of the counter-and-list SDK.
#[derive(Clone, Debug)]
pub struct Beta {
    /// The shared transport handle.
    pub channel: Channel,
}

impl Beta {
    /// A new instance over the given channel.
    pub(crate) fn new(ch: Channel) -> (r: Self)
        ensures
            r.channel == ch,
    {
        Beta { channel: ch }
    }

    /// The read behind the count of a counter, given the counter's key.
    /// The server errors if the key was not predefined on creation.
    pub fn get_counter_count(&self, key: &str) -> (r: BetaRequest)
        ensures
            r matches BetaRequest::GetCounter(g) && g.name@ == key@,
    {
        BetaRequest::GetCounter(proto::GetCounterRequest { name: key.to_owned() })
    }

    /// The update that increases a counter by a nonnegative amount: a bare
    /// positive delta, no absolute count, no capacity. The server rejects
    /// a delta that would pass the capacity and leaves the count unchanged.
    pub fn increment_counter(&self, key: &str, amount: i64) -> (r: BetaRequest)
        ensures
            r matches BetaRequest::UpdateCounter(u) && u.counter_update_request matches Some(c)
                && c.name@ == key@ && c.count is None && c.capacity is None && c.count_diff
                == amount,
    {
        BetaRequest::UpdateCounter(
            proto::UpdateCounterRequest {
                counter_update_request: Some(
                    proto::CounterUpdateRequest {
                        name: key.to_owned(),
                        count: None,
                        capacity: None,
                        count_diff: amount,
                    },
                ),
            },
        )
    }

    /// The update that decreases a counter by a nonnegative amount: the
    /// negated delta on the wire. The server rejects a delta that would
    /// fall below zero and leaves the count unchanged.
    pub fn decrement_counter(&self, key: &str, amount: i64) -> (r: BetaRequest)
        requires
            0 <= amount,
        ensures
            r matches BetaRequest::UpdateCounter(u) && u.counter_update_request matches Some(c)
                && c.name@ == key@ && c.count is None && c.capacity is None && c.count_diff == -amount,
    {
        BetaRequest::UpdateCounter(
            proto::UpdateCounterRequest {
                counter_update_request: Some(
                    proto::CounterUpdateRequest {
                        name: key.to_owned(),
                        count: None,
                        capacity: None,
                        count_diff: -amount,
                    },
                ),
            },
        )
    }

    /// The update that sets a counter to an absolute count, overwriting
    /// any previous value; it cannot pass the capacity.
    pub fn set_counter_count(&self, key: &str, amount: i64) -> (r: BetaRequest)
        ensures
            r matches BetaRequest::UpdateCounter(u) && u.counter_update_request matches Some(c)
                && c.name@ == key@ && c.count == Some(amount) && c.capacity is None && c.count_diff
                == 0,
    {
        BetaRequest::UpdateCounter(
            proto::UpdateCounterRequest {
                counter_update_request: Some(
                    proto::CounterUpdateRequest {
                        name: key.to_owned(),
                        count: Some(amount),
                        capacity: None,
                        count_diff: 0,
                    },
                ),
            },
        )
    }

    /// The read behind the capacity of a counter, given the counter's key.
    pub fn get_counter_capacity(&self, key: &str) -> (r: BetaRequest)
        ensures
            r matches BetaRequest::GetCounter(g) && g.name@ == key@,
    {
        BetaRequest::GetCounter(proto::GetCounterRequest { name: key.to_owned() })
    }

    /// The update that sets a counter's capacity; zero means no capacity.
    pub fn set_counter_capacity(&self, key: &str, amount: i64) -> (r: BetaRequest)
        ensures
            r matches BetaRequest::UpdateCounter(u) && u.counter_update_request matches Some(c)
                && c.name@ == key@ && c.count is None && c.capacity == Some(amount) && c.count_diff
                == 0,
    {
        BetaRequest::UpdateCounter(
            proto::UpdateCounterRequest {
                counter_update_request: Some(
                    proto::CounterUpdateRequest {
                        name: key.to_owned(),
                        count: None,
                        capacity: Some(amount),
                        count_diff: 0,
                    },
                ),
            },
        )
    }

    /// The read behind the capacity of a list, given the list's key.
    pub fn get_list_capacity(&self, key: &str) -> (r: BetaRequest)
        ensures
            r matches BetaRequest::GetList(g) && g.name@ == key@,
    {
        BetaRequest::GetList(proto::GetListRequest { name: key.to_owned() })
    }

    /// The masked update that sets a list's capacity — between 0 and 1000 —
    /// and touches nothing else of the list.
    pub fn set_list_capacity(&self, key: &str, amount: i64) -> (r: BetaRequest)
        ensures
            ({
                &&& r matches BetaRequest::UpdateList(u)
                &&& u.list matches Some(l)
                &&& l.name@ == key@
                &&& l.capacity == amount
                &&& l.values@.len() == 0
                &&& u.update_mask matches Some(m)
                &&& m.paths@.len() == 1
                &&& m.paths@[0]@ == "capacity"@
            }),
    {
        BetaRequest::UpdateList(
            proto::UpdateListRequest {
                list: Some(
                    proto::List { name: key.to_owned(), capacity: amount, values: Vec::new() },
                ),
                update_mask: Some(proto::FieldMask { paths: capacity_mask_paths() }),
            },
        )
    }

    /// The read behind the membership test of a value in a list.
    pub fn list_contains(&self, key: &str, _value: &str) -> (r: BetaRequest)
        ensures
            r matches BetaRequest::GetList(g) && g.name@ == key@,
    {
        BetaRequest::GetList(proto::GetListRequest { name: key.to_owned() })
    }

    /// The read behind the length of a list's values.
    pub fn get_list_length(&self, key: &str) -> (r: BetaRequest)
        ensures
            r matches BetaRequest::GetList(g) && g.name@ == key@,
    {
        BetaRequest::GetList(proto::GetListRequest { name: key.to_owned() })
    }

    /// The read behind the values of a list, given the list's key.
    pub fn get_list_values(&self, key: &str) -> (r: BetaRequest)
        ensures
            r matches BetaRequest::GetList(g) && g.name@ == key@,
    {
        BetaRequest::GetList(proto::GetListRequest { name: key.to_owned() })
    }

    /// The call that appends a value to a list. The server rejects a value
    /// already present and an append beyond the capacity.
    pub fn append_list_value(&self, key: &str, value: &str) -> (r: BetaRequest)
        ensures
            r matches BetaRequest::AddListValue(a) && a.name@ == key@ && a.value@ == value@,
    {
        BetaRequest::AddListValue(
            proto::AddListValueRequest { name: key.to_owned(), value: value.to_owned() },
        )
    }

    /// The call that removes a value from a list. The server rejects a
    /// value that is not present.
    pub fn delete_list_value(&self, key: &str, value: &str) -> (r: BetaRequest)
        ensures
            r matches BetaRequest::RemoveListValue(d) && d.name@ == key@ && d.value@ == value@,
    {
        BetaRequest::RemoveListValue(
            proto::RemoveListValueRequest { name: key.to_owned(), value: value.to_owned() },
        )
    }

    /// A counter reply read for its count.
    pub fn counter_count_response(outcome: Result<proto::Counter, RpcStatus>) -> (r: Result<
        i64,
        Error,
    >)
        ensures
            match outcome {
                Ok(c) => r == Ok::<i64, Error>(c.count),
                Err(st) => r == Err::<i64, Error>(Error::Rpc(st)),
            },
    {
        match outcome {
            Ok(c) => Ok(c.count),
            Err(st) => Err(Error::Rpc(st)),
        }
    }

    /// A counter reply read for its capacity.
    pub fn counter_capacity_response(outcome: Result<proto::Counter, RpcStatus>) -> (r: Result<
        i64,
        Error,
    >)
        ensures
            match outcome {
                Ok(c) => r == Ok::<i64, Error>(c.capacity),
                Err(st) => r == Err::<i64, Error>(Error::Rpc(st)),
            },
    {
        match outcome {
            Ok(c) => Ok(c.capacity),
            Err(st) => Err(Error::Rpc(st)),
        }
    }

    /// A list reply read for its capacity.
    pub fn list_capacity_response(outcome: Result<proto::List, RpcStatus>) -> (r: Result<
        i64,
        Error,
    >)
        ensures
            match outcome {
                Ok(l) => r == Ok::<i64, Error>(l.capacity),
                Err(st) => r == Err::<i64, Error>(Error::Rpc(st)),
            },
    {
        match outcome {
            Ok(l) => Ok(l.capacity),
            Err(st) => Err(Error::Rpc(st)),
        }
    }

    /// A list reply read for the length of its values.
    pub fn list_length_response(outcome: Result<proto::List, RpcStatus>) -> (r: Result<
        usize,
        Error,
    >)
        ensures
            match outcome {
                Ok(l) => r == Ok::<usize, Error>((l.values@.len() as usize)),
                Err(st) => r == Err::<usize, Error>(Error::Rpc(st)),
            },
    {
        match outcome {
            Ok(l) => Ok(l.values.len()),
            Err(st) => Err(Error::Rpc(st)),
        }
    }

    /// A list reply read for its values.
    pub fn list_values_response(outcome: Result<proto::List, RpcStatus>) -> (r: Result<
        Vec<String>,
        Error,
    >)
        ensures
            match outcome {
                Ok(l) => (r matches Ok(v) && v == l.values),
                Err(st) => r == Err::<Vec<String>, Error>(Error::Rpc(st)),
            },
    {
        match outcome {
            Ok(l) => Ok(l.values),
            Err(st) => Err(Error::Rpc(st)),
        }
    }

    /// A list reply tested for one value, case-sensitive.
    pub fn list_contains_response(outcome: Result<proto::List, RpcStatus>, value: &str) -> (r:
        Result<bool, Error>)
        ensures
            match outcome {
                Ok(l) => (r matches Ok(b) && b == exists|i: int|
                    0 <= i < l.values@.len() && l.values@[i]@ == value@),
                Err(st) => r == Err::<bool, Error>(Error::Rpc(st)),
            },
    {
        match outcome {
            Ok(l) => Ok(values_contain(&l.values, value)),
            Err(st) => Err(Error::Rpc(st)),
        }
    }
}

/// Whether some element of `values` reads `value`; case-sensitive.
pub fn values_contain(values: &Vec<String>, value: &str) -> (r: bool)
    ensures
        r == exists|i: int| 0 <= i < values@.len() && values@[i]@ == value@,
{
    let n = values.len();
    let mut i: usize = 0;
    while i < n
        invariant
            n == values@.len(),
            i <= n,
            forall|j: int| 0 <= j < i ==> values@[j]@ != value@,
        decreases n - i,
    {
        if string_eq_str(&values[i], value) {
            return true;
        }
        i = i + 1;
    }
    false
}

/// The one-path field mask of a capacity-only list update.
fn capacity_mask_paths() -> (r: Vec<String>)
    ensures
        r@.len() == 1,
        r@[0]@ == "capacity"@,
{
    let mut v: Vec<String> = Vec::new();
    v.push("capacity".to_owned());
    v
}

} // verus!
