//! The order of user and chat identifiers: that of their raw identifiers.
use std::cmp::Ordering;
use vstd::prelude::*;
use vstd::std_specs::cmp::PartialOrdSpec;
use crate::ids::{ChatId, UserId};

verus! {

impl PartialOrd for UserId {
    fn partial_cmp(&self, other: &Self) -> (r: Option<Ordering>) {
        let a = self.as_i64();
        let b = other.as_i64();
        if a < b {
            Some(Ordering::Less)
        } else if a > b {
            Some(Ordering::Greater)
        } else {
            Some(Ordering::Equal)
        }
    }
}

impl vstd::std_specs::cmp::PartialOrdSpecImpl for UserId {
    open spec fn obeys_partial_cmp_spec() -> bool {
        true
    }

    open spec fn partial_cmp_spec(&self, other: &Self) -> Option<Ordering> {
        if self@ < other@ {
            Some(Ordering::Less)
        } else if self@ > other@ {
            Some(Ordering::Greater)
        } else {
            Some(Ordering::Equal)
        }
    }
}

impl PartialOrd for ChatId {
    fn partial_cmp(&self, other: &Self) -> (r: Option<Ordering>) {
        let a = self.as_i64();
        let b = other.as_i64();
        if a < b {
            Some(Ordering::Less)
        } else if a > b {
            Some(Ordering::Greater)
        } else {
            Some(Ordering::Equal)
        }
    }
}

impl vstd::std_specs::cmp::PartialOrdSpecImpl for ChatId {
    open spec fn obeys_partial_cmp_spec() -> bool {
        true
    }

    open spec fn partial_cmp_spec(&self, other: &Self) -> Option<Ordering> {
        if self@ < other@ {
            Some(Ordering::Less)
        } else if self@ > other@ {
            Some(Ordering::Greater)
        } else {
            Some(Ordering::Equal)
        }
    }
}

/// User identifiers compare as their raw identifiers do: less, equal or greater
/// exactly when the raw identifiers are, so wrapping keeps order and distinctness.
pub proof fn user_id_order_is_raw_order(u: UserId, v: UserId)
    ensures
        u.partial_cmp_spec(&v) == PartialOrdSpec::partial_cmp_spec(&u@, &v@),
        (u.partial_cmp_spec(&v) == Some(Ordering::Equal)) <==> (u == v),
{
    crate::ids::user_id_is_its_raw_id(u, v);
}

/// Chat identifiers compare as their raw identifiers do: less, equal or greater
/// exactly when the raw identifiers are, so wrapping keeps order and distinctness.
pub proof fn chat_id_order_is_raw_order(c: ChatId, d: ChatId)
    ensures
        c.partial_cmp_spec(&d) == PartialOrdSpec::partial_cmp_spec(&c@, &d@),
        (c.partial_cmp_spec(&d) == Some(Ordering::Equal)) <==> (c == d),
{
    crate::ids::chat_id_is_its_raw_id(c, d);
}

} // verus!
