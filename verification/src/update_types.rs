//! A set of update types, iterated in `Ord` order, as a `BTreeSet<UpdateType>` is.
use vstd::prelude::*;
use crate::kinds::{UpdateType, update_type_name, update_type_rank};

verus! {

/// A set of update types. Its members come out in declaration order
/// (`MessageCreated`, `BotStarted`, `Unknown`), each once.
#[derive(Debug, Clone, Copy, PartialEq, Eq, Structural)]
pub struct UpdateTypes {
    message_created: bool,
    bot_started: bool,
    unknown: bool,
}

impl UpdateTypes {
    closed spec fn holds(self, t: UpdateType) -> bool {
        match t {
            UpdateType::MessageCreated => self.message_created,
            UpdateType::BotStarted => self.bot_started,
            UpdateType::Unknown => self.unknown,
        }
    }
}

impl View for UpdateTypes {
    type V = Set<UpdateType>;

    closed spec fn view(&self) -> Set<UpdateType> {
        Set::new(|t: UpdateType| self.holds(t))
    }
}

/// The members of `s` in ascending `Ord` order.
pub open spec fn ordered_members(s: Set<UpdateType>) -> Seq<UpdateType> {
    (if s.contains(UpdateType::MessageCreated) { seq![UpdateType::MessageCreated] } else { seq![] })
        + (if s.contains(UpdateType::BotStarted) { seq![UpdateType::BotStarted] } else { seq![] })
        + (if s.contains(UpdateType::Unknown) { seq![UpdateType::Unknown] } else { seq![] })
}

/// The names of `ts` joined by commas, as `Itertools::join(",")` writes them.
pub open spec fn join_names(ts: Seq<UpdateType>) -> Seq<char>
    decreases ts.len(),
{
    if ts.len() == 0 {
        seq![]
    } else if ts.len() == 1 {
        update_type_name(ts[0])
    } else {
        join_names(ts.drop_last()) + seq![','] + update_type_name(ts.last())
    }
}

/// The ordered members of a set hold exactly its members, each once, in strictly
/// ascending `Ord` order.
pub proof fn ordered_members_sorted_and_complete(s: Set<UpdateType>)
    ensures
        ordered_members(s).to_set() == s,
        ordered_members(s).no_duplicates(),
        forall|i: int, j: int|
            0 <= i < j < ordered_members(s).len() ==> update_type_rank(ordered_members(s)[i])
                < update_type_rank(ordered_members(s)[j]),
        ordered_members(s).len() == 0 <==> s.is_empty(),
{
    let m = ordered_members(s);
    assert forall|t: UpdateType| m.contains(t) <==> s.contains(t) by {
        if s.contains(t) {
            match t {
                UpdateType::MessageCreated => { assert(m[0] == t); }
                UpdateType::BotStarted => {
                    let k = if s.contains(UpdateType::MessageCreated) { 1int } else { 0int };
                    assert(m[k] == t);
                }
                UpdateType::Unknown => { assert(m[m.len() - 1] == t); }
            }
        }
    }
    assert(m.to_set() =~= s);
    if m.len() == 0 {
        assert(s =~= Set::empty());
    } else {
        assert(s.contains(m[0]));
    }
}

impl UpdateTypes {
    /// The empty set.
    pub fn new() -> (r: Self)
        ensures
            r@ == Set::<UpdateType>::empty(),
    {
        let r = UpdateTypes { message_created: false, bot_started: false, unknown: false };
        assert(r@ =~= Set::<UpdateType>::empty());
        r
    }

    /// Whether `t` is a member.
    pub fn contains(&self, t: UpdateType) -> (r: bool)
        ensures
            r == self@.contains(t),
    {
        match t {
            UpdateType::MessageCreated => self.message_created,
            UpdateType::BotStarted => self.bot_started,
            UpdateType::Unknown => self.unknown,
        }
    }

    /// Adds `t`; returns whether it was not a member before, as `BTreeSet::insert` does.
    pub fn insert(&mut self, t: UpdateType) -> (r: bool)
        ensures
            final(self)@ == old(self)@.insert(t),
            r == !old(self)@.contains(t),
    {
        let was = self.contains(t);
        match t {
            UpdateType::MessageCreated => { self.message_created = true; }
            UpdateType::BotStarted => { self.bot_started = true; }
            UpdateType::Unknown => { self.unknown = true; }
        }
        assert(self@ =~= old(self)@.insert(t));
        !was
    }

    /// Whether the set has no member.
    pub fn is_empty(&self) -> (r: bool)
        ensures
            r == self@.is_empty(),
    {
        proof { ordered_members_sorted_and_complete(self@); }
        assert(self@.contains(UpdateType::MessageCreated) == self.message_created);
        assert(self@.contains(UpdateType::BotStarted) == self.bot_started);
        assert(self@.contains(UpdateType::Unknown) == self.unknown);
        !(self.message_created || self.bot_started || self.unknown)
    }

    /// The members in ascending order, as iterating a `BTreeSet` yields them.
    pub fn to_vec(&self) -> (r: Vec<UpdateType>)
        ensures
            r@ == ordered_members(self@),
    {
        let mut r: Vec<UpdateType> = Vec::new();
        if self.message_created {
            r.push(UpdateType::MessageCreated);
        }
        if self.bot_started {
            r.push(UpdateType::BotStarted);
        }
        if self.unknown {
            r.push(UpdateType::Unknown);
        }
        assert(self@.contains(UpdateType::MessageCreated) == self.message_created);
        assert(self@.contains(UpdateType::BotStarted) == self.bot_started);
        assert(self@.contains(UpdateType::Unknown) == self.unknown);
        assert(r@ =~= ordered_members(self@));
        r
    }

    /// The member names in ascending order, joined by commas.
    pub fn join(&self) -> (r: String)
        ensures
            r@ == join_names(ordered_members(self@)),
    {
        let members = self.to_vec();
        let mut r = String::new();
        let mut i: usize = 0;
        while i < members.len()
            invariant
                0 <= i <= members@.len(),
                r@ == join_names(members@.take(i as int)),
            decreases members@.len() - i,
        {
            let name = members[i].to_string();
            assert(members@.take(i + 1).drop_last() =~= members@.take(i as int));
            if i > 0 {
                proof { reveal_strlit(","); }
                r.append(",");
            }
            r.append(name.as_str());
            i = i + 1;
        }
        assert(members@.take(members@.len() as int) =~= members@);
        r
    }
}

} // verus!
