//! The set of tunnels that are wanted active.

use vstd::prelude::*;
use crate::command::{clone_strings, strings_view};

verus! {

/// The order after `id` was asked to be active: appended if it was absent.
pub open spec fn activated(order: Seq<Seq<char>>, id: Seq<char>) -> Seq<Seq<char>> {
    if order.contains(id) {
        order
    } else {
        order.push(id)
    }
}

/// The order after `id` was asked to be inactive: its entry taken out, the
/// others left in place.
pub open spec fn deactivated(order: Seq<Seq<char>>, id: Seq<char>) -> Seq<Seq<char>> {
    if order.contains(id) {
        order.remove(order.index_of(id))
    } else {
        order
    }
}

/// Activation keeps identifiers unique and adds exactly `id` to the set.
pub proof fn lemma_activated(order: Seq<Seq<char>>, id: Seq<char>)
    requires
        order.no_duplicates(),
    ensures
        activated(order, id).no_duplicates(),
        activated(order, id).to_set() == order.to_set().insert(id),
{
    if order.contains(id) {
        assert(order.to_set().insert(id) =~= order.to_set());
    } else {
        order.lemma_push_to_set_commute(id);
    }
}

/// Deactivation keeps identifiers unique and takes exactly `id` out of the set.
pub proof fn lemma_deactivated(order: Seq<Seq<char>>, id: Seq<char>)
    requires
        order.no_duplicates(),
    ensures
        deactivated(order, id).no_duplicates(),
        deactivated(order, id).to_set() == order.to_set().remove(id),
{
    if order.contains(id) {
        let k = order.index_of(id);
        let rest = order.remove(k);
        assert forall|x: Seq<char>| rest.to_set().contains(x) <==> order.to_set().remove(id).contains(x) by {
            if rest.contains(x) {
                let j = choose|j: int| 0 <= j < rest.len() && rest[j] == x;
                if j < k {
                    assert(order[j] == x);
                } else {
                    assert(order[j + 1] == x);
                }
            }
            if order.contains(x) && x != id {
                let j = choose|j: int| 0 <= j < order.len() && order[j] == x;
                if j < k {
                    assert(rest[j] == x);
                } else {
                    assert(rest[j - 1] == x);
                }
            }
        }
        assert(rest.to_set() =~= order.to_set().remove(id));
    } else {
        assert(order.to_set().remove(id) =~= order.to_set());
    }
}

/// Activating an identifier twice in a row is the same as activating it
/// once: after the first call it is a member, so the second call reports
/// that nothing was inserted and leaves the order as it is.
pub proof fn lemma_activate_twice(order: Seq<Seq<char>>, id: Seq<char>)
    ensures
        activated(order, id).to_set().contains(id),
        activated(activated(order, id), id) == activated(order, id),
{
    if !order.contains(id) {
        assert(order.push(id)[order.len() as int] == id);
    }
}

/// Deactivating an identifier twice in a row is the same as deactivating it
/// once.
pub proof fn lemma_deactivate_twice(order: Seq<Seq<char>>, id: Seq<char>)
    requires
        order.no_duplicates(),
    ensures
        !deactivated(order, id).to_set().contains(id),
        deactivated(deactivated(order, id), id) == deactivated(order, id),
{
    lemma_deactivated(order, id);
}

/// Switching a tunnel on and off again leaves the order as it was before.
pub proof fn lemma_activate_then_deactivate(order: Seq<Seq<char>>, id: Seq<char>)
    requires
        order.no_duplicates(),
        !order.contains(id),
    ensures
        deactivated(activated(order, id), id) == order,
{
    let grown = order.push(id);
    assert(grown[order.len() as int] == id);
    let k = grown.index_of(id);
    assert(0 <= k < grown.len() && grown[k] == id);
    if k < order.len() {
        assert(order[k] == id);
    }
    assert(grown.remove(k) =~= order);
}

/// The tunnels that are wanted active. Membership means that a worker should
/// keep the tunnel established; it says nothing about whether a process is
/// running. Identifiers are kept in the order in which they were activated,
/// and none occurs twice.
pub struct DesiredStateSet {
    ids: Vec<String>,
}

impl View for DesiredStateSet {
    type V = Set<Seq<char>>;

    open spec fn view(&self) -> Set<Seq<char>> {
        self.order().to_set()
    }
}

impl DesiredStateSet {
    /// The active identifiers, oldest activation first.
    pub closed spec fn order(&self) -> Seq<Seq<char>> {
        strings_view(self.ids@)
    }

    #[verifier::type_invariant]
    spec fn no_id_twice(&self) -> bool {
        self.order().no_duplicates()
    }

    /// A set with no active tunnel.
    pub fn new() -> (out: Self)
        ensures
            out.order() == Seq::<Seq<char>>::empty(),
            out@ == Set::<Seq<char>>::empty(),
    {
        let out = DesiredStateSet { ids: Vec::new() };
        assert(out.order() =~= Seq::<Seq<char>>::empty());
        assert(out@ =~= Set::<Seq<char>>::empty());
        out
    }

    /// Position of `id` among the active identifiers, if it is active.
    fn position(&self, id: &String) -> (out: Option<usize>)
        ensures
            match out {
                Some(i) => i < self.order().len() && self.order()[i as int] == id@
                    && self.order().index_of(id@) == i,
                None => !self.order().contains(id@),
            },
    {
        proof {
            use_type_invariant(self);
        }
        let mut i: usize = 0;
        while i < self.ids.len()
            invariant
                i <= self.ids.len(),
                self.order().no_duplicates(),
                forall|j: int| 0 <= j < i ==> self.order()[j] != id@,
            decreases self.ids.len() - i,
        {
            if self.ids[i] == *id {
                proof {
                    let k = self.order().index_of(id@);
                    assert(self.order()[i as int] == id@);
                    assert(0 <= k < self.order().len() && self.order()[k] == id@);
                }
                return Some(i);
            }
            i += 1;
        }
        None
    }

    /// Whether `id` is wanted active at this moment.
    pub fn is_active(&self, id: &str) -> (out: bool)
        ensures
            out == self@.contains(id@),
    {
        let key = id.to_owned();
        self.position(&key).is_some()
    }

    /// Marks `id` as wanted active and says whether it was newly inserted.
    /// An identifier that is already active stays where it is.
    pub fn activate(&mut self, id: &str) -> (inserted: bool)
        ensures
            inserted == !old(self)@.contains(id@),
            final(self).order() == activated(old(self).order(), id@),
            final(self).order().no_duplicates(),
            final(self)@ == old(self)@.insert(id@),
    {
        proof {
            use_type_invariant(&*self);
            lemma_activated(self.order(), id@);
        }
        let key = id.to_owned();
        match self.position(&key) {
            Some(_) => false,
            None => {
                let mut ids: Vec<String> = Vec::new();
                std::mem::swap(&mut ids, &mut self.ids);
                ids.push(key);
                assert(strings_view(ids@) =~= old(self).order().push(id@));
                self.ids = ids;
                true
            },
        }
    }

    /// Marks `id` as no longer wanted and says whether it had been active.
    /// The remaining identifiers keep their order.
    pub fn deactivate(&mut self, id: &str) -> (removed: bool)
        ensures
            removed == old(self)@.contains(id@),
            final(self).order() == deactivated(old(self).order(), id@),
            final(self).order().no_duplicates(),
            final(self)@ == old(self)@.remove(id@),
    {
        proof {
            use_type_invariant(&*self);
            lemma_deactivated(self.order(), id@);
        }
        let key = id.to_owned();
        match self.position(&key) {
            Some(i) => {
                let mut ids: Vec<String> = Vec::new();
                std::mem::swap(&mut ids, &mut self.ids);
                ids.remove(i);
                assert(strings_view(ids@) =~= old(self).order().remove(i as int));
                self.ids = ids;
                true
            },
            None => false,
        }
    }

    /// The active identifiers, oldest activation first, each exactly once.
    pub fn snapshot(&self) -> (out: Vec<String>)
        ensures
            strings_view(out@) == self.order(),
            strings_view(out@).no_duplicates(),
            strings_view(out@).to_set() == self@,
    {
        proof {
            use_type_invariant(self);
        }
        clone_strings(&self.ids)
    }

    /// Takes a snapshot and empties the set in one step, so that no
    /// identifier is missed and none is handed out twice.
    pub fn drain(&mut self) -> (out: Vec<String>)
        ensures
            strings_view(out@) == old(self).order(),
            strings_view(out@).no_duplicates(),
            strings_view(out@).to_set() == old(self)@,
            final(self).order() == Seq::<Seq<char>>::empty(),
            final(self)@ == Set::<Seq<char>>::empty(),
    {
        proof {
            use_type_invariant(&*self);
        }
        let mut ids: Vec<String> = Vec::new();
        std::mem::swap(&mut ids, &mut self.ids);
        assert(self.order() =~= Seq::<Seq<char>>::empty());
        assert(self@ =~= Set::<Seq<char>>::empty());
        ids
    }

    /// Number of tunnels that are wanted active.
    pub fn len(&self) -> (out: usize)
        ensures
            out == self.order().len(),
            out == self@.len(),
    {
        proof {
            use_type_invariant(self);
            self.order().unique_seq_to_set();
        }
        self.ids.len()
    }

    /// Whether no tunnel is wanted active.
    pub fn is_empty(&self) -> (out: bool)
        ensures
            out == (self@ == Set::<Seq<char>>::empty()),
    {
        proof {
            use_type_invariant(self);
            self.order().unique_seq_to_set();
            if self.order().len() == 0 {
                assert(self@ =~= Set::<Seq<char>>::empty());
            }
        }
        self.ids.len() == 0
    }
}

} // verus!
