use vstd::prelude::*;

verus! {

/// The set of chat identities that receive broadcasts.  Uniqueness is
/// enforced on insert; insertion order is kept so that a broadcast walks
/// the subscribers in the order they arrived.  There is no removal path.
pub struct SubscriberSet {
    ids: Vec<i64>,
}

impl View for SubscriberSet {
    type V = Seq<i64>;

    closed spec fn view(&self) -> Seq<i64> {
        self.ids@
    }
}

/// What registering does to the membership sequence: nothing when the
/// identity is already present, an append otherwise.
pub open spec fn register_step(s: Seq<i64>, id: i64) -> Seq<i64> {
    if s.contains(id) {
        s
    } else {
        s.push(id)
    }
}

impl SubscriberSet {
    /// No identity occurs twice.
    pub open spec fn wf(&self) -> bool {
        self@.no_duplicates()
    }

    pub fn new() -> (r: SubscriberSet)
        ensures
            r@ == Seq::<i64>::empty(),
            r.wf(),
    {
        SubscriberSet { ids: Vec::new() }
    }

    /// Membership scan.
    pub fn is_registered(&self, id: i64) -> (r: bool)
        ensures
            r == self@.contains(id),
    {
        let n = self.ids.len();
        let mut i: usize = 0;
        while i < n
            invariant
                0 <= i <= n,
                n == self@.len(),
                self@ == self.ids@,
                forall|j: int| 0 <= j < i ==> self@[j] != id,
            decreases n - i,
        {
            if self.ids[i] == id {
                return true;
            }
            i = i + 1;
        }
        false
    }

    /// Register a chat identity; returns whether it was newly added.
    /// Registering the same identity again changes nothing.
    pub fn register(&mut self, id: i64) -> (added: bool)
        requires
            old(self).wf(),
        ensures
            final(self).wf(),
            added == !old(self)@.contains(id),
            final(self)@ == register_step(old(self)@, id),
            final(self)@.contains(id),
            final(self)@.len() == old(self)@.len() + (if added { 1int } else { 0int }),
    {
        if self.is_registered(id) {
            false
        } else {
            let ghost pre = self@;
            self.ids.push(id);
            proof {
                assert(self@ == pre.push(id));
                assert(self@[pre.len() as int] == id);
                assert(self@.contains(id));
                assert forall|i: int, j: int|
                    0 <= i < self@.len() && 0 <= j < self@.len() && i != j implies self@[i]
                    != self@[j] by {
                    if i < pre.len() && j < pre.len() {
                    } else if i == pre.len() {
                        assert(pre[j] != id);
                    } else {
                        assert(pre[i] != id);
                    }
                }
            }
            true
        }
    }

    /// A stable copy of the identities, in insertion order, for a
    /// broadcast: later registrations do not disturb a walk of the copy.
    pub fn all(&self) -> (r: Vec<i64>)
        ensures
            r@ == self@,
    {
        let n = self.ids.len();
        let mut out: Vec<i64> = Vec::new();
        let mut i: usize = 0;
        while i < n
            invariant
                0 <= i <= n,
                n == self@.len(),
                self@ == self.ids@,
                out@ == self@.subrange(0, i as int),
            decreases n - i,
        {
            out.push(self.ids[i]);
            i = i + 1;
        }
        assert(out@ =~= self@);
        out
    }

    /// How many subscribers stand registered.
    pub fn count(&self) -> (r: usize)
        ensures
            r == self@.len(),
    {
        self.ids.len()
    }
}

/// Registering is idempotent: a second registration of the same identity
/// returns the set unchanged, so two registrations grow the set by one
/// element, never two.
pub proof fn lemma_register_idempotent(s: Seq<i64>, id: i64)
    ensures
        register_step(register_step(s, id), id) == register_step(s, id),
        !s.contains(id) ==> register_step(s, id).len() == s.len() + 1,
        s.contains(id) ==> register_step(s, id) == s,
{
    if !s.contains(id) {
        assert(s.push(id)[s.len() as int] == id);
        assert(s.push(id).contains(id));
    }
}

} // verus!
