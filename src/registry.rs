//! The registry of connected clients' output handles.
use vstd::prelude::*;

verus! {

/// A connected client: the id the registry gave it, and its output handle.
pub struct Client<H> {
    pub id: u64,
    pub handle: H,
}

/// `s` without the clients whose id is in `failed`, in the same order.
pub open spec fn survivors<H>(s: Seq<Client<H>>, failed: Seq<u64>) -> Seq<Client<H>>
    decreases s.len(),
{
    if s.len() == 0 {
        s
    } else {
        let rest = survivors(s.drop_last(), failed);
        if failed.contains(s.last().id) {
            rest
        } else {
            rest.push(s.last())
        }
    }
}

/// The ids of `s` increase strictly and stay below `bound`.
pub open spec fn ids_increasing_below<H>(s: Seq<Client<H>>, bound: u64) -> bool {
    &&& forall|i: int, j: int| 0 <= i < j < s.len() ==> s[i].id < s[j].id
    &&& forall|i: int| 0 <= i < s.len() ==> s[i].id < bound
}

/// The connected clients, in the order they joined, each with an id that
/// no other client of this registry has had.
pub struct ClientRegistry<H> {
    clients: Vec<Client<H>>,
    next_id: u64,
}

impl<H> ClientRegistry<H> {
    /// The registered clients, in the order they joined.
    pub closed spec fn spec_clients(&self) -> Seq<Client<H>> {
        self.clients@
    }

    /// The id the next client will get.
    pub closed spec fn spec_next_id(&self) -> u64 {
        self.next_id
    }

    /// Ids increase in joining order and stay below the next id.
    pub open spec fn wf(&self) -> bool {
        ids_increasing_below(self.spec_clients(), self.spec_next_id())
    }

    /// An empty registry.
    pub fn new() -> (r: ClientRegistry<H>)
        ensures
            r.wf(),
            r.spec_clients() == Seq::<Client<H>>::empty(),
            r.spec_next_id() == 0,
    {
        ClientRegistry { clients: Vec::new(), next_id: 0 }
    }

    /// Number of registered clients.
    pub fn len(&self) -> (r: usize)
        ensures
            r == self.spec_clients().len(),
    {
        self.clients.len()
    }

    /// Registers a client and returns its id; `None`, and the registry
    /// unchanged, once every id has been given out.
    pub fn add(&mut self, handle: H) -> (r: Option<u64>)
        requires
            old(self).wf(),
        ensures
            final(self).wf(),
            old(self).spec_next_id() < u64::MAX ==> r == Some(old(self).spec_next_id())
                && final(self).spec_clients() == old(self).spec_clients().push(
                Client { id: old(self).spec_next_id(), handle },
            ) && final(self).spec_next_id() == old(self).spec_next_id() + 1,
            old(self).spec_next_id() == u64::MAX ==> r is None && final(self).spec_clients()
                == old(self).spec_clients() && final(self).spec_next_id() == old(
                self,
            ).spec_next_id(),
    {
        if self.next_id == u64::MAX {
            return None;
        }
        let id = self.next_id;
        self.clients.push(Client { id, handle });
        self.next_id = id + 1;
        Some(id)
    }

    /// The ids of the registered clients, in order.
    pub fn ids(&self) -> (r: Vec<u64>)
        ensures
            r@.len() == self.spec_clients().len(),
            forall|i: int| 0 <= i < r@.len() ==> r@[i] == self.spec_clients()[i].id,
    {
        let mut r: Vec<u64> = Vec::with_capacity(self.clients.len());
        let mut i: usize = 0;
        while i < self.clients.len()
            invariant
                i <= self.clients@.len(),
                r@.len() == i,
                forall|k: int| 0 <= k < i ==> r@[k] == self.clients@[k].id,
            decreases self.clients@.len() - i,
        {
            r.push(self.clients[i].id);
            i = i + 1;
        }
        r
    }

    /// The output handle of the client at `index`, in joining order.
    pub fn handle_at(&self, index: usize) -> (r: &H)
        requires
            index < self.spec_clients().len(),
        ensures
            *r == self.spec_clients()[index as int].handle,
    {
        &self.clients[index].handle
    }

    /// Drops every client whose id is in `failed`, keeping the others, those
    /// added since the ids were taken included, in their order.
    pub fn prune_failed(&mut self, failed: &Vec<u64>)
        requires
            old(self).wf(),
        ensures
            final(self).wf(),
            final(self).spec_clients() == survivors(old(self).spec_clients(), failed@),
            final(self).spec_next_id() == old(self).spec_next_id(),
    {
        let mut rest: Vec<Client<H>> = Vec::new();
        std::mem::swap(&mut rest, &mut self.clients);
        let ghost orig = rest@;
        let ghost bound = self.next_id;
        let mut kept: Vec<Client<H>> = Vec::new();
        let ghost mut i: int = 0;
        while rest.len() > 0
            invariant
                0 <= i <= orig.len(),
                rest@ == orig.skip(i),
                kept@ == survivors(orig.take(i), failed@),
                ids_increasing_below(orig, bound),
            decreases rest@.len(),
        {
            let c = rest.remove(0);
            proof {
                assert(orig.take(i + 1).drop_last() =~= orig.take(i));
                assert(orig.take(i + 1).last() == orig[i]);
            }
            if !contains_id(failed, c.id) {
                kept.push(c);
            }
            proof {
                i = i + 1;
                assert(rest@ =~= orig.skip(i));
            }
        }
        proof {
            assert(orig.take(i) =~= orig);
            lemma_survivors_keep_order(orig, failed@, bound);
        }
        self.clients = kept;
    }

    /// Drops the client with id `id`, if it is registered.
    pub fn remove(&mut self, id: u64)
        requires
            old(self).wf(),
        ensures
            final(self).wf(),
            final(self).spec_clients() == survivors(old(self).spec_clients(), seq![id]),
            final(self).spec_next_id() == old(self).spec_next_id(),
    {
        let failed: Vec<u64> = vec![id];
        assert(failed@ =~= seq![id]);
        self.prune_failed(&failed);
    }
}

/// Whether `id` is among `ids`.
fn contains_id(ids: &Vec<u64>, id: u64) -> (r: bool)
    ensures
        r == ids@.contains(id),
{
    let mut i: usize = 0;
    while i < ids.len()
        invariant
            i <= ids@.len(),
            forall|k: int| 0 <= k < i ==> ids@[k] != id,
        decreases ids@.len() - i,
    {
        if ids[i] == id {
            assert(ids@[i as int] == id);
            return true;
        }
        i = i + 1;
    }
    false
}

/// Pruning keeps exactly the clients whose id did not fail: a client of
/// `s` is among the survivors if and only if its id is not in `failed`.
pub proof fn lemma_prune_drops_exactly_failed<H>(s: Seq<Client<H>>, failed: Seq<u64>)
    ensures
        forall|c: Client<H>| #[trigger]
            survivors(s, failed).contains(c) <==> (s.contains(c) && !failed.contains(c.id)),
    decreases s.len(),
{
    if s.len() > 0 {
        lemma_prune_drops_exactly_failed(s.drop_last(), failed);
        assert forall|c: Client<H>| #[trigger]
            survivors(s, failed).contains(c) <==> (s.contains(c) && !failed.contains(
                c.id,
            )) by {
            let rest = survivors(s.drop_last(), failed);
            if s.contains(c) && c != s.last() {
                let k = choose|k: int| 0 <= k < s.len() && s[k] == c;
                assert(s.drop_last()[k] == c);
            }
            if s.drop_last().contains(c) {
                let k = choose|k: int| 0 <= k < s.len() - 1 && s.drop_last()[k] == c;
                assert(s[k] == c);
            }
            if !failed.contains(s.last().id) {
                if rest.push(s.last()).contains(c) && c != s.last() {
                    let k = choose|k: int| 0 <= k < rest.len() + 1 && rest.push(s.last())[k] == c;
                    assert(rest[k] == c);
                }
                if rest.contains(c) {
                    let k = choose|k: int| 0 <= k < rest.len() && rest[k] == c;
                    assert(rest.push(s.last())[k] == c);
                }
                assert(rest.push(s.last())[rest.len() as int] == s.last());
            }
            assert(s[s.len() - 1] == s.last());
        }
    }
}

/// Survivors of a registry whose ids increase keep increasing ids below the
/// same bound.
proof fn lemma_survivors_keep_order<H>(s: Seq<Client<H>>, failed: Seq<u64>, bound: u64)
    requires
        ids_increasing_below(s, bound),
    ensures
        ids_increasing_below(survivors(s, failed), bound),
    decreases s.len(),
{
    if s.len() > 0 {
        let init = s.drop_last();
        lemma_survivors_keep_order(init, failed, bound);
        lemma_prune_drops_exactly_failed(init, failed);
        let rest = survivors(init, failed);
        assert forall|k: int| 0 <= k < rest.len() implies rest[k].id < s.last().id by {
            assert(rest.contains(rest[k]));
            let j = choose|j: int| 0 <= j < init.len() && init[j] == rest[k];
            assert(s[j] == rest[k]);
        }
    }
}

} // verus!
