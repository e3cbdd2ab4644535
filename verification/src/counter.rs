use vstd::prelude::*;

verus! {

/// Allocator of inbound request identifiers.
///
/// One counter is shared by every connection handler that belongs to the
/// same behaviour instance, so the identifiers it hands out are globally
/// unique across all of those handlers: every allocation, no matter which
/// handler asked for it, goes through `next_id` on the one counter.
pub struct RequestIdCounter {
    /// The identifier the next allocation returns.
    pub next: u64,
}

impl RequestIdCounter {
    /// A fresh counter; the first identifier it hands out is 0.
    pub fn new() -> (c: RequestIdCounter)
        ensures
            c.next == 0,
    {
        RequestIdCounter { next: 0 }
    }

    /// Allocates the next inbound request identifier.
    pub fn next_id(&mut self) -> (id: u64)
        requires
            old(self).next < u64::MAX,
        ensures
            id == old(self).next,
            final(self).next == old(self).next + 1,
    {
        let id = self.next;
        self.next = self.next + 1;
        id
    }
}

/// The counter moves from value `pre` to value `post` while handing out
/// exactly the identifiers `ids`, in order.
pub open spec fn issues(pre: u64, ids: Seq<u64>, post: u64) -> bool
    decreases ids.len(),
{
    if ids.len() == 0 {
        post == pre
    } else {
        &&& pre < u64::MAX
        &&& ids[0] == pre
        &&& issues((pre + 1) as u64, ids.drop_first(), post)
    }
}

/// Every identifier in an issuance run is the starting value plus its
/// position in the run.
pub proof fn lemma_issued_ids_are_consecutive(pre: u64, ids: Seq<u64>, post: u64)
    requires
        issues(pre, ids, post),
    ensures
        forall|k: int| 0 <= k < ids.len() ==> ids[k] == pre + k,
    decreases ids.len(),
{
    if ids.len() > 0 {
        lemma_issued_ids_are_consecutive((pre + 1) as u64, ids.drop_first(), post);
        assert forall|k: int| 0 <= k < ids.len() implies ids[k] == pre + k by {
            if k > 0 {
                assert(ids.drop_first()[k - 1] == ids[k]);
            }
        }
    }
}

/// Identifiers handed out by one shared counter are strictly increasing in
/// allocation order, and therefore no identifier is ever handed out twice:
/// across any number of handlers drawing from the same counter, the union of
/// all allocated request ids has no duplicates.
pub proof fn lemma_issued_ids_strictly_increasing(pre: u64, ids: Seq<u64>, post: u64)
    requires
        issues(pre, ids, post),
    ensures
        forall|i: int, j: int| 0 <= i < j < ids.len() ==> ids[i] < ids[j],
        forall|i: int, j: int| 0 <= i < j < ids.len() ==> ids[i] != ids[j],
{
    lemma_issued_ids_are_consecutive(pre, ids, post);
}

} // verus!
