use vstd::prelude::*;

verus! {

/// Hands out worker identities: 0 for the first worker created in the
/// process, 1 for the next, and so on. One allocator is made at process start
/// and shared by every worker-startup path; it is never reset.
pub struct IdentityAllocator {
    next: usize,
}

impl View for IdentityAllocator {
    type V = Seq<usize>;

    /// The identities issued so far, in the order they were issued.
    closed spec fn view(&self) -> Seq<usize> {
        Seq::new(self.next as nat, |i: int| i as usize)
    }
}

impl IdentityAllocator {
    /// An allocator that has issued nothing yet.
    pub fn new() -> (r: IdentityAllocator)
        ensures
            r@ == Seq::<usize>::empty(),
    {
        IdentityAllocator { next: 0 }
    }

    /// Issues the next identity. `None` only once every `usize` value has been
    /// handed out; the allocator is then left as it was.
    pub fn allocate(&mut self) -> (r: Option<usize>)
        ensures
            old(self)@.len() < usize::MAX ==> r == Some(old(self)@.len() as usize)
                && final(self)@ == old(self)@.push(r->Some_0),
            old(self)@.len() >= usize::MAX ==> r is None && final(self)@ == old(self)@,
    {
        if self.next == usize::MAX {
            None
        } else {
            let id = self.next;
            self.next = self.next + 1;
            proof {
                assert(self@ =~= old(self)@.push(id));
            }
            Some(id)
        }
    }
}

/// No identity is issued twice, and they rise strictly in the order the
/// workers were created.
pub proof fn lemma_identities_strictly_increase(a: IdentityAllocator)
    ensures
        forall|i: int, j: int| 0 <= i < j < a@.len() ==> a@[i] < a@[j],
{
}

} // verus!
