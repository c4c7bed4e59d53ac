use vstd::prelude::*;

verus! {

/// The shared, ordered log of messages. It holds exactly the texts appended
/// since the last clear, in append order. Callers serialise every operation
/// on one log (one lock around it), so each call sees and leaves a whole state.
pub struct MessageLog {
    messages: Vec<String>,
}

impl View for MessageLog {
    type V = Seq<String>;

    closed spec fn view(&self) -> Seq<String> {
        self.messages@
    }
}

/// The log reached from `log` by appending `texts` one after another, first
/// to last.
pub open spec fn appended(log: Seq<String>, texts: Seq<String>) -> Seq<String>
    decreases texts.len(),
{
    if texts.len() == 0 {
        log
    } else {
        appended(log, texts.drop_last()).push(texts.last())
    }
}

impl MessageLog {
    /// An empty log.
    pub fn new() -> (r: MessageLog)
        ensures
            r@ == Seq::<String>::empty(),
    {
        MessageLog { messages: Vec::new() }
    }

    /// The number of messages in the log.
    pub fn len(&self) -> (r: usize)
        ensures
            r == self@.len(),
    {
        self.messages.len()
    }

    /// Adds `text` at the end and returns the new length.
    pub fn append(&mut self, text: String) -> (r: usize)
        ensures
            final(self)@ == old(self)@.push(text),
            r == final(self)@.len(),
    {
        self.messages.push(text);
        self.messages.len()
    }

    /// Empties the log.
    pub fn clear(&mut self)
        ensures
            final(self)@ == Seq::<String>::empty(),
    {
        self.messages.clear();
    }

    /// A copy of the whole log, in order.
    pub fn snapshot(&self) -> (r: Vec<String>)
        ensures
            r@ == self@,
    {
        let mut copy: Vec<String> = Vec::new();
        let mut i: usize = 0;
        while i < self.messages.len()
            invariant
                i <= self.messages@.len(),
                copy@ == self.messages@.subrange(0, i as int),
            decreases self.messages@.len() - i,
        {
            copy.push(self.messages[i].clone());
            i = i + 1;
            proof {
                assert(copy@ =~= self.messages@.subrange(0, i as int));
            }
        }
        proof {
            assert(copy@ =~= self.messages@);
        }
        copy
    }

    /// The message at `index`, or `None` when `index` is past the end. A miss
    /// is an ordinary answer, not a failure.
    pub fn get(&self, index: usize) -> (r: Option<String>)
        ensures
            index < self@.len() ==> r == Some(self@[index as int]),
            index >= self@.len() ==> r is None,
    {
        if index < self.messages.len() {
            Some(self.messages[index].clone())
        } else {
            None
        }
    }
}

/// Appends serialised by the lock lose nothing and duplicate nothing: when
/// texts that are all different are appended to an empty log, in whatever
/// order the workers won the lock, the log ends up holding each of them
/// exactly once and nothing else.
pub proof fn lemma_appends_land_once(texts: Seq<String>, order: Seq<String>)
    requires
        texts.no_duplicates(),
        order.to_multiset() == texts.to_multiset(),
    ensures
        appended(Seq::empty(), order).len() == texts.len(),
        forall|t: String| #[trigger]
            texts.contains(t) ==> appended(Seq::empty(), order).to_multiset().count(t) == 1,
        forall|t: String| #[trigger]
            appended(Seq::empty(), order).contains(t) ==> texts.contains(t),
{
    broadcast use vstd::seq_lib::group_seq_properties;
    broadcast use vstd::multiset::group_multiset_axioms;

    lemma_appended_is_concat(Seq::empty(), order);
    assert(Seq::<String>::empty() + order =~= order);
    texts.lemma_multiset_has_no_duplicates();
    order.to_multiset_ensures();
    texts.to_multiset_ensures();
    assert forall|t: String| #[trigger]
        appended(Seq::empty(), order).contains(t) implies texts.contains(t) by {
        assert(order.to_multiset().count(t) > 0);
        assert(texts.to_multiset().count(t) > 0);
    }
}

/// Appending texts one by one adds them at the end, in order.
pub proof fn lemma_appended_is_concat(log: Seq<String>, texts: Seq<String>)
    ensures
        appended(log, texts) == log + texts,
    decreases texts.len(),
{
    if texts.len() > 0 {
        lemma_appended_is_concat(log, texts.drop_last());
        assert(log + texts =~= (log + texts.drop_last()).push(texts.last()));
    }
}

} // verus!
