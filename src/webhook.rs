use vstd::prelude::*;

verus! {

/// Events pushed by an outside listener, handed to the consumer in the order
/// they were pushed, with nothing reordered or dropped.
pub struct WebhookStream<T> {
    queue: Vec<T>,
}

impl<T> WebhookStream<T> {
    /// Pushed events not yet handed out, oldest first.
    pub closed spec fn waiting(&self) -> Seq<T> {
        self.queue@
    }

    pub fn new() -> (r: Self)
        ensures
            r.waiting() == Seq::<T>::empty(),
    {
        WebhookStream { queue: Vec::new() }
    }

    /// Takes one pushed event.
    pub fn push(&mut self, event: T)
        ensures
            final(self).waiting() == old(self).waiting().push(event),
    {
        self.queue.push(event);
    }

    /// The oldest waiting event, if any.
    pub fn next_event(&mut self) -> (r: Option<T>)
        ensures
            old(self).waiting().len() == 0 ==> r is None && final(self).waiting() == old(self).waiting(),
            old(self).waiting().len() > 0 ==> r == Some(old(self).waiting()[0])
                && final(self).waiting() == old(self).waiting().drop_first(),
    {
        if self.queue.len() == 0 {
            None
        } else {
            Some(self.queue.remove(0))
        }
    }
}

/// Events come out of a webhook stream in the order they went in.
pub proof fn lemma_push_then_next<T>(s: Seq<T>, e: T)
    ensures
        s.len() > 0 ==> s.push(e)[0] == s[0] && s.push(e).drop_first() == s.drop_first().push(e),
        s.len() == 0 ==> s.push(e)[0] == e && s.push(e).drop_first() == s,
{
    if s.len() > 0 {
        assert(s.push(e).drop_first() =~= s.drop_first().push(e));
    } else {
        assert(s.push(e).drop_first() =~= s);
    }
}

} // verus!
