use vstd::prelude::*;

verus! {

/// The pending command texts between the operator and the real-time side.
/// The most recently enqueued entry is handed out first.
pub struct CommandChannel {
    pending: Vec<String>,
}

impl View for CommandChannel {
    type V = Seq<String>;

    closed spec fn view(&self) -> Seq<String> {
        self.pending@
    }
}

impl CommandChannel {
    /// An empty channel.
    pub fn new() -> (r: CommandChannel)
        ensures
            r@ == Seq::<String>::empty(),
    {
        CommandChannel { pending: Vec::new() }
    }

    /// Adds `text` as the newest pending entry.
    pub fn enqueue(&mut self, text: String)
        ensures
            final(self)@ == old(self)@.push(text),
    {
        self.pending.push(text);
    }

    /// Removes and returns the newest pending entry, if there is one.
    pub fn try_dequeue(&mut self) -> (r: Option<String>)
        ensures
            old(self)@.len() == 0 ==> r is None && final(self)@ == old(self)@,
            old(self)@.len() > 0 ==> r == Some(old(self)@.last()) && final(self)@ == old(
                self,
            )@.drop_last(),
    {
        self.pending.pop()
    }

    /// The number of pending entries.
    pub fn len(&self) -> (r: usize)
        ensures
            r == self@.len(),
    {
        self.pending.len()
    }
}

/// Entries come out newest first: after `items` are enqueued onto `queue`, the
/// `k`-th dequeue hands out `items[items.len() - 1 - k]`, and once all of them are
/// out the channel holds `queue` again.
pub proof fn lemma_last_in_first_out(queue: Seq<String>, items: Seq<String>, k: int)
    requires
        0 <= k < items.len(),
    ensures
        (queue + items).take(queue.len() + items.len() - k).last() == items[items.len() - 1 - k],
        (queue + items).take(queue.len() + items.len() - k).drop_last() == (queue + items).take(
            queue.len() + items.len() - k - 1,
        ),
        (queue + items).take(queue.len() as int) == queue,
{
    let all = queue + items;
    assert(all.take(queue.len() + items.len() - k).drop_last() =~= all.take(
        queue.len() + items.len() - k - 1,
    ));
    assert(all.take(queue.len() as int) =~= queue);
}

} // verus!
