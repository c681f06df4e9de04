use vstd::prelude::*;

verus! {

/// A send on a channel whose receiver is gone; the value comes back.
#[derive(Debug, PartialEq, Eq)]
pub enum TrySendError<T> {
    Disconnected(T),
}

/// The single slot of a latest-wins channel: a send overwrites whatever is
/// unread, a receive takes the slot's value and leaves it empty.
pub struct RecentSlot<T> {
    msg: Option<T>,
}

/// One operation on a slot.
pub enum SlotOp<T> {
    Send(T),
    Recv,
}

/// The slot's content after `ops`, and what each receive among them took.
pub open spec fn slot_run<T>(s: Option<T>, ops: Seq<SlotOp<T>>) -> (Option<T>, Seq<Option<T>>)
    decreases ops.len(),
{
    if ops.len() == 0 {
        (s, Seq::empty())
    } else {
        let (before, taken) = slot_run(s, ops.drop_last());
        match ops.last() {
            SlotOp::Send(v) => (Some(v), taken),
            SlotOp::Recv => (None, taken.push(before)),
        }
    }
}

pub open spec fn sends<T>(vs: Seq<T>) -> Seq<SlotOp<T>> {
    Seq::new(vs.len(), |i: int| SlotOp::Send(vs[i]))
}

impl<T> RecentSlot<T> {
    pub closed spec fn view(&self) -> Option<T> {
        self.msg
    }

    /// An empty slot.
    pub fn new() -> (r: RecentSlot<T>)
        ensures
            r@ is None,
    {
        RecentSlot { msg: None }
    }

    /// Stores `v`, replacing any unread value.
    pub fn store(&mut self, v: T)
        ensures
            final(self)@ == Some(v),
    {
        self.msg = Some(v);
    }

    /// Takes the unread value, if any, and leaves the slot empty.
    pub fn take(&mut self) -> (r: Option<T>)
        ensures
            r == old(self)@,
            final(self)@ is None,
    {
        let mut m = None;
        std::mem::swap(&mut m, &mut self.msg);
        m
    }

    /// Whether a value is waiting.
    pub fn is_ready(&self) -> (r: bool)
        ensures
            r == (self@ is Some),
    {
        self.msg.is_some()
    }
}

proof fn lemma_sends_then<T>(s: Option<T>, vs: Seq<T>)
    ensures
        slot_run(s, sends(vs)).0 == (if vs.len() == 0 { s } else { Some(vs.last()) }),
        slot_run(s, sends(vs)).1 == Seq::<Option<T>>::empty(),
    decreases vs.len(),
{
    if vs.len() > 0 {
        assert(sends(vs).drop_last() =~= sends(vs.drop_last()));
        lemma_sends_then(s, vs.drop_last());
    }
}

/// Latest wins: a receive that follows the sends `vs` takes the last of them
/// (or, with no send since, what the slot held), and the slot is empty after
/// it, so a second receive with no send in between takes nothing.
pub proof fn lemma_latest_wins<T>(s: Option<T>, vs: Seq<T>)
    ensures
        slot_run(s, sends(vs).push(SlotOp::Recv)).1
            == seq![if vs.len() == 0 { s } else { Some(vs.last()) }],
        slot_run(s, sends(vs).push(SlotOp::Recv)).0 is None,
        slot_run(s, sends(vs).push(SlotOp::Recv).push(SlotOp::Recv)).1.last() is None,
{
    lemma_sends_then(s, vs);
    let ops = sends(vs).push(SlotOp::Recv);
    assert(ops.drop_last() =~= sends(vs));
    assert(ops.push(SlotOp::Recv).drop_last() =~= ops);
    assert(Seq::<Option<T>>::empty().push(if vs.len() == 0 { s } else { Some(vs.last()) })
        =~= seq![if vs.len() == 0 { s } else { Some(vs.last()) }]);
}

/// What a receive at position `k` of `ops` finds: the value of the operation
/// right before it if that was a send, nothing if it was a receive, and the
/// slot's initial content if it comes first.
pub open spec fn found_at<T>(s: Option<T>, ops: Seq<SlotOp<T>>, k: int) -> Option<T> {
    if k == 0 {
        s
    } else {
        match ops[k - 1] {
            SlotOp::Send(v) => Some(v),
            SlotOp::Recv => None,
        }
    }
}

/// Latest wins for any interleaving: every receive takes the value of the
/// last send since the previous receive, and nothing when there was no
/// send in between; so no value is taken twice and a value that a later
/// send overwrote is never taken.
pub proof fn lemma_receive_takes_latest<T>(s: Option<T>, ops: Seq<SlotOp<T>>, k: int)
    requires
        0 <= k < ops.len(),
        ops[k] is Recv,
    ensures
        slot_run(s, ops.take(k + 1)).1.last() == found_at(s, ops, k),
        slot_run(s, ops.take(k + 1)).0 is None,
{
    let pre = ops.take(k + 1);
    assert(pre.drop_last() =~= ops.take(k));
    assert(pre.last() == ops[k]);
    if k > 0 {
        assert(ops.take(k).drop_last() =~= ops.take(k - 1));
        assert(ops.take(k).last() == ops[k - 1]);
        assert(slot_run(s, ops.take(k)).0 == found_at(s, ops, k));
    } else {
        assert(ops.take(0) =~= Seq::<SlotOp<T>>::empty());
        assert(slot_run(s, ops.take(k)).0 == found_at(s, ops, k));
    }
}

} // verus!
