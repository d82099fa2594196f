use vstd::prelude::*;

verus! {

/// Appends `messages` to the messages queued for the next frame, keeping their order.
pub fn queue_messages<M>(queued: &mut Vec<M>, messages: Vec<M>)
    ensures
        final(queued)@ == old(queued)@ + messages@,
{
    let mut messages = messages;
    queued.append(&mut messages);
}

/// Moves the queued messages into the current frame's messages, replacing those; the queue is
/// left empty.
pub fn advance_frame<M>(current: &mut Vec<M>, queued: &mut Vec<M>)
    ensures
        final(current)@ == old(queued)@,
        final(queued)@ == Seq::<M>::empty(),
{
    let mut taken: Vec<M> = Vec::new();
    std::mem::swap(&mut taken, queued);
    *current = taken;
}

/// Queueing batches of messages one after another leaves the queue holding what it held before,
/// followed by every batch in the order sent; [`advance_frame`] then makes exactly that the
/// next frame's messages.
pub proof fn lemma_sent_messages_arrive_next_frame<M>(queued_before: Seq<M>, sent: Seq<Seq<M>>)
    ensures
        sent.fold_left(queued_before, |q: Seq<M>, batch: Seq<M>| q + batch)
            == queued_before + sent.fold_left(Seq::<M>::empty(), |q: Seq<M>, batch: Seq<M>| q + batch),
    decreases sent.len(),
{
    let f = |q: Seq<M>, batch: Seq<M>| q + batch;
    if sent.len() > 0 {
        lemma_sent_messages_arrive_next_frame(queued_before, sent.drop_last());
        assert(sent.fold_left(queued_before, f) == f(sent.drop_last().fold_left(queued_before, f), sent.last()));
        assert(sent.fold_left(Seq::<M>::empty(), f) == f(sent.drop_last().fold_left(Seq::<M>::empty(), f), sent.last()));
        assert((queued_before + sent.drop_last().fold_left(Seq::<M>::empty(), f)) + sent.last()
            =~= queued_before + (sent.drop_last().fold_left(Seq::<M>::empty(), f) + sent.last()));
    } else {
        assert(queued_before + Seq::<M>::empty() =~= queued_before);
    }
}

/// The messages of `batches` one after another, in the order they were sent.
pub open spec fn sent_messages<M>(batches: Seq<Seq<M>>) -> Seq<M> {
    batches.fold_left(Seq::<M>::empty(), |q: Seq<M>, batch: Seq<M>| q + batch)
}

/// Each message of each batch stands in [`sent_messages`] right after every message sent before
/// it.
pub proof fn lemma_sent_messages_positions<M>(batches: Seq<Seq<M>>)
    ensures
        forall|i: int| 0 <= i < batches.len() ==> sent_messages(batches.take(i)).len()
            + (#[trigger] batches[i]).len() <= sent_messages(batches).len(),
        forall|i: int, j: int| 0 <= i < batches.len() && 0 <= j < batches[i].len() ==>
            sent_messages(batches)[sent_messages(batches.take(i)).len() + j] == #[trigger] batches[i][j],
    decreases batches.len(),
{
    if batches.len() > 0 {
        let prefix = batches.drop_last();
        let last = batches.last();
        lemma_sent_messages_positions(prefix);
        let whole = sent_messages(batches);
        assert(whole == sent_messages(prefix) + last);
        assert forall|i: int| 0 <= i < batches.len() implies sent_messages(batches.take(i)).len()
            + (#[trigger] batches[i]).len() <= whole.len() by {
            if i < batches.len() - 1 {
                assert(batches.take(i) =~= prefix.take(i));
                assert(prefix[i] == batches[i]);
            } else {
                assert(batches.take(i) =~= prefix);
            }
        }
        assert forall|i: int, j: int| 0 <= i < batches.len() && 0 <= j < batches[i].len() implies
            whole[sent_messages(batches.take(i)).len() + j] == #[trigger] batches[i][j] by {
            if i < batches.len() - 1 {
                assert(batches.take(i) =~= prefix.take(i));
                assert(prefix[i] == batches[i]);
                assert(prefix[i][j] == batches[i][j]);
            } else {
                assert(batches.take(i) =~= prefix);
            }
        }
    }
}

/// One frame of the message bus: the messages sent with [`queue_messages`] over any number of
/// calls since the last [`advance_frame`] become, at the next [`advance_frame`], exactly the
/// current messages: first those queued before, then each message in the order sent. The
/// messages current before are gone, the queue is left empty, and advancing once more with
/// nothing sent leaves no current messages.
pub proof fn lemma_bus_frame_delivers_in_order<M>(queued: Seq<M>, batches: Seq<Seq<M>>)
    ensures
        batches.fold_left(queued, |q: Seq<M>, batch: Seq<M>| q + batch) == queued + sent_messages(batches),
        forall|i: int, j: int| 0 <= i < batches.len() && 0 <= j < batches[i].len() ==>
            (queued + sent_messages(batches))[queued.len() + sent_messages(batches.take(i)).len() + j]
                == #[trigger] batches[i][j],
{
    lemma_sent_messages_arrive_next_frame(queued, batches);
    lemma_sent_messages_positions(batches);
    assert forall|i: int, j: int| 0 <= i < batches.len() && 0 <= j < batches[i].len() implies
        (queued + sent_messages(batches))[queued.len() + sent_messages(batches.take(i)).len() + j]
            == #[trigger] batches[i][j] by {
        assert(sent_messages(batches)[sent_messages(batches.take(i)).len() + j] == batches[i][j]);
        assert(sent_messages(batches.take(i)).len() + batches[i].len() <= sent_messages(batches).len());
    }
}

} // verus!
