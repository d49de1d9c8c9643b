//! The batcher of the collector: it gathers documents into batches that are bounded
//! by a size and by the time they may wait.

use vstd::prelude::*;

verus! {

/// What happened for the batcher to react to.
#[derive(Debug)]
pub enum BatcherEvent<T> {
    /// Shutdown was requested. The input queue has been closed and drained; these
    /// are the items that were still in it, in order.
    Shutdown(Vec<T>),
    /// Nothing arrived for as long as a batch may wait.
    Timer,
    /// An item arrived.
    Item(T),
    /// The input queue is closed and empty.
    InputClosed,
}

pub enum BatcherEventView<T> {
    Shutdown(Seq<T>),
    Timer,
    Item(T),
    InputClosed,
}

impl<T> View for BatcherEvent<T> {
    type V = BatcherEventView<T>;

    open spec fn view(&self) -> BatcherEventView<T> {
        match self {
            BatcherEvent::Shutdown(rest) => BatcherEventView::Shutdown(rest@),
            BatcherEvent::Timer => BatcherEventView::Timer,
            BatcherEvent::Item(item) => BatcherEventView::Item(*item),
            BatcherEvent::InputClosed => BatcherEventView::InputClosed,
        }
    }
}

/// What the batcher asks for after an event: a batch to put on the output queue, if
/// one is due, and whether the batcher is done.
#[derive(Debug)]
pub struct BatcherStep<T> {
    pub flush: Option<Vec<T>>,
    pub exit: bool,
}

/// The items gathered after an event and before any flush.
pub open spec fn gathered<T>(buffer: Seq<T>, event: BatcherEventView<T>) -> Seq<T> {
    match event {
        BatcherEventView::Shutdown(rest) => buffer + rest,
        BatcherEventView::Item(item) => buffer.push(item),
        _ => buffer,
    }
}

/// Whether an event makes the batcher flush what it has gathered: an arrival that
/// makes the buffer exactly `batch_size` long does, and so does every other event.
pub open spec fn flush_is_due<T>(
    buffer: Seq<T>,
    event: BatcherEventView<T>,
    batch_size: usize,
) -> bool {
    match event {
        BatcherEventView::Item(_) => buffer.len() + 1 == batch_size,
        _ => true,
    }
}

/// The batch that goes out after an event: all that was gathered, where a flush is
/// due and anything was gathered. An empty batch never goes out.
pub open spec fn flushed<T>(buffer: Seq<T>, event: BatcherEventView<T>, batch_size: usize) -> Option<
    Seq<T>,
> {
    if flush_is_due(buffer, event, batch_size) && gathered(buffer, event).len() > 0 {
        Some(gathered(buffer, event))
    } else {
        None
    }
}

/// The buffer after an event: empty where a flush was due, else all that was
/// gathered.
pub open spec fn buffer_after<T>(
    buffer: Seq<T>,
    event: BatcherEventView<T>,
    batch_size: usize,
) -> Seq<T> {
    if flush_is_due(buffer, event, batch_size) {
        Seq::empty()
    } else {
        gathered(buffer, event)
    }
}

/// Whether the batcher is done after an event.
pub open spec fn is_last<T>(event: BatcherEventView<T>) -> bool {
    event is Shutdown || event is InputClosed
}

/// The batcher: the items gathered since the last flush.
#[derive(Debug)]
pub struct Batcher<T> {
    pub buffer: Vec<T>,
}

impl<T> View for Batcher<T> {
    type V = Seq<T>;

    open spec fn view(&self) -> Seq<T> {
        self.buffer@
    }
}

/// The items of an optional batch.
pub open spec fn opt_batch<T>(o: Option<Vec<T>>) -> Option<Seq<T>> {
    match o {
        Some(v) => Some(v@),
        None => None,
    }
}

impl<T> Batcher<T> {
    /// A batcher that has gathered nothing.
    pub fn new() -> (r: Self)
        ensures
            r@.len() == 0,
    {
        Batcher { buffer: Vec::new() }
    }

    /// Takes out all that was gathered, as a batch if there is anything.
    fn flush(&mut self) -> (r: Option<Vec<T>>)
        ensures
            final(self)@.len() == 0,
            old(self)@.len() == 0 ==> r is None,
            old(self)@.len() > 0 ==> opt_batch(r) == Some(old(self)@),
    {
        if self.buffer.len() > 0 {
            let mut batch: Vec<T> = Vec::new();
            core::mem::swap(&mut self.buffer, &mut batch);
            Some(batch)
        } else {
            None
        }
    }

    /// Reacts to one event. An item joins the buffer and the buffer is flushed when
    /// it is exactly `batch_size` long. The timer flushes what there is. At shutdown
    /// the drained items join the buffer, everything is flushed in one last batch
    /// and the batcher is done, as it is when the input queue is closed.
    pub fn step(&mut self, event: BatcherEvent<T>, batch_size: usize) -> (r: BatcherStep<T>)
        ensures
            opt_batch(r.flush) == flushed(old(self)@, event@, batch_size),
            final(self)@ == buffer_after(old(self)@, event@, batch_size),
            r.exit == is_last(event@),
    {
        match event {
            BatcherEvent::Shutdown(rest) => {
                let mut rest = rest;
                self.buffer.append(&mut rest);
                BatcherStep { flush: self.flush(), exit: true }
            },
            BatcherEvent::Timer => BatcherStep { flush: self.flush(), exit: false },
            BatcherEvent::Item(item) => {
                self.buffer.push(item);
                if self.buffer.len() == batch_size {
                    BatcherStep { flush: self.flush(), exit: false }
                } else {
                    BatcherStep { flush: None, exit: false }
                }
            },
            BatcherEvent::InputClosed => BatcherStep { flush: self.flush(), exit: true },
        }
    }
}

/// No item is lost or doubled by an event: what was gathered is what goes out
/// followed by what stays in the buffer.
pub proof fn lemma_step_keeps_items<T>(buffer: Seq<T>, event: BatcherEventView<T>, batch_size: usize)
    ensures
        gathered(buffer, event) == (match flushed(buffer, event, batch_size) {
            Some(batch) => batch,
            None => Seq::empty(),
        }) + buffer_after(buffer, event, batch_size),
{
    let all = gathered(buffer, event);
    assert(all + Seq::<T>::empty() =~= all);
    assert(Seq::<T>::empty() + all =~= all);
}

/// With no arrival in between, a timer flushes at most once: after one timer event
/// the buffer is empty, and the next timer event flushes nothing.
pub proof fn lemma_timer_flushes_once<T>(buffer: Seq<T>, batch_size: usize)
    ensures
        buffer_after(buffer, BatcherEventView::<T>::Timer, batch_size).len() == 0,
        flushed(
            buffer_after(buffer, BatcherEventView::<T>::Timer, batch_size),
            BatcherEventView::<T>::Timer,
            batch_size,
        ) is None,
{
}

/// The arrival that makes the buffer `batch_size` long is flushed at once, in a
/// batch of that size, and no other arrival flushes anything.
pub proof fn lemma_full_batch_flushes_at_once<T>(buffer: Seq<T>, item: T, batch_size: usize)
    ensures
        buffer.len() + 1 == batch_size ==> flushed(
            buffer,
            BatcherEventView::Item(item),
            batch_size,
        ) == Some(buffer.push(item)),
        buffer.len() + 1 != batch_size ==> flushed(buffer, BatcherEventView::Item(item), batch_size)
            is None && buffer_after(buffer, BatcherEventView::Item(item), batch_size)
            == buffer.push(item),
{
}

/// At shutdown every item that is in the buffer or was still in the input queue goes
/// out in the last batch, in order, and nothing stays behind.
pub proof fn lemma_shutdown_flushes_everything<T>(buffer: Seq<T>, rest: Seq<T>, batch_size: usize)
    ensures
        buffer.len() + rest.len() > 0 ==> flushed(
            buffer,
            BatcherEventView::Shutdown(rest),
            batch_size,
        ) == Some(buffer + rest),
        buffer_after(buffer, BatcherEventView::Shutdown(rest), batch_size).len() == 0,
{
}

} // verus!
