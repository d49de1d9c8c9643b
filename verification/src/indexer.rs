//! The indexer's side of the pipeline: what it holds between two posts to the
//! backend, and what it does with each answer.

use vstd::prelude::*;

use crate::text::{is_substring, str_contains};

verus! {

/// What the indexer still has to send: nothing, one batch, or a batch that was split
/// because the backend found it too large.
#[derive(Debug)]
pub enum Batch<T> {
    Single(Vec<T>),
    Splitted { to_send: Vec<T>, remaining: Vec<T> },
    Empty,
}

pub enum BatchView<T> {
    Single(Seq<T>),
    Splitted { to_send: Seq<T>, remaining: Seq<T> },
    Empty,
}

impl<T> View for Batch<T> {
    type V = BatchView<T>;

    open spec fn view(&self) -> BatchView<T> {
        match self {
            Batch::Single(elements) => BatchView::Single(elements@),
            Batch::Splitted { to_send, remaining } => BatchView::Splitted {
                to_send: to_send@,
                remaining: remaining@,
            },
            Batch::Empty => BatchView::Empty,
        }
    }
}

/// The elements of an optional batch.
pub open spec fn opt_elements<T>(o: Option<Vec<T>>) -> Option<Seq<T>> {
    match o {
        Some(v) => Some(v@),
        None => None,
    }
}

/// Every element that a batch holds, in the order in which it would be sent.
pub open spec fn held<T>(b: BatchView<T>) -> Seq<T> {
    match b {
        BatchView::Single(elements) => elements,
        BatchView::Splitted { to_send, remaining } => to_send + remaining,
        BatchView::Empty => Seq::empty(),
    }
}

/// What `pop_elements` hands out: the single batch, or the first fragment of a split.
pub open spec fn popped<T>(b: BatchView<T>) -> Option<Seq<T>> {
    match b {
        BatchView::Single(elements) => Some(elements),
        BatchView::Splitted { to_send, remaining } => Some(to_send),
        BatchView::Empty => None,
    }
}

/// What is left after `pop_elements`: the second fragment of a split, else nothing.
pub open spec fn after_pop<T>(b: BatchView<T>) -> BatchView<T> {
    match b {
        BatchView::Splitted { to_send, remaining } => BatchView::Single(remaining),
        _ => BatchView::Empty,
    }
}

/// What a batch holds after `push_elements`: the new elements behind what was the
/// last thing to be sent.
pub open spec fn after_push<T>(b: BatchView<T>, elements: Seq<T>) -> BatchView<T> {
    match b {
        BatchView::Single(existing) => BatchView::Single(existing + elements),
        BatchView::Splitted { to_send, remaining } => BatchView::Splitted {
            to_send,
            remaining: remaining + elements,
        },
        BatchView::Empty => BatchView::Single(elements),
    }
}

/// What a batch holds after `split_because_of_err`. Fewer than two elements cannot
/// be split and are dropped. Otherwise the first half is sent next, and the second
/// half goes in front of what was waiting.
pub open spec fn after_split<T>(b: BatchView<T>, elements: Seq<T>) -> BatchView<T> {
    if elements.len() <= 1 {
        b
    } else {
        let half = (elements.len() / 2) as int;
        BatchView::Splitted {
            to_send: elements.subrange(0, half),
            remaining: elements.subrange(half, elements.len() as int) + held(b),
        }
    }
}

impl<T> Batch<T> {
    /// Takes out what is to be sent next, if anything. Of a split batch the first
    /// fragment leaves and the second stays behind as a single batch.
    pub fn pop_elements(&mut self) -> (r: Option<Vec<T>>)
        ensures
            opt_elements(r) == popped(old(self)@),
            final(self)@ == after_pop(old(self)@),
            !(*final(self) is Splitted),
    {
        let mut taken = Batch::Empty;
        core::mem::swap(self, &mut taken);
        match taken {
            Batch::Single(elements) => Some(elements),
            Batch::Splitted { to_send, remaining } => {
                *self = Batch::Single(remaining);
                Some(to_send)
            },
            Batch::Empty => None,
        }
    }

    /// Takes back elements that the backend refused as too large, split in two
    /// halves. A single element cannot be split: it is dropped, and so is an empty
    /// list. A batch that is already split must be popped before the next split.
    pub fn split_because_of_err(&mut self, elements: Vec<T>)
        requires
            elements.len() > 1 ==> !(*old(self) is Splitted),
        ensures
            final(self)@ == after_split(old(self)@, elements@),
    {
        let mut elements = elements;
        if elements.len() <= 1 {
            return ;
        }
        let mut remaining = elements.split_off(elements.len() / 2);
        let mut taken = Batch::Empty;
        core::mem::swap(self, &mut taken);
        match taken {
            Batch::Single(single) => {
                let mut single = single;
                remaining.append(&mut single);
                *self = Batch::Splitted { to_send: elements, remaining };
            },
            Batch::Splitted { to_send, remaining: waiting } => {
                *self = Batch::Splitted { to_send, remaining: waiting };
            },
            Batch::Empty => {
                assert(remaining@ + Seq::<T>::empty() =~= remaining@);
                *self = Batch::Splitted { to_send: elements, remaining };
            },
        }
    }

    /// Puts elements behind whatever is waiting.
    pub fn push_elements(&mut self, elements: Vec<T>)
        ensures
            final(self)@ == after_push(old(self)@, elements@),
    {
        let mut elements = elements;
        let mut taken = Batch::Empty;
        core::mem::swap(self, &mut taken);
        match taken {
            Batch::Single(existing) => {
                let mut existing = existing;
                existing.append(&mut elements);
                *self = Batch::Single(existing);
            },
            Batch::Splitted { to_send, remaining } => {
                let mut remaining = remaining;
                remaining.append(&mut elements);
                *self = Batch::Splitted { to_send, remaining };
            },
            Batch::Empty => {
                *self = Batch::Single(elements);
            },
        }
    }

    /// Whether nothing is waiting, not even an empty batch.
    pub fn is_empty(&self) -> (r: bool)
        ensures
            r == (self@ is Empty),
    {
        match self {
            Batch::Single(_) => false,
            Batch::Splitted { to_send: _, remaining: _ } => false,
            Batch::Empty => true,
        }
    }
}

/// Popping hands out the front of what is held and leaves the rest, in order.
pub proof fn lemma_pop_keeps_order<T>(b: BatchView<T>)
    ensures
        popped(b) is Some ==> held(b) == popped(b)->0 + held(after_pop(b)),
        popped(b) is None ==> held(b) == Seq::<T>::empty() && after_pop(b) == b,
{
    match b {
        BatchView::Single(elements) => {
            assert(elements + Seq::<T>::empty() =~= elements);
        },
        _ => {},
    }
}

/// Pushing puts the elements at the end of what is held.
pub proof fn lemma_push_appends<T>(b: BatchView<T>, elements: Seq<T>)
    ensures
        held(after_push(b, elements)) == held(b) + elements,
{
    match b {
        BatchView::Single(existing) => {},
        BatchView::Splitted { to_send, remaining } => {
            assert(to_send + (remaining + elements) =~= (to_send + remaining) + elements);
        },
        BatchView::Empty => {
            assert(Seq::<T>::empty() + elements =~= elements);
        },
    }
}

/// Splitting two or more elements puts all of them, in order, in front of what is
/// held, the first half of them to be sent next; splitting fewer drops them and
/// changes nothing.
pub proof fn lemma_split_keeps_elements<T>(b: BatchView<T>, elements: Seq<T>)
    ensures
        elements.len() > 1 ==> held(after_split(b, elements)) == elements + held(b),
        elements.len() > 1 ==> after_split(b, elements) is Splitted,
        elements.len() > 1 ==> after_split(b, elements)->to_send.len() == elements.len() / 2,
        elements.len() > 1 ==> after_split(b, elements)->to_send.len() >= 1,
        elements.len() <= 1 ==> after_split(b, elements) == b,
{
    if elements.len() > 1 {
        let half = (elements.len() / 2) as int;
        let first = elements.subrange(0, half);
        let second = elements.subrange(half, elements.len() as int);
        assert(first + (second + held(b)) =~= elements + held(b));
    }
}

/// How a post to the backend ended.
#[derive(Clone, Copy, Debug, PartialEq, Eq, Structural)]
pub enum PostOutcome {
    /// The backend took the batch.
    Accepted,
    /// The backend is overloaded and asks to come back later.
    Overloaded,
    /// The backend refuses the request body as too large.
    PayloadTooLarge,
    /// The backend answered with anything else.
    Rejected,
    /// No answer came: the connection failed or broke.
    Unreachable,
}

/// The label under which a post is counted, where it is counted.
#[derive(Clone, Copy, Debug, PartialEq, Eq, Structural)]
pub enum OutputStatus {
    Success,
    TooManyRequests,
    Failure,
}

/// The label of a status in the count of posts.
pub open spec fn status_label(status: OutputStatus) -> Seq<char> {
    match status {
        OutputStatus::Success => "ok"@,
        OutputStatus::TooManyRequests => "toomany"@,
        OutputStatus::Failure => "error"@,
    }
}

impl OutputStatus {
    /// The label of this status in the count of posts.
    pub fn label(&self) -> (r: &'static str)
        ensures
            r@ == status_label(*self),
    {
        match self {
            OutputStatus::Success => "ok",
            OutputStatus::TooManyRequests => "toomany",
            OutputStatus::Failure => "error",
        }
    }
}

/// What follows from an answer: how many documents are now indexed, under which
/// label the post is counted, and how long to wait before the next post.
#[derive(Clone, Copy, Debug, PartialEq, Eq, Structural)]
pub struct Verdict {
    pub indexed: u64,
    pub status: Option<OutputStatus>,
    pub pause_secs: u64,
}

/// What the indexer does next.
#[derive(Clone, Copy, Debug, PartialEq, Eq, Structural)]
pub enum IndexerAction {
    /// Post the batch in flight to the backend and report the answer.
    Post,
    /// Nothing is pending: wait for the next batch from the queue.
    Receive,
}

/// Seconds to wait after the backend reported overload.
pub const OVERLOAD_PAUSE_SECS: u64 = 5;

/// Seconds to wait after any other failed post.
pub const RETRY_PAUSE_SECS: u64 = 1;

/// The words by which the backend says that a request body is too large.
pub open spec fn too_large_marker() -> Seq<char> {
    "The request payload is too large"@
}

/// How the status and body of an answer are read. The body counts only with status
/// 400, and a body that could not be read counts as one without the marker.
pub open spec fn outcome_of_reply(status: u16, body: Option<Seq<char>>) -> PostOutcome {
    if status == 200 {
        PostOutcome::Accepted
    } else if status == 429 {
        PostOutcome::Overloaded
    } else if status == 400 && body is Some && is_substring(too_large_marker(), body->0) {
        PostOutcome::PayloadTooLarge
    } else {
        PostOutcome::Rejected
    }
}

/// Reads the status and body of an answer of the backend.
pub fn classify_reply(status: u16, body: Option<&str>) -> (r: PostOutcome)
    ensures
        r == outcome_of_reply(
            status,
            match body {
                Some(b) => Some(b@),
                None => None,
            },
        ),
{
    if status == 200 {
        PostOutcome::Accepted
    } else if status == 429 {
        PostOutcome::Overloaded
    } else if status == 400 {
        match body {
            Some(b) => {
                if str_contains(b, "The request payload is too large") {
                    PostOutcome::PayloadTooLarge
                } else {
                    PostOutcome::Rejected
                }
            },
            None => PostOutcome::Rejected,
        }
    } else {
        PostOutcome::Rejected
    }
}

/// The batch that is posted next out of what is waiting: the first one that is not
/// empty. Empty batches are passed over.
pub open spec fn next_post<T>(b: BatchView<T>) -> Option<Seq<T>> {
    if popped(b) is Some && popped(b)->0.len() > 0 {
        popped(b)
    } else if popped(after_pop(b)) is Some && popped(after_pop(b))->0.len() > 0 {
        popped(after_pop(b))
    } else {
        None
    }
}

/// What is still waiting once the next post has been taken out.
pub open spec fn after_next_post<T>(b: BatchView<T>) -> BatchView<T> {
    if popped(b) is Some && popped(b)->0.len() > 0 {
        after_pop(b)
    } else {
        BatchView::Empty
    }
}

/// What is waiting after an answer to the post of `batch`.
pub open spec fn waiting_after<T>(
    waiting: BatchView<T>,
    batch: Seq<T>,
    outcome: PostOutcome,
) -> BatchView<T> {
    match outcome {
        PostOutcome::Accepted => waiting,
        PostOutcome::PayloadTooLarge => after_split(waiting, batch),
        _ => after_push(waiting, batch),
    }
}

/// What follows from an answer to the post of `len` documents.
pub open spec fn verdict_of(len: nat, outcome: PostOutcome) -> Verdict {
    match outcome {
        PostOutcome::Accepted => Verdict {
            indexed: len as u64,
            status: Some(OutputStatus::Success),
            pause_secs: 0,
        },
        PostOutcome::Overloaded => Verdict {
            indexed: 0,
            status: Some(OutputStatus::TooManyRequests),
            pause_secs: OVERLOAD_PAUSE_SECS,
        },
        PostOutcome::PayloadTooLarge => Verdict {
            indexed: 0,
            status: None,
            pause_secs: RETRY_PAUSE_SECS,
        },
        PostOutcome::Rejected => Verdict {
            indexed: 0,
            status: Some(OutputStatus::Failure),
            pause_secs: RETRY_PAUSE_SECS,
        },
        PostOutcome::Unreachable => Verdict {
            indexed: 0,
            status: None,
            pause_secs: RETRY_PAUSE_SECS,
        },
    }
}

/// Taking out the next post loses nothing: what was held is the post followed by
/// what still waits, and where there is no post nothing was held at all.
pub proof fn lemma_next_post_keeps_order<T>(b: BatchView<T>)
    ensures
        next_post(b) is Some ==> held(b) == next_post(b)->0 + held(after_next_post(b)),
        next_post(b) is Some ==> next_post(b)->0.len() > 0,
        next_post(b) is None ==> held(b).len() == 0 && after_next_post(b) is Empty,
        !(after_next_post(b) is Splitted),
{
    match b {
        BatchView::Single(elements) => {
            assert(elements + Seq::<T>::empty() =~= elements);
        },
        BatchView::Splitted { to_send, remaining } => {
            if to_send.len() == 0 {
                assert(to_send + remaining =~= remaining + Seq::<T>::empty());
            }
        },
        BatchView::Empty => {},
    }
}

/// An answer loses no document but those it is meant to: an accepted batch is done,
/// a single document that is too large is dropped, and everything else is held
/// again, a split batch in front of what waited and any other behind it.
pub proof fn lemma_answer_keeps_documents<T>(
    waiting: BatchView<T>,
    batch: Seq<T>,
    outcome: PostOutcome,
)
    ensures
        held(waiting_after(waiting, batch, outcome)) == match outcome {
            PostOutcome::Accepted => held(waiting),
            PostOutcome::PayloadTooLarge => if batch.len() > 1 {
                batch + held(waiting)
            } else {
                held(waiting)
            },
            _ => held(waiting) + batch,
        },
{
    lemma_push_appends(waiting, batch);
    lemma_split_keeps_elements(waiting, batch);
}

/// While a post is unanswered nothing that waits is split, so at no time is there
/// more than the one split that the type can hold: an answer either leaves what
/// waits unsplit or makes the one split out of the posted batch.
pub proof fn lemma_one_split_at_a_time<T>(
    waiting: BatchView<T>,
    batch: Seq<T>,
    outcome: PostOutcome,
)
    requires
        !(waiting is Splitted),
    ensures
        waiting_after(waiting, batch, outcome) is Splitted <==> outcome
            == PostOutcome::PayloadTooLarge && batch.len() > 1,
        !(after_next_post(waiting_after(waiting, batch, outcome)) is Splitted),
{
}

/// The state of the indexing loop as the laws of a whole run see it: what is
/// waiting, and the batch whose post is unanswered.
pub struct LoopView<T> {
    pub waiting: BatchView<T>,
    pub posted: Option<Seq<T>>,
}

/// The state after the loop has decided what to do next: with no post unanswered
/// the next batch that is not empty is taken out to be posted.
pub open spec fn decided<T>(s: LoopView<T>) -> LoopView<T> {
    if s.posted is Some {
        s
    } else {
        LoopView { waiting: after_next_post(s.waiting), posted: next_post(s.waiting) }
    }
}

/// The state after the answer to the unanswered post.
pub open spec fn answered<T>(s: LoopView<T>, outcome: PostOutcome) -> LoopView<T> {
    if s.posted is Some {
        LoopView { waiting: waiting_after(s.waiting, s.posted->0, outcome), posted: None }
    } else {
        s
    }
}

/// The state after a batch came from the queue.
pub open spec fn received<T>(s: LoopView<T>, batch: Seq<T>) -> LoopView<T> {
    LoopView { waiting: after_push(s.waiting, batch), posted: s.posted }
}

/// The documents of all the posts that the backend accepts in a run of the loop, in
/// the order of the posts. The loop starts in state `s`; `batches` are the batches
/// that the queue gives, one each time the loop asks for one, after which the queue
/// is closed; `answers` are the outcomes of the posts, one for each post in turn.
pub open spec fn accepted_in_run<T>(
    s: LoopView<T>,
    batches: Seq<Seq<T>>,
    answers: Seq<PostOutcome>,
) -> Seq<T>
    decreases answers.len(), batches.len(),
{
    let d = decided(s);
    if d.posted is Some {
        if answers.len() == 0 {
            Seq::empty()
        } else {
            let later = accepted_in_run(answered(d, answers[0]), batches, answers.drop_first());
            if answers[0] == PostOutcome::Accepted {
                d.posted->0 + later
            } else {
                later
            }
        }
    } else if batches.len() == 0 {
        Seq::empty()
    } else {
        accepted_in_run(received(d, batches[0]), batches.drop_first(), answers)
    }
}

/// Whether a run of the loop comes to its end: with nothing pending the loop asks
/// for a batch and finds the queue closed. A run does so when the backend accepts
/// every batch after finitely many other answers, so that the answers do not give
/// out while a post is unanswered.
pub open spec fn run_ends<T>(
    s: LoopView<T>,
    batches: Seq<Seq<T>>,
    answers: Seq<PostOutcome>,
) -> bool
    decreases answers.len(), batches.len(),
{
    let d = decided(s);
    if d.posted is Some {
        answers.len() > 0 && run_ends(answered(d, answers[0]), batches, answers.drop_first())
    } else if batches.len() == 0 {
        true
    } else {
        run_ends(received(d, batches[0]), batches.drop_first(), answers)
    }
}

/// All the documents of some batches, one batch after the other.
pub open spec fn all_documents<T>(batches: Seq<Seq<T>>) -> Seq<T>
    decreases batches.len(),
{
    if batches.len() == 0 {
        Seq::empty()
    } else {
        batches[0] + all_documents(batches.drop_first())
    }
}

/// What a state of the loop still has to index: the batch whose post is unanswered,
/// then what is waiting.
pub open spec fn pending_documents<T>(s: LoopView<T>) -> Seq<T> {
    (match s.posted {
        Some(batch) => batch,
        None => Seq::empty(),
    }) + held(s.waiting)
}

/// Whether a state is one that the loop reaches while the backend never finds a
/// batch too large: nothing is split, and nothing waits while a post is unanswered.
pub open spec fn is_unsplit<T>(s: LoopView<T>) -> bool {
    &&& !(s.waiting is Splitted)
    &&& s.posted is Some ==> s.waiting is Empty
}

/// Over a whole run every document is indexed exactly once and in order. Where the
/// backend never finds a batch too large and accepts every batch after finitely
/// many other answers, the documents of the accepted posts, one post after the
/// other, are what was pending at the start followed by the documents of all the
/// batches of the queue: none is missing, none is there twice, the batches keep
/// their order and every batch keeps its own.
pub proof fn lemma_run_indexes_every_document_once<T>(
    s: LoopView<T>,
    batches: Seq<Seq<T>>,
    answers: Seq<PostOutcome>,
)
    requires
        is_unsplit(s),
        forall|i: int| 0 <= i < answers.len() ==> answers[i] != PostOutcome::PayloadTooLarge,
        run_ends(s, batches, answers),
    ensures
        accepted_in_run(s, batches, answers) == pending_documents(s) + all_documents(batches),
    decreases answers.len(), batches.len(),
{
    let d = decided(s);
    lemma_next_post_keeps_order(s.waiting);
    if d.posted is Some {
        let batch = d.posted->0;
        assert(pending_documents(d) =~= pending_documents(s)) by {
            if s.posted is None {
                assert(s.waiting is Single);
                assert(held(d.waiting) =~= Seq::<T>::empty());
            }
        }
        assert(held(d.waiting) =~= Seq::<T>::empty());
        assert(pending_documents(d) =~= batch);
        let next = answered(d, answers[0]);
        let rest = answers.drop_first();
        assert forall|i: int| 0 <= i < rest.len() implies rest[i]
            != PostOutcome::PayloadTooLarge by {
            assert(rest[i] == answers[i + 1]);
        }
        lemma_push_appends(d.waiting, batch);
        lemma_run_indexes_every_document_once(next, batches, rest);
        if answers[0] == PostOutcome::Accepted {
            assert(pending_documents(next) =~= Seq::<T>::empty());
            assert(batch + (pending_documents(next) + all_documents(batches)) =~= batch
                + all_documents(batches));
        } else {
            assert(pending_documents(next) =~= batch);
        }
    } else if batches.len() == 0 {
        assert(pending_documents(s) =~= Seq::<T>::empty());
        assert(pending_documents(s) + all_documents(batches) =~= Seq::<T>::empty());
    } else {
        assert(pending_documents(s) =~= Seq::<T>::empty());
        let next = received(d, batches[0]);
        lemma_push_appends(d.waiting, batches[0]);
        lemma_run_indexes_every_document_once(next, batches.drop_first(), answers);
        assert(pending_documents(next) =~= batches[0]);
        assert(pending_documents(s) + all_documents(batches) =~= batches[0] + all_documents(
            batches.drop_first(),
        ));
    }
}

/// The state of the indexing loop: what is waiting to be sent, and the batch whose
/// post has not been answered yet. While a post is unanswered nothing that waits is
/// split, so an answer can always split the posted batch.
pub struct Indexer<T> {
    batch: Batch<T>,
    in_flight: Option<Vec<T>>,
}

impl<T> Indexer<T> {
    #[verifier::type_invariant]
    spec fn wf(self) -> bool {
        self.in_flight is Some ==> !(self.batch is Splitted)
    }

    /// What is waiting to be sent.
    pub closed spec fn waiting(self) -> BatchView<T> {
        self.batch@
    }

    /// The batch whose post has not been answered yet.
    pub closed spec fn posted(self) -> Option<Seq<T>> {
        opt_elements(self.in_flight)
    }

    /// The state of the loop: what is waiting and what is posted.
    pub open spec fn state(self) -> LoopView<T> {
        LoopView { waiting: self.waiting(), posted: self.posted() }
    }

    /// An indexer with nothing to send.
    pub fn new() -> (r: Self)
        ensures
            r.waiting() is Empty,
            r.posted() is None,
    {
        Indexer { batch: Batch::Empty, in_flight: None }
    }

    /// Decides what to do next. With a post still unanswered it is that post again.
    /// Otherwise the next batch that is not empty leaves the waiting ones and is to be
    /// posted; when there is none, nothing is left waiting and the next batch is to be
    /// received from the queue.
    pub fn next_action(&mut self) -> (r: IndexerAction)
        ensures
            old(self).posted() is Some ==> r == IndexerAction::Post && final(self).posted() == old(
                self,
            ).posted() && final(self).waiting() == old(self).waiting(),
            old(self).posted() is None ==> final(self).posted() == next_post(old(self).waiting())
                && final(self).waiting() == after_next_post(old(self).waiting()),
            final(self).state() == decided(old(self).state()),
            r == IndexerAction::Post <==> final(self).posted() is Some,
            r == IndexerAction::Receive ==> final(self).waiting() is Empty,
            final(self).posted() is Some ==> !(final(self).waiting() is Splitted),
            final(self).posted() is Some ==> final(self).posted()->0.len() > 0 || old(
                self,
            ).posted() is Some,
    {
        proof {
            use_type_invariant(&*self);
        }
        if self.in_flight.is_some() {
            return IndexerAction::Post;
        }
        let mut batch = Batch::Empty;
        core::mem::swap(&mut self.batch, &mut batch);
        let mut next = batch.pop_elements();
        let first_is_empty = match &next {
            Some(elements) => elements.len() == 0,
            None => false,
        };
        if first_is_empty {
            next = batch.pop_elements();
        }
        let found = match &next {
            Some(elements) => elements.len() > 0,
            None => false,
        };
        if found {
            self.batch = batch;
            self.in_flight = next;
            IndexerAction::Post
        } else {
            IndexerAction::Receive
        }
    }

    /// The batch to post, while a post is unanswered.
    pub fn in_flight(&self) -> (r: Option<&Vec<T>>)
        ensures
            match r {
                Some(batch) => self.posted() == Some(batch@),
                None => self.posted() is None,
            },
    {
        match &self.in_flight {
            Some(batch) => Some(batch),
            None => None,
        }
    }

    /// Whether nothing is waiting and no post is unanswered.
    pub fn is_idle(&self) -> (r: bool)
        ensures
            r == (self.waiting() is Empty && self.posted() is None),
    {
        self.batch.is_empty() && self.in_flight.is_none()
    }

    /// Takes a batch that came from the queue and puts it behind what is waiting.
    pub fn on_batch(&mut self, batch: Vec<T>)
        ensures
            final(self).waiting() == after_push(old(self).waiting(), batch@),
            final(self).posted() == old(self).posted(),
            final(self).state() == received(old(self).state(), batch@),
    {
        proof {
            use_type_invariant(&*self);
        }
        let mut waiting = Batch::Empty;
        core::mem::swap(&mut self.batch, &mut waiting);
        waiting.push_elements(batch);
        self.batch = waiting;
    }

    /// Takes the answer to the unanswered post. An accepted batch is done. A batch
    /// that was too large is split in halves, or dropped if it is a single document.
    /// After any other answer, and after none, the batch goes back behind what is
    /// waiting. Without an unanswered post nothing changes.
    pub fn on_response(&mut self, outcome: PostOutcome) -> (r: Verdict)
        ensures
            final(self).posted() is None,
            final(self).state() == answered(old(self).state(), outcome),
            old(self).posted() is Some ==> final(self).waiting() == waiting_after(
                old(self).waiting(),
                old(self).posted()->0,
                outcome,
            ) && r == verdict_of(old(self).posted()->0.len(), outcome),
            old(self).posted() is None ==> final(self).waiting() == old(self).waiting() && r
                == (Verdict { indexed: 0, status: None, pause_secs: 0 }),
    {
        proof {
            use_type_invariant(&*self);
        }
        let mut taken: Option<Vec<T>> = None;
        core::mem::swap(&mut self.in_flight, &mut taken);
        let batch = match taken {
            Some(batch) => batch,
            None => {
                return Verdict { indexed: 0, status: None, pause_secs: 0 };
            },
        };
        let mut waiting = Batch::Empty;
        core::mem::swap(&mut self.batch, &mut waiting);
        let verdict = match outcome {
            PostOutcome::Accepted => Verdict {
                indexed: batch.len() as u64,
                status: Some(OutputStatus::Success),
                pause_secs: 0,
            },
            PostOutcome::Overloaded => {
                waiting.push_elements(batch);
                Verdict {
                    indexed: 0,
                    status: Some(OutputStatus::TooManyRequests),
                    pause_secs: OVERLOAD_PAUSE_SECS,
                }
            },
            PostOutcome::PayloadTooLarge => {
                waiting.split_because_of_err(batch);
                Verdict { indexed: 0, status: None, pause_secs: RETRY_PAUSE_SECS }
            },
            PostOutcome::Rejected => {
                waiting.push_elements(batch);
                Verdict {
                    indexed: 0,
                    status: Some(OutputStatus::Failure),
                    pause_secs: RETRY_PAUSE_SECS,
                }
            },
            PostOutcome::Unreachable => {
                waiting.push_elements(batch);
                Verdict { indexed: 0, status: None, pause_secs: RETRY_PAUSE_SECS }
            },
        };
        self.batch = waiting;
        verdict
    }
}

} // verus!
