use vstd::prelude::*;

verus! {

/// One websocket read, before any JSON is read from it: a message, or the
/// transport's error `E`.
pub enum RawFrame<E> {
    Text(String),
    Binary,
    Close,
    Other,
    Failed(E),
}

/// Why a read fails to be handled.
#[derive(Debug)]
pub enum RawError<E> {
    /// The server closed the connection.
    ConnectionClosed,
    /// The transport failed.
    Transport(E),
}

/// What to do with a read.
pub enum RawStep<E> {
    /// Give the text to every registered ingestor in turn, stopping at the
    /// first that fails (see `start_ingest` and `after_ingest`).
    Ingest(String),
    /// Nothing more: report this.
    Done(Result<(), RawError<E>>),
}

/// Handles one read: text goes to the ingestors, a close or a transport
/// error fails, and anything else is ignored.
pub fn handle_message<E>(frame: RawFrame<E>) -> (step: RawStep<E>)
    ensures
        match frame {
            RawFrame::Text(t) => step == RawStep::<E>::Ingest(t),
            RawFrame::Close => step == RawStep::<E>::Done(Err(RawError::ConnectionClosed)),
            RawFrame::Failed(e) => step == RawStep::<E>::Done(Err(RawError::Transport(e))),
            RawFrame::Binary | RawFrame::Other => step == RawStep::<E>::Done(Ok(())),
        },
{
    match frame {
        RawFrame::Text(t) => RawStep::Ingest(t),
        RawFrame::Close => RawStep::Done(Err(RawError::ConnectionClosed)),
        RawFrame::Failed(e) => RawStep::Done(Err(RawError::Transport(e))),
        RawFrame::Binary | RawFrame::Other => RawStep::Done(Ok(())),
    }
}


/// Where the giving of one text to the registered ingestors stands: the next
/// ingestor to call, or the outcome.
pub enum IngestProgress<E> {
    Call(usize),
    Finished(Result<(), E>),
}

/// The first step of giving a text to `count` ingestors.
pub open spec fn ingest_start<E>(count: nat) -> IngestProgress<E> {
    if count == 0 {
        IngestProgress::Finished(Ok(()))
    } else {
        IngestProgress::Call(0)
    }
}

/// The step after ingestor `index` of `count` answered `outcome`: stop at a
/// failure with it, else go on to the next ingestor, else succeed.
pub open spec fn ingest_next<E>(index: nat, count: nat, outcome: Result<(), E>) -> IngestProgress<E> {
    match outcome {
        Err(e) => IngestProgress::Finished(Err(e)),
        Ok(()) => if index + 1 < count {
            IngestProgress::Call((index + 1) as usize)
        } else {
            IngestProgress::Finished(Ok(()))
        },
    }
}

/// The first step of giving a text to `count` ingestors: the first
/// ingestor, or success at once when there are none.
pub fn start_ingest<E>(count: usize) -> (p: IngestProgress<E>)
    ensures
        p == ingest_start::<E>(count as nat),
{
    if count == 0 {
        IngestProgress::Finished(Ok(()))
    } else {
        IngestProgress::Call(0)
    }
}

/// The step after ingestor `index` of `count` answered: a failure ends the
/// run with it, a success goes on to the next ingestor or ends the run with
/// success after the last.
pub fn after_ingest<E>(index: usize, count: usize, outcome: Result<(), E>) -> (p: IngestProgress<E>)
    requires
        index < count,
    ensures
        p == ingest_next(index as nat, count as nat, outcome),
{
    match outcome {
        Err(e) => IngestProgress::Finished(Err(e)),
        Ok(()) => if index + 1 < count {
            IngestProgress::Call(index + 1)
        } else {
            IngestProgress::Finished(Ok(()))
        },
    }
}

/// Where a run stands after `steps` steps, when ingestor `i` would answer
/// `outcomes[i]`.
pub open spec fn ingest_progress<E>(outcomes: Seq<Result<(), E>>, steps: nat) -> IngestProgress<E>
    decreases steps,
{
    if steps == 0 {
        ingest_start(outcomes.len())
    } else {
        match ingest_progress(outcomes, (steps - 1) as nat) {
            IngestProgress::Call(i) => if i < outcomes.len() {
                ingest_next(i as nat, outcomes.len(), outcomes[i as int])
            } else {
                IngestProgress::Call(i)
            },
            IngestProgress::Finished(r) => IngestProgress::Finished(r),
        }
    }
}

/// The position of the first failing answer at or after `from`, or the
/// number of answers where none fails.
pub open spec fn first_failure_from<E>(outcomes: Seq<Result<(), E>>, from: int) -> int
    decreases outcomes.len() - from,
{
    if from >= outcomes.len() {
        outcomes.len() as int
    } else if outcomes[from] is Err {
        from
    } else {
        first_failure_from(outcomes, from + 1)
    }
}

proof fn lemma_first_failure<E>(outcomes: Seq<Result<(), E>>, from: int)
    requires
        0 <= from <= outcomes.len(),
    ensures
        from <= first_failure_from(outcomes, from) <= outcomes.len(),
        forall|j: int| from <= j < first_failure_from(outcomes, from) ==> #[trigger] outcomes[j] is Ok,
        first_failure_from(outcomes, from) < outcomes.len() ==> outcomes[first_failure_from(outcomes, from)] is Err,
    decreases outcomes.len() - from,
{
    if from < outcomes.len() && outcomes[from] is Ok {
        lemma_first_failure(outcomes, from + 1);
    }
}

/// The text is given to ingestors 0, 1, 2, ... in order, each once, up to and
/// including the first that fails (or all of them), and the run ends with
/// that failure (or with success): after `k` steps, for `k` below the number
/// of calls, ingestor `k` is the next to call, and after the last call the
/// run is finished.
pub proof fn lemma_ingest_in_order_until_failure<E>(outcomes: Seq<Result<(), E>>, k: nat)
    requires
        outcomes.len() <= usize::MAX,
    ensures
        ({
            let f = first_failure_from(outcomes, 0);
            let calls = if f < outcomes.len() { f + 1 } else { f };
            &&& k < calls ==> ingest_progress(outcomes, k) == IngestProgress::<E>::Call(k as usize)
            &&& k >= calls ==> ingest_progress(outcomes, k) == IngestProgress::<E>::Finished(
                if f < outcomes.len() { outcomes[f] } else { Ok(()) },
            )
        }),
    decreases k,
{
    lemma_first_failure(outcomes, 0);
    let f = first_failure_from(outcomes, 0);
    let calls = if f < outcomes.len() { f + 1 } else { f };
    if k > 0 {
        lemma_ingest_in_order_until_failure(outcomes, (k - 1) as nat);
        if k - 1 < calls {
            let i = (k - 1) as int;
            assert(ingest_progress(outcomes, (k - 1) as nat) == IngestProgress::<E>::Call((k - 1) as usize));
            if i < f {
                assert(outcomes[i] is Ok);
            } else {
                assert(i == f && f < outcomes.len());
            }
        }
    }
}

} // verus!
