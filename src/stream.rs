use vstd::prelude::*;
use crate::error::ApiError;

verus! {

/// Where the long-polling loop stands.
#[derive(Clone, Copy, Debug, PartialEq, Eq, Structural)]
pub enum PollState {
    /// No fetch is outstanding; the next step may start one.
    Idle,
    /// One fetch is outstanding.
    Polling,
    /// The consumer left, or the service refused the credentials.
    Closed,
}

/// What the driver of the stream is to do next.
pub enum StreamAction<T> {
    /// Hand this event to the consumer.
    Emit(T),
    /// Start one fetch of updates with these parameters.
    Poll { offset: i64, timeout: i64, limit: Option<i64> },
    /// A fetch is outstanding: wait for its outcome.
    Wait,
    /// The stream has ended: no more events and no more fetches.
    Stop,
}

/// What the driver is to do after a failed fetch.
pub enum FailureStep {
    /// Wait this many milliseconds, then fetch again from the same offset.
    Retry { delay_ms: u64 },
    /// The stream is closed; hand this error to the consumer.
    Close(ApiError),
    /// The failure came after the stream closed, and is dropped.
    Ignore,
}

/// The most a retry waits, in milliseconds.
pub const MAX_RETRY_DELAY_MS: u64 = 30000;

/// How long a retry waits after `failures` transient failures in a row:
/// one second for each, at most `MAX_RETRY_DELAY_MS`.
pub open spec fn retry_delay(failures: u32) -> u64 {
    if failures >= 30 {
        MAX_RETRY_DELAY_MS
    } else {
        (1000 * failures) as u64
    }
}

/// The offset just past update `id`; the largest identifier is its own bound.
pub open spec fn one_past(id: i64) -> i64 {
    if id < i64::MAX {
        (id + 1) as i64
    } else {
        i64::MAX
    }
}

/// The offset that acknowledges update `id` when the cursor stands at `c`.
pub open spec fn acknowledge(c: i64, id: i64) -> i64 {
    if id < c {
        c
    } else {
        one_past(id)
    }
}

/// The cursor after a batch with these update identifiers, in order.
pub open spec fn next_cursor(c: i64, ids: Seq<i64>) -> i64
    decreases ids.len(),
{
    if ids.len() == 0 {
        c
    } else {
        acknowledge(next_cursor(c, ids.drop_last()), ids.last())
    }
}

/// The long-polling loop's decisions: which fetch to start, which event to
/// hand out next, how far the cursor moves, and when to stop. The driver
/// performs each fetch and reports its outcome back.
pub struct UpdatesStream<T> {
    offset: i64,
    timeout: i64,
    limit: Option<i64>,
    state: PollState,
    pending: Vec<T>,
    failures: u32,
}

impl<T> UpdatesStream<T> {
    /// The offset that the next fetch carries.
    pub closed spec fn cursor(&self) -> i64 {
        self.offset
    }

    pub closed spec fn poll_state(&self) -> PollState {
        self.state
    }

    /// Events received and not yet handed out, oldest first.
    pub closed spec fn queued(&self) -> Seq<T> {
        self.pending@
    }

    /// Transient failures since the last successful fetch.
    pub closed spec fn failure_count(&self) -> u32 {
        self.failures
    }

    /// Seconds the service may hold a fetch open waiting for updates.
    pub closed spec fn wait_budget(&self) -> i64 {
        self.timeout
    }

    /// The most updates one fetch asks for, if bounded.
    pub closed spec fn batch_limit(&self) -> Option<i64> {
        self.limit
    }

    /// A fetch is only outstanding while no received event waits.
    pub open spec fn wf(&self) -> bool {
        self.poll_state() is Polling ==> self.queued().len() == 0
    }

    /// How a call of `next_action` relates the stream before, the stream
    /// after, and the action returned.
    pub open spec fn next_action_post(s: Self, t: Self, a: StreamAction<T>) -> bool {
        &&& t.cursor() == s.cursor()
        &&& t.wait_budget() == s.wait_budget()
        &&& t.batch_limit() == s.batch_limit()
        &&& t.failure_count() == s.failure_count()
        &&& if s.poll_state() is Closed {
            a is Stop && t.poll_state() is Closed && t.queued().len() == 0
        } else if s.queued().len() > 0 {
            a == StreamAction::Emit(s.queued()[0]) && t.queued() == s.queued().drop_first()
                && t.poll_state() == s.poll_state()
        } else if s.poll_state() is Polling {
            a is Wait && t.poll_state() is Polling && t.queued() == s.queued()
        } else {
            &&& a == StreamAction::<T>::Poll {
                offset: s.cursor(),
                timeout: s.wait_budget(),
                limit: s.batch_limit(),
            }
            &&& t.poll_state() is Polling
            &&& t.queued() == s.queued()
        }
    }

    /// How a call of `on_batch` relates the stream before and after, given
    /// the identifiers and events of the batch and the flag returned.
    pub open spec fn on_batch_post(s: Self, t: Self, ids: Seq<i64>, events: Seq<T>, accepted: bool) -> bool {
        &&& t.wait_budget() == s.wait_budget()
        &&& t.batch_limit() == s.batch_limit()
        &&& accepted == (s.poll_state() is Polling)
        &&& if accepted {
            &&& t.cursor() == next_cursor(s.cursor(), ids)
            &&& t.queued() == s.queued() + events
            &&& t.poll_state() is Idle
            &&& t.failure_count() == 0
        } else {
            t == s
        }
    }

    /// How a call of `on_error` relates the stream before and after, given
    /// the failure and the step returned.
    pub open spec fn on_error_post(s: Self, t: Self, e: ApiError, step: FailureStep) -> bool {
        &&& t.cursor() == s.cursor()
        &&& t.wait_budget() == s.wait_budget()
        &&& t.batch_limit() == s.batch_limit()
        &&& t.queued() == s.queued()
        &&& if !(s.poll_state() is Polling) {
            step is Ignore && t == s
        } else if e.spec_is_fatal() {
            step == FailureStep::Close(e) && t.poll_state() is Closed
                && t.failure_count() == s.failure_count()
        } else {
            &&& t.poll_state() is Idle
            &&& t.failure_count() == (if s.failure_count() < u32::MAX {
                (s.failure_count() + 1) as u32
            } else {
                s.failure_count()
            })
            &&& step == FailureStep::Retry { delay_ms: retry_delay(t.failure_count()) }
        }
    }

    /// A stream whose first fetch carries `offset`, lets the service wait up
    /// to `timeout` seconds, and asks for at most `limit` updates.
    pub fn new(offset: i64, timeout: i64, limit: Option<i64>) -> (r: Self)
        ensures
            r.wf(),
            r.cursor() == offset,
            r.wait_budget() == timeout,
            r.batch_limit() == limit,
            r.poll_state() is Idle,
            r.queued().len() == 0,
            r.failure_count() == 0,
    {
        UpdatesStream { offset, timeout, limit, state: PollState::Idle, pending: Vec::new(), failures: 0 }
    }

    /// The next step: hand out the oldest waiting event; otherwise start a
    /// fetch from the cursor unless one is outstanding; stop once closed.
    pub fn next_action(&mut self) -> (r: StreamAction<T>)
        requires
            old(self).wf(),
        ensures
            final(self).wf(),
            Self::next_action_post(*old(self), *final(self), r),
    {
        match self.state {
            PollState::Closed => {
                self.pending = Vec::new();
                StreamAction::Stop
            },
            _ => {
                if self.pending.len() > 0 {
                    let ev = self.pending.remove(0);
                    StreamAction::Emit(ev)
                } else if self.state == PollState::Polling {
                    StreamAction::Wait
                } else {
                    self.state = PollState::Polling;
                    StreamAction::Poll { offset: self.offset, timeout: self.timeout, limit: self.limit }
                }
            },
        }
    }

    /// Takes in the batch that the outstanding fetch returned: its events
    /// queue up in arrival order and the cursor moves past every identifier.
    /// A batch that arrives when no fetch is outstanding (the stream closed
    /// meanwhile) is dropped, and `false` returned.
    pub fn on_batch(&mut self, ids: &Vec<i64>, events: Vec<T>) -> (accepted: bool)
        requires
            old(self).wf(),
            ids@.len() == events@.len(),
        ensures
            final(self).wf(),
            Self::on_batch_post(*old(self), *final(self), ids@, events@, accepted),
    {
        if self.state != PollState::Polling {
            return false;
        }
        let mut c = self.offset;
        let mut i: usize = 0;
        while i < ids.len()
            invariant
                i <= ids@.len(),
                c == next_cursor(self.offset, ids@.subrange(0, i as int)),
            decreases ids@.len() - i,
        {
            let id = ids[i];
            proof {
                let pre = ids@.subrange(0, i as int + 1);
                assert(pre.drop_last() =~= ids@.subrange(0, i as int));
            }
            if id >= c {
                if id < i64::MAX {
                    c = id + 1;
                } else {
                    c = i64::MAX;
                }
            }
            i = i + 1;
        }
        assert(ids@.subrange(0, ids@.len() as int) =~= ids@);
        let mut events = events;
        self.pending.append(&mut events);
        self.offset = c;
        self.state = PollState::Idle;
        self.failures = 0;
        true
    }

    /// Takes in the failure of the outstanding fetch: a refusal of the
    /// credentials closes the stream and goes to the consumer; any other
    /// failure is retried from the same cursor after a bounded delay.
    pub fn on_error(&mut self, e: ApiError) -> (step: FailureStep)
        requires
            old(self).wf(),
        ensures
            final(self).wf(),
            Self::on_error_post(*old(self), *final(self), e, step),
    {
        if self.state != PollState::Polling {
            return FailureStep::Ignore;
        }
        if e.is_fatal() {
            self.state = PollState::Closed;
            return FailureStep::Close(e);
        }
        if self.failures < u32::MAX {
            self.failures = self.failures + 1;
        }
        self.state = PollState::Idle;
        let delay_ms = if self.failures >= 30 {
            MAX_RETRY_DELAY_MS
        } else {
            1000 * (self.failures as u64)
        };
        FailureStep::Retry { delay_ms }
    }

    /// The consumer is gone: no further fetch is started, waiting events are
    /// dropped, and the outcome of one in flight is ignored.
    pub fn close(&mut self)
        ensures
            final(self).wf(),
            final(self).poll_state() is Closed,
            final(self).queued().len() == 0,
            final(self).cursor() == old(self).cursor(),
            final(self).wait_budget() == old(self).wait_budget(),
            final(self).batch_limit() == old(self).batch_limit(),
            final(self).failure_count() == old(self).failure_count(),
    {
        self.state = PollState::Closed;
        self.pending = Vec::new();
    }
}

/// The cursor never moves back.
pub proof fn lemma_cursor_never_decreases(c: i64, ids: Seq<i64>)
    ensures
        next_cursor(c, ids) >= c,
    decreases ids.len(),
{
    if ids.len() > 0 {
        lemma_cursor_never_decreases(c, ids.drop_last());
    }
}

/// After a batch the cursor is one past its largest identifier, or where it
/// stood if that is further: it lies past every identifier of the batch
/// (short of the largest integer), and it either stayed or sits just past
/// one of them.
pub proof fn lemma_cursor_after_batch(c: i64, ids: Seq<i64>)
    ensures
        forall|i: int| 0 <= i < ids.len() && ids[i] < i64::MAX ==> next_cursor(c, ids) > ids[i],
        forall|i: int| 0 <= i < ids.len() && ids[i] == i64::MAX ==> next_cursor(c, ids) == i64::MAX,
        next_cursor(c, ids) == c || exists|k: int|
            0 <= k < ids.len() && next_cursor(c, ids) == one_past(ids[k]),
    decreases ids.len(),
{
    if ids.len() > 0 {
        let pre = ids.drop_last();
        lemma_cursor_after_batch(c, pre);
        let p = next_cursor(c, pre);
        assert forall|i: int| 0 <= i < ids.len() && ids[i] < i64::MAX implies next_cursor(c, ids) > ids[i] by {
            if i < ids.len() - 1 {
                assert(pre[i] == ids[i]);
            }
        }
        assert forall|i: int| 0 <= i < ids.len() && ids[i] == i64::MAX implies next_cursor(c, ids) == i64::MAX by {
            if i < ids.len() - 1 {
                assert(pre[i] == ids[i]);
            }
        }
        if next_cursor(c, ids) != c {
            if ids.last() >= p {
                assert(next_cursor(c, ids) == one_past(ids[ids.len() - 1]));
            } else {
                let k = choose|k: int| 0 <= k < pre.len() && p == one_past(pre[k]);
                assert(ids[k] == pre[k]);
            }
        }
    }
}

/// For a batch in increasing order whose last identifier reaches the
/// cursor, the next fetch carries one past that last, that is largest,
/// identifier.
pub proof fn lemma_increasing_batch_cursor(c: i64, ids: Seq<i64>)
    requires
        ids.len() > 0,
        forall|i: int, j: int| 0 <= i < j < ids.len() ==> ids[i] < ids[j],
        ids.last() >= c,
        ids.last() < i64::MAX,
    ensures
        next_cursor(c, ids) == ids.last() + 1,
{
    lemma_cursor_after_batch(c, ids);
    assert(next_cursor(c, ids) > ids[ids.len() - 1]);
    if next_cursor(c, ids) != c {
        let k = choose|k: int| 0 <= k < ids.len() && next_cursor(c, ids) == one_past(ids[k]);
        if k < ids.len() - 1 {
            assert(ids[k] < ids[ids.len() - 1]);
        }
    }
}

impl<T> UpdatesStream<T> {
    /// At most one fetch is outstanding: a fetch is started only from the
    /// idle state, and while it is outstanding no step starts another.
    pub proof fn lemma_one_fetch_at_a_time(s: Self, t: Self, a: StreamAction<T>, u: Self, b: StreamAction<T>)
        requires
            s.wf(),
            Self::next_action_post(s, t, a),
            Self::next_action_post(t, u, b),
        ensures
            a is Poll ==> s.poll_state() is Idle && t.poll_state() is Polling,
            s.poll_state() is Polling ==> !(a is Poll),
            a is Poll ==> !(b is Poll),
    {
    }

    /// The cursor only moves forward, whatever the stream is told.
    pub proof fn lemma_cursor_only_advances(s: Self, t: Self, ids: Seq<i64>, events: Seq<T>, accepted: bool)
        requires
            Self::on_batch_post(s, t, ids, events, accepted),
        ensures
            t.cursor() >= s.cursor(),
    {
        lemma_cursor_never_decreases(s.cursor(), ids);
    }

    /// An empty batch leaves the cursor where it was, and the very next step
    /// starts another fetch from it.
    pub proof fn lemma_empty_batch_fetches_again(s: Self, t: Self, events: Seq<T>, accepted: bool, u: Self, a: StreamAction<T>)
        requires
            s.wf(),
            s.poll_state() is Polling,
            events.len() == 0,
            Self::on_batch_post(s, t, Seq::<i64>::empty(), events, accepted),
            Self::next_action_post(t, u, a),
        ensures
            t.cursor() == s.cursor(),
            a == (StreamAction::<T>::Poll {
                offset: s.cursor(),
                timeout: s.wait_budget(),
                limit: s.batch_limit(),
            }),
    {
        assert(t.queued() =~= s.queued() + events);
    }

    /// Once closed, the stream stays closed: it starts no fetch, drops any
    /// batch or failure that still arrives, and only ever says stop.
    pub proof fn lemma_closed_stays_closed(
        s: Self,
        t: Self,
        a: StreamAction<T>,
        ids: Seq<i64>,
        events: Seq<T>,
        accepted: bool,
        t2: Self,
        e: ApiError,
        step: FailureStep,
        t3: Self,
    )
        requires
            s.poll_state() is Closed,
        ensures
            Self::next_action_post(s, t, a) ==> (a is Stop && t.poll_state() is Closed),
            Self::on_batch_post(s, t2, ids, events, accepted) ==> (!accepted && t2 == s),
            Self::on_error_post(s, t3, e, step) ==> (t3 == s && step is Ignore),
    {
    }
}

} // verus!
