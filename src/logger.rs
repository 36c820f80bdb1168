use vstd::prelude::*;
use vstd::arithmetic::div_mod::{
    lemma_fundamental_div_mod, lemma_fundamental_div_mod_converse, lemma_mod_decreases,
};
use crate::event::{FatalError, TimedEvent, MAX_UTC_SECONDS, renders_timestamp};

verus! {

/// How many events the logger holds before it asks for a flush, unless told otherwise.
pub const DEFAULT_THRESHOLD: usize = 100;

/// Whether appending to a buffer of `len` events reaches the threshold `t`.
pub open spec fn append_triggers_flush(len: nat, t: nat) -> bool {
    len + 1 >= t
}

/// Buffer length after one append and the flush it triggers, if it succeeds.
pub open spec fn after_append(len: nat, t: nat) -> nat {
    if append_triggers_flush(len, t) {
        0
    } else {
        len + 1
    }
}

/// Buffer length after `n` appends from empty, every flush succeeding.
pub open spec fn buffered_after(n: nat, t: nat) -> nat
    decreases n,
{
    if n == 0 {
        0
    } else {
        after_append(buffered_after((n - 1) as nat, t), t)
    }
}

/// Number of flushes triggered by `n` appends from empty.
pub open spec fn flushes_after(n: nat, t: nat) -> nat
    decreases n,
{
    if n == 0 {
        0
    } else {
        flushes_after((n - 1) as nat, t) + if append_triggers_flush(
            buffered_after((n - 1) as nat, t),
            t,
        ) {
            1nat
        } else {
            0nat
        }
    }
}

/// The buffer after appending `es` in order to an empty logger with
/// threshold `t`, each triggered flush succeeding.
pub open spec fn buffer_after(es: Seq<TimedEvent>, t: nat) -> Seq<TimedEvent>
    decreases es.len(),
{
    if es.len() == 0 {
        Seq::empty()
    } else {
        let before = buffer_after(es.drop_last(), t);
        if append_triggers_flush(before.len(), t) {
            Seq::empty()
        } else {
            before.push(es.last())
        }
    }
}

/// Whether the last append of `es` triggers a flush.
pub open spec fn last_append_flushes(es: Seq<TimedEvent>, t: nat) -> bool {
    append_triggers_flush(buffer_after(es.drop_last(), t).len(), t)
}

/// What the flush triggered by the last append of `es` writes.
pub open spec fn flushed_by_last_append(es: Seq<TimedEvent>, t: nat) -> Seq<TimedEvent> {
    buffer_after(es.drop_last(), t).push(es.last())
}

/// Whether every event's timestamp lies in the representable range.
pub open spec fn timestamps_in_range(events: Seq<TimedEvent>) -> bool {
    forall|i: int| 0 <= i < events.len() ==> (#[trigger] events[i]).timestamp / 1000 <= MAX_UTC_SECONDS
}

/// Holds observed events in memory until the threshold asks for a flush.
/// Writing the flushed lines is up to the caller, which reports back whether
/// the write succeeded: only then is the buffer cleared.
pub struct InputLogger {
    events: Vec<TimedEvent>,
    max_events_in_memory: usize,
}

impl View for InputLogger {
    type V = Seq<TimedEvent>;

    closed spec fn view(&self) -> Seq<TimedEvent> {
        self.events@
    }
}

impl InputLogger {
    /// The buffer length at which an append asks for a flush.
    pub closed spec fn threshold(&self) -> nat {
        self.max_events_in_memory as nat
    }

    pub open spec fn wf(&self) -> bool {
        self.threshold() > 0
    }

    /// An empty logger with the default threshold.
    pub fn new() -> (r: InputLogger)
        ensures
            r.wf(),
            r@ == Seq::<TimedEvent>::empty(),
            r.threshold() == DEFAULT_THRESHOLD,
    {
        InputLogger { events: Vec::new(), max_events_in_memory: DEFAULT_THRESHOLD }
    }

    /// An empty logger that asks for a flush at `threshold` events.
    pub fn with_threshold(threshold: usize) -> (r: InputLogger)
        requires
            threshold > 0,
        ensures
            r.wf(),
            r@ == Seq::<TimedEvent>::empty(),
            r.threshold() == threshold,
    {
        InputLogger { events: Vec::new(), max_events_in_memory: threshold }
    }

    pub fn threshold_of(&self) -> (r: usize)
        ensures
            r == self.threshold(),
    {
        self.max_events_in_memory
    }

    pub fn len(&self) -> (r: usize)
        ensures
            r == self@.len(),
    {
        self.events.len()
    }

    /// The buffered events, oldest first.
    pub fn events(&self) -> (r: &Vec<TimedEvent>)
        ensures
            r@ == self@,
    {
        &self.events
    }

    /// Adds an event at the end of the buffer. Returns whether the buffer has
    /// reached the threshold, so that a flush is due.
    pub fn log_event(&mut self, event: TimedEvent) -> (flush_due: bool)
        ensures
            final(self)@ == old(self)@.push(event),
            final(self).threshold() == old(self).threshold(),
            flush_due == append_triggers_flush(old(self)@.len(), old(self).threshold()),
    {
        self.events.push(event);
        self.events.len() >= self.max_events_in_memory
    }

    /// The rendered timestamp of every buffered event, in buffer order; an
    /// error if one of them is out of range. An empty buffer renders nothing.
    pub fn render_pending(&self) -> (r: Result<Vec<String>, FatalError>)
        ensures
            r is Ok <==> timestamps_in_range(self@),
            r is Ok ==> r->Ok_0@.len() == self@.len(),
            r is Ok ==> forall|i: int|
                0 <= i < self@.len() ==> renders_timestamp(
                    (#[trigger] r->Ok_0@[i])@,
                    self@[i].timestamp,
                ),
            r is Err ==> r->Err_0 == FatalError::TimestampOutOfRange,
            self@.len() == 0 ==> r is Ok && r->Ok_0@.len() == 0,
    {
        let mut lines: Vec<String> = Vec::new();
        let mut i: usize = 0;
        while i < self.events.len()
            invariant
                i <= self.events@.len(),
                lines@.len() == i,
                forall|j: int|
                    0 <= j < i ==> renders_timestamp(
                        (#[trigger] lines@[j])@,
                        self.events@[j].timestamp,
                    ),
                forall|j: int| 0 <= j < i ==> (#[trigger] self.events@[j]).timestamp / 1000 <= MAX_UTC_SECONDS,
            decreases self.events@.len() - i,
        {
            match self.events[i].format_timestamp() {
                Ok(text) => lines.push(text),
                Err(e) => {
                    return Err(e);
                },
            }
            i = i + 1;
        }
        Ok(lines)
    }

    /// Ends a flush: a buffer whose lines were all written and committed is
    /// cleared; after a failed write it is kept whole, to be written again.
    pub fn finish_flush(&mut self, written: bool)
        ensures
            final(self).threshold() == old(self).threshold(),
            written ==> final(self)@ == Seq::<TimedEvent>::empty(),
            !written ==> final(self)@ == old(self)@,
    {
        if written {
            self.events.clear();
        }
    }
}

/// With every flush succeeding, `n` appends leave `n mod t` events in the
/// buffer and trigger `n / t` flushes.
pub proof fn lemma_buffer_length(n: nat, t: nat)
    requires
        t > 0,
    ensures
        buffered_after(n, t) == n % t,
        flushes_after(n, t) == n / t,
    decreases n,
{
    if n == 0 {
        lemma_fundamental_div_mod_converse(0, t as int, 0, 0);
    } else {
        let m = (n - 1) as nat;
        lemma_buffer_length(m, t);
        lemma_fundamental_div_mod(m as int, t as int);
        let q = m as int / t as int;
        let r = m as int % t as int;
        if r + 1 == t {
            assert(n as int == (q + 1) * t) by (nonlinear_arith)
                requires
                    m as int == t * q + r,
                    r + 1 == t,
                    n == m + 1,
            ;
            lemma_fundamental_div_mod_converse(n as int, t as int, q + 1, 0);
        } else {
            assert(n as int == q * t + (r + 1)) by (nonlinear_arith)
                requires
                    m as int == t * q + r,
                    n == m + 1,
            ;
            lemma_fundamental_div_mod_converse(n as int, t as int, q, r + 1);
        }
    }
}

/// With every flush succeeding, after appending `es` the buffer holds the
/// last `|es| mod t` of them, in order. The last append triggers a flush
/// exactly when `|es|` is a multiple of `t`, and that flush writes the last
/// `t` events, in order.
pub proof fn lemma_buffer_contents(es: Seq<TimedEvent>, t: nat)
    requires
        t > 0,
    ensures
        buffer_after(es, t) == es.subrange(es.len() - es.len() % t, es.len() as int),
        buffer_after(es, t).len() < t,
        es.len() > 0 ==> (last_append_flushes(es, t) <==> es.len() % t == 0),
        es.len() > 0 && last_append_flushes(es, t) ==> flushed_by_last_append(es, t)
            == es.subrange(es.len() - t, es.len() as int),
    decreases es.len(),
{
    let n = es.len();
    lemma_buffer_length(n, t);
    if n > 0 {
        let pre = es.drop_last();
        let m = (n - 1) as nat;
        lemma_buffer_contents(pre, t);
        lemma_buffer_length(m, t);
        lemma_mod_decreases(m, t);
        lemma_mod_decreases(n, t);
        assert(pre.subrange(m - m % t, m as int) =~= es.subrange(m - m % t, m as int));
        assert(es.subrange(m - m % t, m as int).push(es.last()) =~= es.subrange(
            m - m % t,
            n as int,
        ));
        assert(es.subrange(n as int, n as int) =~= Seq::<TimedEvent>::empty());
    }
}

/// Appending exactly `t` events to an empty buffer triggers exactly one
/// flush, on the last append, which writes all `t` events in order and
/// leaves the buffer empty.
pub proof fn lemma_threshold_boundary(es: Seq<TimedEvent>, t: nat)
    requires
        t > 0,
        es.len() == t,
    ensures
        flushes_after(t, t) == 1,
        buffered_after(t, t) == 0,
        forall|k: int|
            0 < k < t ==> !last_append_flushes(#[trigger] es.take(k), t),
        last_append_flushes(es, t),
        flushed_by_last_append(es, t) == es,
        buffer_after(es, t) == Seq::<TimedEvent>::empty(),
{
    lemma_buffer_length(t, t);
    lemma_fundamental_div_mod_converse(t as int, t as int, 1, 0);
    assert forall|k: int| 0 < k < t implies !last_append_flushes(#[trigger] es.take(k), t) by {
        lemma_buffer_contents(es.take(k), t);
        lemma_fundamental_div_mod_converse(k, t as int, 0, k);
    }
    lemma_buffer_contents(es, t);
    assert(es.subrange(0, t as int) =~= es);
    assert(es.subrange(t as int, t as int) =~= Seq::<TimedEvent>::empty());
}

} // verus!
