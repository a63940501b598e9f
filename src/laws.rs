use vstd::prelude::*;

use crate::sink::{flatten, lemma_flatten_push, Drain, SinkView};

verus! {

/// Every transition of a running sink keeps it well formed.
pub proof fn lemma_steps_preserve_wf(m: SinkView, bytes: Seq<u8>, succeeded: bool)
    requires
        m.wf(),
        !m.failed,
    ensures
        m.poll().wf(),
        m.offer(bytes).wf(),
        m.drain().wf(),
        m.end_write(succeeded).wf(),
        m.claim().wf(),
{
    lemma_flatten_push(m.submitted, m.buffered);
    assert(flatten(m.submitted.push(m.buffered)) + Seq::<u8>::empty() =~= m.admitted);
    let a = m.append(bytes);
    assert(flatten(a.submitted) + a.buffered =~= a.admitted);
    lemma_flatten_push(a.submitted, a.buffered);
    assert(flatten(a.submitted.push(a.buffered)) + Seq::<u8>::empty() =~= a.admitted);
}

/// A rejected record leaves the sink exactly as it was, and once the outstanding
/// write has ended the same record is accepted, appended after everything before it.
pub proof fn lemma_rejection_loses_nothing(m: SinkView, bytes: Seq<u8>)
    requires
        m.wf(),
        !m.failed,
        m.full(),
        m.threshold() > 0,
    ensures
        m.offer(bytes) == m,
        !m.end_write(true).full(),
        m.end_write(true).offer(bytes).admitted == m.admitted + bytes,
{
}

/// At any point at most one write is outstanding, and a new batch is only submitted
/// while none is.
pub proof fn lemma_at_most_one_in_flight(m: SinkView, bytes: Seq<u8>, succeeded: bool)
    requires
        m.wf(),
        !m.failed,
    ensures
        0 <= m.outstanding() <= 1,
        m.in_flight ==> m.poll().submitted == m.submitted,
        m.in_flight ==> m.offer(bytes).submitted == m.submitted,
        m.in_flight ==> m.drain().submitted == m.submitted,
        m.poll().outstanding() <= 1,
        m.offer(bytes).outstanding() <= 1,
        m.drain().outstanding() <= 1,
        m.end_write(succeeded).outstanding() <= 1,
{
    lemma_steps_preserve_wf(m, bytes, succeeded);
}

/// A batch at its threshold is submitted whole, as one write: at once by a poll when
/// no write is outstanding, else when the outstanding write ends. Polls in between
/// change nothing, and polls after it submit nothing more until that write ends.
pub proof fn lemma_eventual_flush(m: SinkView)
    requires
        m.wf(),
        !m.failed,
        !m.closing,
        m.buffer_full(),
    ensures
        m.in_flight ==> m.poll() == m,
        ({
            let n = if m.in_flight {
                m.end_write(true)
            } else {
                m.poll()
            };
            &&& n.submitted == m.submitted.push(m.buffered)
            &&& n.buffered.len() == 0
            &&& n.in_flight
            &&& n.poll() == n
        }),
{
}

/// The sink after `n` polls in a row.
pub open spec fn polled(m: SinkView, n: nat) -> SinkView
    decreases n,
{
    if n == 0 {
        m
    } else {
        polled(m, (n - 1) as nat).poll()
    }
}

/// However many polls come before and after the outstanding write ends, a batch at
/// its threshold goes out as exactly one write holding all of it, and nothing else is
/// submitted.
pub proof fn lemma_eventual_flush_any_polls(m: SinkView, before: nat, after: nat)
    requires
        m.wf(),
        !m.failed,
        !m.closing,
        m.buffer_full(),
    ensures
        ({
            let n = if m.in_flight {
                polled(polled(m, before).end_write(true), after)
            } else {
                polled(m, before + after + 1)
            };
            &&& n.submitted == m.submitted.push(m.buffered)
            &&& n.buffered.len() == 0
        }),
    decreases before + after,
{
    lemma_eventual_flush(m);
    if m.in_flight {
        lemma_polled_in_flight(m, before);
        lemma_polled_in_flight(m.end_write(true), after);
    } else {
        lemma_polled_in_flight(m.poll(), before + after);
        lemma_polled_shift(m, (before + after) as nat);
    }
}

/// Polls change nothing while a write is outstanding.
pub proof fn lemma_polled_in_flight(m: SinkView, n: nat)
    requires
        m.in_flight,
    ensures
        polled(m, n) == m,
    decreases n,
{
    if n > 0 {
        lemma_polled_in_flight(m, (n - 1) as nat);
    }
}

/// `n + 1` polls are one poll followed by `n` more.
pub proof fn lemma_polled_shift(m: SinkView, n: nat)
    ensures
        polled(m, n + 1) == polled(m.poll(), n),
    decreases n,
{
    if n > 0 {
        lemma_polled_shift(m, (n - 1) as nat);
        assert(polled(m, n + 1) == polled(m, n).poll());
        assert(polled(m.poll(), n) == polled(m.poll(), (n - 1) as nat).poll());
    } else {
        assert(polled(m, 1) == polled(m, 0).poll());
    }
}

/// When shutdown reports completion nothing is buffered, no write is outstanding, and
/// the submitted batches hold every accepted byte.
pub proof fn lemma_drain_complete(m: SinkView)
    requires
        m.wf(),
        m.drain_result() == Drain::Complete,
    ensures
        m.buffered.len() == 0,
        !m.in_flight,
        m.drain() == (SinkView { closing: true, ..m }),
        flatten(m.submitted) == m.admitted,
{
    assert(flatten(m.submitted) + m.buffered =~= flatten(m.submitted));
}

/// Shutdown completes after at most two writes have ended, without losing or adding
/// a byte.
pub proof fn lemma_drain_terminates(m: SinkView)
    requires
        m.wf(),
        !m.failed,
    ensures
        ({
            let s = m.drain().end_write(true).drain().end_write(true);
            &&& s.drain_result() == Drain::Complete
            &&& s.admitted == m.admitted
            &&& flatten(s.submitted) == m.admitted
        }),
{
    let s1 = m.drain();
    let s2 = s1.end_write(true);
    let s3 = s2.drain();
    lemma_steps_preserve_wf(m, Seq::empty(), true);
    lemma_steps_preserve_wf(s1, Seq::empty(), true);
    lemma_steps_preserve_wf(s2, Seq::empty(), true);
    lemma_steps_preserve_wf(s3, Seq::empty(), true);
    lemma_drain_complete(s3.end_write(true));
}

/// The submitted batches, concatenated in submission order and followed by the batch
/// under construction, are the accepted records in admission order; an offer either
/// leaves the accepted bytes alone or appends exactly the offered ones.
pub proof fn lemma_order_preserved(m: SinkView, bytes: Seq<u8>, succeeded: bool)
    requires
        m.wf(),
        !m.failed,
    ensures
        flatten(m.submitted) + m.buffered == m.admitted,
        m.offer(bytes).admitted == (if m.full() {
            m.admitted
        } else {
            m.admitted + bytes
        }),
        flatten(m.offer(bytes).submitted) + m.offer(bytes).buffered == m.offer(bytes).admitted,
        flatten(m.poll().submitted) + m.poll().buffered == m.admitted,
        flatten(m.drain().submitted) + m.drain().buffered == m.admitted,
        flatten(m.end_write(succeeded).submitted) + m.end_write(succeeded).buffered
            == m.admitted,
{
    lemma_steps_preserve_wf(m, bytes, succeeded);
}

} // verus!
