//! The optional SD event log: one NDJSON record per event, written only
//! after the user enables logging, with retry pacing after write errors.

use vstd::prelude::*;

use crate::dashboard::{DashboardState, RecordedEvent};
use crate::preview::is_control;
use crate::input::elapsed;
use crate::telemetry::Health;
use crate::text::{decimal, push_char, push_decimal, push_str};

verus! {

/// How one character appears inside a JSON string: backslash, quote and
/// line breaks escaped, other control characters replaced by `?`.
pub open spec fn json_escape(c: char) -> Seq<char> {
    if c == '\\' {
        seq!['\\', '\\']
    } else if c == '"' {
        seq!['\\', '"']
    } else if c == '\n' {
        seq!['\\', 'n']
    } else if c == '\r' {
        seq!['\\', 'r']
    } else if is_control(c) {
        seq!['?']
    } else {
        seq![c]
    }
}

/// Escapes of the first `k` characters of `s`.
pub open spec fn json_escaped(s: Seq<char>, k: nat) -> Seq<char>
    decreases k,
{
    if k == 0 {
        Seq::empty()
    } else {
        json_escaped(s, (k - 1) as nat) + json_escape(s[k - 1])
    }
}

/// The escaped text of at most `max_chars` leading characters of `s`.
pub open spec fn spec_json_safe(s: Seq<char>, max_chars: nat) -> Seq<char> {
    json_escaped(s, if s.len() < max_chars {
        s.len()
    } else {
        max_chars
    })
}

/// `s` holds no control character (so no line break).
pub open spec fn control_free(s: Seq<char>) -> bool {
    forall|i: int| 0 <= i < s.len() ==> !is_control(#[trigger] s[i])
}

proof fn lemma_escaped_control_free(s: Seq<char>, k: nat)
    requires
        k <= s.len(),
    ensures
        control_free(json_escaped(s, k)),
    decreases k,
{
    if k > 0 {
        lemma_escaped_control_free(s, (k - 1) as nat);
        let a = json_escaped(s, (k - 1) as nat);
        let b = json_escape(s[k - 1]);
        assert(control_free(b));
        assert forall|i: int| 0 <= i < (a + b).len() implies !is_control(#[trigger] (a + b)[i]) by {
            if i < a.len() {
                assert((a + b)[i] == a[i]);
            } else {
                assert((a + b)[i] == b[i - a.len()]);
            }
        }
    }
}

/// Escapes text for a JSON string and truncates it to `max_chars` source
/// characters.
pub fn json_safe(value: &str, max_chars: usize) -> (out: String)
    ensures
        out@ == spec_json_safe(value@, max_chars as nat),
        control_free(out@),
{
    let n = value.unicode_len();
    let limit = if n < max_chars {
        n
    } else {
        max_chars
    };
    let mut out = String::new();
    let mut i: usize = 0;
    while i < limit
        invariant
            n == value@.len(),
            limit <= n,
            i <= limit,
            out@ == json_escaped(value@, i as nat),
        decreases limit - i,
    {
        let c = value.get_char(i);
        let v = c as u32;
        if c == '\\' {
            push_str(&mut out, "\\\\");
        } else if c == '"' {
            push_str(&mut out, "\\\"");
        } else if c == '\n' {
            push_str(&mut out, "\\n");
        } else if c == '\r' {
            push_str(&mut out, "\\r");
        } else if v <= 0x1f || (0x7f <= v && v <= 0x9f) {
            push_char(&mut out, '?');
        } else {
            push_char(&mut out, c);
        }
        proof {
            reveal_strlit("\\\\");
            reveal_strlit("\\\"");
            reveal_strlit("\\n");
            reveal_strlit("\\r");
        }
        i = i + 1;
        assert(out@ =~= json_escaped(value@, i as nat));
    }
    proof {
        lemma_escaped_control_free(value@, limit as nat);
    }
    out
}

/// One NDJSON record: version, sequence number, time, source (at most 24
/// characters) and detail (at most 192 characters), ending in a line break.
pub open spec fn ndjson_line(e: RecordedEvent) -> Seq<char> {
    "{\"v\":1,\"seq\":"@ + decimal(e.seq as nat) + ",\"at_ms\":"@ + decimal(e.at_ms as nat)
        + ",\"source\":\""@ + spec_json_safe(e.source@, 24) + "\",\"detail\":\""@
        + spec_json_safe(e.detail@, 192) + "\"}\n"@
}

pub fn push_ndjson_line(out: &mut String, e: &RecordedEvent)
    ensures
        final(out)@ == old(out)@ + ndjson_line(*e),
{
    push_str(out, "{\"v\":1,\"seq\":");
    push_decimal(out, e.seq);
    push_str(out, ",\"at_ms\":");
    push_decimal(out, e.at_ms);
    push_str(out, ",\"source\":\"");
    let source = json_safe(e.source, 24);
    push_str(out, source.as_str());
    push_str(out, "\",\"detail\":\"");
    let detail = json_safe(e.detail.as_str(), 192);
    push_str(out, detail.as_str());
    push_str(out, "\"}\n");
    assert(final(out)@ =~= old(out)@ + ndjson_line(*e));
}

/// Records of the first `k` events whose sequence number is above `after`.
pub open spec fn ndjson_after(events: Seq<RecordedEvent>, after: u64, k: nat) -> Seq<char>
    decreases k,
{
    if k == 0 {
        Seq::empty()
    } else {
        ndjson_after(events, after, (k - 1) as nat) + if events[k - 1].seq > after {
            ndjson_line(events[k - 1])
        } else {
            Seq::empty()
        }
    }
}

/// Number of the first `k` events whose sequence number is above `after`.
pub open spec fn count_after(events: Seq<RecordedEvent>, after: u64, k: nat) -> nat
    decreases k,
{
    if k == 0 {
        0
    } else {
        count_after(events, after, (k - 1) as nat) + if events[k - 1].seq > after {
            1nat
        } else {
            0
        }
    }
}

proof fn lemma_count_bound(events: Seq<RecordedEvent>, after: u64, k: nat)
    ensures
        count_after(events, after, k) <= k,
    decreases k,
{
    if k > 0 {
        lemma_count_bound(events, after, (k - 1) as nat);
    }
}

/// Progress of the SD event log.
#[derive(Clone, Copy, Debug)]
pub struct EventRecorder {
    /// Newest event already on the card (or deliberately skipped).
    pub last_seq: u64,
    /// When the last write was attempted.
    pub last_attempt_ms: u64,
    /// Whether at least one write succeeded.
    pub wrote_once: bool,
    /// Whether the last write failed (retries then wait longer).
    pub retrying_after_error: bool,
}

/// A batch of records for the firmware to append to the log file.
pub struct EventBatch {
    pub text: String,
    /// Sequence number of the newest event in the batch.
    pub last_seq: u64,
}

impl Default for EventRecorder {
    fn default() -> (r: Self)
        ensures
            r.last_seq == 0 && r.last_attempt_ms == 0 && !r.wrote_once && !r.retrying_after_error,
    {
        EventRecorder { last_seq: 0, last_attempt_ms: 0, wrote_once: false, retrying_after_error: false }
    }
}

/// Minimum wait between write attempts: 500 ms, or 5 s after a failure.
pub open spec fn retry_delay(retrying: bool) -> int {
    if retrying {
        5000
    } else {
        500
    }
}

impl EventRecorder {
    /// Decides what the log needs now. With logging off, everything recorded
    /// so far is marked as skipped (enabling logging later never dumps old
    /// history). Otherwise the pending count is published, and when there is
    /// something pending, the card is mounted and the retry pacing allows
    /// (or `force` is set), the pending records are returned for writing.
    pub fn plan_sync(&mut self, state: &mut DashboardState, force: bool) -> (batch: Option<
        EventBatch,
    >)
        ensures
            !old(state).event_logging_enabled ==> {
                &&& batch is None
                &&& final(self).last_seq == (if old(state).events@.len() > 0 {
                    old(state).events@.last().seq
                } else {
                    old(self).last_seq
                })
                &&& final(state).storage.pending_events == 0
            },
            old(state).event_logging_enabled ==> {
                let pending = count_after(
                    old(state).events@,
                    old(self).last_seq,
                    old(state).events@.len(),
                );
                let due = pending > 0 && old(state).storage.mounted && (force || elapsed(
                    old(state).runtime.uptime_ms,
                    old(self).last_attempt_ms,
                ) >= retry_delay(old(self).retrying_after_error));
                &&& final(state).storage.pending_events as int == (if pending > u32::MAX {
                    u32::MAX as int
                } else {
                    pending as int
                })
                &&& final(self).last_seq == old(self).last_seq
                &&& due ==> batch is Some && batch->0.text@ == ndjson_after(
                    old(state).events@,
                    old(self).last_seq,
                    old(state).events@.len(),
                ) && final(self).last_attempt_ms == old(state).runtime.uptime_ms
                    && batch->0.last_seq == old(state).events@.last().seq
                &&& !due ==> batch is None && final(self).last_attempt_ms == old(
                    self,
                ).last_attempt_ms
            },
            final(self).retrying_after_error == old(self).retrying_after_error,
            final(self).wrote_once == old(self).wrote_once,
            final(state).events == old(state).events,
            final(state).storage == (crate::telemetry::StorageTelemetry {
                pending_events: final(state).storage.pending_events,
                ..old(state).storage
            }),
            *final(state) == (DashboardState { storage: final(state).storage, ..*old(state) }),
    {
        let n = state.events.len();
        if !state.event_logging_enabled {
            if n > 0 {
                self.last_seq = state.events[n - 1].seq;
            }
            state.storage.pending_events = 0;
            return None;
        }
        let mut pending: usize = 0;
        let mut i: usize = 0;
        while i < n
            invariant
                n == state.events@.len(),
                i <= n,
                pending == count_after(state.events@, self.last_seq, i as nat),
            decreases n - i,
        {
            proof {
                lemma_count_bound(state.events@, self.last_seq, i as nat);
            }
            if state.events[i].seq > self.last_seq {
                pending = pending + 1;
            }
            i = i + 1;
        }
        state.storage.pending_events = if pending > u32::MAX as usize {
            u32::MAX
        } else {
            pending as u32
        };
        proof {
            lemma_count_bound(state.events@, self.last_seq, n as nat);
        }
        let delay: u64 = if self.retrying_after_error {
            5_000
        } else {
            500
        };
        if pending == 0 || !state.storage.mounted || (!force
            && state.runtime.uptime_ms.saturating_sub(self.last_attempt_ms) < delay) {
            return None;
        }
        self.last_attempt_ms = state.runtime.uptime_ms;
        let mut text = String::new();
        let mut k: usize = 0;
        while k < n
            invariant
                n == state.events@.len(),
                k <= n,
                text@ == ndjson_after(state.events@, self.last_seq, k as nat),
            decreases n - k,
        {
            if state.events[k].seq > self.last_seq {
                push_ndjson_line(&mut text, &state.events[k]);
            }
            k = k + 1;
            assert(text@ =~= ndjson_after(state.events@, self.last_seq, k as nat));
        }
        Some(EventBatch { text, last_seq: state.events[n - 1].seq })
    }

    /// The batch reached the card: it is no longer pending.
    pub fn write_succeeded(&mut self, state: &mut DashboardState, batch_last_seq: u64, bytes: u64)
        ensures
            final(self).last_seq == batch_last_seq,
            !final(self).retrying_after_error,
            final(self).wrote_once,
            final(self).last_attempt_ms == old(self).last_attempt_ms,
            final(state).storage.event_bytes_written == (if old(state).storage.event_bytes_written
                + bytes > u64::MAX {
                u64::MAX as int
            } else {
                old(state).storage.event_bytes_written + bytes
            }),
            final(state).storage == (crate::telemetry::StorageTelemetry {
                event_bytes_written: final(state).storage.event_bytes_written,
                pending_events: 0,
                ..old(state).storage
            }),
            *final(state) == (DashboardState { storage: final(state).storage, ..*old(state) }),
    {
        self.last_seq = batch_last_seq;
        state.storage.event_bytes_written = state.storage.event_bytes_written.saturating_add(bytes);
        state.storage.pending_events = 0;
        self.retrying_after_error = false;
        self.wrote_once = true;
    }

    /// The write failed: count it, mark the card unhealthy and slow retries.
    pub fn write_failed(&mut self, state: &mut DashboardState)
        ensures
            *final(self) == (EventRecorder { retrying_after_error: true, ..*old(self) }),
            *final(state) == (DashboardState {
                storage: crate::telemetry::StorageTelemetry {
                    write_errors: if old(state).storage.write_errors == u32::MAX {
                        u32::MAX
                    } else {
                        (old(state).storage.write_errors + 1) as u32
                    },
                    health: Health::Error,
                    ..old(state).storage
                },
                ..*old(state)
            }),
    {
        state.storage.write_errors = state.storage.write_errors.saturating_add(1);
        state.storage.health = Health::Error;
        self.retrying_after_error = true;
    }

    /// Power-off readiness of the log after a forced sync: nothing pending,
    /// or logging is off.
    pub fn flushed(&self, state: &DashboardState) -> (ready: bool)
        ensures
            ready == (!state.event_logging_enabled || state.storage.pending_events == 0),
    {
        !state.event_logging_enabled || state.storage.pending_events == 0
    }
}

/// Every record is exactly one line: its only line break is the last
/// character, so the log stays valid NDJSON whatever the event text holds.
pub proof fn record_is_one_line(e: RecordedEvent)
    ensures
        ndjson_line(e).last() == '\n',
        forall|i: int| 0 <= i < ndjson_line(e).len() - 1 ==> #[trigger] ndjson_line(e)[i] != '\n',
{
    reveal_strlit("{\"v\":1,\"seq\":");
    reveal_strlit(",\"at_ms\":");
    reveal_strlit(",\"source\":\"");
    reveal_strlit("\",\"detail\":\"");
    reveal_strlit("\"}\n");
    let s = spec_json_safe(e.source@, 24);
    let d = spec_json_safe(e.detail@, 192);
    lemma_escaped_control_free(
        e.source@,
        if e.source@.len() < 24 {
            e.source@.len()
        } else {
            24
        },
    );
    lemma_escaped_control_free(
        e.detail@,
        if e.detail@.len() < 192 {
            e.detail@.len()
        } else {
            192
        },
    );
    lemma_decimal_digits(e.seq as nat);
    lemma_decimal_digits(e.at_ms as nat);
    let line = ndjson_line(e);
    assert forall|i: int| 0 <= i < line.len() - 1 implies #[trigger] line[i] != '\n' by {
        let p1 = "{\"v\":1,\"seq\":"@;
        let p2 = p1 + decimal(e.seq as nat);
        let p3 = p2 + ",\"at_ms\":"@;
        let p4 = p3 + decimal(e.at_ms as nat);
        let p5 = p4 + ",\"source\":\""@;
        let p6 = p5 + s;
        let p7 = p6 + "\",\"detail\":\""@;
        let p8 = p7 + d;
        assert(line == p8 + "\"}\n"@);
        if i < p1.len() {
        } else if i < p2.len() {
            assert(line[i] == decimal(e.seq as nat)[i - p1.len()]);
        } else if i < p3.len() {
        } else if i < p4.len() {
            assert(line[i] == decimal(e.at_ms as nat)[i - p3.len()]);
        } else if i < p5.len() {
        } else if i < p6.len() {
            assert(line[i] == s[i - p5.len()]);
            assert(!is_control(s[i - p5.len()]));
        } else if i < p7.len() {
        } else if i < p8.len() {
            assert(line[i] == d[i - p7.len()]);
            assert(!is_control(d[i - p7.len()]));
        } else {
        }
    }
}

/// Decimal text is made of digits only.
pub proof fn lemma_decimal_digits(n: nat)
    ensures
        forall|i: int| 0 <= i < decimal(n).len() ==> '0' <= #[trigger] decimal(n)[i] <= '9',
    decreases n,
{
    if n >= 10 {
        lemma_decimal_digits(n / 10);
        let a = decimal(n / 10);
        assert forall|i: int| 0 <= i < decimal(n).len() implies '0' <= #[trigger] decimal(n)[i]
            <= '9' by {
            if i < a.len() {
                assert(decimal(n)[i] == a[i]);
            }
        }
    }
}

/// Sequence numbers grow along the history.
pub open spec fn seqs_increasing(events: Seq<RecordedEvent>) -> bool {
    forall|i: int, j: int| 0 <= i < j < events.len() ==> #[trigger] events[i].seq < #[trigger] events[j].seq
}

proof fn nothing_after_the_newest(events: Seq<RecordedEvent>, newest: u64, k: nat)
    requires
        k <= events.len(),
        forall|i: int| 0 <= i < k ==> #[trigger] events[i].seq <= newest,
    ensures
        count_after(events, newest, k) == 0,
        ndjson_after(events, newest, k) == Seq::<char>::empty(),
    decreases k,
{
    if k > 0 {
        nothing_after_the_newest(events, newest, (k - 1) as nat);
        assert(events[k - 1].seq <= newest);
    }
}

/// With the log switched off, a sync marks the whole history as handled:
/// nothing recorded so far is pending, so switching the log on later writes
/// only events recorded after that.
/// (`last_seq` is what `plan_sync` keeps when the log is off.)
pub proof fn switched_off_history_is_never_written(events: Seq<RecordedEvent>, last_seq: u64)
    requires
        seqs_increasing(events),
        events.len() > 0,
        last_seq == events.last().seq,
    ensures
        count_after(events, last_seq, events.len()) == 0,
        ndjson_after(events, last_seq, events.len()) == Seq::<char>::empty(),
{
    assert forall|i: int| 0 <= i < events.len() implies #[trigger] events[i].seq <= last_seq by {
        if i < events.len() - 1 {
            assert(events[i].seq < events[events.len() - 1].seq);
        }
    }
    nothing_after_the_newest(events, last_seq, events.len());
}

} // verus!
