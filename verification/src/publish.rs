//! The publish loop and its progress accounting.
//!
//! The loop itself is a sequential state machine: one line becomes one
//! message, one message is in flight at a time, an acknowledged send
//! increments the counter, a failed send aborts the run, a line that fails
//! to decode is dropped silently, and exhaustion of the source finishes the
//! run. `PublishState` holds the machine's persistent state and its step
//! methods are what a driver calls around the actual broker I/O;
//! `run_publish` is the whole loop over a materialized source, with the
//! broker's answers modeled by the index of the first failing send attempt.

use vstd::prelude::*;
use vstd::arithmetic::div_mod::lemma_fundamental_div_mod;
use vstd::arithmetic::div_mod::lemma_fundamental_div_mod_converse;
use vstd::string::StringExecFns;
use crate::text::push_u64_dec;
use crate::text::spec_udec;

verus! {

/// The progress and summary line for a count of sent messages.
pub open spec fn spec_sent_message(n: nat) -> Seq<char> {
    "Sent "@ + spec_udec(n) + " messages"@
}

/// Renders the informational line `Sent <count> messages`.
pub fn sent_message(count: u64) -> (r: String)
    ensures
        r@ == spec_sent_message(count as nat),
{
    let mut s = "Sent ".to_owned();
    push_u64_dec(&mut s, count);
    s.append(" messages");
    proof {
        assert(s@ =~= spec_sent_message(count as nat));
    }
    s
}

/// How often a periodic progress line is emitted: after every 100th
/// acknowledged send.
pub const PROGRESS_INTERVAL: u64 = 100;

/// Where a run stands: still consuming the source, finished by exhaustion,
/// or aborted by a failed send.
#[derive(Clone, Copy, Debug, PartialEq, Eq, Structural)]
pub enum RunStatus {
    Running,
    Done,
    Aborted,
}

/// The persistent state of the publish loop: the number of acknowledged
/// sends, and whether the run is still going.
///
/// The counter only ever grows, by exactly one per acknowledgment, and
/// freezes the moment the run aborts or finishes.
#[derive(Clone, Copy, Debug, PartialEq, Eq, Structural)]
pub struct PublishState {
    pub sent: u64,
    pub status: RunStatus,
}

impl PublishState {
    /// A fresh run: nothing sent, loop ready to read.
    pub fn new() -> (s: Self)
        ensures
            s.sent == 0,
            s.status is Running,
    {
        PublishState { sent: 0, status: RunStatus::Running }
    }

    /// Whether the loop may take another step.
    pub fn is_running(&self) -> (r: bool)
        ensures
            r == (self.status is Running),
    {
        match self.status {
            RunStatus::Running => true,
            RunStatus::Done => false,
            RunStatus::Aborted => false,
        }
    }

    /// The broker acknowledged the message in flight: count it, and say
    /// whether this acknowledgment is one a periodic progress line is owed
    /// for (every 100th).
    pub fn record_ack(&mut self) -> (emit: bool)
        requires
            old(self).status is Running,
            old(self).sent < u64::MAX,
        ensures
            final(self).sent == old(self).sent + 1,
            final(self).status is Running,
            emit == (final(self).sent % PROGRESS_INTERVAL == 0),
    {
        self.sent = self.sent + 1;
        self.sent % PROGRESS_INTERVAL == 0
    }

    /// A line failed to decode as text: drop it silently. The explicit
    /// branch of the loop's failure-skip policy — no count, no abort.
    pub fn record_decode_failure(&mut self)
        requires
            old(self).status is Running,
        ensures
            *final(self) == *old(self),
    {
    }

    /// The broker rejected or failed to acknowledge a send: the run is
    /// aborted, the count frozen, nothing further is attempted.
    pub fn record_send_failure(&mut self)
        requires
            old(self).status is Running,
        ensures
            final(self).sent == old(self).sent,
            final(self).status is Aborted,
    {
        self.status = RunStatus::Aborted;
    }

    /// The source is exhausted (or was never opened): the run is done and
    /// the final count stands.
    pub fn finish(&mut self)
        requires
            old(self).status is Running,
        ensures
            final(self).sent == old(self).sent,
            final(self).status is Done,
    {
        self.status = RunStatus::Done;
    }
}

/// One element of the line source: a line that decoded as text, or one that
/// did not.
#[derive(Clone, Debug, PartialEq)]
pub enum LineRecord {
    Text(String),
    Undecodable,
}

/// How many lines of the source decoded successfully.
pub open spec fn valid_count(lines: Seq<LineRecord>) -> nat
    decreases lines.len(),
{
    if lines.len() == 0 {
        0
    } else {
        valid_count(lines.drop_last()) + (if lines.last() is Text {
            1nat
        } else {
            0nat
        })
    }
}

/// How many lines of the source failed to decode.
pub open spec fn invalid_count(lines: Seq<LineRecord>) -> nat
    decreases lines.len(),
{
    if lines.len() == 0 {
        0
    } else {
        invalid_count(lines.drop_last()) + (if lines.last() is Undecodable {
            1nat
        } else {
            0nat
        })
    }
}

/// The lines a source yields: none at all when the file could not be opened.
pub open spec fn source_lines(src: Option<&Vec<LineRecord>>) -> Seq<LineRecord> {
    match src {
        Option::Some(v) => v@,
        Option::None => Seq::empty(),
    }
}

/// Whether a run over `lines` aborts, when the broker fails the send
/// attempt with index `fail_send_at` (0-based) and acknowledges every
/// earlier one: it aborts exactly when that attempt is reached.
pub open spec fn spec_aborts(lines: Seq<LineRecord>, fail_send_at: Option<u64>) -> bool {
    fail_send_at matches Option::Some(k) && (k as nat) < valid_count(lines)
}

/// The final value of the sent counter: every line that decoded, unless a
/// send failure freezes the count at the number of sends acknowledged
/// before it.
pub open spec fn spec_final_sent(lines: Seq<LineRecord>, fail_send_at: Option<u64>) -> nat {
    if spec_aborts(lines, fail_send_at) {
        fail_send_at->0 as nat
    } else {
        valid_count(lines)
    }
}

/// How many send attempts a run makes: one per decoded line, except that an
/// aborted run stops right after the failed attempt.
pub open spec fn spec_attempted(lines: Seq<LineRecord>, fail_send_at: Option<u64>) -> nat {
    if spec_aborts(lines, fail_send_at) {
        fail_send_at->0 as nat + 1
    } else {
        valid_count(lines)
    }
}

pub proof fn lemma_valid_count_le_len(lines: Seq<LineRecord>)
    ensures
        valid_count(lines) <= lines.len(),
    decreases lines.len(),
{
    if lines.len() > 0 {
        lemma_valid_count_le_len(lines.drop_last());
    }
}

proof fn lemma_valid_count_take_step(lines: Seq<LineRecord>, i: int)
    requires
        0 <= i < lines.len(),
    ensures
        valid_count(lines.take(i + 1)) == valid_count(lines.take(i)) + (if lines[i] is Text {
            1nat
        } else {
            0nat
        }),
{
    let t = lines.take(i + 1);
    assert(t.drop_last() =~= lines.take(i));
    assert(t.last() == lines[i]);
}

proof fn lemma_valid_count_prefix_le(lines: Seq<LineRecord>, i: int)
    requires
        0 <= i <= lines.len(),
    ensures
        valid_count(lines.take(i)) <= valid_count(lines),
    decreases lines.len() - i,
{
    if i == lines.len() {
        assert(lines.take(i) =~= lines);
    } else {
        lemma_valid_count_take_step(lines, i);
        lemma_valid_count_prefix_le(lines, i + 1);
    }
}

proof fn lemma_div100_step(s: int)
    requires
        s >= 1,
    ensures
        s % 100 == 0 ==> s / 100 == (s - 1) / 100 + 1,
        s % 100 != 0 ==> s / 100 == (s - 1) / 100,
{
    lemma_fundamental_div_mod(s, 100);
    let q = s / 100;
    let r = s % 100;
    if r == 0 {
        lemma_fundamental_div_mod_converse(s - 1, 100, q - 1, 99);
    } else {
        lemma_fundamental_div_mod_converse(s - 1, 100, q, r - 1);
    }
}

/// What a whole run reports: the final loop state, the number of send
/// attempts, the periodic progress lines in order, and the one final
/// summary line.
#[derive(Debug)]
pub struct RunReport {
    pub state: PublishState,
    pub attempted: u64,
    pub progress_lines: Vec<String>,
    pub final_line: String,
}

/// The publish loop over a materialized source.
///
/// `lines` is `None` when the input file could not be opened: the loop body
/// never runs, nothing aborts, and the final line still reports the
/// accumulated count of zero. The broker's answers are modeled by
/// `fail_send_at`: the send attempt with that 0-based index fails, every
/// earlier one is acknowledged (`None` means every send is acknowledged).
///
/// The run sends every line that decoded, in order, one at a time, until
/// the source is exhausted or a send fails; it never counts a line twice
/// and never sends past a failure. A periodic progress line appears after
/// every 100th acknowledgment, and exactly one final summary line always
/// appears, whatever ended the run.
pub fn run_publish(lines: Option<&Vec<LineRecord>>, fail_send_at: Option<u64>) -> (r: RunReport)
    ensures
        r.state.sent as nat == spec_final_sent(source_lines(lines), fail_send_at),
        r.state.status is Aborted <==> spec_aborts(source_lines(lines), fail_send_at),
        r.state.status is Done <==> !spec_aborts(source_lines(lines), fail_send_at),
        r.attempted as nat == spec_attempted(source_lines(lines), fail_send_at),
        r.progress_lines@.len() == r.state.sent as nat / PROGRESS_INTERVAL as nat,
        forall|j: int|
            0 <= j < r.progress_lines@.len() ==> r.progress_lines@[j]@ == spec_sent_message(
                (PROGRESS_INTERVAL * (j + 1)) as nat,
            ),
        r.final_line@ == spec_sent_message(r.state.sent as nat),
{
    let mut state = PublishState::new();
    let mut attempted: u64 = 0;
    let mut progress_lines: Vec<String> = Vec::new();
    match lines {
        Option::None => {},
        Option::Some(v) => {
            let ghost all: Seq<LineRecord> = v@;
            let n = v.len();
            let mut i: usize = 0;
            while i < n && state.is_running()
                invariant
                    n == all.len(),
                    v@ == all,
                    0 <= i <= n,
                    state.status !is Done,
                    state.status is Running ==> {
                        &&& state.sent as nat == valid_count(all.take(i as int))
                        &&& attempted == state.sent
                        &&& (fail_send_at matches Option::Some(k) ==> k >= state.sent)
                    },
                    state.status is Aborted ==> {
                        &&& fail_send_at matches Option::Some(k)
                        &&& state.sent == k
                        &&& attempted == k + 1
                        &&& (k as nat) < valid_count(all)
                    },
                    progress_lines@.len() == state.sent as nat / PROGRESS_INTERVAL as nat,
                    forall|j: int|
                        0 <= j < progress_lines@.len() ==> progress_lines@[j]@
                            == spec_sent_message((PROGRESS_INTERVAL * (j + 1)) as nat),
                decreases n - i,
            {
                proof {
                    lemma_valid_count_le_len(all.take(i as int));
                    lemma_valid_count_take_step(all, i as int);
                }
                match &v[i] {
                    LineRecord::Undecodable => {
                        state.record_decode_failure();
                    },
                    LineRecord::Text(_message) => {
                        let fails = match fail_send_at {
                            Option::Some(k) => k == attempted,
                            Option::None => false,
                        };
                        attempted = attempted + 1;
                        if fails {
                            state.record_send_failure();
                            proof {
                                lemma_valid_count_prefix_le(all, i + 1);
                            }
                        } else {
                            let emit = state.record_ack();
                            proof {
                                lemma_div100_step(state.sent as int);
                            }
                            if emit {
                                let line = sent_message(state.sent);
                                progress_lines.push(line);
                                proof {
                                    assert(state.sent as nat == PROGRESS_INTERVAL as nat * (
                                    progress_lines@.len() as int - 1 + 1)) by {
                                        lemma_fundamental_div_mod(state.sent as int, 100);
                                    }
                                }
                            }
                        }
                    },
                }
                i = i + 1;
            }
            proof {
                if state.status is Running {
                    assert(i == n);
                    assert(all.take(n as int) =~= all);
                }
            }
        },
    }
    if state.is_running() {
        state.finish();
    }
    let final_line = sent_message(state.sent);
    RunReport { state, attempted, progress_lines, final_line }
}

/// Law: a run with no send failure counts exactly the lines that decoded,
/// never aborts, and the decoded and undecodable lines together account for
/// every line of the source — so the count never exceeds the number of
/// lines and no line is counted twice.
pub proof fn law_no_send_failure(lines: Seq<LineRecord>)
    ensures
        spec_final_sent(lines, Option::None) == valid_count(lines),
        !spec_aborts(lines, Option::None),
        valid_count(lines) + invalid_count(lines) == lines.len(),
    decreases lines.len(),
{
    if lines.len() > 0 {
        law_no_send_failure(lines.drop_last());
    }
}

/// Law: over a source of nothing but valid lines, the final count is the
/// number of lines.
pub proof fn law_all_valid(lines: Seq<LineRecord>)
    requires
        forall|j: int| 0 <= j < lines.len() ==> lines[j] is Text,
    ensures
        spec_final_sent(lines, Option::None) == lines.len(),
    decreases lines.len(),
{
    if lines.len() > 0 {
        assert(lines.last() == lines[lines.len() - 1]);
        law_all_valid(lines.drop_last());
    }
}

/// Law: with one undecodable line among otherwise valid lines, the final
/// count is the number of valid lines and the run does not abort.
pub proof fn law_one_undecodable(lines: Seq<LineRecord>)
    requires
        invalid_count(lines) == 1,
    ensures
        spec_final_sent(lines, Option::None) == lines.len() - 1,
        !spec_aborts(lines, Option::None),
{
    law_no_send_failure(lines);
}

/// Law: the final count never exceeds the number of decoded lines, which
/// never exceeds the number of lines, whatever the broker answers.
pub proof fn law_sent_bounded(lines: Seq<LineRecord>, fail_send_at: Option<u64>)
    ensures
        spec_final_sent(lines, fail_send_at) <= valid_count(lines),
        valid_count(lines) <= lines.len(),
{
    lemma_valid_count_le_len(lines);
}

/// Law: a send failure that is reached freezes the count at exactly the
/// number of sends acknowledged before it, aborts the run, and exactly one
/// further attempt (the failed one) was made.
pub proof fn law_send_failure_freezes(lines: Seq<LineRecord>, k: u64)
    requires
        (k as nat) < valid_count(lines),
    ensures
        spec_aborts(lines, Option::Some(k)),
        spec_final_sent(lines, Option::Some(k)) == k as nat,
        spec_attempted(lines, Option::Some(k)) == k as nat + 1,
{
}

} // verus!
