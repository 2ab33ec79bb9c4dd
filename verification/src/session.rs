//! The decisions of an auto-defend run: which failed controls are offered a
//! remediation, how the operator's answer is read, and what a re-check shows.
use vstd::prelude::*;
use crate::scenarios::DefendCheckResult;
use crate::text::{str_equal, to_lowercase, trim, trimmed, unicode_lowercase};
use crate::verdict::Verdict;

verus! {

pub open spec fn verdicts_of(results: Seq<DefendCheckResult>) -> Seq<Verdict> {
    results.map_values(|r: DefendCheckResult| r.verdict)
}

/// The positions of the vulnerable results, in order.
pub open spec fn vulnerable_positions(vs: Seq<Verdict>) -> Seq<usize>
    decreases vs.len(),
{
    if vs.len() == 0 {
        Seq::empty()
    } else {
        let before = vulnerable_positions(vs.drop_last());
        if vs.last() == Verdict::Vulnerable {
            before.push((vs.len() - 1) as usize)
        } else {
            before
        }
    }
}

/// The positions, among the results of a run, of the controls that failed and
/// are offered a remediation, in the order in which they ran.
pub fn remediation_queue(results: &Vec<DefendCheckResult>) -> (q: Vec<usize>)
    ensures
        q@ == vulnerable_positions(verdicts_of(results@)),
{
    let mut q: Vec<usize> = Vec::new();
    let mut i: usize = 0;
    while i < results.len()
        invariant
            i <= results.len(),
            q@ == vulnerable_positions(verdicts_of(results@).take(i as int)),
        decreases results.len() - i,
    {
        proof {
            let vs = verdicts_of(results@);
            assert(vs.take(i + 1).drop_last() =~= vs.take(i as int));
            assert(vs.take(i + 1).last() == results@[i as int].verdict);
        }
        if results[i].verdict.needs_remediation() {
            q.push(i);
        }
        i = i + 1;
    }
    proof {
        assert(verdicts_of(results@).take(results.len() as int) =~= verdicts_of(results@));
    }
    q
}

/// Whether the operator's answer accepts the remediation: once trimmed and
/// lower-cased, "y", "yes", "o" or "oui".
pub open spec fn accepts(answer: Seq<char>) -> bool {
    let a = unicode_lowercase(trim(answer));
    a == "y"@ || a == "yes"@ || a == "o"@ || a == "oui"@
}

/// Reads the operator's answer to the remediation prompt.
pub fn is_affirmative(answer: &str) -> (r: bool)
    ensures
        r == accepts(answer@),
{
    let t = trimmed(answer);
    let a = to_lowercase(t.as_str());
    str_equal(a.as_str(), "y") || str_equal(a.as_str(), "yes") || str_equal(a.as_str(), "o")
        || str_equal(a.as_str(), "oui")
}

/// Whether the check made after a remediation confirms that the control now
/// passes; otherwise the operator is told that a reboot may be needed.
pub fn remediation_confirmed(recheck: &DefendCheckResult) -> (r: bool)
    ensures
        r <==> recheck.verdict == Verdict::Secure,
{
    recheck.verdict == Verdict::Secure
}

} // verus!

verus! {

/// The remediation queue holds exactly the positions of the vulnerable
/// results, in increasing order: every failed control is offered a
/// remediation, once, and no other control is.
pub proof fn lemma_queue_is_failed_controls(vs: Seq<Verdict>)
    requires
        vs.len() <= usize::MAX,
    ensures
        forall|k: int|
            0 <= k < vulnerable_positions(vs).len() ==> (#[trigger] vulnerable_positions(vs)[k])
                < vs.len() && vs[vulnerable_positions(vs)[k] as int] == Verdict::Vulnerable,
        forall|i: int|
            0 <= i < vs.len() && #[trigger] vs[i] == Verdict::Vulnerable
                ==> vulnerable_positions(vs).contains(i as usize),
        forall|a: int, b: int|
            0 <= a < b < vulnerable_positions(vs).len() ==> vulnerable_positions(vs)[a]
                < vulnerable_positions(vs)[b],
    decreases vs.len(),
{
    if vs.len() > 0 {
        let d = vs.drop_last();
        lemma_queue_is_failed_controls(d);
        let q0 = vulnerable_positions(d);
        let q = vulnerable_positions(vs);
        assert forall|i: int| 0 <= i < d.len() implies #[trigger] d[i] == vs[i] by {}
        if vs.last() == Verdict::Vulnerable {
            assert(q == q0.push((vs.len() - 1) as usize));
            assert forall|k: int| 0 <= k < q.len() implies (#[trigger] q[k]) < vs.len() && vs[q[k] as int]
                == Verdict::Vulnerable by {
                if k < q0.len() {
                    assert(q[k] == q0[k]);
                    assert(d[q0[k] as int] == vs[q0[k] as int]);
                }
            }
            assert forall|i: int| 0 <= i < vs.len() && #[trigger] vs[i] == Verdict::Vulnerable implies q.contains(
                i as usize,
            ) by {
                if i < vs.len() - 1 {
                    assert(d[i] == vs[i]);
                    let k = choose|k: int| 0 <= k < q0.len() && q0[k] == i as usize;
                    assert(q[k] == q0[k]);
                } else {
                    assert(q[q.len() - 1] == i as usize);
                }
            }
            assert forall|a: int, b: int| 0 <= a < b < q.len() implies q[a] < q[b] by {
                if b < q0.len() {
                    assert(q[a] == q0[a] && q[b] == q0[b]);
                } else {
                    assert(q[a] == q0[a]);
                    assert(q0[a] < d.len());
                }
            }
        } else {
            assert(q == q0);
            assert forall|k: int| 0 <= k < q.len() implies (#[trigger] q[k]) < vs.len() && vs[q[k] as int]
                == Verdict::Vulnerable by {
                assert(d[q0[k] as int] == vs[q0[k] as int]);
            }
            assert forall|i: int| 0 <= i < vs.len() && #[trigger] vs[i] == Verdict::Vulnerable implies q.contains(
                i as usize,
            ) by {
                assert(i < vs.len() - 1);
                assert(d[i] == vs[i]);
            }
        }
    }
}

} // verus!

verus! {

// ---------------------------------------------------------------------------
// The auto-defend run as a state machine
// ---------------------------------------------------------------------------

/// Where an auto-defend run stands.
#[derive(Debug, Clone, Copy, PartialEq, Eq, Structural)]
pub enum SessionPhase {
    /// Evaluating the selected scenarios, one after the other.
    Evaluating,
    /// Waiting for the operator's answer about the `k`-th queued remediation.
    Proposing(usize),
    /// Waiting for the outcome of the `k`-th queued remediation.
    Remediating(usize),
    /// Waiting for the re-check made after the `k`-th queued remediation.
    Rechecking(usize),
    /// Nothing is left to do.
    Done,
}

/// The state of an auto-defend run over `count` selected scenarios.
#[derive(Debug)]
pub struct DefendSession {
    /// How many scenarios were selected.
    pub count: usize,
    /// The verdicts of the first evaluations, in order.
    pub verdicts: Vec<Verdict>,
    /// The positions of the failed scenarios, once every scenario was evaluated.
    pub queue: Vec<usize>,
    pub phase: SessionPhase,
}

pub struct SessionView {
    pub count: nat,
    pub verdicts: Seq<Verdict>,
    pub queue: Seq<usize>,
    pub phase: SessionPhase,
}

impl View for DefendSession {
    type V = SessionView;

    open spec fn view(&self) -> SessionView {
        SessionView {
            count: self.count as nat,
            verdicts: self.verdicts@,
            queue: self.queue@,
            phase: self.phase,
        }
    }
}

/// What the program reports back after doing what the run asked.
#[derive(Debug)]
pub enum SessionEvent {
    /// The verdict of the scenario that was evaluated.
    Evaluated(Verdict),
    /// The operator's answer, or `None` when it could not be read.
    Answered(Option<String>),
    /// Whether the remediation succeeded.
    Remediated(bool),
    /// The verdict of the re-check.
    Rechecked(Verdict),
}

pub enum EventView {
    Evaluated(Verdict),
    Answered(Option<Seq<char>>),
    Remediated(bool),
    Rechecked(Verdict),
}

impl View for SessionEvent {
    type V = EventView;

    open spec fn view(&self) -> EventView {
        match self {
            SessionEvent::Evaluated(v) => EventView::Evaluated(*v),
            SessionEvent::Answered(Some(a)) => EventView::Answered(Some(a@)),
            SessionEvent::Answered(None) => EventView::Answered(None),
            SessionEvent::Remediated(ok) => EventView::Remediated(*ok),
            SessionEvent::Rechecked(v) => EventView::Rechecked(*v),
        }
    }
}

/// What to tell the operator about the step just taken.
#[derive(Debug, Clone, Copy, PartialEq, Eq, Structural)]
pub enum SessionNotice {
    Nothing,
    /// The operator declined the remediation.
    Skipped,
    /// The re-check found the control passing.
    Confirmed,
    /// The re-check still found the control failing: a reboot may be needed.
    RebootAdvised,
}

/// What the program is to do next; the number is a position among the
/// selected scenarios.
#[derive(Debug, Clone, Copy, PartialEq, Eq, Structural)]
pub enum SessionNext {
    /// Evaluate the scenario and show its card.
    Evaluate(usize),
    /// Propose the scenario's remediation and read the answer; `first` when
    /// it is the first proposal of the run.
    Propose { scenario: usize, first: bool },
    /// Run the scenario's remediation.
    Remediate(usize),
    /// Wait for the host to settle, then evaluate the scenario again.
    Recheck(usize),
    /// The run is over; `after_remediations` when remediations were proposed.
    Finish { after_remediations: bool },
}

#[derive(Debug, Clone, Copy, PartialEq, Eq, Structural)]
pub struct SessionAction {
    pub notice: SessionNotice,
    pub next: SessionNext,
}

/// Whether the event is the outcome of what the run is waiting for.
pub open spec fn event_answers(phase: SessionPhase, e: EventView) -> bool {
    match phase {
        SessionPhase::Evaluating => e is Evaluated,
        SessionPhase::Proposing(_) => e is Answered,
        SessionPhase::Remediating(_) => e is Remediated,
        SessionPhase::Rechecking(_) => e is Rechecked,
        SessionPhase::Done => false,
    }
}

pub open spec fn act(notice: SessionNotice, next: SessionNext) -> SessionAction {
    SessionAction { notice, next }
}

pub open spec fn with_phase(s: SessionView, phase: SessionPhase) -> SessionView {
    SessionView { phase, ..s }
}

/// Every scenario has been evaluated: propose the first failed one's
/// remediation, or finish when none failed.
pub open spec fn evaluation_done(count: nat, vs: Seq<Verdict>) -> (SessionView, SessionAction) {
    let q = vulnerable_positions(vs);
    if q.len() > 0 {
        (
            SessionView { count, verdicts: vs, queue: q, phase: SessionPhase::Proposing(0) },
            act(SessionNotice::Nothing, SessionNext::Propose { scenario: q[0], first: true }),
        )
    } else {
        (
            SessionView { count, verdicts: vs, queue: q, phase: SessionPhase::Done },
            act(SessionNotice::Nothing, SessionNext::Finish { after_remediations: false }),
        )
    }
}

/// The `p`-th queued remediation is settled: propose the next one, or finish.
pub open spec fn move_on(s: SessionView, p: nat, notice: SessionNotice) -> (SessionView, SessionAction) {
    if p + 1 < s.queue.len() {
        (
            with_phase(s, SessionPhase::Proposing((p + 1) as usize)),
            act(notice, SessionNext::Propose { scenario: s.queue[(p + 1) as int], first: false }),
        )
    } else {
        (
            with_phase(s, SessionPhase::Done),
            act(notice, SessionNext::Finish { after_remediations: true }),
        )
    }
}

/// The start of a run over `count` scenarios.
pub open spec fn session_start(count: nat) -> (SessionView, SessionAction) {
    if count == 0 {
        evaluation_done(0, Seq::empty())
    } else {
        (
            SessionView {
                count,
                verdicts: Seq::empty(),
                queue: Seq::empty(),
                phase: SessionPhase::Evaluating,
            },
            act(SessionNotice::Nothing, SessionNext::Evaluate(0)),
        )
    }
}

/// One step of the run. Scenarios are evaluated in order; then each failed
/// one, in order, is proposed for remediation. Its remediation runs only when
/// the operator's answer accepts it; any other answer, or an answer that could
/// not be read, moves on to the next proposal. A remediation that succeeds is
/// followed by one re-check, whose verdict says whether the fix is confirmed;
/// one that fails is not re-checked.
pub open spec fn session_step(s: SessionView, e: EventView) -> (SessionView, SessionAction) {
    let done = (
        with_phase(s, SessionPhase::Done),
        act(SessionNotice::Nothing, SessionNext::Finish { after_remediations: s.queue.len() > 0 }),
    );
    match s.phase {
        SessionPhase::Evaluating => match e {
            EventView::Evaluated(v) => {
                let vs = s.verdicts.push(v);
                if vs.len() < s.count {
                    (
                        SessionView { verdicts: vs, ..s },
                        act(SessionNotice::Nothing, SessionNext::Evaluate(vs.len() as usize)),
                    )
                } else {
                    evaluation_done(s.count, vs)
                }
            },
            _ => done,
        },
        SessionPhase::Proposing(p) => if p < s.queue.len() {
            match e {
                EventView::Answered(Some(t)) => if accepts(t) {
                    (
                        with_phase(s, SessionPhase::Remediating(p)),
                        act(SessionNotice::Nothing, SessionNext::Remediate(s.queue[p as int])),
                    )
                } else {
                    move_on(s, p as nat, SessionNotice::Skipped)
                },
                EventView::Answered(None) => move_on(s, p as nat, SessionNotice::Nothing),
                _ => done,
            }
        } else {
            done
        },
        SessionPhase::Remediating(p) => if p < s.queue.len() {
            match e {
                EventView::Remediated(ok) => if ok {
                    (
                        with_phase(s, SessionPhase::Rechecking(p)),
                        act(SessionNotice::Nothing, SessionNext::Recheck(s.queue[p as int])),
                    )
                } else {
                    move_on(s, p as nat, SessionNotice::Nothing)
                },
                _ => done,
            }
        } else {
            done
        },
        SessionPhase::Rechecking(p) => if p < s.queue.len() {
            match e {
                EventView::Rechecked(v) => move_on(
                    s,
                    p as nat,
                    if v == Verdict::Secure {
                        SessionNotice::Confirmed
                    } else {
                        SessionNotice::RebootAdvised
                    },
                ),
                _ => done,
            }
        } else {
            done
        },
        SessionPhase::Done => done,
    }
}

fn copy_verdicts(v: &Vec<Verdict>) -> (r: Vec<Verdict>)
    ensures
        r@ == v@,
{
    let mut r: Vec<Verdict> = Vec::new();
    let mut i: usize = 0;
    while i < v.len()
        invariant
            i <= v.len(),
            r@ == v@.take(i as int),
        decreases v.len() - i,
    {
        r.push(v[i]);
        proof {
            assert(v@.take(i + 1) =~= v@.take(i as int).push(v@[i as int]));
        }
        i = i + 1;
    }
    proof {
        assert(v@.take(v.len() as int) =~= v@);
    }
    r
}

fn copy_positions(v: &Vec<usize>) -> (r: Vec<usize>)
    ensures
        r@ == v@,
{
    let mut r: Vec<usize> = Vec::new();
    let mut i: usize = 0;
    while i < v.len()
        invariant
            i <= v.len(),
            r@ == v@.take(i as int),
        decreases v.len() - i,
    {
        r.push(v[i]);
        proof {
            assert(v@.take(i + 1) =~= v@.take(i as int).push(v@[i as int]));
        }
        i = i + 1;
    }
    proof {
        assert(v@.take(v.len() as int) =~= v@);
    }
    r
}

/// The positions of the vulnerable verdicts, in order.
pub fn failed_positions(vs: &Vec<Verdict>) -> (q: Vec<usize>)
    ensures
        q@ == vulnerable_positions(vs@),
{
    let mut q: Vec<usize> = Vec::new();
    let mut i: usize = 0;
    while i < vs.len()
        invariant
            i <= vs.len(),
            q@ == vulnerable_positions(vs@.take(i as int)),
        decreases vs.len() - i,
    {
        proof {
            assert(vs@.take(i + 1).drop_last() =~= vs@.take(i as int));
        }
        if vs[i] == Verdict::Vulnerable {
            q.push(i);
        }
        i = i + 1;
    }
    proof {
        assert(vs@.take(vs.len() as int) =~= vs@);
    }
    q
}

fn finish_evaluation(count: usize, vs: Vec<Verdict>) -> (r: (DefendSession, SessionAction))
    ensures
        (r.0@, r.1) == evaluation_done(count as nat, vs@),
{
    let q = failed_positions(&vs);
    if q.len() > 0 {
        let first = q[0];
        (
            DefendSession { count, verdicts: vs, queue: q, phase: SessionPhase::Proposing(0) },
            SessionAction {
                notice: SessionNotice::Nothing,
                next: SessionNext::Propose { scenario: first, first: true },
            },
        )
    } else {
        (
            DefendSession { count, verdicts: vs, queue: q, phase: SessionPhase::Done },
            SessionAction {
                notice: SessionNotice::Nothing,
                next: SessionNext::Finish { after_remediations: false },
            },
        )
    }
}

fn with_new_phase(state: &DefendSession, phase: SessionPhase) -> (r: DefendSession)
    ensures
        r@ == with_phase(state@, phase),
{
    DefendSession {
        count: state.count,
        verdicts: copy_verdicts(&state.verdicts),
        queue: copy_positions(&state.queue),
        phase,
    }
}

fn settled(state: &DefendSession, p: usize, notice: SessionNotice) -> (r: (DefendSession, SessionAction))
    requires
        p < state.queue.len(),
    ensures
        (r.0@, r.1) == move_on(state@, p as nat, notice),
{
    if p + 1 < state.queue.len() {
        let next = state.queue[p + 1];
        (
            with_new_phase(state, SessionPhase::Proposing(p + 1)),
            SessionAction { notice, next: SessionNext::Propose { scenario: next, first: false } },
        )
    } else {
        (
            with_new_phase(state, SessionPhase::Done),
            SessionAction { notice, next: SessionNext::Finish { after_remediations: true } },
        )
    }
}

fn finished_run(state: &DefendSession) -> (r: (DefendSession, SessionAction))
    ensures
        (r.0@, r.1) == (
            with_phase(state@, SessionPhase::Done),
            act(SessionNotice::Nothing, SessionNext::Finish { after_remediations: state.queue.len() > 0 }),
        ),
{
    let any = state.queue.len() > 0;
    (
        with_new_phase(state, SessionPhase::Done),
        SessionAction { notice: SessionNotice::Nothing, next: SessionNext::Finish { after_remediations: any } },
    )
}

impl DefendSession {
    /// Starts a run over `count` selected scenarios.
    pub fn start(count: usize) -> (r: (DefendSession, SessionAction))
        ensures
            (r.0@, r.1) == session_start(count as nat),
    {
        if count == 0 {
            finish_evaluation(0, Vec::new())
        } else {
            (
                DefendSession {
                    count,
                    verdicts: Vec::new(),
                    queue: Vec::new(),
                    phase: SessionPhase::Evaluating,
                },
                SessionAction { notice: SessionNotice::Nothing, next: SessionNext::Evaluate(0) },
            )
        }
    }
}

/// Takes one step of an auto-defend run: from the state and the outcome of the
/// last action, the next state and what to do next.
pub fn auto_defend_step(state: &DefendSession, event: &SessionEvent) -> (r: (DefendSession, SessionAction))
    ensures
        (r.0@, r.1) == session_step(state@, event@),
{
    match state.phase {
        SessionPhase::Evaluating => match event {
            SessionEvent::Evaluated(v) => {
                let mut vs = copy_verdicts(&state.verdicts);
                vs.push(*v);
                if vs.len() < state.count {
                    let n = vs.len();
                    (
                        DefendSession {
                            count: state.count,
                            verdicts: vs,
                            queue: copy_positions(&state.queue),
                            phase: SessionPhase::Evaluating,
                        },
                        SessionAction { notice: SessionNotice::Nothing, next: SessionNext::Evaluate(n) },
                    )
                } else {
                    finish_evaluation(state.count, vs)
                }
            },
            _ => finished_run(state),
        },
        SessionPhase::Proposing(p) => if p < state.queue.len() {
            match event {
                SessionEvent::Answered(Some(t)) => if is_affirmative(t.as_str()) {
                    let i = state.queue[p];
                    (
                        with_new_phase(state, SessionPhase::Remediating(p)),
                        SessionAction { notice: SessionNotice::Nothing, next: SessionNext::Remediate(i) },
                    )
                } else {
                    settled(state, p, SessionNotice::Skipped)
                },
                SessionEvent::Answered(None) => settled(state, p, SessionNotice::Nothing),
                _ => finished_run(state),
            }
        } else {
            finished_run(state)
        },
        SessionPhase::Remediating(p) => if p < state.queue.len() {
            match event {
                SessionEvent::Remediated(ok) => if *ok {
                    let i = state.queue[p];
                    (
                        with_new_phase(state, SessionPhase::Rechecking(p)),
                        SessionAction { notice: SessionNotice::Nothing, next: SessionNext::Recheck(i) },
                    )
                } else {
                    settled(state, p, SessionNotice::Nothing)
                },
                _ => finished_run(state),
            }
        } else {
            finished_run(state)
        },
        SessionPhase::Rechecking(p) => if p < state.queue.len() {
            match event {
                SessionEvent::Rechecked(v) => {
                    let notice = if *v == Verdict::Secure {
                        SessionNotice::Confirmed
                    } else {
                        SessionNotice::RebootAdvised
                    };
                    settled(state, p, notice)
                },
                _ => finished_run(state),
            }
        } else {
            finished_run(state)
        },
        SessionPhase::Done => finished_run(state),
    }
}

} // verus!

verus! {

// ---------------------------------------------------------------------------
// Laws of the auto-defend run
// ---------------------------------------------------------------------------

/// What holds of every state that a run reaches from its start.
pub open spec fn session_ok(s: SessionView) -> bool {
    let queued = s.verdicts.len() == s.count && s.queue == vulnerable_positions(s.verdicts);
    &&& s.count <= usize::MAX
    &&& s.verdicts.len() <= s.count
    &&& match s.phase {
        SessionPhase::Evaluating => s.verdicts.len() < s.count && s.queue.len() == 0,
        SessionPhase::Proposing(p) => queued && p < s.queue.len(),
        SessionPhase::Remediating(p) => queued && p < s.queue.len(),
        SessionPhase::Rechecking(p) => queued && p < s.queue.len(),
        SessionPhase::Done => queued || s.queue.len() == 0,
    }
}

/// Whether an action fits the state it leads to: a scenario is evaluated at
/// its turn; only scenarios whose evaluation failed are proposed, remediated
/// or re-checked; and the run finishes only in the final state.
pub open spec fn action_ok(s: SessionView, a: SessionAction) -> bool {
    match a.next {
        SessionNext::Evaluate(i) => i < s.count && i == s.verdicts.len() && s.phase is Evaluating,
        SessionNext::Propose { scenario, first } => scenario < s.count && s.verdicts[scenario as int]
            == Verdict::Vulnerable && (first <==> s.phase == SessionPhase::Proposing(0)),
        SessionNext::Remediate(i) => i < s.count && s.verdicts[i as int] == Verdict::Vulnerable,
        SessionNext::Recheck(i) => i < s.count && s.verdicts[i as int] == Verdict::Vulnerable,
        SessionNext::Finish { after_remediations } => s.phase is Done && (after_remediations
            ==> s.queue.len() > 0),
    }
}

proof fn lemma_queue_len(vs: Seq<Verdict>)
    ensures
        vulnerable_positions(vs).len() <= vs.len(),
    decreases vs.len(),
{
    if vs.len() > 0 {
        lemma_queue_len(vs.drop_last());
    }
}

proof fn lemma_queued_failed(s: SessionView, p: int)
    requires
        session_ok(s),
        s.verdicts.len() == s.count,
        s.queue == vulnerable_positions(s.verdicts),
        0 <= p < s.queue.len(),
    ensures
        s.queue[p] < s.count,
        s.verdicts[s.queue[p] as int] == Verdict::Vulnerable,
        s.queue.len() <= s.count,
{
    lemma_queue_len(s.verdicts);
    lemma_queue_is_failed_controls(s.verdicts);
    assert(s.queue[p] == vulnerable_positions(s.verdicts)[p]);
}

/// A run starts in a sound state with a fitting action, and every step keeps
/// it so: scenarios are evaluated in turn, and only failed scenarios are ever
/// proposed, remediated or re-checked.
pub proof fn lemma_session_sound(count: nat, s: SessionView, e: EventView)
    requires
        count <= usize::MAX,
        session_ok(s),
    ensures
        session_ok(session_start(count).0),
        action_ok(session_start(count).0, session_start(count).1),
        session_ok(session_step(s, e).0),
        action_ok(session_step(s, e).0, session_step(s, e).1),
{
    let (s2, a) = session_step(s, e);
    if count == 0 {
        assert(vulnerable_positions(Seq::<Verdict>::empty()).len() == 0);
    }
    match s.phase {
        SessionPhase::Evaluating => {
            if e is Evaluated {
                let vs = s.verdicts.push(e->Evaluated_0);
                if vs.len() >= s.count && vulnerable_positions(vs).len() > 0 {
                    lemma_queued_failed(s2, 0);
                }
            }
        },
        SessionPhase::Proposing(p) => {
            if p < s.queue.len() {
                lemma_queued_failed(s, p as int);
                if p + 1 < s.queue.len() {
                    lemma_queued_failed(s, p + 1);
                }
            }
        },
        SessionPhase::Remediating(p) => {
            if p < s.queue.len() {
                lemma_queued_failed(s, p as int);
                if p + 1 < s.queue.len() {
                    lemma_queued_failed(s, p + 1);
                }
            }
        },
        SessionPhase::Rechecking(p) => {
            if p < s.queue.len() {
                if p + 1 < s.queue.len() {
                    lemma_queued_failed(s, p + 1);
                }
            }
        },
        SessionPhase::Done => {},
    }
}

/// Consent comes first: a step asks to run a remediation only when the run
/// was proposing that very scenario and the operator's answer accepted it; it
/// asks for a re-check only right after that scenario's remediation
/// succeeded.
pub proof fn lemma_session_consent(s: SessionView, e: EventView)
    ensures
        session_step(s, e).1.next matches SessionNext::Remediate(i) ==> ({
            &&& s.phase matches SessionPhase::Proposing(p)
            &&& p < s.queue.len()
            &&& i == s.queue[p as int]
            &&& e matches EventView::Answered(Some(t))
            &&& accepts(t)
        }),
        session_step(s, e).1.next matches SessionNext::Recheck(i) ==> ({
            &&& s.phase matches SessionPhase::Remediating(p)
            &&& p < s.queue.len()
            &&& i == s.queue[p as int]
            &&& e == EventView::Remediated(true)
        }),
{
}

/// An answer that does not accept the proposal, or that could not be read,
/// runs nothing: the run goes on to the next proposal or finishes, and says
/// that the remediation was skipped only when an answer was read.
pub proof fn lemma_session_declined(s: SessionView, a: Option<Seq<char>>)
    requires
        s.phase matches SessionPhase::Proposing(p) && p < s.queue.len(),
        !(a matches Some(t) && accepts(t)),
    ensures
        session_step(s, EventView::Answered(a)).1.next is Propose || session_step(
            s,
            EventView::Answered(a),
        ).1.next is Finish,
        session_step(s, EventView::Answered(a)).1.notice == if a is Some {
            SessionNotice::Skipped
        } else {
            SessionNotice::Nothing
        },
{
}

/// A remediation that succeeds is followed by exactly one re-check of its
/// scenario, whose verdict alone decides whether the fix is confirmed; one
/// that fails is not re-checked and the run moves on.
pub proof fn lemma_session_recheck(s: SessionView, ok: bool, v: Verdict)
    requires
        s.phase matches SessionPhase::Remediating(p) && p < s.queue.len(),
    ensures
        ok ==> session_step(s, EventView::Remediated(ok)).1.next == SessionNext::Recheck(
            s.queue[s.phase->Remediating_0 as int],
        ),
        !ok ==> (session_step(s, EventView::Remediated(ok)).1.next is Propose || session_step(
            s,
            EventView::Remediated(ok),
        ).1.next is Finish),
        ({
            let r = session_step(session_step(s, EventView::Remediated(true)).0, EventView::Rechecked(v));
            &&& r.1.next is Propose || r.1.next is Finish
            &&& (r.1.notice == SessionNotice::Confirmed <==> v == Verdict::Secure)
            &&& (r.1.notice == SessionNotice::RebootAdvised <==> v != Verdict::Secure)
        }),
{
}

/// Whether event `e` settles the `p`-th proposal: the operator declines it or
/// the answer cannot be read, its remediation fails, or its re-check is in.
pub open spec fn settles(s: SessionView, e: EventView, p: usize) -> bool {
    match e {
        EventView::Answered(Some(t)) => s.phase == SessionPhase::Proposing(p) && !accepts(t),
        EventView::Answered(None) => s.phase == SessionPhase::Proposing(p),
        EventView::Remediated(ok) => s.phase == SessionPhase::Remediating(p) && !ok,
        EventView::Rechecked(_) => s.phase == SessionPhase::Rechecking(p),
        EventView::Evaluated(_) => false,
    }
}

/// Every failed scenario is proposed once, in order: when the `p`-th
/// proposal is settled (the answer declines or cannot be read, the
/// remediation fails, or its re-check is in), the run proposes the next queued
/// scenario, keeping the verdicts and the queue, and after the last one it
/// finishes.
pub proof fn lemma_session_next_proposal(s: SessionView, e: EventView, p: usize)
    requires
        p < s.queue.len(),
        settles(s, e, p),
    ensures
        session_step(s, e).0.verdicts == s.verdicts,
        session_step(s, e).0.queue == s.queue,
        session_step(s, e).0.count == s.count,
        p + 1 < s.queue.len() ==> session_step(s, e).1.next == (SessionNext::Propose {
            scenario: s.queue[p + 1],
            first: false,
        }) && session_step(s, e).0.phase == SessionPhase::Proposing((p + 1) as usize),
        p + 1 == s.queue.len() ==> session_step(s, e).1.next == (SessionNext::Finish {
            after_remediations: true,
        }) && session_step(s, e).0.phase == SessionPhase::Done,
{
}

/// A proposal that the operator accepts leads to that scenario's remediation,
/// and nothing else.
pub proof fn lemma_session_accepted(s: SessionView, t: Seq<char>, p: usize)
    requires
        p < s.queue.len(),
        s.phase == SessionPhase::Proposing(p),
        accepts(t),
    ensures
        session_step(s, EventView::Answered(Some(t))).1 == (SessionAction {
            notice: SessionNotice::Nothing,
            next: SessionNext::Remediate(s.queue[p as int]),
        }),
        session_step(s, EventView::Answered(Some(t))).0.phase == SessionPhase::Remediating(p),
{
}

/// Evaluation goes through the scenarios in order, then proposes the first
/// failed one, or finishes when none failed.
pub proof fn lemma_session_evaluation_order(s: SessionView, v: Verdict)
    requires
        s.phase == SessionPhase::Evaluating,
    ensures
        s.verdicts.len() + 1 < s.count ==> session_step(s, EventView::Evaluated(v)).1.next
            == SessionNext::Evaluate((s.verdicts.len() + 1) as usize),
        session_step(s, EventView::Evaluated(v)).0.verdicts == s.verdicts.push(v),
        s.verdicts.len() + 1 >= s.count ==> ({
            let vs = s.verdicts.push(v);
            let r = session_step(s, EventView::Evaluated(v));
            &&& r.0.queue == vulnerable_positions(vs)
            &&& (exists|i: int| 0 <= i < vs.len() && vs[i] == Verdict::Vulnerable) ==> r.1.next
                == (SessionNext::Propose { scenario: vulnerable_positions(vs)[0], first: true })
            &&& !(exists|i: int| 0 <= i < vs.len() && vs[i] == Verdict::Vulnerable) ==> r.1.next
                == (SessionNext::Finish { after_remediations: false })
        }),
{
    let vs = s.verdicts.push(v);
    if vs.len() >= s.count {
        lemma_queue_len(vs);
        if exists|i: int| 0 <= i < vs.len() && vs[i] == Verdict::Vulnerable {
            let i = choose|i: int| 0 <= i < vs.len() && vs[i] == Verdict::Vulnerable;
            lemma_vulnerable_listed(vs, i);
        } else {
            lemma_none_vulnerable(vs);
        }
    }
}

proof fn lemma_vulnerable_listed(vs: Seq<Verdict>, i: int)
    requires
        0 <= i < vs.len(),
        vs[i] == Verdict::Vulnerable,
    ensures
        vulnerable_positions(vs).len() > 0,
    decreases vs.len(),
{
    if i < vs.len() - 1 {
        assert(vs.drop_last()[i] == vs[i]);
        lemma_vulnerable_listed(vs.drop_last(), i);
    }
}

proof fn lemma_none_vulnerable(vs: Seq<Verdict>)
    requires
        !(exists|i: int| 0 <= i < vs.len() && vs[i] == Verdict::Vulnerable),
    ensures
        vulnerable_positions(vs).len() == 0,
    decreases vs.len(),
{
    if vs.len() > 0 {
        let d = vs.drop_last();
        assert forall|i: int| 0 <= i < d.len() implies d[i] != Verdict::Vulnerable by {
            assert(d[i] == vs[i]);
        }
        lemma_none_vulnerable(d);
        assert(vs[vs.len() - 1] != Verdict::Vulnerable);
    }
}

} // verus!
