use hunter::session::{
    auto_defend_step, failed_positions, DefendSession, SessionAction, SessionEvent, SessionNext,
    SessionNotice, SessionPhase,
};
use hunter::verdict::Verdict;

fn step(state: DefendSession, event: SessionEvent) -> (DefendSession, SessionAction) {
    auto_defend_step(&state, &event)
}

fn answer(text: &str) -> SessionEvent {
    SessionEvent::Answered(Some(text.to_string()))
}

#[test]
fn all_secure_run_finishes_without_proposals() {
    let (s, a) = DefendSession::start(2);
    assert_eq!(a.next, SessionNext::Evaluate(0));
    let (s, a) = step(s, SessionEvent::Evaluated(Verdict::Secure));
    assert_eq!(a.next, SessionNext::Evaluate(1));
    let (s, a) = step(s, SessionEvent::Evaluated(Verdict::Warning));
    assert_eq!(a.next, SessionNext::Finish { after_remediations: false });
    assert_eq!(s.phase, SessionPhase::Done);
}

#[test]
fn empty_selection_finishes_at_once() {
    let (s, a) = DefendSession::start(0);
    assert_eq!(a.next, SessionNext::Finish { after_remediations: false });
    assert_eq!(s.phase, SessionPhase::Done);
}

#[test]
fn accepted_remediation_is_rechecked_once() {
    let (s, _) = DefendSession::start(3);
    let (s, _) = step(s, SessionEvent::Evaluated(Verdict::Secure));
    let (s, _) = step(s, SessionEvent::Evaluated(Verdict::Vulnerable));
    let (s, a) = step(s, SessionEvent::Evaluated(Verdict::Vulnerable));
    assert_eq!(s.queue, vec![1, 2]);
    assert_eq!(a.next, SessionNext::Propose { scenario: 1, first: true });
    let (s, a) = step(s, answer(" Yes\n"));
    assert_eq!(a.next, SessionNext::Remediate(1));
    let (s, a) = step(s, SessionEvent::Remediated(true));
    assert_eq!(a.next, SessionNext::Recheck(1));
    let (s, a) = step(s, SessionEvent::Rechecked(Verdict::Secure));
    assert_eq!(a.notice, SessionNotice::Confirmed);
    assert_eq!(a.next, SessionNext::Propose { scenario: 2, first: false });
    let (s, a) = step(s, answer("n\n"));
    assert_eq!(a.notice, SessionNotice::Skipped);
    assert_eq!(a.next, SessionNext::Finish { after_remediations: true });
    assert_eq!(s.phase, SessionPhase::Done);
}

#[test]
fn unread_answer_skips_silently() {
    let (s, _) = DefendSession::start(1);
    let (s, a) = step(s, SessionEvent::Evaluated(Verdict::Vulnerable));
    assert_eq!(a.next, SessionNext::Propose { scenario: 0, first: true });
    let (_, a) = step(s, SessionEvent::Answered(None));
    assert_eq!(a.notice, SessionNotice::Nothing);
    assert_eq!(a.next, SessionNext::Finish { after_remediations: true });
}

#[test]
fn failed_remediation_is_not_rechecked() {
    let (s, _) = DefendSession::start(2);
    let (s, _) = step(s, SessionEvent::Evaluated(Verdict::Vulnerable));
    let (s, _) = step(s, SessionEvent::Evaluated(Verdict::Vulnerable));
    let (s, a) = step(s, answer("oui"));
    assert_eq!(a.next, SessionNext::Remediate(0));
    let (s, a) = step(s, SessionEvent::Remediated(false));
    assert_eq!(a.notice, SessionNotice::Nothing);
    assert_eq!(a.next, SessionNext::Propose { scenario: 1, first: false });
    let (s, a) = step(s, answer("o"));
    assert_eq!(a.next, SessionNext::Remediate(1));
    let (s, a) = step(s, SessionEvent::Remediated(true));
    assert_eq!(a.next, SessionNext::Recheck(1));
    let (_, a) = step(s, SessionEvent::Rechecked(Verdict::Vulnerable));
    assert_eq!(a.notice, SessionNotice::RebootAdvised);
    assert_eq!(a.next, SessionNext::Finish { after_remediations: true });
}

#[test]
fn an_event_out_of_turn_ends_the_run() {
    let (s, _) = DefendSession::start(1);
    let (s, a) = step(s, SessionEvent::Remediated(true));
    assert_eq!(a.next, SessionNext::Finish { after_remediations: false });
    assert_eq!(s.phase, SessionPhase::Done);
}

#[test]
fn failed_positions_in_order() {
    let vs = vec![Verdict::Vulnerable, Verdict::Error, Verdict::Vulnerable, Verdict::Secure];
    assert_eq!(failed_positions(&vs), vec![0, 2]);
}
