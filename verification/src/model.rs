use vstd::prelude::*;

use crate::question::{answer_fits, question_wf, AnswerV, QuestionV};

verus! {

/// One accepted step: the question's id, the question, and the snapshot
/// of the script's state that the question was produced from.
#[verifier::ext_equal]
pub struct EntryV {
    pub id: Seq<char>,
    pub question: QuestionV,
    pub snapshot: serde_json::Value,
}

/// The step the form will act on next: either a question awaiting its
/// answer, or the script's final document.
#[verifier::ext_equal]
pub enum PendingV {
    Asking { id: Seq<char>, question: QuestionV },
    Done { result: serde_json::Value },
}

/// The mathematical state of a form: the cached answers, the ledger of
/// accepted steps, the pending step, and the snapshot feeding the next
/// script call.
#[verifier::ext_equal]
pub struct FormModel {
    pub answers: Map<Seq<char>, AnswerV>,
    pub ledger: Seq<EntryV>,
    pub pending: PendingV,
    pub pending_snapshot: serde_json::Value,
}

/// Whether answering at `i` targets an already-accepted step: exactly the
/// indices inside the ledger rewind; everything at or past its end
/// addresses the pending step.
pub open spec fn rewinds(m: FormModel, i: int) -> bool {
    i < m.ledger.len()
}

/// The id of the question that answering at `i` addresses.
pub open spec fn target_id(m: FormModel, i: int) -> Seq<char> {
    if i < m.ledger.len() {
        m.ledger[i].id
    } else {
        m.pending->Asking_id
    }
}

/// The question that answering at `i` addresses.
pub open spec fn target_question(m: FormModel, i: int) -> QuestionV {
    if i < m.ledger.len() {
        m.ledger[i].question
    } else {
        m.pending->Asking_question
    }
}

/// Whether answering at `i` addresses any step at all.
pub open spec fn has_target(m: FormModel, i: int) -> bool {
    i < m.ledger.len() || m.pending is Asking
}

/// What accepting an answer at `i` does to the form's state, given the
/// decoded outcome `p` of the script call and the snapshot `snap` it
/// produced: the answer is cached under the target's id; a rewind keeps
/// the ledger up to and including the re-answered step and discards the
/// rest, while an advance appends the previously pending step; and the
/// outcome becomes the new pending step.
pub open spec fn commit(
    m: FormModel,
    i: int,
    a: AnswerV,
    p: PendingV,
    snap: serde_json::Value,
) -> FormModel {
    FormModel {
        answers: m.answers.insert(target_id(m, i), a),
        ledger: if i < m.ledger.len() {
            m.ledger.take(i + 1)
        } else {
            m.ledger.push(
                EntryV {
                    id: target_id(m, i),
                    question: target_question(m, i),
                    snapshot: m.pending_snapshot,
                },
            )
        },
        pending: p,
        pending_snapshot: snap,
    }
}

/// No two ledger entries carry the same id.
pub open spec fn ledger_ids_unique(ledger: Seq<EntryV>) -> bool {
    forall|i: int, j: int|
        0 <= i < j < ledger.len() ==> (#[trigger] ledger[i]).id != (#[trigger] ledger[j]).id
}

/// Every ledger entry has a cached answer whose shape fits its question.
pub open spec fn compat_all(m: FormModel) -> bool {
    forall|i: int|
        0 <= i < m.ledger.len() ==> m.answers.contains_key((#[trigger] m.ledger[i]).id)
            && answer_fits(m.ledger[i].question, m.answers[m.ledger[i].id])
}

/// A form's structural soundness: every accepted step has some cached
/// answer under its id, every question held is well formed, and a form
/// with an empty ledger is still asking its first question.
pub open spec fn model_wf(m: FormModel) -> bool {
    &&& forall|i: int|
        0 <= i < m.ledger.len() ==> m.answers.contains_key((#[trigger] m.ledger[i]).id)
    &&& forall|i: int| 0 <= i < m.ledger.len() ==> question_wf((#[trigger] m.ledger[i]).question)
    &&& (m.pending matches PendingV::Asking { question, .. } ==> question_wf(question))
    &&& (m.ledger.len() == 0 ==> m.pending is Asking)
}

/// Rewind truncation: accepting an answer at an index inside the ledger
/// leaves exactly the steps up to and including it, and an advance grows
/// the ledger by one.
pub proof fn lemma_commit_ledger_len(
    m: FormModel,
    i: int,
    a: AnswerV,
    p: PendingV,
    snap: serde_json::Value,
)
    requires
        0 <= i,
    ensures
        rewinds(m, i) ==> commit(m, i, a, p, snap).ledger.len() == i + 1,
        !rewinds(m, i) ==> commit(m, i, a, p, snap).ledger.len() == m.ledger.len() + 1,
{
}

/// The just-accepted step always ends up with a compatible cached answer:
/// the committed state holds the answer under the target's id, and the
/// entry written for the step carries that id and the question the answer
/// was validated against.
pub proof fn lemma_commit_answered_entry(
    m: FormModel,
    i: int,
    a: AnswerV,
    p: PendingV,
    snap: serde_json::Value,
)
    requires
        0 <= i,
        has_target(m, i),
        answer_fits(target_question(m, i), a),
    ensures
        commit(m, i, a, p, snap).answers.contains_key(target_id(m, i)),
        commit(m, i, a, p, snap).answers[target_id(m, i)] == a,
        answer_fits(target_question(m, i), commit(m, i, a, p, snap).answers[target_id(m, i)]),
        ({
            let k = if rewinds(m, i) { i } else { m.ledger.len() as int };
            commit(m, i, a, p, snap).ledger[k].id == target_id(m, i)
                && commit(m, i, a, p, snap).ledger[k].question == target_question(m, i)
        }),
{
}

/// Accepting a fitting answer preserves ledger-wide compatibility, as
/// long as the ids of the surviving ledger identify their questions: an
/// answer cached under the target's id cannot disturb any other entry.
pub proof fn lemma_commit_preserves_compat(
    m: FormModel,
    i: int,
    a: AnswerV,
    p: PendingV,
    snap: serde_json::Value,
)
    requires
        0 <= i,
        has_target(m, i),
        answer_fits(target_question(m, i), a),
        compat_all(m),
        ledger_ids_unique(commit(m, i, a, p, snap).ledger),
    ensures
        compat_all(commit(m, i, a, p, snap)),
{
    let c = commit(m, i, a, p, snap);
    let tid = target_id(m, i);
    assert forall|j: int| 0 <= j < c.ledger.len() implies c.answers.contains_key(
        (#[trigger] c.ledger[j]).id,
    ) && answer_fits(c.ledger[j].question, c.answers[c.ledger[j].id]) by {
        let k = if rewinds(m, i) { i } else { m.ledger.len() as int };
        if j == k {
            assert(c.ledger[j].id == tid);
        } else {
            assert(c.ledger[j] == m.ledger[j]);
            if c.ledger[j].id == tid {
                assert(c.ledger[k].id == tid);
            }
        }
    }
}

/// One accepted step, as fed to a replay: where it was answered, with
/// what, and what the script made of it.
#[verifier::ext_equal]
pub struct StepV {
    pub idx: int,
    pub answer: AnswerV,
    pub outcome: PendingV,
    pub snapshot: serde_json::Value,
}

/// The state a form reaches after accepting the given steps in order.
pub open spec fn replay(m: FormModel, steps: Seq<StepV>) -> FormModel
    decreases steps.len(),
{
    if steps.len() == 0 {
        m
    } else {
        replay(
            commit(m, steps[0].idx, steps[0].answer, steps[0].outcome, steps[0].snapshot),
            steps.drop_first(),
        )
    }
}

/// Replay is a function of the starting state and the accepted steps
/// alone: nothing else the engine holds enters it. This is congruence of
/// the fold, recorded here as the engine's half of the purity-replay
/// law; the other half — that a pure script, fed equal snapshots,
/// answers and parameters, hands back equal outcomes, so two engines
/// given the same answers accept the same steps — is the script's
/// stated obligation, which no contract over the opaque VM can express.
pub proof fn lemma_replay_deterministic(m1: FormModel, m2: FormModel, steps: Seq<StepV>)
    requires
        m1 == m2,
    ensures
        replay(m1, steps) == replay(m2, steps),
    decreases steps.len(),
{
    if steps.len() > 0 {
        lemma_replay_deterministic(
            commit(m1, steps[0].idx, steps[0].answer, steps[0].outcome, steps[0].snapshot),
            commit(m2, steps[0].idx, steps[0].answer, steps[0].outcome, steps[0].snapshot),
            steps.drop_first(),
        );
    }
}

/// Replaying a concatenation is replaying the parts in turn: the state
/// reached after a prefix of accepted steps does not depend on what
/// follows it.
pub proof fn lemma_replay_append(m: FormModel, fst: Seq<StepV>, snd: Seq<StepV>)
    ensures
        replay(m, fst + snd) == replay(replay(m, fst), snd),
    decreases fst.len(),
{
    if fst.len() == 0 {
        assert(fst + snd =~= snd);
    } else {
        assert((fst + snd)[0] == fst[0]);
        assert((fst + snd).drop_first() =~= fst.drop_first() + snd);
        lemma_replay_append(
            commit(m, fst[0].idx, fst[0].answer, fst[0].outcome, fst[0].snapshot),
            fst.drop_first(),
            snd,
        );
    }
}

} // verus!
