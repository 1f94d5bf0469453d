pub mod adapter;
pub mod answers;
pub mod codec;
pub mod editing;
pub mod error;
pub mod model;
pub mod question;
pub mod svalue;

pub use question::{Answer, Question};

use vstd::pervasive::unreached;
use vstd::prelude::*;

use crate::adapter::{
    call_driver, encode_answer, json_to_svalue, json_to_vm, result_slot_text, result_slot_value,
    vm_clone, vm_get_main, vm_load_script, vm_nil, vm_to_json, vm_value_clone,
};
use crate::answers::{assoc_map, cache_answer, cached_lookup};
use crate::codec::{classify_step, Step};
use crate::error::Error;
use crate::model::{
    commit, compat_all, ledger_ids_unique, lemma_commit_preserves_compat, model_wf, EntryV,
    FormModel, PendingV,
};
use crate::question::{
    answer_fits, check_answer, mismatch_reason, opt_answer_view, question_wf, AnswerV,
};
use crate::svalue::SValue;

verus! {

/// The possible results of answering a question of the form.
#[derive(Debug, Clone, PartialEq, Eq)]
pub enum FormPoll {
    /// There is a new question to ask, along with any answer the user
    /// previously gave under this question's id.
    Question { question: Question, answer: Option<Answer> },
    /// The script rejected the answer with this message; the form is
    /// unchanged and the same question can be answered again.
    Error(String),
    /// The form is complete; [`Form::into_done`] extracts the script's
    /// final document.
    Done,
}

/// The observed state of the driver script after a call: either it asks a
/// question, or it is finished with a final document.
enum ScriptState {
    Asking { id: String, question: Question },
    Done { result: serde_json::Value },
}

impl View for ScriptState {
    type V = PendingV;

    closed spec fn view(&self) -> PendingV {
        match self {
            ScriptState::Asking { id, question } => PendingV::Asking {
                id: id@,
                question: question@,
            },
            ScriptState::Done { result } => PendingV::Done { result: *result },
        }
    }
}

/// One accepted step of the form: the question's id, the question, and
/// the snapshot of the script's state the question was produced from.
struct LedgerEntry {
    id: String,
    question: Question,
    snapshot: serde_json::Value,
}

/// A form created from a driver script. The engine asks the script for
/// one question at a time, caches every answer and every intermediate
/// script state, and lets the consumer re-answer earlier questions,
/// discarding the history those answers had produced.
pub struct Form {
    /// A handle onto the VM running the driver script.
    vm: mlua::Lua,
    /// The script's `Main` function.
    driver: mlua::Function,
    /// The parameters handed to the script on every call, allocated in
    /// the VM once and never changed.
    params: mlua::Value,
    /// Every answer accepted so far, keyed by question id; a re-answer
    /// overrides, and ids of discarded questions keep their answers so a
    /// re-asked question can suggest one.
    cached_answers: Vec<(String, Answer)>,
    /// The accepted steps, in the order their questions were answered.
    ledger: Vec<LedgerEntry>,
    /// The step not yet answered: a question, or the final document.
    pending: ScriptState,
    /// The snapshot produced by the call that emitted `pending`: the
    /// input to the next script call.
    pending_snapshot: serde_json::Value,
}

impl View for Form {
    type V = FormModel;

    closed spec fn view(&self) -> FormModel {
        FormModel {
            answers: assoc_map(self.cached_answers@),
            ledger: Seq::new(
                self.ledger@.len(),
                |i: int|
                    EntryV {
                        id: self.ledger@[i].id@,
                        question: self.ledger@[i].question@,
                        snapshot: self.ledger@[i].snapshot,
                    },
            ),
            pending: self.pending@,
            pending_snapshot: self.pending_snapshot,
        }
    }
}

/// The answer cached under `id`, if any.
pub open spec fn cached_for(m: FormModel, id: Seq<char>) -> Option<AnswerV> {
    if m.answers.contains_key(id) {
        Option::Some(m.answers[id])
    } else {
        Option::None
    }
}

/// Whether answering at `i` hits a completed form past its ledger's end,
/// which short-circuits without consulting the script.
pub open spec fn past_done(m: FormModel, i: int) -> bool {
    i >= m.ledger.len() && m.pending is Done
}

impl Form {
    /// The form's structural soundness; every operation preserves it.
    pub open spec fn wf(&self) -> bool {
        model_wf(self@)
    }

    /// Creates a form from a driver script: loads the script, resolves
    /// `Main`, and polls it once with null state and answer to obtain the
    /// first question. A first poll that reports a script-level error or
    /// completes outright is refused.
    pub fn new(script: &str, parameters: &serde_json::Value, lua_vm: &mlua::Lua) -> (r: Result<
        Form,
        Error,
    >)
        ensures
            r matches Ok(f) ==> f.wf() && f@.ledger.len() == 0 && f@.answers == Map::<
                Seq<char>,
                AnswerV,
            >::empty() && f@.pending is Asking,
    {
        let params = match json_to_vm(lua_vm, parameters) {
            Ok(v) => v,
            Err(message) => {
                return Err(Error::SerializeFormParamsFailed { message });
            },
        };
        Self::new_with_lua_params(script, params, lua_vm)
    }

    /// Same as [`Self::new`], but takes parameters already allocated in
    /// the VM, so that serialization can be skipped or a heterogeneous
    /// collection passed.
    pub fn new_with_lua_params(script: &str, parameters: mlua::Value, lua_vm: &mlua::Lua) -> (r:
        Result<Form, Error>)
        ensures
            r matches Ok(f) ==> f.wf() && f@.ledger.len() == 0 && f@.answers == Map::<
                Seq<char>,
                AnswerV,
            >::empty() && f@.pending is Asking,
    {
        if let Err(message) = vm_load_script(lua_vm, script) {
            return Err(Error::ScriptLoadFailed { message });
        }
        let driver = match vm_get_main(lua_vm) {
            Ok(f) => f,
            Err(message) => {
                return Err(Error::NoMainFunction { message });
            },
        };
        let first = match raw_step(&driver, vm_nil(), vm_nil(), vm_value_clone(&parameters)) {
            Ok(s) => s,
            Err(e) => {
                return Err(e);
            },
        };
        form_from_first_step(first, vm_clone(lua_vm), driver, parameters)
    }

    /// The first question of the form, for use directly after creation,
    /// before any answer has been given.
    pub fn first_question(&self) -> (r: Question)
        requires
            self.wf(),
            self@.ledger.len() == 0,
            self@.answers == Map::<Seq<char>, AnswerV>::empty(),
        ensures
            self@.pending matches PendingV::Asking { question, .. } && r@ == question,
    {
        match &self.pending {
            ScriptState::Asking { question, .. } => question.duplicate(),
            ScriptState::Done { .. } => unreached(),
        }
    }

    /// The question awaiting an answer, if any, along with any answer
    /// cached under its id; nothing once the form is done. Typically used
    /// to re-ask the last question after a script-level error.
    pub fn next_question(&self) -> (r: Option<(Question, Option<Answer>)>)
        ensures
            match r {
                Option::Some(p) => self@.pending matches PendingV::Asking { id, question }
                    && p.0@ == question && opt_answer_view(p.1) == cached_for(self@, id),
                Option::None => self@.pending is Done,
            },
    {
        match &self.pending {
            ScriptState::Asking { id, question } => {
                let cached = match cached_lookup(&self.cached_answers, id) {
                    Option::Some(a) => Option::Some(a.duplicate()),
                    Option::None => Option::None,
                };
                Option::Some((question.duplicate(), cached))
            },
            ScriptState::Done { .. } => Option::None,
        }
    }

    /// The question at `idx` among the accepted steps, along with any
    /// answer cached under its id; nothing when `idx` is past the end.
    /// Never polls the script.
    pub fn get_question(&self, idx: usize) -> (r: Option<(Question, Option<Answer>)>)
        ensures
            match r {
                Option::Some(p) => idx < self@.ledger.len() && p.0@ == self@.ledger[
                    idx as int
                ].question && opt_answer_view(p.1) == cached_for(self@, self@.ledger[idx as int].id),
                Option::None => idx >= self@.ledger.len(),
            },
    {
        if idx < self.ledger.len() {
            let entry = &self.ledger[idx];
            let cached = match cached_lookup(&self.cached_answers, &entry.id) {
                Option::Some(a) => Option::Some(a.duplicate()),
                Option::None => Option::None,
            };
            Option::Some((entry.question.duplicate(), cached))
        } else {
            Option::None
        }
    }

    /// Hands out the script's final document once the form is done, and
    /// the unchanged form otherwise.
    pub fn into_done(self) -> (r: Result<serde_json::Value, Form>)
        ensures
            self@.pending matches PendingV::Done { result } ==> (r matches Ok(v) && v == result),
            self@.pending is Asking ==> (r matches Err(f) && f == self),
    {
        match self.pending {
            ScriptState::Done { result } => Ok(result),
            ScriptState::Asking { .. } => Err(self),
        }
    }

    /// Answers the question at `question_idx`. An index inside the ledger
    /// re-answers an accepted question and, on success, discards the
    /// history after it; any index at or past the ledger's end answers
    /// the pending question, unless the form is already done, in which
    /// case the call short-circuits. A misshapen answer is a hard error
    /// and changes nothing; a script-level rejection is reported as
    /// [`FormPoll::Error`] and changes nothing; otherwise the answer is
    /// cached, the ledger updated, and the script's new question or
    /// completion returned.
    pub fn progress_with_answer(&mut self, question_idx: usize, answer: Answer) -> (r: Result<
        FormPoll,
        Error,
    >)
        requires
            old(self).wf(),
        ensures
            final(self).wf(),
            past_done(old(self)@, question_idx as int) ==> r == Ok::<FormPoll, Error>(
                FormPoll::Done,
            ) && final(self)@ == old(self)@,
            !past_done(old(self)@, question_idx as int) && !answer_fits(
                crate::model::target_question(old(self)@, question_idx as int),
                answer@,
            ) ==> {
                &&& final(self)@ == old(self)@
                &&& r matches Err(e) && e matches Error::InvalidAnswerType { expected }
                    && expected@ == mismatch_reason(
                    crate::model::target_question(old(self)@, question_idx as int),
                    answer@,
                )
            },
            (r matches Err(e) && e matches Error::InvalidAnswerType { .. }) ==> !answer_fits(
                crate::model::target_question(old(self)@, question_idx as int),
                answer@,
            ),
            (r matches Ok(p) && !(p matches FormPoll::Error(_)) && compat_all(old(self)@)
                && ledger_ids_unique(final(self)@.ledger)) ==> compat_all(final(self)@),
            r matches Err(_) ==> final(self)@ == old(self)@,
            r matches Ok(FormPoll::Error(_)) ==> final(self)@ == old(self)@,
            !past_done(old(self)@, question_idx as int) ==> (r matches Ok(p) ==> match p {
                FormPoll::Error(_) => final(self)@ == old(self)@,
                FormPoll::Question { question, answer: suggestion } => {
                    &&& final(self)@.pending matches PendingV::Asking { id, question: q2 } && q2
                        == question@ && opt_answer_view(suggestion) == cached_for(final(self)@, id)
                    &&& final(self)@ == commit(
                        old(self)@,
                        question_idx as int,
                        answer@,
                        final(self)@.pending,
                        final(self)@.pending_snapshot,
                    )
                    &&& question_wf(question@)
                },
                FormPoll::Done => final(self)@.pending is Done && final(self)@ == commit(
                    old(self)@,
                    question_idx as int,
                    answer@,
                    final(self)@.pending,
                    final(self)@.pending_snapshot,
                ),
            }),
    {
        let rewinding = question_idx < self.ledger.len();
        if !rewinding {
            match &self.pending {
                ScriptState::Done { .. } => {
                    return Ok(FormPoll::Done);
                },
                _ => {},
            }
        }
        let target_id_owned: String;
        let step_result: Result<Step, Error>;
        {
            let (tid, q_ref, snap_ref): (&String, &Question, &serde_json::Value) = if rewinding {
                let entry = &self.ledger[question_idx];
                (&entry.id, &entry.question, &entry.snapshot)
            } else {
                match &self.pending {
                    ScriptState::Asking { id, question } => (id, question, &self.pending_snapshot),
                    ScriptState::Done { .. } => unreached(),
                }
            };
            if let Err(e) = check_answer(q_ref, &answer) {
                return Err(e);
            }
            target_id_owned = tid.clone();
            step_result = self.poll_script(snap_ref, &answer);
        }
        let step = match step_result {
            Ok(s) => s,
            Err(e) => {
                return Err(e);
            },
        };
        let poll = self.apply_step(rewinding, question_idx, target_id_owned, answer, step);
        proof {
            if !(poll matches FormPoll::Error(_)) && compat_all(old(self)@) && ledger_ids_unique(
                self@.ledger,
            ) {
                lemma_commit_preserves_compat(
                    old(self)@,
                    question_idx as int,
                    answer@,
                    self@.pending,
                    self@.pending_snapshot,
                );
            }
        }
        Ok(poll)
    }

    /// Commits a freshly accepted answer and reports the script's
    /// outcome: a rejection changes nothing and surfaces the script's
    /// message; a new question or a completion caches the answer, updates
    /// the ledger, installs the new pending step, and reports it, a new
    /// question together with any answer cached under its id.
    fn apply_step(
        &mut self,
        rewinding: bool,
        question_idx: usize,
        answered_id: String,
        answer: Answer,
        step: Step,
    ) -> (r: FormPoll)
        requires
            old(self).wf(),
            rewinding <==> (question_idx as int) < old(self)@.ledger.len(),
            !rewinding ==> old(self)@.pending is Asking,
            answered_id@ == crate::model::target_id(old(self)@, question_idx as int),
            step matches Step::Asked { question, .. } ==> question_wf(question@),
        ensures
            final(self).wf(),
            step matches Step::Rejected { message } ==> {
                &&& final(self)@ == old(self)@
                &&& r matches FormPoll::Error(m) && m@ == message@
            },
            step matches Step::Asked { id, question, snapshot } ==> {
                &&& final(self)@ == commit(
                    old(self)@,
                    question_idx as int,
                    answer@,
                    PendingV::Asking { id: id@, question: question@ },
                    snapshot,
                )
                &&& r matches FormPoll::Question { question: q2, answer: sugg } && q2@
                    == question@ && opt_answer_view(sugg) == cached_for(final(self)@, id@)
            },
            step matches Step::Finished { result, snapshot } ==> (final(self)@ == commit(
                old(self)@,
                question_idx as int,
                answer@,
                PendingV::Done { result },
                snapshot,
            ) && r == FormPoll::Done),
    {
        match step {
            Step::Rejected { message } => FormPoll::Error(message),
            Step::Asked { id, question, snapshot } => {
                cache_answer(&mut self.cached_answers, answered_id, answer);
                self.apply_new_pending(
                    rewinding,
                    question_idx,
                    ScriptState::Asking { id, question },
                    snapshot,
                );
                match &self.pending {
                    ScriptState::Asking { id, question } => {
                        let cached = match cached_lookup(&self.cached_answers, id) {
                            Option::Some(a) => Option::Some(a.duplicate()),
                            Option::None => Option::None,
                        };
                        FormPoll::Question { question: question.duplicate(), answer: cached }
                    },
                    ScriptState::Done { .. } => unreached(),
                }
            },
            Step::Finished { result, snapshot } => {
                cache_answer(&mut self.cached_answers, answered_id, answer);
                self.apply_new_pending(
                    rewinding,
                    question_idx,
                    ScriptState::Done { result },
                    snapshot,
                );
                FormPoll::Done
            },
        }
    }

    /// Truncates or extends the ledger for a freshly accepted answer and
    /// installs the script's new pending step: a rewind keeps the steps
    /// up to and including the re-answered one, an advance appends the
    /// previously pending question.
    fn apply_new_pending(
        &mut self,
        rewinding: bool,
        question_idx: usize,
        new_pending: ScriptState,
        new_snapshot: serde_json::Value,
    )
        requires
            rewinding <==> (question_idx as int) < old(self)@.ledger.len(),
            !rewinding ==> old(self)@.pending is Asking,
        ensures
            final(self)@.answers == old(self)@.answers,
            final(self)@.pending == new_pending@,
            final(self)@.pending_snapshot == new_snapshot,
            final(self)@.ledger == (if rewinding {
                old(self)@.ledger.take(question_idx as int + 1)
            } else {
                old(self)@.ledger.push(
                    EntryV {
                        id: old(self)@.pending->Asking_id,
                        question: old(self)@.pending->Asking_question,
                        snapshot: old(self)@.pending_snapshot,
                    },
                )
            }),
    {
        let ghost pre = self@;
        proof {
            assert(pre.ledger.len() == self.ledger@.len());
        }
        if rewinding {
            let ledger_len = self.ledger.len();
            proof {
                assert(question_idx < ledger_len);
            }
            self.ledger.truncate(question_idx + 1);
            self.pending = new_pending;
            self.pending_snapshot = new_snapshot;
            proof {
                assert(self@.ledger =~= pre.ledger.take(question_idx as int + 1));
            }
        } else {
            let mut incoming = new_pending;
            core::mem::swap(&mut incoming, &mut self.pending);
            let mut old_snapshot = new_snapshot;
            core::mem::swap(&mut old_snapshot, &mut self.pending_snapshot);
            match incoming {
                ScriptState::Asking { id, question } => {
                    self.ledger.push(LedgerEntry { id, question, snapshot: old_snapshot });
                },
                ScriptState::Done { .. } => unreached(),
            }
            proof {
                assert(self@.ledger =~= pre.ledger.push(
                    EntryV {
                        id: pre.pending->Asking_id,
                        question: pre.pending->Asking_question,
                        snapshot: pre.pending_snapshot,
                    },
                ));
            }
        }
    }

    /// Polls the driver script with the given snapshot and answer,
    /// decoding what it returns. Reads the form but never changes it.
    fn poll_script(&self, snapshot: &serde_json::Value, answer: &Answer) -> (r: Result<Step, Error>)
        ensures
            r matches Ok(Step::Asked { question, .. }) ==> question_wf(question@),
            r matches Err(e) ==> !(e matches Error::InvalidAnswerType { .. }),
    {
        let encoded = match encode_answer(&self.vm, answer) {
            Ok(v) => v,
            Err(e) => {
                return Err(e);
            },
        };
        let snapshot_lua = match json_to_vm(&self.vm, snapshot) {
            Ok(v) => v,
            Err(message) => {
                return Err(Error::SerializeStateFailed { message });
            },
        };
        raw_step(&self.driver, snapshot_lua, encoded, vm_value_clone(&self.params))
    }
}

/// Builds a form around the driver's first step: a question becomes the
/// fresh form; a completion or a script-level rejection on the very
/// first poll refuses construction.
fn form_from_first_step(
    step: Step,
    vm: mlua::Lua,
    driver: mlua::Function,
    params: mlua::Value,
) -> (r: Result<Form, Error>)
    requires
        step matches Step::Asked { question, .. } ==> question_wf(question@),
    ensures
        step matches Step::Asked { id, question, snapshot } ==> (r matches Ok(f) && f.wf()
            && f@.ledger.len() == 0 && f@.answers == Map::<Seq<char>, AnswerV>::empty()
            && f@.pending == PendingV::Asking { id: id@, question: question@ }
            && f@.pending_snapshot == snapshot),
        step matches Step::Finished { .. } ==> r matches Err(e) && e matches Error::FirstPollDone,
        step matches Step::Rejected { message } ==> (r matches Err(e) && (
        e matches Error::FirstPollFailed { script_err } && script_err@ == message@)),
{
    match step {
        Step::Asked { id, question, snapshot } => {
            let form = Form {
                vm,
                driver,
                params,
                cached_answers: Vec::new(),
                ledger: Vec::new(),
                pending: ScriptState::Asking { id, question },
                pending_snapshot: snapshot,
            };
            proof {
                assert(form@.ledger =~= Seq::<EntryV>::empty());
                assert(form@.answers =~= Map::<Seq<char>, AnswerV>::empty());
            }
            Ok(form)
        },
        Step::Finished { .. } => Err(Error::FirstPollDone),
        Step::Rejected { message } => Err(Error::FirstPollFailed { script_err: message }),
    }
}

/// Calls the driver function once and decodes its return value: a table
/// whose slots hold a status string, a payload, and the script's new
/// state. The new state is serialized out of the VM at once, so that
/// later calls cannot alias it; the step itself is then decided by
/// [`classify_step`], whose contract fixes it for every status string
/// and payload.
fn raw_step(
    driver: &mlua::Function,
    snapshot: mlua::Value,
    answer: mlua::Value,
    params: mlua::Value,
) -> (r: Result<Step, Error>)
    ensures
        r matches Ok(Step::Asked { question, .. }) ==> question_wf(question@),
        r matches Err(e) ==> !(e matches Error::InvalidAnswerType { .. }),
{
    let returned = match call_driver(driver, snapshot, answer, params) {
        Ok(t) => t,
        Err(message) => {
            return Err(Error::RunDriverFailed { message });
        },
    };
    let tag = match result_slot_text(&returned, 1) {
        Ok(s) => s,
        Err(_) => {
            return Err(Error::InvalidResult);
        },
    };
    let props = match result_slot_value(&returned, 2) {
        Ok(v) => v,
        Err(_) => {
            return Err(Error::InvalidResult);
        },
    };
    let inner = match result_slot_value(&returned, 3) {
        Ok(v) => v,
        Err(_) => {
            return Err(Error::InvalidResult);
        },
    };
    let snapshot_json = match vm_to_json(&inner) {
        Ok(v) => v,
        Err(message) => {
            return Err(Error::SerializeStateFailed { message });
        },
    };
    let converted: Result<(SValue, serde_json::Value), String> = match vm_to_json(&props) {
        Ok(j) => {
            let sv = json_to_svalue(&j);
            Ok((sv, j))
        },
        Err(message) => Err(message),
    };
    classify_step(tag, converted, snapshot_json)
}

} // verus!

