use vstd::prelude::*;

use crate::error::{Error, ErrorV};
use crate::question::{opt_str_view, question_wf, strs_view, Question, QuestionV};
use crate::svalue::{lookup_entries, lookup_text, text_items, object_get, SValue};

verus! {

/// What one driver call came to, once decoded: a new question with the
/// snapshot to feed the call after it, the final document, or a
/// script-level rejection of the answer.
pub(crate) enum Step {
    Asked { id: String, question: Question, snapshot: serde_json::Value },
    Finished { result: serde_json::Value, snapshot: serde_json::Value },
    Rejected { message: String },
}

/// The `multiple` property of a select question's payload: absent or null
/// means a single choice, a boolean speaks for itself, and anything else
/// is unusable.
pub open spec fn multiple_flag(es: Seq<(String, SValue)>) -> Option<bool> {
    match lookup_entries(es, "multiple"@) {
        Option::None => Option::Some(false),
        Option::Some(SValue::Null) => Option::Some(false),
        Option::Some(SValue::Bool(b)) => Option::Some(b),
        Option::Some(_) => Option::None,
    }
}

/// The `options` of a select question's payload: present when they are a
/// sequence of strings, absent otherwise.
pub open spec fn options_list(es: Seq<(String, SValue)>) -> Option<Seq<Seq<char>>> {
    match lookup_entries(es, "options"@) {
        Option::Some(SValue::List(items)) => text_items(items@),
        _ => Option::None,
    }
}

/// What decoding a question payload with the given `id`, `type` and `text`
/// fields yields.
pub open spec fn decode_typed_question(
    es: Seq<(String, SValue)>,
    id: Seq<char>,
    ty: Seq<char>,
    text: Seq<char>,
) -> Result<(Seq<char>, QuestionV), ErrorV> {
    let default = lookup_text(es, "default"@);
    if ty == "simple"@ {
        Result::Ok((id, QuestionV::Simple { prompt: text, default }))
    } else if ty == "multiline"@ {
        Result::Ok((id, QuestionV::Multiline { prompt: text, default }))
    } else if ty == "select"@ {
        match multiple_flag(es) {
            Option::None => Result::Err(ErrorV::InvalidMultipleProperty),
            Option::Some(multiple) => match options_list(es) {
                Option::None => Result::Err(ErrorV::NoOptionsInQuestionData),
                Option::Some(options) => match default {
                    Option::Some(d) => if !options.contains(d) {
                        Result::Err(ErrorV::DefaultNotInOptions { default: d })
                    } else {
                        Result::Ok(
                            (id, QuestionV::Select { prompt: text, default, options, multiple }),
                        )
                    },
                    Option::None => Result::Ok(
                        (id, QuestionV::Select { prompt: text, default, options, multiple }),
                    ),
                },
            },
        }
    } else {
        Result::Err(ErrorV::InvalidQuestionType { ty })
    }
}

/// What decoding a `question` payload yields: either the question's id and
/// the question itself, or the exact reason the payload is unusable.
pub open spec fn decode_question_spec(sv: SValue) -> Result<(Seq<char>, QuestionV), ErrorV> {
    match sv {
        SValue::Object(entries) => {
            let es = entries@;
            match lookup_text(es, "id"@) {
                Option::None => Result::Err(ErrorV::NoIdInQuestionData),
                Option::Some(id) => match lookup_text(es, "type"@) {
                    Option::None => Result::Err(ErrorV::NoTypeInQuestionData),
                    Option::Some(ty) => match lookup_text(es, "text"@) {
                        Option::None => Result::Err(ErrorV::NoBodyInQuestionData),
                        Option::Some(text) => decode_typed_question(es, id, ty, text),
                    },
                },
            }
        },
        _ => Result::Err(ErrorV::NonTableQuestion),
    }
}

/// Fetches the string stored under `key`, if the object has one there.
fn entry_text(entries: &Vec<(String, SValue)>, key: &str) -> (r: Option<String>)
    ensures
        opt_str_view(r) == lookup_text(entries@, key@),
{
    let k: String = key.to_owned();
    match object_get(entries, &k) {
        Option::Some(SValue::Text(s)) => Option::Some(s.clone()),
        _ => Option::None,
    }
}

/// Reads the `multiple` property of a select question's payload.
fn entry_multiple(entries: &Vec<(String, SValue)>) -> (r: Option<bool>)
    ensures
        r == multiple_flag(entries@),
{
    let k: String = "multiple".to_owned();
    match object_get(entries, &k) {
        Option::None => Option::Some(false),
        Option::Some(SValue::Null) => Option::Some(false),
        Option::Some(SValue::Bool(b)) => Option::Some(*b),
        Option::Some(_) => Option::None,
    }
}

/// Reads the `options` of a select question's payload.
fn entry_options(entries: &Vec<(String, SValue)>) -> (r: Option<Vec<String>>)
    ensures
        match r {
            Option::Some(v) => options_list(entries@) == Option::Some(strs_view(v@)),
            Option::None => options_list(entries@) is None,
        },
{
    let k: String = "options".to_owned();
    match object_get(entries, &k) {
        Option::Some(sv) => match sv {
            SValue::List(items) => {
                let ghost goal = options_list(entries@);
                proof {
                    assert(goal == text_items(items@));
                }
                let mut out: Vec<String> = Vec::new();
                let mut i: usize = 0;
                while i < items.len()
                    invariant
                        i <= items@.len(),
                        out@.len() == i,
                        goal == text_items(items@),
                        goal == options_list(entries@),
                        forall|j: int|
                            0 <= j < i ==> (#[trigger] items@[j]) is Text && out@[j]@
                                == items@[j]->Text_0@,
                    decreases items@.len() - i,
                {
                    match &items[i] {
                        SValue::Text(s) => {
                            out.push(s.clone());
                        },
                        _ => {
                            proof {
                                assert(!((#[trigger] items@[i as int]) is Text));
                                assert(text_items(items@) is None);
                            }
                            return Option::None;
                        },
                    }
                    i = i + 1;
                }
                proof {
                    assert(forall|j: int|
                        0 <= j < items@.len() ==> (#[trigger] items@[j]) is Text);
                    assert(text_items(items@) matches Option::Some(ss) && ss =~= strs_view(out@));
                }
                Option::Some(out)
            },
            _ => Option::None,
        },
        Option::None => Option::None,
    }
}

/// Decodes a `question` payload into the question's id and the question,
/// exactly as [`decode_question_spec`] describes.
pub fn decode_question(sv: &SValue) -> (r: Result<(String, Question), Error>)
    ensures
        r matches Ok(p) ==> decode_question_spec(*sv) == Result::<(Seq<char>, QuestionV), ErrorV>::Ok(
            (p.0@, p.1@),
        ),
        r matches Err(e) ==> decode_question_spec(*sv) == Result::<
            (Seq<char>, QuestionV),
            ErrorV,
        >::Err(e@),
        r matches Ok(p) ==> question_wf(p.1@),
        r matches Err(e) ==> !(e matches Error::InvalidAnswerType { .. }),
{
    let entries = match sv {
        SValue::Object(entries) => entries,
        _ => {
            return Err(Error::NonTableQuestion);
        },
    };
    let id = match entry_text(entries, "id") {
        Option::Some(s) => s,
        Option::None => {
            return Err(Error::NoIdInQuestionData);
        },
    };
    let ty = match entry_text(entries, "type") {
        Option::Some(s) => s,
        Option::None => {
            return Err(Error::NoTypeInQuestionData);
        },
    };
    let text = match entry_text(entries, "text") {
        Option::Some(s) => s,
        Option::None => {
            return Err(Error::NoBodyInQuestionData);
        },
    };
    let default = entry_text(entries, "default");
    if ty == "simple".to_owned() {
        Ok((id, Question::Simple { prompt: text, default }))
    } else if ty == "multiline".to_owned() {
        Ok((id, Question::Multiline { prompt: text, default }))
    } else if ty == "select".to_owned() {
        let multiple = match entry_multiple(entries) {
            Option::Some(b) => b,
            Option::None => {
                return Err(Error::InvalidMultipleProperty);
            },
        };
        let options = match entry_options(entries) {
            Option::Some(v) => v,
            Option::None => {
                return Err(Error::NoOptionsInQuestionData);
            },
        };
        if let Option::Some(d) = &default {
            if !crate::question::find_str(&options, d) {
                return Err(Error::DefaultNotInOptions { default: d.clone() });
            }
        }
        Ok((id, Question::Select { prompt: text, default, options, multiple }))
    } else {
        Err(Error::InvalidQuestionType { ty })
    }
}

/// Classifies the driver's decoded return into the engine's next step,
/// deciding by the status string: `question` hands its payload to the
/// question decoder, `error` demands a string message, `done` takes the
/// payload as the final document, and anything else is refused. `props`
/// holds the converted payload, or the conversion's error text when the
/// payload could not be serialized out of the VM.
pub(crate) fn classify_step(
    tag: String,
    props: Result<(SValue, serde_json::Value), String>,
    snapshot: serde_json::Value,
) -> (r: Result<Step, Error>)
    ensures
        tag@ == "question"@ ==> match props {
            Result::Ok(p) => match decode_question_spec(p.0) {
                Result::Ok(dq) => r matches Ok(Step::Asked { id, question, snapshot: sn })
                    && id@ == dq.0 && question@ == dq.1 && sn == snapshot && question_wf(
                    question@,
                ),
                Result::Err(ev) => r matches Err(e) && e@ == ev,
            },
            Result::Err(_) => r matches Err(e) && e matches Error::NonTableQuestion,
        },
        tag@ != "question"@ && tag@ == "error"@ ==> match props {
            Result::Ok(p) => match p.0 {
                SValue::Text(m) => r matches Ok(Step::Rejected { message }) && message@ == m@,
                _ => r matches Err(e) && e matches Error::NonStringErrorMessage,
            },
            Result::Err(_) => r matches Err(e) && e matches Error::NonStringErrorMessage,
        },
        tag@ != "question"@ && tag@ != "error"@ && tag@ == "done"@ ==> match props {
            Result::Ok(p) => r matches Ok(Step::Finished { result, snapshot: sn }) && result
                == p.1 && sn == snapshot,
            Result::Err(msg) => r matches Err(e) && (e matches Error::SerializeAnswersFailed {
                message,
            } && message@ == msg@),
        },
        tag@ != "question"@ && tag@ != "error"@ && tag@ != "done"@ ==> (r matches Err(e) && (
        e matches Error::InvalidState { value } && value@ == tag@)),
        r matches Ok(Step::Asked { question, .. }) ==> question_wf(question@),
        r matches Err(e) ==> !(e matches Error::InvalidAnswerType { .. }),
{
    if tag == "question".to_owned() {
        match props {
            Result::Ok(p) => match decode_question(&p.0) {
                Ok(decoded) => Ok(
                    Step::Asked { id: decoded.0, question: decoded.1, snapshot },
                ),
                Err(e) => Err(e),
            },
            Result::Err(_) => Err(Error::NonTableQuestion),
        }
    } else if tag == "error".to_owned() {
        match props {
            Result::Ok(p) => match p.0 {
                SValue::Text(message) => Ok(Step::Rejected { message }),
                _ => Err(Error::NonStringErrorMessage),
            },
            Result::Err(_) => Err(Error::NonStringErrorMessage),
        }
    } else if tag == "done".to_owned() {
        match props {
            Result::Ok(p) => Ok(Step::Finished { result: p.1, snapshot }),
            Result::Err(message) => Err(Error::SerializeAnswersFailed { message }),
        }
    } else {
        Err(Error::InvalidState { value: tag })
    }
}

} // verus!

