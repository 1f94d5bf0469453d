use birocrat::error::Error;
use birocrat::{Answer, Form, FormPoll, Question};
use mlua::Lua;
use mlua::LuaSerdeExt;

fn empty_params() -> serde_json::Value {
    serde_json::Value::Object(serde_json::Map::new())
}

fn strings(items: &[&str]) -> Vec<String> {
    items.iter().map(|s| s.to_string()).collect()
}

fn text(s: &str) -> Answer {
    Answer::Text(s.to_string())
}

/// A two-question script: `x`, then `y`, then done. Re-answering `x`
/// re-emits `y` under the same id.
static TWO_STEP_SCRIPT: &str = r#"
function Main(state, answer, params)
    if state == nil then
        return { "question", { id = "x", type = "simple", text = "X?" }, { step = "x" } }
    end
    if state.step == "x" then
        return { "question", { id = "y", type = "simple", text = "Y?" }, { step = "y", x = answer.text } }
    end
    return { "done", { x = state.x, y = answer.text }, nil }
end
"#;

#[test]
fn progress_past_end_short_circuits_when_done() {
    let params = empty_params();
    let vm = Lua::new();
    let mut form = Form::new(TWO_STEP_SCRIPT, &params, &vm).unwrap();
    assert!(matches!(
        form.progress_with_answer(0, text("a")),
        Ok(FormPoll::Question { .. })
    ));
    assert_eq!(form.progress_with_answer(1, text("b")), Ok(FormPoll::Done));
    // The form is done: an out-of-range index answers nothing and returns
    // the completion, whatever the answer's shape.
    assert_eq!(form.progress_with_answer(99, text("c")), Ok(FormPoll::Done));
    assert_eq!(
        form.progress_with_answer(7, Answer::Options(strings(&["zzz"]))),
        Ok(FormPoll::Done)
    );
    // The ledger still holds exactly the two accepted steps.
    assert!(form.get_question(0).is_some());
    assert!(form.get_question(1).is_some());
    assert!(form.get_question(2).is_none());
}

#[test]
fn progress_past_end_acts_on_pending_question() {
    let params = empty_params();
    let vm = Lua::new();
    let mut form = Form::new(TWO_STEP_SCRIPT, &params, &vm).unwrap();
    // Index 5 with an empty ledger behaves as index 0: the pending question.
    let poll = form.progress_with_answer(5, text("a")).unwrap();
    assert_eq!(
        poll,
        FormPoll::Question {
            question: Question::Simple { prompt: "Y?".to_string(), default: None },
            answer: None
        }
    );
    assert!(form.get_question(0).is_some());
    assert!(form.get_question(1).is_none());
}

#[test]
fn soft_error_leaves_form_unchanged() {
    let script = r#"
function Main(state, answer, params)
    if state == nil then
        return { "question", { id = "n", type = "simple", text = "Number?" }, { step = "n" } }
    end
    if tonumber(answer.text) == nil then
        return { "error", "Not a number.", nil }
    end
    return { "done", { n = tonumber(answer.text) }, nil }
end
"#;
    let params = empty_params();
    let vm = Lua::new();
    let mut form = Form::new(script, &params, &vm).unwrap();
    let poll = form.progress_with_answer(0, text("abc")).unwrap();
    assert_eq!(poll, FormPoll::Error("Not a number.".to_string()));
    // The same question is still pending, with no cached answer for it.
    let (question, cached) = form.next_question().unwrap();
    assert_eq!(
        question,
        Question::Simple { prompt: "Number?".to_string(), default: None }
    );
    assert_eq!(cached, None);
    // The ledger is unchanged too.
    assert!(form.get_question(0).is_none());
    // A good answer then completes the form.
    assert_eq!(form.progress_with_answer(0, text("4")), Ok(FormPoll::Done));
}

#[test]
fn rewind_truncates_ledger() {
    let params = empty_params();
    let vm = Lua::new();
    let mut form = Form::new(TWO_STEP_SCRIPT, &params, &vm).unwrap();
    form.progress_with_answer(0, text("a")).unwrap();
    assert_eq!(form.progress_with_answer(1, text("b")), Ok(FormPoll::Done));
    // Re-answer the first question: only it survives in the ledger.
    let poll = form.progress_with_answer(0, text("other")).unwrap();
    assert!(matches!(poll, FormPoll::Question { .. }));
    assert!(form.get_question(0).is_some());
    assert!(form.get_question(1).is_none());
}

#[test]
fn same_id_after_rewind_suggests_cached_answer() {
    let params = empty_params();
    let vm = Lua::new();
    let mut form = Form::new(TWO_STEP_SCRIPT, &params, &vm).unwrap();
    form.progress_with_answer(0, text("a")).unwrap();
    assert_eq!(form.progress_with_answer(1, text("b")), Ok(FormPoll::Done));
    // Re-answering `x` makes the script re-emit `y` under the same id, so
    // the answer cached for `y` is surfaced as a suggestion.
    let poll = form.progress_with_answer(0, text("other")).unwrap();
    assert_eq!(
        poll,
        FormPoll::Question {
            question: Question::Simple { prompt: "Y?".to_string(), default: None },
            answer: Some(text("b"))
        }
    );
    // The same suggestion comes through next_question and get_question.
    let (_, cached) = form.next_question().unwrap();
    assert_eq!(cached, Some(text("b")));
    let (_, cached_x) = form.get_question(0).unwrap();
    assert_eq!(cached_x, Some(text("other")));
}

#[test]
fn replay_same_answers_yields_identical_course() {
    let script = TWO_STEP_SCRIPT;
    let run = || {
        let params = empty_params();
        let vm = Lua::new();
        let mut form = Form::new(script, &params, &vm).unwrap();
        let first = form.first_question();
        let p1 = form.progress_with_answer(0, text("a")).unwrap();
        let p2 = form.progress_with_answer(1, text("b")).unwrap();
        let doc = match form.into_done() {
            Ok(v) => v,
            Err(_) => panic!("form should have been complete"),
        };
        (first, p1, p2, doc)
    };
    let once = run();
    let again = run();
    assert_eq!(once, again);
}

#[test]
fn into_done_rejected_while_asking() {
    let params = empty_params();
    let vm = Lua::new();
    let mut form = Form::new(TWO_STEP_SCRIPT, &params, &vm).unwrap();
    form.progress_with_answer(0, text("a")).unwrap();
    // Still asking: the form comes back unchanged and stays usable.
    form = match form.into_done() {
        Ok(_) => panic!("form should not have been complete"),
        Err(f) => f,
    };
    assert_eq!(form.progress_with_answer(1, text("b")), Ok(FormPoll::Done));
    let doc = match form.into_done() {
        Ok(v) => v,
        Err(_) => panic!("form should have been complete"),
    };
    let mut expected = serde_json::Map::new();
    expected.insert("x".to_string(), serde_json::Value::String("a".to_string()));
    expected.insert("y".to_string(), serde_json::Value::String("b".to_string()));
    assert_eq!(doc, serde_json::Value::Object(expected));
}

#[test]
fn next_question_none_once_done() {
    let params = empty_params();
    let vm = Lua::new();
    let mut form = Form::new(TWO_STEP_SCRIPT, &params, &vm).unwrap();
    assert!(form.next_question().is_some());
    form.progress_with_answer(0, text("a")).unwrap();
    form.progress_with_answer(1, text("b")).unwrap();
    assert!(form.next_question().is_none());
}

#[test]
fn new_with_lua_params_matches_new() {
    let vm = Lua::new();
    let mut m = serde_json::Map::new();
    m.insert("id".to_string(), serde_json::Value::Number(37.into()));
    let params = serde_json::Value::Object(m);
    let lua_params = vm.to_value(&params).unwrap();
    let script = r#"
function Main(state, answer, params)
    if state == nil then
        return { "question", { id = "q", type = "simple", text = "User " .. params.id .. "?" }, {} }
    end
    return { "done", {}, nil }
end
"#;
    let form = Form::new_with_lua_params(script, lua_params, &vm).unwrap();
    assert_eq!(
        form.first_question(),
        Question::Simple { prompt: "User 37?".to_string(), default: None }
    );
}

#[test]
fn first_poll_done_is_refused() {
    let script = r#"
function Main(state, answer, params)
    return { "done", { fine = true }, nil }
end
"#;
    let params = empty_params();
    let vm = Lua::new();
    match Form::new(script, &params, &vm) {
        Err(Error::FirstPollDone) => {}
        _ => panic!("expected the first poll's completion to be refused"),
    }
}

#[test]
fn first_poll_error_is_refused() {
    let script = r#"
function Main(state, answer, params)
    return { "error", "nothing to ask", nil }
end
"#;
    let params = empty_params();
    let vm = Lua::new();
    match Form::new(script, &params, &vm) {
        Err(Error::FirstPollFailed { script_err }) => {
            assert_eq!(script_err, "nothing to ask");
        }
        _ => panic!("expected the first poll's error to be refused"),
    }
}

#[test]
fn bad_syntax_fails_to_load() {
    let params = empty_params();
    let vm = Lua::new();
    match Form::new("function Main(", &params, &vm) {
        Err(Error::ScriptLoadFailed { .. }) => {}
        _ => panic!("expected a load failure"),
    }
}

#[test]
fn missing_main_function_is_refused() {
    let params = empty_params();
    let vm = Lua::new();
    match Form::new("local x = 1", &params, &vm) {
        Err(Error::NoMainFunction { .. }) => {}
        _ => panic!("expected the missing entry point to be refused"),
    }
}

fn expect_new_error(script: &str) -> Error {
    let params = empty_params();
    let vm = Lua::new();
    match Form::new(script, &params, &vm) {
        Err(e) => e,
        Ok(_) => panic!("expected the script's first state to be refused"),
    }
}

#[test]
fn unknown_state_tag_is_refused() {
    let e = expect_new_error(
        r#"
function Main(state, answer, params)
    return { "bogus", {}, nil }
end
"#,
    );
    match e {
        Error::InvalidState { value } => assert_eq!(value, "bogus"),
        _ => panic!("expected the unknown tag to be refused"),
    }
}

#[test]
fn non_table_return_is_refused() {
    let e = expect_new_error(
        r#"
function Main(state, answer, params)
    return 5
end
"#,
    );
    assert!(matches!(e, Error::RunDriverFailed { .. }));
}

#[test]
fn non_table_question_payload_is_refused() {
    let e = expect_new_error(
        r#"
function Main(state, answer, params)
    return { "question", "not a table", nil }
end
"#,
    );
    assert!(matches!(e, Error::NonTableQuestion));
}

#[test]
fn question_without_id_is_refused() {
    let e = expect_new_error(
        r#"
function Main(state, answer, params)
    return { "question", { type = "simple", text = "Hi?" }, {} }
end
"#,
    );
    assert!(matches!(e, Error::NoIdInQuestionData));
}

#[test]
fn question_without_type_is_refused() {
    let e = expect_new_error(
        r#"
function Main(state, answer, params)
    return { "question", { id = "q", text = "Hi?" }, {} }
end
"#,
    );
    assert!(matches!(e, Error::NoTypeInQuestionData));
}

#[test]
fn question_without_text_is_refused() {
    let e = expect_new_error(
        r#"
function Main(state, answer, params)
    return { "question", { id = "q", type = "simple" }, {} }
end
"#,
    );
    assert!(matches!(e, Error::NoBodyInQuestionData));
}

#[test]
fn unknown_question_type_is_refused() {
    let e = expect_new_error(
        r#"
function Main(state, answer, params)
    return { "question", { id = "q", type = "checkbox", text = "Hi?" }, {} }
end
"#,
    );
    match e {
        Error::InvalidQuestionType { ty } => assert_eq!(ty, "checkbox"),
        _ => panic!("expected the unknown question type to be refused"),
    }
}

#[test]
fn non_boolean_multiple_is_refused() {
    let e = expect_new_error(
        r#"
function Main(state, answer, params)
    return {
        "question",
        { id = "q", type = "select", text = "Hi?", options = { "a" }, multiple = 5 },
        {},
    }
end
"#,
    );
    assert!(matches!(e, Error::InvalidMultipleProperty));
}

#[test]
fn select_without_options_is_refused() {
    let e = expect_new_error(
        r#"
function Main(state, answer, params)
    return { "question", { id = "q", type = "select", text = "Hi?" }, {} }
end
"#,
    );
    assert!(matches!(e, Error::NoOptionsInQuestionData));
}

#[test]
fn default_outside_options_is_refused() {
    let e = expect_new_error(
        r#"
function Main(state, answer, params)
    return {
        "question",
        { id = "q", type = "select", text = "Hi?", options = { "a", "b" }, default = "c" },
        {},
    }
end
"#,
    );
    match e {
        Error::DefaultNotInOptions { default } => assert_eq!(default, "c"),
        _ => panic!("expected the stray default to be refused"),
    }
}

#[test]
fn select_default_among_options_is_kept() {
    let params = empty_params();
    let vm = Lua::new();
    let form = Form::new(
        r#"
function Main(state, answer, params)
    return {
        "question",
        { id = "q", type = "select", text = "Pick.", options = { "a", "b" }, default = "b" },
        {},
    }
end
"#,
        &params,
        &vm,
    )
    .unwrap();
    assert_eq!(
        form.first_question(),
        Question::Select {
            prompt: "Pick.".to_string(),
            default: Some("b".to_string()),
            options: strings(&["a", "b"]),
            multiple: false,
        }
    );
}

#[test]
fn non_string_error_message_is_refused() {
    let e = expect_new_error(
        r#"
function Main(state, answer, params)
    return { "error", { message = "boom" }, nil }
end
"#,
    );
    assert!(matches!(e, Error::NonStringErrorMessage));
}

/// A single select question whose sole purpose is answer-shape checking.
static SELECT_SCRIPT: &str = r#"
function Main(state, answer, params)
    if state == nil then
        return {
            "question",
            { id = "s", type = "select", text = "Pick.", options = { "a", "b", "c" } },
            {},
        }
    end
    return { "done", { picked = answer.selected }, nil }
end
"#;

#[test]
fn single_select_rejects_two_options() {
    let params = empty_params();
    let vm = Lua::new();
    let mut form = Form::new(SELECT_SCRIPT, &params, &vm).unwrap();
    match form.progress_with_answer(0, Answer::Options(strings(&["a", "b"]))) {
        Err(Error::InvalidAnswerType { .. }) => {}
        _ => panic!("expected a multi-selection on a single select to be refused"),
    }
    // The form is untouched and a single choice still goes through.
    assert!(form.next_question().is_some());
    assert_eq!(
        form.progress_with_answer(0, Answer::Options(strings(&["b"]))),
        Ok(FormPoll::Done)
    );
}

#[test]
fn selection_outside_options_is_rejected() {
    let params = empty_params();
    let vm = Lua::new();
    let mut form = Form::new(SELECT_SCRIPT, &params, &vm).unwrap();
    match form.progress_with_answer(0, Answer::Options(strings(&["d"]))) {
        Err(Error::InvalidAnswerType { .. }) => {}
        _ => panic!("expected a selection outside the options to be refused"),
    }
    match form.progress_with_answer(0, text("a")) {
        Err(Error::InvalidAnswerType { .. }) => {}
        _ => panic!("expected a textual answer to a select to be refused"),
    }
    assert!(form.next_question().is_some());
}

#[test]
fn empty_selection_is_accepted_for_single_select() {
    let params = empty_params();
    let vm = Lua::new();
    let mut form = Form::new(SELECT_SCRIPT, &params, &vm).unwrap();
    assert_eq!(
        form.progress_with_answer(0, Answer::Options(Vec::new())),
        Ok(FormPoll::Done)
    );
}

#[test]
fn text_question_rejects_options_answer() {
    let params = empty_params();
    let vm = Lua::new();
    let mut form = Form::new(TWO_STEP_SCRIPT, &params, &vm).unwrap();
    match form.progress_with_answer(0, Answer::Options(strings(&["a"]))) {
        Err(Error::InvalidAnswerType { .. }) => {}
        _ => panic!("expected an options answer to a text question to be refused"),
    }
    assert!(form.next_question().is_some());
}

#[test]
fn multiline_question_flow() {
    let script = r#"
function Main(state, answer, params)
    if state == nil then
        return {
            "question",
            { id = "bio", type = "multiline", text = "Tell us about yourself.", default = "draft" },
            {},
        }
    end
    return { "done", { bio = answer.text }, nil }
end
"#;
    let params = empty_params();
    let vm = Lua::new();
    let mut form = Form::new(script, &params, &vm).unwrap();
    assert_eq!(
        form.first_question(),
        Question::Multiline {
            prompt: "Tell us about yourself.".to_string(),
            default: Some("draft".to_string()),
        }
    );
    // A selection is not a text answer.
    match form.progress_with_answer(0, Answer::Options(strings(&["a"]))) {
        Err(Error::InvalidAnswerType { .. }) => {}
        _ => panic!("expected an options answer to a multiline question to be refused"),
    }
    assert_eq!(
        form.progress_with_answer(0, text("line one\nline two")),
        Ok(FormPoll::Done)
    );
    let doc = match form.into_done() {
        Ok(v) => v,
        Err(_) => panic!("form should have been complete"),
    };
    let mut expected = serde_json::Map::new();
    expected.insert(
        "bio".to_string(),
        serde_json::Value::String("line one\nline two".to_string()),
    );
    assert_eq!(doc, serde_json::Value::Object(expected));
}

#[test]
fn soft_error_on_rewind_keeps_completion() {
    let script = r#"
function Main(state, answer, params)
    if state == nil then
        return { "question", { id = "n", type = "simple", text = "Number?" }, { step = "n" } }
    end
    if state.step == "n" then
        if tonumber(answer.text) == nil then
            return { "error", "Not a number.", nil }
        end
        return { "question", { id = "w", type = "simple", text = "Word?" }, { step = "w", n = tonumber(answer.text) } }
    end
    return { "done", { n = state.n, w = answer.text }, nil }
end
"#;
    let params = empty_params();
    let vm = Lua::new();
    let mut form = Form::new(script, &params, &vm).unwrap();
    form.progress_with_answer(0, text("4")).unwrap();
    assert_eq!(form.progress_with_answer(1, text("hi")), Ok(FormPoll::Done));
    // Re-answer the number badly: the script rejects it, and the form is
    // exactly as before, still complete, ledger intact.
    assert_eq!(
        form.progress_with_answer(0, text("oops")),
        Ok(FormPoll::Error("Not a number.".to_string()))
    );
    assert!(form.next_question().is_none());
    assert!(form.get_question(0).is_some());
    assert!(form.get_question(1).is_some());
    let (_, cached) = form.get_question(0).unwrap();
    assert_eq!(cached, Some(text("4")));
    let doc = match form.into_done() {
        Ok(v) => v,
        Err(_) => panic!("form should still have been complete"),
    };
    let mut expected = serde_json::Map::new();
    expected.insert("n".to_string(), serde_json::Value::Number(4.into()));
    expected.insert("w".to_string(), serde_json::Value::String("hi".to_string()));
    assert_eq!(doc, serde_json::Value::Object(expected));
}
