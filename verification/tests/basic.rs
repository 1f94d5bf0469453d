use birocrat::{Answer, Form, FormPoll, Question};
use mlua::Lua;

static BASIC_SCRIPT: &str = r#"
function Main(state, answer, params)
    if state == nil then
        return {
            "question",
            { id = "name", type = "simple", text = "What is your name, user " .. params.id .. "?" },
            { step = "name" },
        }
    end
    if state.step == "name" then
        return {
            "question",
            { id = "age", type = "simple", text = "How old are you, " .. answer.text .. "?", default = "30" },
            { step = "age", name = answer.text },
        }
    end
    if state.step == "age" then
        local age = tonumber(answer.text)
        if age == nil then
            return { "error", "Please enter a valid number.", nil }
        end
        return {
            "question",
            {
                id = "cuisine",
                type = "select",
                text = "What is your favourite type of cuisine?",
                options = { "Indian", "Korean", "Japanese", "Chinese", "Italian" },
            },
            { step = "cuisine", name = state.name, age = age },
        }
    end
    if state.step == "cuisine" then
        local cuisine = answer.selected[1]
        if cuisine == "Italian" then
            return { "done", { name = state.name, age = state.age, favourite_cuisine = cuisine }, nil }
        end
        return {
            "question",
            {
                id = "spice",
                type = "select",
                text = "What levels of spice can you tolerate?",
                options = { "Mild", "Medium", "Hot", "Very Hot", "Extreme Hot" },
                multiple = true,
            },
            { step = "spice", name = state.name, age = state.age, cuisine = cuisine },
        }
    end
    if state.step == "spice" then
        return {
            "done",
            {
                name = state.name,
                age = state.age,
                favourite_cuisine = state.cuisine,
                spice_levels = answer.selected,
            },
            nil,
        }
    end
    return { "error", "Unknown state.", nil }
end
"#;

fn params_with_id(id: i64) -> serde_json::Value {
    let mut m = serde_json::Map::new();
    m.insert("id".to_string(), serde_json::Value::Number(id.into()));
    serde_json::Value::Object(m)
}

fn strings(items: &[&str]) -> Vec<String> {
    items.iter().map(|s| s.to_string()).collect()
}

#[test]
fn should_work() {
    let params = params_with_id(37);
    let vm = Lua::new();
    let mut form = Form::new(BASIC_SCRIPT, &params, &vm).unwrap();

    let question = form.first_question();
    assert_eq!(
        question,
        Question::Simple {
            prompt: "What is your name, user 37?".to_string(),
            default: None,
        }
    );
    let poll = form
        .progress_with_answer(0, Answer::Text("Alice".to_string()))
        .unwrap();
    assert_eq!(
        poll,
        FormPoll::Question {
            question: Question::Simple {
                prompt: "How old are you, Alice?".to_string(),
                default: Some("30".to_string()),
            },
            answer: None
        }
    );
    // Provide an incorrect answer
    let poll = form
        .progress_with_answer(1, Answer::Text("twenty-five".to_string()))
        .unwrap();
    assert_eq!(
        poll,
        FormPoll::Error("Please enter a valid number.".to_string())
    );
    // Provide a correct answer
    let poll = form
        .progress_with_answer(1, Answer::Text("25".to_string()))
        .unwrap();
    assert_eq!(
        poll,
        FormPoll::Question {
            question: Question::Select {
                prompt: "What is your favourite type of cuisine?".to_string(),
                default: None,
                options: strings(&["Indian", "Korean", "Japanese", "Chinese", "Italian"]),
                multiple: false
            },
            answer: None
        }
    );
    // Get the previous question and answer
    assert_eq!(
        form.get_question(1),
        Some((
            Question::Simple {
                prompt: "How old are you, Alice?".to_string(),
                default: Some("30".to_string()),
            },
            Some(Answer::Text("25".to_string()))
        ))
    );

    // Invalid options
    assert!(form
        .progress_with_answer(2, Answer::Text("Test".to_string()))
        .is_err());
    assert!(form
        .progress_with_answer(2, Answer::Options(strings(&["Indian", "Korean"])))
        .is_err());
    assert!(form
        .progress_with_answer(2, Answer::Options(strings(&["American"])))
        .is_err());

    // If we answer with `Italian`, we should be done
    let poll = form
        .progress_with_answer(2, Answer::Options(strings(&["Italian"])))
        .unwrap();
    assert_eq!(poll, FormPoll::Done);

    // But we can go back and answer with something else to get another question
    let poll = form
        .progress_with_answer(2, Answer::Options(strings(&["Indian"])))
        .unwrap();
    assert_eq!(
        poll,
        FormPoll::Question {
            question: Question::Select {
                prompt: "What levels of spice can you tolerate?".to_string(),
                default: None,
                options: strings(&["Mild", "Medium", "Hot", "Very Hot", "Extreme Hot"]),
                multiple: true,
            },
            answer: None,
        }
    );

    // Now that there's another question, we can't complete the form
    let res = form.into_done();
    assert!(res.is_err());
    form = res.unwrap_err();

    // Answering this with one or more options will work, but not with invalid options
    assert!(form
        .progress_with_answer(3, Answer::Options(strings(&["Mild", "Not that hot"])))
        .is_err());
    assert_eq!(
        form.progress_with_answer(3, Answer::Options(strings(&["Mild"])))
            .unwrap(),
        FormPoll::Done
    );
    assert_eq!(
        form.progress_with_answer(3, Answer::Options(strings(&["Mild", "Medium"])))
            .unwrap(),
        FormPoll::Done
    );

    // And now we can get the form's final details
    let res = match form.into_done() {
        Ok(v) => v,
        Err(_) => panic!("form should have been complete"),
    };
    let mut expected = serde_json::Map::new();
    expected.insert(
        "name".to_string(),
        serde_json::Value::String("Alice".to_string()),
    );
    expected.insert("age".to_string(), serde_json::Value::Number(25.into()));
    expected.insert(
        "favourite_cuisine".to_string(),
        serde_json::Value::String("Indian".to_string()),
    );
    expected.insert(
        "spice_levels".to_string(),
        serde_json::Value::Array(vec![
            serde_json::Value::String("Mild".to_string()),
            serde_json::Value::String("Medium".to_string()),
        ]),
    );
    assert_eq!(res, serde_json::Value::Object(expected));
}
