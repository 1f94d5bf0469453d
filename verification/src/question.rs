use vstd::prelude::*;

use crate::error::Error;

verus! {

/// The different kinds of questions a driver script can ask.
#[derive(Debug, Clone, PartialEq, Eq)]
pub enum Question {
    /// A question that takes a single-line textual answer.
    Simple {
        /// The prompt for the question.
        prompt: String,
        /// A default suggested answer.
        default: Option<String>,
    },
    /// A question that takes a multi-line textual answer.
    Multiline {
        /// The prompt for the question.
        prompt: String,
        /// A default suggested answer.
        default: Option<String>,
    },
    /// A question where the user selects their answer from a list.
    Select {
        /// The prompt for the question.
        prompt: String,
        /// A default suggested answer; always one of the options.
        default: Option<String>,
        /// The options the user can choose between.
        options: Vec<String>,
        /// Whether the user may select more than one option.
        multiple: bool,
    },
}

/// The user's answer to a question.
#[derive(Debug, Clone, PartialEq, Eq)]
pub enum Answer {
    /// A textual answer, for [`Question::Simple`] or [`Question::Multiline`].
    Text(String),
    /// A selection of options, for [`Question::Select`].
    Options(Vec<String>),
}

/// The mathematical image of a [`Question`], with strings as character
/// sequences.
#[verifier::ext_equal]
pub enum QuestionV {
    Simple { prompt: Seq<char>, default: Option<Seq<char>> },
    Multiline { prompt: Seq<char>, default: Option<Seq<char>> },
    Select {
        prompt: Seq<char>,
        default: Option<Seq<char>>,
        options: Seq<Seq<char>>,
        multiple: bool,
    },
}

/// The mathematical image of an [`Answer`].
#[verifier::ext_equal]
pub enum AnswerV {
    Text(Seq<char>),
    Options(Seq<Seq<char>>),
}

/// The image of an optional string.
pub open spec fn opt_str_view(o: Option<String>) -> Option<Seq<char>> {
    match o {
        Option::Some(s) => Option::Some(s@),
        Option::None => Option::None,
    }
}

/// The image of a string sequence.
pub open spec fn strs_view(v: Seq<String>) -> Seq<Seq<char>> {
    Seq::new(v.len(), |i: int| v[i]@)
}

impl View for Question {
    type V = QuestionV;

    open spec fn view(&self) -> QuestionV {
        match self {
            Question::Simple { prompt, default } => QuestionV::Simple {
                prompt: prompt@,
                default: opt_str_view(*default),
            },
            Question::Multiline { prompt, default } => QuestionV::Multiline {
                prompt: prompt@,
                default: opt_str_view(*default),
            },
            Question::Select { prompt, default, options, multiple } => QuestionV::Select {
                prompt: prompt@,
                default: opt_str_view(*default),
                options: strs_view(options@),
                multiple: *multiple,
            },
        }
    }
}

impl View for Answer {
    type V = AnswerV;

    open spec fn view(&self) -> AnswerV {
        match self {
            Answer::Text(s) => AnswerV::Text(s@),
            Answer::Options(xs) => AnswerV::Options(strs_view(xs@)),
        }
    }
}

/// The image of an optional answer.
pub open spec fn opt_answer_view(o: Option<Answer>) -> Option<AnswerV> {
    match o {
        Option::Some(a) => Option::Some(a@),
        Option::None => Option::None,
    }
}

/// A well-formed question: a select question's default, when present,
/// appears among its options.
pub open spec fn question_wf(q: QuestionV) -> bool {
    match q {
        QuestionV::Select { default, options, .. } => match default {
            Option::Some(d) => options.contains(d),
            Option::None => true,
        },
        _ => true,
    }
}

/// Whether an answer's shape is acceptable for a question: textual
/// questions take exactly a text answer; a select question takes a
/// selection of its own options, at most one of them unless it allows
/// several.
pub open spec fn answer_fits(q: QuestionV, a: AnswerV) -> bool {
    match q {
        QuestionV::Simple { .. } => a is Text,
        QuestionV::Multiline { .. } => a is Text,
        QuestionV::Select { options, multiple, .. } => match a {
            AnswerV::Options(sel) => (multiple || sel.len() <= 1) && forall|i: int|
                0 <= i < sel.len() ==> options.contains(#[trigger] sel[i]),
            AnswerV::Text(_) => false,
        },
    }
}

/// Looks for `s` among `options`, by characters.
pub fn find_str(options: &Vec<String>, s: &String) -> (r: bool)
    ensures
        r == strs_view(options@).contains(s@),
{
    let ghost target = strs_view(options@);
    let mut i: usize = 0;
    while i < options.len()
        invariant
            i <= options@.len(),
            target == strs_view(options@),
            forall|j: int| 0 <= j < i ==> #[trigger] target[j] != s@,
        decreases options@.len() - i,
    {
        if options[i] == *s {
            proof {
                assert(target[i as int] == s@);
                assert(0 <= (i as int) < target.len() && target[i as int] == s@);
            }
            return true;
        }
        i = i + 1;
    }
    proof {
        if target.contains(s@) {
            let j = choose|j: int| 0 <= j < target.len() && target[j] == s@;
            assert(target[j] != s@);
        }
    }
    false
}

/// Copies a string sequence, characters and all.
pub fn clone_strings(v: &Vec<String>) -> (r: Vec<String>)
    ensures
        strs_view(r@) == strs_view(v@),
{
    let mut out: Vec<String> = Vec::new();
    let mut i: usize = 0;
    while i < v.len()
        invariant
            i <= v@.len(),
            out@.len() == i,
            forall|j: int| 0 <= j < i ==> (#[trigger] out@[j])@ == v@[j]@,
        decreases v@.len() - i,
    {
        out.push(v[i].clone());
        i = i + 1;
    }
    proof {
        assert(strs_view(out@) =~= strs_view(v@));
    }
    out
}

/// Copies an optional string.
pub fn clone_opt_string(o: &Option<String>) -> (r: Option<String>)
    ensures
        opt_str_view(r) == opt_str_view(*o),
{
    match o {
        Option::Some(s) => Option::Some(s.clone()),
        Option::None => Option::None,
    }
}

impl Question {
    /// A copy equal to this question in every character.
    pub fn duplicate(&self) -> (r: Question)
        ensures
            r@ == self@,
    {
        let r = match self {
            Question::Simple { prompt, default } => Question::Simple {
                prompt: prompt.clone(),
                default: clone_opt_string(default),
            },
            Question::Multiline { prompt, default } => Question::Multiline {
                prompt: prompt.clone(),
                default: clone_opt_string(default),
            },
            Question::Select { prompt, default, options, multiple } => Question::Select {
                prompt: prompt.clone(),
                default: clone_opt_string(default),
                options: clone_strings(options),
                multiple: *multiple,
            },
        };
        proof {
            assert(r@ =~= self@);
        }
        r
    }
}

impl Answer {
    /// A copy equal to this answer in every character.
    pub fn duplicate(&self) -> (r: Answer)
        ensures
            r@ == self@,
    {
        let r = match self {
            Answer::Text(s) => Answer::Text(s.clone()),
            Answer::Options(v) => Answer::Options(clone_strings(v)),
        };
        proof {
            assert(r@ =~= self@);
        }
        r
    }
}

/// Whether every string of `selected` appears, by characters, among
/// `options`.
pub fn all_selected_valid(options: &Vec<String>, selected: &Vec<String>) -> (r: bool)
    ensures
        r == forall|j: int|
            0 <= j < strs_view(selected@).len() ==> strs_view(options@).contains(
                #[trigger] strs_view(selected@)[j],
            ),
{
    let ghost sel = strs_view(selected@);
    let mut i: usize = 0;
    while i < selected.len()
        invariant
            i <= selected@.len(),
            sel == strs_view(selected@),
            forall|j: int| 0 <= j < i ==> strs_view(options@).contains(#[trigger] sel[j]),
        decreases selected@.len() - i,
    {
        if !find_str(options, &selected[i]) {
            proof {
                assert(sel[i as int] == selected@[i as int]@);
                assert(!strs_view(options@).contains(sel[i as int]));
            }
            return false;
        }
        assert(sel[i as int] == selected@[i as int]@);
        i = i + 1;
    }
    true
}

/// The reason named when an answer's shape does not fit a question: the
/// texts the engine's callers see, one per kind of mismatch, the count of
/// a single-choice selection taking precedence over membership.
pub open spec fn mismatch_reason(q: QuestionV, a: AnswerV) -> Seq<char> {
    match q {
        QuestionV::Simple { .. } => "text for simple/multiline question"@,
        QuestionV::Multiline { .. } => "text for simple/multiline question"@,
        QuestionV::Select { multiple, .. } => match a {
            AnswerV::Text(_) => "options for select question"@,
            AnswerV::Options(sel) => if !multiple && sel.len() > 1 {
                "single option for non-multiple select question"@
            } else {
                "all options to be valid"@
            },
        },
    }
}

/// Checks an answer's shape against a question, reporting the specific
/// mismatch the way the engine's callers expect it.
pub fn check_answer(q: &Question, a: &Answer) -> (r: Result<(), Error>)
    ensures
        r is Ok <==> answer_fits(q@, a@),
        r matches Err(e) ==> (e matches Error::InvalidAnswerType { expected } && expected@
            == mismatch_reason(q@, a@)),
{
    match q {
        Question::Simple { .. } | Question::Multiline { .. } => {
            if let Answer::Text(_) = a {
                Ok(())
            } else {
                Err(Error::InvalidAnswerType { expected: "text for simple/multiline question" })
            }
        },
        Question::Select { options, multiple, .. } => {
            if let Answer::Options(selected) = a {
                if !*multiple && selected.len() > 1 {
                    return Err(Error::InvalidAnswerType {
                        expected: "single option for non-multiple select question",
                    });
                }
                if all_selected_valid(options, selected) {
                    Ok(())
                } else {
                    Err(Error::InvalidAnswerType { expected: "all options to be valid" })
                }
            } else {
                Err(Error::InvalidAnswerType { expected: "options for select question" })
            }
        },
    }
}

} // verus!
