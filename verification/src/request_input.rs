//! Questions that an agent puts to its user.
use crate::text::{decimal, decimal_of, opt_view, same, trim, trimmed};
use vstd::prelude::*;
use vstd::string::*;

verus! {

/// A JSON value; a number is the text that stands for it.
#[derive(Debug)]
pub enum JsonValue {
    Null,
    Bool(bool),
    Number(String),
    Text(String),
    List(Vec<JsonValue>),
    Object(Vec<JsonMember>),
}

/// A member of a JSON object.
#[derive(Debug)]
pub struct JsonMember {
    pub key: String,
    pub value: JsonValue,
}

/// A request for the user's input.
#[derive(Debug)]
pub struct PendingUserInputRequest {
    pub turn_id: Option<String>,
    pub questions: Vec<UserInputQuestion>,
}

/// One question.
#[derive(Debug)]
pub struct UserInputQuestion {
    pub id: String,
    pub header: String,
    pub question: String,
    pub options: Vec<UserInputOption>,
}

/// One answer that is offered.
#[derive(Debug)]
pub struct UserInputOption {
    pub label: String,
    pub description: Option<String>,
    pub is_other: bool,
}

// ---------------------------------------------------------------------------
// Reading JSON
// ---------------------------------------------------------------------------
/// The value of the first member with the given key.
pub open spec fn member_in(members: Seq<JsonMember>, key: Seq<char>) -> Option<JsonValue>
    decreases members.len(),
{
    if members.len() == 0 {
        None
    } else if members[0].key@ == key {
        Some(members[0].value)
    } else {
        member_in(members.skip(1), key)
    }
}

/// The member of an object; nothing for any other value.
pub open spec fn member(value: JsonValue, key: Seq<char>) -> Option<JsonValue> {
    match value {
        JsonValue::Object(members) => member_in(members@, key),
        _ => None,
    }
}

/// The text that a member holds.
pub open spec fn text_member(value: JsonValue, key: Seq<char>) -> Option<Seq<char>> {
    match member(value, key) {
        Some(JsonValue::Text(text)) => Some(text@),
        _ => None,
    }
}

/// The items of the list that a member holds.
pub open spec fn list_member(value: JsonValue, key: Seq<char>) -> Option<Seq<JsonValue>> {
    match member(value, key) {
        Some(JsonValue::List(items)) => Some(items@),
        _ => None,
    }
}

impl JsonValue {
    /// The member of an object.
    pub fn get(&self, key: &str) -> (r: Option<&JsonValue>)
        ensures
            match member(*self, key@) {
                Some(value) => r == Some(&value),
                None => r is None,
            },
    {
        match self {
            JsonValue::Object(members) => {
                let mut i: usize = 0;
                assert(members@.skip(0) =~= members@);
                while i < members.len()
                    invariant
                        i <= members.len(),
                        member(*self, key@) == member_in(members@, key@),
                        member_in(members@, key@) == member_in(members@.skip(i as int), key@),
                    decreases members.len() - i,
                {
                    assert(members@.skip(i as int).skip(1) =~= members@.skip(i as int + 1));
                    if same(members[i].key.as_str(), key) {
                        return Some(&members[i].value);
                    }
                    i = i + 1;
                }
                None
            },
            _ => None,
        }
    }

    /// The text that a member holds.
    pub fn get_text(&self, key: &str) -> (r: Option<&str>)
        ensures
            match text_member(*self, key@) {
                Some(text) => r matches Some(found) && found@ == text,
                None => r is None,
            },
    {
        match self.get(key) {
            Some(JsonValue::Text(text)) => Some(text.as_str()),
            _ => None,
        }
    }

    /// The list that a member holds.
    pub fn get_list(&self, key: &str) -> (r: Option<&Vec<JsonValue>>)
        ensures
            match list_member(*self, key@) {
                Some(items) => r matches Some(found) && found@ == items,
                None => r is None,
            },
    {
        match self.get(key) {
            Some(JsonValue::List(items)) => Some(items),
            _ => None,
        }
    }
}

// ---------------------------------------------------------------------------
// Options
// ---------------------------------------------------------------------------
/// What an option says.
pub struct OptionView {
    pub label: Seq<char>,
    pub description: Option<Seq<char>>,
    pub is_other: bool,
}

/// The option that a JSON value describes: one without a label is none.
pub open spec fn option_of(value: JsonValue) -> Option<OptionView> {
    match text_member(value, "label"@) {
        Some(label) => if trimmed(label).len() == 0 {
            None
        } else {
            Some(
                OptionView {
                    label: trimmed(label),
                    description: match text_member(value, "description"@) {
                        Some(text) => if trimmed(text).len() == 0 {
                            None
                        } else {
                            Some(trimmed(text))
                        },
                        None => None,
                    },
                    is_other: member(value, "is_other"@) == Some(JsonValue::Bool(true)),
                },
            )
        },
        None => None,
    }
}

/// The options that the values describe, without those that describe none.
pub open spec fn options_of(values: Seq<JsonValue>) -> Seq<OptionView>
    decreases values.len(),
{
    if values.len() == 0 {
        Seq::empty()
    } else {
        match option_of(values.last()) {
            Some(option) => options_of(values.drop_last()).push(option),
            None => options_of(values.drop_last()),
        }
    }
}

impl View for UserInputOption {
    type V = OptionView;

    open spec fn view(&self) -> OptionView {
        OptionView {
            label: self.label@,
            description: opt_view(self.description),
            is_other: self.is_other,
        }
    }
}

/// What several options say.
pub open spec fn option_views(options: Seq<UserInputOption>) -> Seq<OptionView> {
    Seq::new(options.len(), |i: int| options[i]@)
}

impl UserInputOption {
    /// The option that a JSON value describes.
    pub fn from_codex_value(value: &JsonValue) -> (r: Option<Self>)
        ensures
            match option_of(*value) {
                Some(view) => r matches Some(option) && option@ == view,
                None => r is None,
            },
    {
        let label = match value.get_text("label") {
            Some(text) => trim(text),
            None => {
                return None;
            },
        };
        if label.as_str().unicode_len() == 0 {
            return None;
        }
        let description = match value.get_text("description") {
            Some(text) => {
                let text = trim(text);
                if text.as_str().unicode_len() == 0 {
                    None
                } else {
                    Some(text)
                }
            },
            None => None,
        };
        let is_other = match value.get("is_other") {
            Some(JsonValue::Bool(other)) => *other,
            _ => false,
        };
        Some(UserInputOption { label, description, is_other })
    }
}

// ---------------------------------------------------------------------------
// Questions
// ---------------------------------------------------------------------------
/// What a question says.
pub struct QuestionView {
    pub id: Seq<char>,
    pub header: Seq<char>,
    pub question: Seq<char>,
    pub options: Seq<OptionView>,
}

/// The text that a member holds, or a text of its own where it is blank or missing.
pub open spec fn text_or(value: JsonValue, key: Seq<char>, other: Seq<char>) -> Seq<char> {
    match text_member(value, key) {
        Some(text) => if trimmed(text).len() == 0 {
            other
        } else {
            text
        },
        None => other,
    }
}

/// The question that a JSON value describes at the given place of its list: one without a text
/// is none.
pub open spec fn question_of(value: JsonValue, index: int) -> Option<QuestionView> {
    match text_member(value, "question"@) {
        Some(question) => if trimmed(question).len() == 0 {
            None
        } else {
            Some(
                QuestionView {
                    id: text_or(value, "id"@, "question-"@ + decimal((index + 1) as nat)),
                    header: text_or(value, "header"@, "Question "@ + decimal((index + 1) as nat)),
                    question: trimmed(question),
                    options: match list_member(value, "options"@) {
                        Some(items) => options_of(items),
                        None => Seq::empty(),
                    },
                },
            )
        },
        None => None,
    }
}

/// The questions that the values describe, without those that describe none.
pub open spec fn questions_of(values: Seq<JsonValue>) -> Seq<QuestionView>
    decreases values.len(),
{
    if values.len() == 0 {
        Seq::empty()
    } else {
        match question_of(values.last(), values.len() - 1) {
            Some(question) => questions_of(values.drop_last()).push(question),
            None => questions_of(values.drop_last()),
        }
    }
}

impl View for UserInputQuestion {
    type V = QuestionView;

    open spec fn view(&self) -> QuestionView {
        QuestionView {
            id: self.id@,
            header: self.header@,
            question: self.question@,
            options: option_views(self.options@),
        }
    }
}

/// What several questions say.
pub open spec fn question_views(questions: Seq<UserInputQuestion>) -> Seq<QuestionView> {
    Seq::new(questions.len(), |i: int| questions[i]@)
}

/// The text that a member holds, or a numbered text where it is blank or missing.
fn text_or_numbered(value: &JsonValue, key: &str, prefix: &str, number: u64) -> (r: String)
    ensures
        r@ == text_or(*value, key@, prefix@ + decimal(number as nat)),
{
    if let Some(text) = value.get_text(key) {
        if trim(text).as_str().unicode_len() != 0 {
            return text.to_string();
        }
    }
    let mut text = prefix.to_string();
    text.append(decimal_of(number).as_str());
    text
}

impl UserInputQuestion {
    /// The question that a JSON value describes at the given place of its list.
    pub fn from_codex_value(value: &JsonValue, index: usize) -> (r: Option<Self>)
        requires
            index < usize::MAX,
        ensures
            match question_of(*value, index as int) {
                Some(view) => r matches Some(question) && question@ == view,
                None => r is None,
            },
    {
        let question = match value.get_text("question") {
            Some(text) => trim(text),
            None => {
                return None;
            },
        };
        if question.as_str().unicode_len() == 0 {
            return None;
        }
        let number: u64 = (index + 1) as u64;
        let id = text_or_numbered(value, "id", "question-", number);
        let header = text_or_numbered(value, "header", "Question ", number);
        let mut options: Vec<UserInputOption> = Vec::new();
        if let Some(items) = value.get_list("options") {
            let mut i: usize = 0;
            assert(option_views(options@) =~= options_of(items@.take(0)));
            while i < items.len()
                invariant
                    i <= items.len(),
                    option_views(options@) == options_of(items@.take(i as int)),
                decreases items.len() - i,
            {
                assert(items@.take(i as int + 1).drop_last() =~= items@.take(i as int));
                let ghost before = options@;
                if let Some(option) = UserInputOption::from_codex_value(&items[i]) {
                    options.push(option);
                    assert(option_views(options@) =~= option_views(before).push(option@));
                }
                i = i + 1;
            }
            assert(items@.take(i as int) =~= items@);
        } else {
            assert(option_views(options@) =~= Seq::empty());
        }
        Some(UserInputQuestion { id, header, question, options })
    }
}

impl PendingUserInputRequest {
    /// The request that a JSON value describes; nothing where it asks no question.
    pub fn from_codex_raw(raw: &JsonValue) -> (r: Option<Self>)
        ensures
            match list_member(*raw, "questions"@) {
                Some(values) => if questions_of(values).len() == 0 {
                    r is None
                } else {
                    r matches Some(request) && question_views(request.questions@) == questions_of(
                        values,
                    ) && opt_view(request.turn_id) == text_member(*raw, "turn_id"@)
                },
                None => r is None,
            },
    {
        let values = match raw.get_list("questions") {
            Some(values) => values,
            None => {
                return None;
            },
        };
        let mut questions: Vec<UserInputQuestion> = Vec::new();
        let mut i: usize = 0;
        assert(question_views(questions@) =~= questions_of(values@.take(0)));
        while i < values.len()
            invariant
                i <= values.len(),
                question_views(questions@) == questions_of(values@.take(i as int)),
            decreases values.len() - i,
        {
            assert(values@.take(i as int + 1).drop_last() =~= values@.take(i as int));
            let ghost before = questions@;
            if let Some(question) = UserInputQuestion::from_codex_value(&values[i], i) {
                questions.push(question);
                assert(question_views(questions@) =~= question_views(before).push(question@));
            }
            i = i + 1;
        }
        assert(values@.take(i as int) =~= values@);
        assert(question_views(questions@).len() == questions@.len());
        if questions.len() == 0 {
            return None;
        }
        let turn_id = match raw.get_text("turn_id") {
            Some(text) => Some(text.to_string()),
            None => None,
        };
        Some(PendingUserInputRequest { turn_id, questions })
    }

    /// The first question, in one line of text.
    pub fn summary(&self) -> (r: String)
        ensures
            r@ == if self.questions@.len() > 0 {
                self.questions@[0].question@
            } else {
                "Agent is waiting for input."@
            },
    {
        if self.questions.len() > 0 {
            self.questions[0].question.clone()
        } else {
            "Agent is waiting for input.".to_string()
        }
    }
}

// ---------------------------------------------------------------------------
// Laws
// ---------------------------------------------------------------------------
/// Every question that is put has a text, a name and a heading, none of them empty.
pub proof fn questions_are_complete(values: Seq<JsonValue>)
    ensures
        forall|i: int|
            0 <= i < questions_of(values).len() ==> {
                let question = #[trigger] questions_of(values)[i];
                question.question.len() > 0 && question.id.len() > 0 && question.header.len() > 0
            },
    decreases values.len(),
{
    if values.len() > 0 {
        questions_are_complete(values.drop_last());
        let front = questions_of(values.drop_last());
        let value = values.last();
        if let Some(question) = question_of(value, values.len() - 1) {
            reveal_strlit("question-");
            reveal_strlit("Question ");
            assert forall|i: int| 0 <= i < questions_of(values).len() implies {
                let question = #[trigger] questions_of(values)[i];
                question.question.len() > 0 && question.id.len() > 0 && question.header.len() > 0
            } by {
                if i < front.len() {
                    assert(questions_of(values)[i] == front[i]);
                }
            }
        }
    }
}

} // verus!
