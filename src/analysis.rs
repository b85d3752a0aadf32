//! Reading the analysis service's reply: its text, how many tokens it used, and the plan the
//! text holds.
use vstd::prelude::*;
use crate::action::{ActionPlan, PlanView};
use crate::extract::{extract, extract_model};
use crate::json::{
    as_elements, as_text, as_unsigned, get_member, is_null, is_object, json_contents, json_parse,
    member, parse_json, JsonModel,
};
use crate::settings::ChatMessage;

verus! {

/// What one exchange with the analysis service produced.
#[derive(Debug, Clone, PartialEq)]
pub struct AnalysisResult {
    pub content: String,
    pub actions: ActionPlan,
    pub tokens_used: Option<u32>,
}

/// Whether a member is absent or null.
pub open spec fn absent(m: JsonModel, key: Seq<char>) -> bool {
    member(m, key) matches None || member(m, key) == Some(JsonModel::Null)
}

/// Whether an optional member is absent, null, or a string.
pub open spec fn optional_string_ok(m: JsonModel, key: Seq<char>) -> bool {
    absent(m, key) || member(m, key) matches Some(JsonModel::Str(_))
}

/// Whether an optional member is absent, null, or an integer that fits in 32 bits.
pub open spec fn optional_u32_ok(m: JsonModel, key: Seq<char>) -> bool {
    absent(m, key) || (member(m, key) matches Some(JsonModel::Int(n)) && 0 <= n <= u32::MAX)
}

/// The content of a choice: an object whose `message` has a string `role` and a string
/// `content`, and whose `finish_reason`, if given, is a string.
pub open spec fn choice_content(m: JsonModel) -> Option<Seq<char>> {
    match member(m, "message"@) {
        Some(msg) => match (member(msg, "role"@), member(msg, "content"@)) {
            (Some(JsonModel::Str(_)), Some(JsonModel::Str(c))) => if optional_string_ok(
                m,
                "finish_reason"@,
            ) {
                Some(c)
            } else {
                None
            },
            _ => None,
        },
        None => None,
    }
}

/// Whether every element is a well-formed choice.
pub open spec fn choices_ok(xs: Seq<JsonModel>) -> bool {
    forall|i: int| 0 <= i < xs.len() ==> (#[trigger] choice_content(xs[i])) is Some
}

/// The token count of a reply's `usage`: `Some(None)` where usage or its total is not given,
/// `None` where usage is malformed.
pub open spec fn usage_total(m: JsonModel) -> Option<Option<u32>> {
    if absent(m, "usage"@) {
        Some(None)
    } else {
        let u = member(m, "usage"@)->Some_0;
        if u is Object && optional_u32_ok(u, "prompt_tokens"@) && optional_u32_ok(u, "completion_tokens"@)
            && optional_u32_ok(u, "total_tokens"@) {
            match member(u, "total_tokens"@) {
                Some(JsonModel::Int(n)) => Some(Some(n as u32)),
                _ => Some(None),
            }
        } else {
            None
        }
    }
}

/// The text and token count of a reply: an object with an array of well-formed `choices` and
/// an optional `usage`. The text is that of the first choice, empty where there is none.
pub open spec fn reply_of(m: JsonModel) -> Option<(Seq<char>, Option<u32>)> {
    match member(m, "choices"@) {
        Some(JsonModel::Array(xs)) => if m is Object && choices_ok(xs) && usage_total(m) is Some {
            Some(
                (
                    if xs.len() > 0 {
                        choice_content(xs[0])->Some_0
                    } else {
                        Seq::empty()
                    },
                    usage_total(m)->Some_0,
                ),
            )
        } else {
            None
        },
        _ => None,
    }
}

/// The analysis a reply body gives: its text, the plan in that text, and its token count.
pub open spec fn analysis_of(body: Seq<char>) -> Option<(Seq<char>, PlanView, Option<u32>)> {
    match json_parse(body) {
        Some(m) => match reply_of(m) {
            Some((c, t)) => Some((c, extract_model(c), t)),
            None => None,
        },
        None => None,
    }
}

/// Whether an optional member is absent, null, or a string.
fn optional_string_member(v: &serde_json::Value, key: &str) -> (r: bool)
    ensures
        r == optional_string_ok(json_contents(*v), key@),
{
    match get_member(v, key) {
        None => true,
        Some(x) => is_null(x) || as_text(x).is_some(),
    }
}

/// Whether an optional member is absent, null, or an integer that fits in 32 bits.
fn optional_u32_member(v: &serde_json::Value, key: &str) -> (r: bool)
    ensures
        r == optional_u32_ok(json_contents(*v), key@),
{
    match get_member(v, key) {
        None => true,
        Some(x) => if is_null(x) {
            true
        } else {
            match as_unsigned(x) {
                Some(n) => n <= u32::MAX as u64,
                None => false,
            }
        },
    }
}

/// The content of a choice.
fn read_choice(v: &serde_json::Value) -> (r: Option<String>)
    ensures
        r matches Some(c) ==> choice_content(json_contents(*v)) == Some(c@),
        r is None ==> choice_content(json_contents(*v)) is None,
{
    let msg = match get_member(v, "message") {
        Some(m) => m,
        None => return None,
    };
    let role_ok = match get_member(msg, "role") {
        Some(x) => as_text(x).is_some(),
        None => false,
    };
    let content = match get_member(msg, "content") {
        Some(x) => as_text(x),
        None => None,
    };
    match content {
        Some(c) => if role_ok && optional_string_member(v, "finish_reason") {
            Some(c.to_owned())
        } else {
            None
        },
        None => None,
    }
}

/// The token count of a reply's `usage`.
fn read_usage(v: &serde_json::Value) -> (r: Option<Option<u32>>)
    ensures
        r == usage_total(json_contents(*v)),
{
    let u = match get_member(v, "usage") {
        None => return Some(None),
        Some(u) => u,
    };
    if is_null(u) {
        return Some(None);
    }
    if !(is_object(u) && optional_u32_member(u, "prompt_tokens") && optional_u32_member(
        u,
        "completion_tokens",
    ) && optional_u32_member(u, "total_tokens")) {
        return None;
    }
    match get_member(u, "total_tokens") {
        Some(x) => match as_unsigned(x) {
            Some(n) => Some(Some(n as u32)),
            None => Some(None),
        },
        None => Some(None),
    }
}

/// The text and token count of a reply.
pub fn read_reply(v: &serde_json::Value) -> (r: Option<(String, Option<u32>)>)
    ensures
        r matches Some((c, t)) ==> reply_of(json_contents(*v)) == Some((c@, t)),
        r is None ==> reply_of(json_contents(*v)) is None,
{
    let x = match get_member(v, "choices") {
        Some(x) => x,
        None => return None,
    };
    let xs = match as_elements(x) {
        Some(xs) => xs,
        None => return None,
    };
    let ghost ms = xs@.map_values(|x: serde_json::Value| json_contents(x));
    assert(member(json_contents(*v), "choices"@) == Some(JsonModel::Array(ms)));
    if !is_object(v) {
        return None;
    }
    let mut first: Option<String> = None;
    let mut i: usize = 0;
    while i < xs.len()
        invariant
            i <= xs.len(),
            ms == xs@.map_values(|x: serde_json::Value| json_contents(x)),
            member(json_contents(*v), "choices"@) == Some(JsonModel::Array(ms)),
            json_contents(*v) is Object,
            forall|j: int| 0 <= j < i ==> (#[trigger] choice_content(ms[j])) is Some,
            i == 0 <==> first is None,
            first matches Some(c) ==> choice_content(ms[0]) == Some(c@),
        decreases xs.len() - i,
    {
        match read_choice(&xs[i]) {
            Some(c) => {
                assert(ms[i as int] == json_contents(xs@[i as int]));
                if i == 0 {
                    first = Some(c);
                }
            },
            None => {
                assert(ms[i as int] == json_contents(xs@[i as int]));
                assert(choice_content(ms[i as int]) is None);
                assert(!choices_ok(ms));
                return None;
            },
        }
        i += 1;
    }
    let tokens = match read_usage(v) {
        Some(t) => t,
        None => return None,
    };
    let content = match first {
        Some(c) => c,
        None => String::new(),
    };
    Some((content, tokens))
}

/// The analysis a reply body gives: its text, the plan that text holds, and its token count;
/// `None` where the body is not a reply of the service.
pub fn analysis_of_reply(body: &str) -> (r: Option<AnalysisResult>)
    ensures
        r matches Some(a) ==> analysis_of(body@) == Some((a.content@, a.actions@, a.tokens_used)),
        r is None ==> analysis_of(body@) is None,
{
    let v = match parse_json(body) {
        Some(v) => v,
        None => return None,
    };
    match read_reply(&v) {
        Some((content, tokens_used)) => {
            let actions = extract(content.as_str());
            Some(AnalysisResult { content, actions, tokens_used })
        },
        None => None,
    }
}

/// The two messages of an exchange: the role description, then the user's message.
pub fn chat_messages(system_prompt: &str, user_message: &str) -> (r: Vec<ChatMessage>)
    ensures
        r@.len() == 2,
        r@[0].role@ == "system"@,
        r@[0].content@ == system_prompt@,
        r@[1].role@ == "user"@,
        r@[1].content@ == user_message@,
{
    let mut r: Vec<ChatMessage> = Vec::new();
    r.push(ChatMessage { role: "system".to_owned(), content: system_prompt.to_owned() });
    r.push(ChatMessage { role: "user".to_owned(), content: user_message.to_owned() });
    r
}

} // verus!
