//! Reading an action plan out of a free-form reply: a fenced `json` block first, the whole
//! text second, and an empty plan where neither holds one.
use vstd::prelude::*;
use crate::action::{
    actions_view, empty_plan, kind_of, risk_of, Action, ActionKind, ActionPlan, ActionView,
    PlanView, Risk, RiskView,
};
use crate::json::{
    as_elements, as_text, get_member, is_null, is_object, json_contents, json_parse, member,
    parse_json, JsonModel,
};
use crate::text::{
    chars_of, find_from, find_text, lemma_found_occurs, occurs_at, string_of, trim_chars, trimmed,
};

verus! {

/// The marker that opens a fenced JSON block.
pub open spec fn open_marker() -> Seq<char> {
    "```json"@
}

/// The marker that closes a fenced block.
pub open spec fn close_marker() -> Seq<char> {
    "```"@
}

/// The text between the first opening marker and the first closing marker after it.
pub open spec fn fenced_body(text: Seq<char>) -> Option<Seq<char>> {
    match find_from(text, open_marker(), 0) {
        Some(start) => {
            let from = start + open_marker().len();
            match find_from(text, close_marker(), from) {
                Some(end) => Some(text.subrange(from, end)),
                None => None,
            }
        },
        None => None,
    }
}

/// An action read from one element of `actions`: `type`, `description` and `risk` are strings,
/// `params` is any value.
pub open spec fn decode_action(m: JsonModel) -> Option<ActionView> {
    match (member(m, "type"@), member(m, "description"@), member(m, "params"@), member(m, "risk"@)) {
        (
            Some(JsonModel::Str(t)),
            Some(JsonModel::Str(d)),
            Some(p),
            Some(JsonModel::Str(r)),
        ) => Some(ActionView { kind: kind_of(t), description: d, params: p, risk: risk_of(r) }),
        _ => None,
    }
}

/// Every element read as an action, in order; `None` where one of them is not an action.
pub open spec fn decode_actions(xs: Seq<JsonModel>) -> Option<Seq<ActionView>>
    decreases xs.len(),
{
    if xs.len() == 0 {
        Some(Seq::empty())
    } else {
        match (decode_actions(xs.drop_last()), decode_action(xs.last())) {
            (Some(done), Some(a)) => Some(done.push(a)),
            _ => None,
        }
    }
}

/// A plan read from a document: an object whose `actions`, where present and not null, is an
/// array of actions, and whose `explanation`, where present and not null, is a string.
pub open spec fn decode_plan(m: JsonModel) -> Option<PlanView> {
    if !(m is Object) {
        None
    } else {
        let actions = match member(m, "actions"@) {
            None => Some(Seq::empty()),
            Some(JsonModel::Null) => Some(Seq::empty()),
            Some(JsonModel::Array(xs)) => decode_actions(xs),
            Some(_) => None,
        };
        let explanation = match member(m, "explanation"@) {
            None => Some(None),
            Some(JsonModel::Null) => Some(None),
            Some(JsonModel::Str(e)) => Some(Some(e)),
            Some(_) => None,
        };
        match (actions, explanation) {
            (Some(a), Some(e)) => Some(PlanView { actions: a, explanation: e }),
            _ => None,
        }
    }
}

/// The plan that a text holds as a whole, if it is a JSON document of that shape.
pub open spec fn plan_in(s: Seq<char>) -> Option<PlanView> {
    match json_parse(s) {
        Some(m) => decode_plan(m),
        None => None,
    }
}

/// The plan read from a reply: the fenced block's, else the whole text's, else the empty plan.
pub open spec fn extract_model(text: Seq<char>) -> PlanView {
    let fenced = match fenced_body(text) {
        Some(b) => plan_in(trimmed(b)),
        None => None,
    };
    match fenced {
        Some(p) => p,
        None => match plan_in(text) {
            Some(p) => p,
            None => empty_plan(),
        },
    }
}

/// The string member `key` of `v`, if `v` is an object that has one.
fn string_member(v: &serde_json::Value, key: &str) -> (r: Option<String>)
    ensures
        r matches Some(s) ==> member(json_contents(*v), key@) == Some(JsonModel::Str(s@)),
        r is None ==> !(member(json_contents(*v), key@) matches Some(JsonModel::Str(_))),
{
    match get_member(v, key) {
        Some(x) => match as_text(x) {
            Some(s) => Some(s.to_owned()),
            None => None,
        },
        None => None,
    }
}

/// An action read from one element of `actions`.
pub fn decode_action_value(v: &serde_json::Value) -> (r: Option<Action>)
    ensures
        r matches Some(a) ==> decode_action(json_contents(*v)) == Some(a@),
        r is None ==> decode_action(json_contents(*v)) is None,
{
    let t = string_member(v, "type");
    let d = string_member(v, "description");
    let p = get_member(v, "params");
    let k = string_member(v, "risk");
    match (t, d, p, k) {
        (Some(t), Some(d), Some(p), Some(k)) => Some(
            Action {
                kind: ActionKind::from_token(t.as_str()),
                description: d,
                params: p.clone(),
                risk: Risk::from_token(k.as_str()),
            },
        ),
        _ => None,
    }
}

/// Every element read as an action, in order; `None` where one of them is not an action.
pub fn decode_actions_value(xs: &Vec<serde_json::Value>) -> (r: Option<Vec<Action>>)
    ensures
        r matches Some(a) ==> decode_actions(xs@.map_values(|x: serde_json::Value| json_contents(x)))
            == Some(actions_view(a@)),
        r is None ==> decode_actions(xs@.map_values(|x: serde_json::Value| json_contents(x))) is None,
{
    let ghost ms = xs@.map_values(|x: serde_json::Value| json_contents(x));
    let mut out: Vec<Action> = Vec::new();
    let mut i: usize = 0;
    while i < xs.len()
        invariant
            i <= xs.len(),
            ms == xs@.map_values(|x: serde_json::Value| json_contents(x)),
            decode_actions(ms.subrange(0, i as int)) == Some(actions_view(out@)),
        decreases xs.len() - i,
    {
        assert(ms.subrange(0, i + 1).drop_last() =~= ms.subrange(0, i as int));
        assert(ms.subrange(0, i + 1).last() == json_contents(xs@[i as int]));
        match decode_action_value(&xs[i]) {
            Some(a) => {
                let ghost prev = out@;
                out.push(a);
                assert(out@.drop_last() =~= prev);
                assert(actions_view(out@) =~= actions_view(prev).push(a@));
            },
            None => {
                proof {
                    lemma_failed_prefix(ms, i + 1);
                }
                return None;
            },
        }
        i += 1;
    }
    assert(ms.subrange(0, i as int) =~= ms);
    Some(out)
}

/// Where a prefix of the elements does not read as actions, neither do all of them.
proof fn lemma_failed_prefix(xs: Seq<JsonModel>, k: int)
    requires
        0 <= k <= xs.len(),
        decode_actions(xs.subrange(0, k)) is None,
    ensures
        decode_actions(xs) is None,
    decreases xs.len() - k,
{
    if k == xs.len() {
        assert(xs.subrange(0, k) =~= xs);
    } else {
        assert(xs.drop_last().subrange(0, k) =~= xs.subrange(0, k));
        lemma_failed_prefix(xs.drop_last(), k);
    }
}

/// A plan read from a document.
pub fn decode_plan_value(v: &serde_json::Value) -> (r: Option<ActionPlan>)
    ensures
        r matches Some(p) ==> decode_plan(json_contents(*v)) == Some(p@),
        r is None ==> decode_plan(json_contents(*v)) is None,
{
    if !is_object(v) {
        return None;
    }
    let actions = match get_member(v, "actions") {
        None => Some(Vec::new()),
        Some(x) => if is_null(x) {
            Some(Vec::new())
        } else {
            match as_elements(x) {
                Some(xs) => decode_actions_value(xs),
                None => None,
            }
        },
    };
    let explanation = match get_member(v, "explanation") {
        None => Some(None),
        Some(x) => if is_null(x) {
            Some(None)
        } else {
            match as_text(x) {
                Some(s) => Some(Some(s.to_owned())),
                None => None,
            }
        },
    };
    match (actions, explanation) {
        (Some(a), Some(e)) => {
            let p = ActionPlan { actions: a, explanation: e };
            assert(actions_view(Seq::<Action>::empty()) =~= Seq::<ActionView>::empty());
            Some(p)
        },
        _ => None,
    }
}

/// The plan that a text holds as a whole.
fn plan_in_text(s: &str) -> (r: Option<ActionPlan>)
    ensures
        r matches Some(p) ==> plan_in(s@) == Some(p@),
        r is None ==> plan_in(s@) is None,
{
    match parse_json(s) {
        Some(v) => decode_plan_value(&v),
        None => None,
    }
}

/// The characters of `s` from `a` up to `b`.
fn slice_chars(s: &Vec<char>, a: usize, b: usize) -> (r: Vec<char>)
    requires
        a <= b <= s.len(),
    ensures
        r@ == s@.subrange(a as int, b as int),
{
    let mut r: Vec<char> = Vec::new();
    let mut k = a;
    while k < b
        invariant
            a <= k <= b <= s.len(),
            r@ == s@.subrange(a as int, k as int),
        decreases b - k,
    {
        r.push(s[k]);
        k += 1;
        assert(r@ =~= s@.subrange(a as int, k as int));
    }
    r
}

/// The body of the first fenced `json` block of a reply, if it has one.
pub fn fenced_json(text: &str) -> (r: Option<Vec<char>>)
    ensures
        r matches Some(b) ==> fenced_body(text@) == Some(b@),
        r is None ==> fenced_body(text@) is None,
{
    let cs = chars_of(text);
    let open = chars_of("```json");
    let close = chars_of("```");
    match find_text(&cs, &open, 0) {
        Some(start) => {
            proof {
                assert(occurs_at(cs@, open@, start as int)) by {
                    lemma_found_occurs(cs@, open@, 0, start as int);
                };
            }
            assert(start + open.len() <= cs.len());
            let from = start + open.len();
            match find_text(&cs, &close, from) {
                Some(end) => {
                    proof {
                        lemma_found_occurs(cs@, close@, from as int, end as int);
                    }
                    Some(slice_chars(&cs, from, end))
                },
                None => None,
            }
        },
        None => None,
    }
}

/// Reads the action plan out of a free-form reply. The first fenced `json` block is tried
/// first; where it is missing or does not hold a plan, the whole text is tried; where neither
/// holds one, the plan is empty. This never fails.
pub fn extract(text: &str) -> (r: ActionPlan)
    ensures
        r@ == extract_model(text@),
{
    let fenced = match fenced_json(text) {
        Some(body) => {
            let inner = trim_chars(&body);
            let s = string_of(&inner);
            plan_in_text(s.as_str())
        },
        None => None,
    };
    match fenced {
        Some(p) => p,
        None => match plan_in_text(text) {
            Some(p) => p,
            None => {
                let p = ActionPlan { actions: Vec::new(), explanation: None };
                assert(actions_view(p.actions@) =~= Seq::<ActionView>::empty());
                p
            },
        },
    }
}

/// A reply with neither a fenced block holding a JSON object nor a JSON object as its whole
/// text gives the empty plan, with no explanation.
pub proof fn lemma_no_object_no_plan(text: Seq<char>)
    requires
        forall|b: Seq<char>|
            fenced_body(text) == Some(b) ==> !(json_parse(trimmed(b)) matches Some(JsonModel::Object(_))),
        !(json_parse(text) matches Some(JsonModel::Object(_))),
    ensures
        extract_model(text) == empty_plan(),
{
}

/// A reply whose first fenced block holds a plan gives exactly that plan.
pub proof fn lemma_fenced_plan_read(text: Seq<char>, body: Seq<char>, m: JsonModel)
    requires
        fenced_body(text) == Some(body),
        json_parse(trimmed(body)) == Some(m),
        decode_plan(m) is Some,
    ensures
        extract_model(text) == decode_plan(m)->Some_0,
{
}

/// Actions are read one for one from the array, in its order.
pub proof fn lemma_actions_in_order(xs: Seq<JsonModel>)
    requires
        decode_actions(xs) is Some,
    ensures
        decode_actions(xs)->Some_0.len() == xs.len(),
        forall|i: int|
            0 <= i < xs.len() ==> decode_action(#[trigger] xs[i]) == Some(decode_actions(xs)->Some_0[i]),
    decreases xs.len(),
{
    if xs.len() > 0 {
        lemma_actions_in_order(xs.drop_last());
        assert forall|i: int| 0 <= i < xs.len() implies decode_action(#[trigger] xs[i]) == Some(
            decode_actions(xs)->Some_0[i],
        ) by {
            if i < xs.len() - 1 {
                assert(xs[i] == xs.drop_last()[i]);
            }
        }
    }
}

/// A risk token is read as low only where it is `low`; a token outside the three tiers is kept
/// as it is.
pub proof fn lemma_risk_not_coerced(t: Seq<char>)
    ensures
        risk_of(t) is Low <==> t == "low"@,
        risk_of(t) matches RiskView::Unknown(u) ==> u == t,
{
}

/// Reading the same reply twice gives plans that agree field for field.
pub proof fn lemma_extract_deterministic(a: Seq<char>, b: Seq<char>)
    requires
        a == b,
    ensures
        extract_model(a) == extract_model(b),
{
}

} // verus!
