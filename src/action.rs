//! Proposed configuration changes: their kinds, risk tiers and plans.
use vstd::prelude::*;
use crate::json::JsonModel;
use crate::text::text_eq;

verus! {

/// The kind of change an action proposes. A token outside the fixed table is kept as it came.
#[derive(Debug, Clone, PartialEq)]
pub enum ActionKind {
    TlsSettingChange,
    ResourceSettingChange,
    DnsRecordCreate,
    DnsRecordUpdate,
    DnsRecordDelete,
    CachePurge,
    AccessRuleChange,
    Unsupported(String),
}

pub enum KindView {
    TlsSettingChange,
    ResourceSettingChange,
    DnsRecordCreate,
    DnsRecordUpdate,
    DnsRecordDelete,
    CachePurge,
    AccessRuleChange,
    Unsupported(Seq<char>),
}

impl View for ActionKind {
    type V = KindView;

    open spec fn view(&self) -> KindView {
        match self {
            ActionKind::TlsSettingChange => KindView::TlsSettingChange,
            ActionKind::ResourceSettingChange => KindView::ResourceSettingChange,
            ActionKind::DnsRecordCreate => KindView::DnsRecordCreate,
            ActionKind::DnsRecordUpdate => KindView::DnsRecordUpdate,
            ActionKind::DnsRecordDelete => KindView::DnsRecordDelete,
            ActionKind::CachePurge => KindView::CachePurge,
            ActionKind::AccessRuleChange => KindView::AccessRuleChange,
            ActionKind::Unsupported(t) => KindView::Unsupported(t@),
        }
    }
}

/// The risk tier an action declares. A token other than low, medium or high is kept as it came.
#[derive(Debug, Clone, PartialEq)]
pub enum Risk {
    Low,
    Medium,
    High,
    Unknown(String),
}

pub enum RiskView {
    Low,
    Medium,
    High,
    Unknown(Seq<char>),
}

impl View for Risk {
    type V = RiskView;

    open spec fn view(&self) -> RiskView {
        match self {
            Risk::Low => RiskView::Low,
            Risk::Medium => RiskView::Medium,
            Risk::High => RiskView::High,
            Risk::Unknown(t) => RiskView::Unknown(t@),
        }
    }
}

/// One proposed configuration change.
#[derive(Debug, Clone, PartialEq)]
pub struct Action {
    pub kind: ActionKind,
    pub description: String,
    pub params: serde_json::Value,
    pub risk: Risk,
}

pub struct ActionView {
    pub kind: KindView,
    pub description: Seq<char>,
    pub params: JsonModel,
    pub risk: RiskView,
}

impl View for Action {
    type V = ActionView;

    open spec fn view(&self) -> ActionView {
        ActionView {
            kind: self.kind@,
            description: self.description@,
            params: crate::json::json_contents(self.params),
            risk: self.risk@,
        }
    }
}

/// The ordered actions read from a reply, with its optional explanation.
#[derive(Debug, Clone, PartialEq)]
pub struct ActionPlan {
    pub actions: Vec<Action>,
    pub explanation: Option<String>,
}

pub struct PlanView {
    pub actions: Seq<ActionView>,
    pub explanation: Option<Seq<char>>,
}

/// The views of a list of actions, in order.
pub open spec fn actions_view(xs: Seq<Action>) -> Seq<ActionView> {
    xs.map_values(|a: Action| a@)
}

impl View for ActionPlan {
    type V = PlanView;

    open spec fn view(&self) -> PlanView {
        PlanView {
            actions: actions_view(self.actions@),
            explanation: match self.explanation {
                Some(e) => Some(e@),
                None => None,
            },
        }
    }
}

/// The plan with no actions and no explanation.
pub open spec fn empty_plan() -> PlanView {
    PlanView { actions: Seq::empty(), explanation: None }
}

/// The kind that a `type` token names.
pub open spec fn kind_of(t: Seq<char>) -> KindView {
    if t == "ssl_set"@ {
        KindView::TlsSettingChange
    } else if t == "setting_update"@ {
        KindView::ResourceSettingChange
    } else if t == "dns_create"@ {
        KindView::DnsRecordCreate
    } else if t == "dns_update"@ {
        KindView::DnsRecordUpdate
    } else if t == "dns_delete"@ {
        KindView::DnsRecordDelete
    } else if t == "cache_purge"@ {
        KindView::CachePurge
    } else if t == "firewall_rule"@ {
        KindView::AccessRuleChange
    } else {
        KindView::Unsupported(t)
    }
}

/// The risk tier that a `risk` token names.
pub open spec fn risk_of(t: Seq<char>) -> RiskView {
    if t == "low"@ {
        RiskView::Low
    } else if t == "medium"@ {
        RiskView::Medium
    } else if t == "high"@ {
        RiskView::High
    } else {
        RiskView::Unknown(t)
    }
}

/// The marker shown beside an action of a tier.
pub open spec fn risk_icon(r: RiskView) -> Seq<char> {
    match r {
        RiskView::Low => "\u{1f7e2}"@,
        RiskView::Medium => "\u{1f7e1}"@,
        RiskView::High => "\u{1f534}"@,
        RiskView::Unknown(_) => "\u{26aa}"@,
    }
}

/// The token of a tier.
pub open spec fn risk_token(r: RiskView) -> Seq<char> {
    match r {
        RiskView::Low => "low"@,
        RiskView::Medium => "medium"@,
        RiskView::High => "high"@,
        RiskView::Unknown(t) => t,
    }
}

impl ActionKind {
    /// The kind that a `type` token names.
    pub fn from_token(t: &str) -> (r: ActionKind)
        ensures
            r@ == kind_of(t@),
    {
        if text_eq(t, "ssl_set") {
            ActionKind::TlsSettingChange
        } else if text_eq(t, "setting_update") {
            ActionKind::ResourceSettingChange
        } else if text_eq(t, "dns_create") {
            ActionKind::DnsRecordCreate
        } else if text_eq(t, "dns_update") {
            ActionKind::DnsRecordUpdate
        } else if text_eq(t, "dns_delete") {
            ActionKind::DnsRecordDelete
        } else if text_eq(t, "cache_purge") {
            ActionKind::CachePurge
        } else if text_eq(t, "firewall_rule") {
            ActionKind::AccessRuleChange
        } else {
            ActionKind::Unsupported(t.to_owned())
        }
    }
}

impl Risk {
    /// The risk tier that a `risk` token names.
    pub fn from_token(t: &str) -> (r: Risk)
        ensures
            r@ == risk_of(t@),
    {
        if text_eq(t, "low") {
            Risk::Low
        } else if text_eq(t, "medium") {
            Risk::Medium
        } else if text_eq(t, "high") {
            Risk::High
        } else {
            Risk::Unknown(t.to_owned())
        }
    }

    /// The marker shown beside an action of this tier; a tier outside the three gets a neutral one.
    pub fn icon(&self) -> (r: &'static str)
        ensures
            r@ == risk_icon(self@),
    {
        match self {
            Risk::Low => "\u{1f7e2}",
            Risk::Medium => "\u{1f7e1}",
            Risk::High => "\u{1f534}",
            Risk::Unknown(_) => "\u{26aa}",
        }
    }

    /// The token of the tier, as it came.
    pub fn token(&self) -> (r: &str)
        ensures
            r@ == risk_token(self@),
    {
        match self {
            Risk::Low => "low",
            Risk::Medium => "medium",
            Risk::High => "high",
            Risk::Unknown(t) => t.as_str(),
        }
    }

    /// Whether the action needs a confirmation of its own before it runs.
    pub fn is_high(&self) -> (r: bool)
        ensures
            r == (self@ is High),
    {
        match self {
            Risk::High => true,
            _ => false,
        }
    }
}

} // verus!
