//! Rule resources: declarative records mirroring the gateway's rule
//! schema, and the wire tokens of their enumerated fields.

use vstd::prelude::*;

use std::collections::HashMap;

verus! {

#[verifier::external_type_specification]
#[verifier::external_body]
pub struct ExJsonValue(serde_json::Value);

/// Whether a rule is evaluated by the gateway.
#[derive(Debug, Clone, Copy, PartialEq, Eq)]
pub enum RuleStatus {
    Enabled,
    Disabled,
}

/// The HTTP-like method of a rule action.
#[derive(Debug, Clone, Copy, PartialEq, Eq)]
pub enum ActionMethod {
    Put,
    Post,
    Delete,
    Bind,
}

/// How a rule condition compares its operand.
#[derive(Debug, Clone, Copy, PartialEq, Eq)]
pub enum Operator {
    Equals,
    GreaterThan,
    LessThan,
    OnChange,
}

/// One action a rule fires: a resource address, a request body, and the
/// method to apply.
#[derive(Debug, Clone, PartialEq)]
pub struct Action {
    pub address: String,
    pub body: HashMap<String, serde_json::Value>,
    pub method: ActionMethod,
}

/// One condition guarding a rule.
#[derive(Debug, Clone, PartialEq)]
pub struct Condition {}

/// A rule as submitted to the gateway.
#[derive(Debug, Clone, PartialEq)]
pub struct RuleRequest {
    pub actions: Vec<Action>,
    pub conditions: Vec<Condition>,
    pub name: String,
    pub periodic: u128,
    pub status: RuleStatus,
}

/// A rule as the gateway reports it.
#[derive(Debug, Clone, PartialEq)]
pub struct RuleResponse {
    pub actions: Vec<Action>,
    pub conditions: Vec<Condition>,
    pub name: String,
    pub periodic: u128,
    pub status: RuleStatus,
    pub created: String,
    pub etag: String,
    pub last_triggered: String,
    pub owner: String,
    pub times_triggered: String,
}

/// The lowercase wire token of a rule status.
pub open spec fn rule_status_token(s: RuleStatus) -> Seq<char> {
    match s {
        RuleStatus::Enabled => "enabled"@,
        RuleStatus::Disabled => "disabled"@,
    }
}

/// The uppercase wire token of an action method.
pub open spec fn action_method_token(m: ActionMethod) -> Seq<char> {
    match m {
        ActionMethod::Put => "PUT"@,
        ActionMethod::Post => "POST"@,
        ActionMethod::Delete => "DELETE"@,
        ActionMethod::Bind => "BIND"@,
    }
}

/// The two-letter wire code of a condition operator.
pub open spec fn operator_token(o: Operator) -> Seq<char> {
    match o {
        Operator::Equals => "eq"@,
        Operator::GreaterThan => "gt"@,
        Operator::LessThan => "lt"@,
        Operator::OnChange => "dx"@,
    }
}

impl RuleStatus {
    /// The token this status serializes to.
    pub fn wire_token(&self) -> (r: String)
        ensures
            r@ == rule_status_token(*self),
    {
        match *self {
            RuleStatus::Enabled => String::from_str("enabled"),
            RuleStatus::Disabled => String::from_str("disabled"),
        }
    }
}

impl ActionMethod {
    /// The token this method serializes to.
    pub fn wire_token(&self) -> (r: String)
        ensures
            r@ == action_method_token(*self),
    {
        match *self {
            ActionMethod::Put => String::from_str("PUT"),
            ActionMethod::Post => String::from_str("POST"),
            ActionMethod::Delete => String::from_str("DELETE"),
            ActionMethod::Bind => String::from_str("BIND"),
        }
    }
}

impl Operator {
    /// The code this operator serializes to.
    pub fn wire_token(&self) -> (r: String)
        ensures
            r@ == operator_token(*self),
    {
        match *self {
            Operator::Equals => String::from_str("eq"),
            Operator::GreaterThan => String::from_str("gt"),
            Operator::LessThan => String::from_str("lt"),
            Operator::OnChange => String::from_str("dx"),
        }
    }
}

} // verus!
