//! The request model: a mapping from a fixed set of field names to typed
//! values, and the enumerated action a request selects.

use vstd::prelude::*;

verus! {

/// A field value as it arrives from the transport layer: a string, an
/// unsigned integer, or a value of some other JSON type.
pub enum FieldValue {
    StrVal(String),
    UIntVal(u64),
    OtherVal,
}

/// Ghost model of a field value.
pub ghost enum FieldView {
    Str(Seq<char>),
    UInt(u64),
    Other,
}

impl View for FieldValue {
    type V = FieldView;

    open spec fn view(&self) -> FieldView {
        match self {
            FieldValue::StrVal(s) => FieldView::Str(s@),
            FieldValue::UIntVal(n) => FieldView::UInt(*n),
            FieldValue::OtherVal => FieldView::Other,
        }
    }
}

/// One decoded request: each field the dispatcher ever reads, present or
/// absent. The dispatcher never mutates a request.
pub struct Request {
    pub action: Option<FieldValue>,
    pub sat: Option<FieldValue>,
    pub name: Option<FieldValue>,
    pub uid: Option<FieldValue>,
    pub password: Option<FieldValue>,
    pub password_repeat: Option<FieldValue>,
    pub gid: Option<FieldValue>,
}

/// Ghost model of a request.
pub ghost struct RequestView {
    pub action: Option<FieldView>,
    pub sat: Option<FieldView>,
    pub name: Option<FieldView>,
    pub uid: Option<FieldView>,
    pub password: Option<FieldView>,
    pub password_repeat: Option<FieldView>,
    pub gid: Option<FieldView>,
}

pub open spec fn opt_field_view(f: Option<FieldValue>) -> Option<FieldView> {
    match f {
        Option::None => Option::None,
        Option::Some(v) => Option::Some(v@),
    }
}

impl View for Request {
    type V = RequestView;

    open spec fn view(&self) -> RequestView {
        RequestView {
            action: opt_field_view(self.action),
            sat: opt_field_view(self.sat),
            name: opt_field_view(self.name),
            uid: opt_field_view(self.uid),
            password: opt_field_view(self.password),
            password_repeat: opt_field_view(self.password_repeat),
            gid: opt_field_view(self.gid),
        }
    }
}

impl Request {
    /// A request with every field absent.
    pub fn empty() -> (r: Request)
        ensures
            r@.action is None,
            r@.sat is None,
            r@.name is None,
            r@.uid is None,
            r@.password is None,
            r@.password_repeat is None,
            r@.gid is None,
    {
        Request {
            action: Option::None,
            sat: Option::None,
            name: Option::None,
            uid: Option::None,
            password: Option::None,
            password_repeat: Option::None,
            gid: Option::None,
        }
    }
}

/// The action a request selects, by the value of its `action` field.
#[derive(PartialEq, Eq, Structural, Clone, Copy, Debug)]
pub enum Action {
    Login,
    Reg,
    NewGroup,
    Logout,
    GroupStat,
    Unknown,
}

/// Which action a given `action` string selects; anything outside the fixed
/// vocabulary is `Unknown`.
pub open spec fn spec_action_of(s: Seq<char>) -> Action {
    if s == "login"@ {
        Action::Login
    } else if s == "reg"@ {
        Action::Reg
    } else if s == "new_group"@ {
        Action::NewGroup
    } else if s == "logout"@ {
        Action::Logout
    } else if s == "group_stat"@ {
        Action::GroupStat
    } else {
        Action::Unknown
    }
}

/// Content equality of a string against a literal.
pub fn string_eq(a: &String, b: &str) -> (r: bool)
    ensures
        r == (a@ == b@),
{
    let bo: String = b.to_owned();
    a.eq(&bo)
}

/// Maps an `action` string to the action it selects.
pub fn parse_action(s: &String) -> (r: Action)
    ensures
        r == spec_action_of(s@),
{
    if string_eq(s, "login") {
        Action::Login
    } else if string_eq(s, "reg") {
        Action::Reg
    } else if string_eq(s, "new_group") {
        Action::NewGroup
    } else if string_eq(s, "logout") {
        Action::Logout
    } else if string_eq(s, "group_stat") {
        Action::GroupStat
    } else {
        Action::Unknown
    }
}

} // verus!
