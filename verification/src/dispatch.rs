//! The dispatcher: the one decision engine that maps a decoded request and
//! the shared state to exactly one outcome.
//!
//! The decision order is fixed:
//! 1. no `action` field at all is malformed (400);
//! 2. a string `sat` field selects the authenticated action set, gated on
//!    the token resolving to a real identity (else 401);
//! 3. a `sat` field of any other type is an authentication failure (401);
//! 4. no `sat` field selects the public action set (anything else there is
//!    403).

use vstd::prelude::*;

use crate::outcome::{Body, BodyView, GroupStatBody, GroupStatBodyView, Outcome, OutcomeView};
use crate::request::{parse_action, spec_action_of, Action, FieldValue, FieldView, Request, RequestView};
use crate::state::{
    spec_create_group, spec_find_group, spec_issue, spec_members_of, spec_register, spec_resolve,
    spec_revoke, DataState, StateModel,
};

verus! {

/// The action a request selects: the value of its `action` field when that
/// is a string, anything else selecting no known action.
pub open spec fn spec_action(r: RequestView) -> Action {
    match r.action {
        Option::Some(FieldView::Str(a)) => spec_action_of(a),
        _ => Action::Unknown,
    }
}

/// The authenticated action set: what a request with a resolved identity
/// `uid` (carried by the string token `tok`) does to the state, and its
/// outcome.
pub open spec fn spec_dispatch_authed(
    r: RequestView,
    s: StateModel,
    uid: u64,
    tok: Seq<char>,
) -> (StateModel, OutcomeView) {
    if spec_action(r) == Action::NewGroup {
        match r.name {
            Option::Some(FieldView::Str(nm)) => {
                let created = spec_create_group(s, uid, nm);
                if created.1 == 0 {
                    (created.0, OutcomeView { status: 500, body: BodyView::ErrInternal })
                } else {
                    (created.0, OutcomeView { status: 200, body: BodyView::Id(created.1) })
                }
            },
            _ => (s, OutcomeView { status: 400, body: BodyView::ErrMissingFields }),
        }
    } else if spec_action(r) == Action::Logout {
        let revoked = spec_revoke(s, tok);
        if revoked.1 {
            (revoked.0, OutcomeView { status: 200, body: BodyView::SessionEnded })
        } else {
            (revoked.0, OutcomeView { status: 500, body: BodyView::ErrNoSession })
        }
    } else {
        (s, OutcomeView { status: 400, body: BodyView::ErrUnsupported })
    }
}

/// The public action set: what a request with no session token does to the
/// state, and its outcome.
pub open spec fn spec_dispatch_public(r: RequestView, s: StateModel) -> (StateModel, OutcomeView) {
    if spec_action(r) == Action::Login {
        match (r.uid, r.password) {
            (Option::Some(FieldView::UInt(u)), Option::Some(FieldView::Str(p))) => {
                let issued = spec_issue(s, u, p);
                if issued.1.len() == 0 {
                    (issued.0, OutcomeView { status: 401, body: BodyView::ErrBadCredentials })
                } else {
                    (issued.0, OutcomeView { status: 200, body: BodyView::Token(issued.1) })
                }
            },
            _ => (s, OutcomeView { status: 400, body: BodyView::ErrMissingFields }),
        }
    } else if spec_action(r) == Action::Reg {
        match (r.name, r.password, r.password_repeat) {
            (
                Option::Some(FieldView::Str(nm)),
                Option::Some(FieldView::Str(pw)),
                Option::Some(FieldView::Str(pwr)),
            ) => {
                let registered = spec_register(s, nm, pw, pwr);
                if registered.1 == 0 {
                    (registered.0, OutcomeView { status: 400, body: BodyView::ErrRegRejected })
                } else {
                    (registered.0, OutcomeView { status: 200, body: BodyView::Id(registered.1) })
                }
            },
            _ => (s, OutcomeView { status: 400, body: BodyView::ErrMissingFields }),
        }
    } else if spec_action(r) == Action::GroupStat {
        match r.gid {
            Option::Some(FieldView::UInt(g)) => {
                if g > 0 {
                    match spec_find_group(s.groups, g) {
                        Option::None => (
                            s,
                            OutcomeView { status: 404, body: BodyView::ErrNotFound },
                        ),
                        Option::Some(info) => (
                            s,
                            OutcomeView {
                                status: 200,
                                body: BodyView::GroupStat(
                                    GroupStatBodyView {
                                        name: info.name,
                                        is_closed: info.is_closed,
                                        members: spec_members_of(s.members, g),
                                    },
                                ),
                            },
                        ),
                    }
                } else {
                    (s, OutcomeView { status: 400, body: BodyView::ErrMissingFields })
                }
            },
            _ => (s, OutcomeView { status: 400, body: BodyView::ErrMissingFields }),
        }
    } else {
        (s, OutcomeView { status: 403, body: BodyView::ErrForbidden })
    }
}

/// The whole decision tree: what one request does to the state, and the one
/// outcome it yields.
pub open spec fn spec_dispatch(r: RequestView, s: StateModel) -> (StateModel, OutcomeView) {
    match r.action {
        Option::None => (s, OutcomeView { status: 400, body: BodyView::ErrNoAction }),
        Option::Some(_) => match r.sat {
            Option::Some(FieldView::Str(tok)) => {
                let uid = spec_resolve(s.sessions, tok);
                if uid == 0 {
                    (s, OutcomeView { status: 401, body: BodyView::ErrAuthRequired })
                } else {
                    spec_dispatch_authed(r, s, uid, tok)
                }
            },
            Option::Some(_) => (s, OutcomeView { status: 401, body: BodyView::ErrAuthRequired }),
            Option::None => spec_dispatch_public(r, s),
        },
    }
}

/// Dispatches one request: validates its fields, gates it on authentication,
/// runs the selected action against the state, and returns the one outcome —
/// exactly as `spec_dispatch` lays the decision tree down.
pub fn process_req(req: &Request, state: &mut DataState) -> (out: Outcome)
    requires
        old(state)@.wf(),
    ensures
        final(state)@ == spec_dispatch(req@, old(state)@).0,
        out@ == spec_dispatch(req@, old(state)@).1,
        final(state)@.wf(),
{
    match &req.action {
        Option::None => Outcome { status: 400, body: Body::ErrNoAction },
        Option::Some(_) => match &req.sat {
            Option::Some(FieldValue::StrVal(tok)) => {
                let uid = state.verify(tok);
                if uid == 0 {
                    Outcome { status: 401, body: Body::ErrAuthRequired }
                } else {
                    let act = match &req.action {
                        Option::Some(FieldValue::StrVal(a)) => parse_action(a),
                        _ => Action::Unknown,
                    };
                    match act {
                        Action::NewGroup => match &req.name {
                            Option::Some(FieldValue::StrVal(nm)) => {
                                let gid = state.create_group(uid, nm);
                                if gid == 0 {
                                    Outcome { status: 500, body: Body::ErrInternal }
                                } else {
                                    Outcome { status: 200, body: Body::Id(gid) }
                                }
                            },
                            _ => Outcome { status: 400, body: Body::ErrMissingFields },
                        },
                        Action::Logout => {
                            let ok = state.revoke(tok);
                            if ok {
                                Outcome { status: 200, body: Body::SessionEnded }
                            } else {
                                Outcome { status: 500, body: Body::ErrNoSession }
                            }
                        },
                        _ => Outcome { status: 400, body: Body::ErrUnsupported },
                    }
                }
            },
            Option::Some(_) => Outcome { status: 401, body: Body::ErrAuthRequired },
            Option::None => {
                let act = match &req.action {
                    Option::Some(FieldValue::StrVal(a)) => parse_action(a),
                    _ => Action::Unknown,
                };
                match act {
                    Action::Login => match (&req.uid, &req.password) {
                        (
                            Option::Some(FieldValue::UIntVal(u)),
                            Option::Some(FieldValue::StrVal(p)),
                        ) => {
                            let token = state.issue(*u, p);
                            if token.as_str().is_empty() {
                                Outcome { status: 401, body: Body::ErrBadCredentials }
                            } else {
                                Outcome { status: 200, body: Body::Token(token) }
                            }
                        },
                        _ => Outcome { status: 400, body: Body::ErrMissingFields },
                    },
                    Action::Reg => match (&req.name, &req.password, &req.password_repeat) {
                        (
                            Option::Some(FieldValue::StrVal(nm)),
                            Option::Some(FieldValue::StrVal(pw)),
                            Option::Some(FieldValue::StrVal(pwr)),
                        ) => {
                            let uid = state.register(nm, pw, pwr);
                            if uid == 0 {
                                Outcome { status: 400, body: Body::ErrRegRejected }
                            } else {
                                Outcome { status: 200, body: Body::Id(uid) }
                            }
                        },
                        _ => Outcome { status: 400, body: Body::ErrMissingFields },
                    },
                    Action::GroupStat => match &req.gid {
                        Option::Some(FieldValue::UIntVal(g)) => {
                            if *g > 0 {
                                match state.find_group(*g) {
                                    Option::None => Outcome {
                                        status: 404,
                                        body: Body::ErrNotFound,
                                    },
                                    Option::Some(info) => {
                                        let members = state.list_members(*g);
                                        Outcome {
                                            status: 200,
                                            body: Body::GroupStat(
                                                GroupStatBody {
                                                    name: info.name,
                                                    is_closed: info.is_closed,
                                                    members,
                                                },
                                            ),
                                        }
                                    },
                                }
                            } else {
                                Outcome { status: 400, body: Body::ErrMissingFields }
                            }
                        },
                        _ => Outcome { status: 400, body: Body::ErrMissingFields },
                    },
                    _ => Outcome { status: 403, body: Body::ErrForbidden },
                }
            },
        },
    }
}

} // verus!
