use group_dispatch::dispatch::process_req;
use group_dispatch::outcome::{Body, Outcome};
use group_dispatch::request::{FieldValue, Request};
use group_dispatch::state::DataState;

fn s(v: &str) -> Option<FieldValue> {
    Some(FieldValue::StrVal(v.to_string()))
}

fn u(v: u64) -> Option<FieldValue> {
    Some(FieldValue::UIntVal(v))
}

fn other() -> Option<FieldValue> {
    Some(FieldValue::OtherVal)
}

fn req() -> Request {
    Request::empty()
}

fn login_req(uid: u64, pw: &str) -> Request {
    let mut r = req();
    r.action = s("login");
    r.uid = u(uid);
    r.password = s(pw);
    r
}

fn reg_req(name: &str, pw: &str, pwr: &str) -> Request {
    let mut r = req();
    r.action = s("reg");
    r.name = s(name);
    r.password = s(pw);
    r.password_repeat = s(pwr);
    r
}

/// Registers an account and logs it in, returning (uid, token).
fn registered_session(state: &mut DataState) -> (u64, String) {
    let out = process_req(&reg_req("ann", "pw", "pw"), state);
    let uid = match out.body {
        Body::Id(n) => n,
        _ => panic!("registration did not yield an id"),
    };
    let out = process_req(&login_req(uid, "pw"), state);
    match out.body {
        Body::Token(t) => (uid, t),
        _ => panic!("login did not yield a token"),
    }
}

fn status_of(r: &Request, state: &mut DataState) -> u16 {
    process_req(r, state).status
}

#[test]
fn no_action_is_400() {
    let mut state = DataState::new();
    let out = process_req(&req(), &mut state);
    assert_eq!(out.status, 400);
    assert!(matches!(out.body, Body::ErrNoAction));
}

#[test]
fn no_action_is_400_with_other_fields() {
    let mut state = DataState::new();
    let mut r = req();
    r.sat = s("sometoken");
    r.name = s("x");
    assert_eq!(status_of(&r, &mut state), 400);
}

#[test]
fn unresolved_token_is_401() {
    let mut state = DataState::new();
    let mut r = req();
    r.action = s("new_group");
    r.sat = s("no-such-token");
    r.name = s("Team A");
    let out = process_req(&r, &mut state);
    assert_eq!(out.status, 401);
    assert!(matches!(out.body, Body::ErrAuthRequired));
}

#[test]
fn unresolved_token_is_401_whatever_the_action() {
    let mut state = DataState::new();
    for action in ["login", "reg", "group_stat", "logout", "nonsense"] {
        let mut r = req();
        r.action = s(action);
        r.sat = s("no-such-token");
        assert_eq!(status_of(&r, &mut state), 401);
    }
}

#[test]
fn non_string_sat_is_401() {
    let mut state = DataState::new();
    let mut r = req();
    r.action = s("login");
    r.uid = u(1);
    r.password = s("pw");
    r.sat = u(99);
    assert_eq!(status_of(&r, &mut state), 401);
    r.sat = other();
    assert_eq!(status_of(&r, &mut state), 401);
}

#[test]
fn login_without_user_is_401() {
    // The concrete scenario: {"action":"login","uid":5,"password":"x"} on a
    // store with no user 5.
    let mut state = DataState::new();
    let out = process_req(&login_req(5, "x"), &mut state);
    assert_eq!(out.status, 401);
    assert!(matches!(out.body, Body::ErrBadCredentials));
}

#[test]
fn login_wrong_password_is_401() {
    let mut state = DataState::new();
    let out = process_req(&reg_req("ann", "pw", "pw"), &mut state);
    assert_eq!(out.status, 200);
    assert_eq!(status_of(&login_req(1, "wrong"), &mut state), 401);
}

#[test]
fn login_correct_creds_yields_nonempty_token() {
    let mut state = DataState::new();
    process_req(&reg_req("ann", "pw", "pw"), &mut state);
    let out = process_req(&login_req(1, "pw"), &mut state);
    assert_eq!(out.status, 200);
    match out.body {
        Body::Token(t) => assert!(!t.is_empty()),
        _ => panic!("expected a token body"),
    }
}

#[test]
fn repeated_logins_need_not_repeat_the_token() {
    let mut state = DataState::new();
    process_req(&reg_req("ann", "pw", "pw"), &mut state);
    let first = process_req(&login_req(1, "pw"), &mut state);
    let second = process_req(&login_req(1, "pw"), &mut state);
    match (first.body, second.body) {
        (Body::Token(a), Body::Token(b)) => {
            assert!(!a.is_empty());
            assert!(!b.is_empty());
            assert_ne!(a, b);
        },
        _ => panic!("expected two token bodies"),
    }
}

#[test]
fn login_missing_fields_is_400() {
    let mut state = DataState::new();
    let mut r = req();
    r.action = s("login");
    assert_eq!(status_of(&r, &mut state), 400);
    r.uid = u(1);
    assert_eq!(status_of(&r, &mut state), 400);
    r.password = other();
    assert_eq!(status_of(&r, &mut state), 400);
    let mut r2 = req();
    r2.action = s("login");
    r2.uid = s("1"); // uid as a string is mistyped
    r2.password = s("pw");
    assert_eq!(status_of(&r2, &mut state), 400);
}

#[test]
fn reg_yields_fresh_positive_ids() {
    let mut state = DataState::new();
    let out = process_req(&reg_req("ann", "pw", "pw"), &mut state);
    assert_eq!(out.status, 200);
    assert!(matches!(out.body, Body::Id(1)));
    let out = process_req(&reg_req("bob", "pw2", "pw2"), &mut state);
    assert_eq!(out.status, 200);
    assert!(matches!(out.body, Body::Id(2)));
}

#[test]
fn reg_password_mismatch_is_400() {
    let mut state = DataState::new();
    let out = process_req(&reg_req("ann", "alpha", "beta"), &mut state);
    assert_eq!(out.status, 400);
    assert!(matches!(out.body, Body::ErrRegRejected));
}

#[test]
fn reg_empty_name_or_password_is_400() {
    let mut state = DataState::new();
    assert_eq!(status_of(&reg_req("", "pw", "pw"), &mut state), 400);
    assert_eq!(status_of(&reg_req("ann", "", ""), &mut state), 400);
}

#[test]
fn reg_missing_fields_is_400() {
    let mut state = DataState::new();
    let mut r = req();
    r.action = s("reg");
    r.name = s("ann");
    r.password = s("pw");
    assert_eq!(status_of(&r, &mut state), 400);
    r.password_repeat = u(7); // mistyped confirmation
    assert_eq!(status_of(&r, &mut state), 400);
}

#[test]
fn new_group_yields_positive_id() {
    let mut state = DataState::new();
    let (_uid, token) = registered_session(&mut state);
    let mut r = req();
    r.action = s("new_group");
    r.sat = Some(FieldValue::StrVal(token));
    r.name = s("Team A");
    let out = process_req(&r, &mut state);
    assert_eq!(out.status, 200);
    match out.body {
        Body::Id(gid) => assert!(gid > 0),
        _ => panic!("expected an id body"),
    }
}

#[test]
fn new_group_missing_name_is_400() {
    let mut state = DataState::new();
    let (_uid, token) = registered_session(&mut state);
    let mut r = req();
    r.action = s("new_group");
    r.sat = Some(FieldValue::StrVal(token));
    let out = process_req(&r, &mut state);
    assert_eq!(out.status, 400);
    assert!(matches!(out.body, Body::ErrMissingFields));
    r.name = u(3); // mistyped name
    assert_eq!(status_of(&r, &mut state), 400);
}

#[test]
fn unknown_action_is_400_when_authenticated() {
    let mut state = DataState::new();
    let (_uid, token) = registered_session(&mut state);
    let mut r = req();
    r.action = s("fly");
    r.sat = Some(FieldValue::StrVal(token));
    let out = process_req(&r, &mut state);
    assert_eq!(out.status, 400);
    assert!(matches!(out.body, Body::ErrUnsupported));
}

#[test]
fn authenticated_login_is_unsupported() {
    // `login` is not in the authenticated action set.
    let mut state = DataState::new();
    let (uid, token) = registered_session(&mut state);
    let mut r = login_req(uid, "pw");
    r.sat = Some(FieldValue::StrVal(token));
    let out = process_req(&r, &mut state);
    assert_eq!(out.status, 400);
    assert!(matches!(out.body, Body::ErrUnsupported));
}

#[test]
fn unknown_action_is_403_when_unauthenticated() {
    let mut state = DataState::new();
    let mut r = req();
    r.action = s("fly");
    let out = process_req(&r, &mut state);
    assert_eq!(out.status, 403);
    assert!(matches!(out.body, Body::ErrForbidden));
    // a non-string action value selects no known action either
    let mut r2 = req();
    r2.action = u(1);
    assert_eq!(status_of(&r2, &mut state), 403);
    // protected actions are forbidden without a token
    let mut r3 = req();
    r3.action = s("new_group");
    r3.name = s("Team A");
    assert_eq!(status_of(&r3, &mut state), 403);
}

#[test]
fn logout_ends_the_session() {
    let mut state = DataState::new();
    let (_uid, token) = registered_session(&mut state);
    let mut r = req();
    r.action = s("logout");
    r.sat = Some(FieldValue::StrVal(token.clone()));
    let out = process_req(&r, &mut state);
    assert_eq!(out.status, 200);
    assert!(matches!(out.body, Body::SessionEnded));
    // the token no longer resolves, so a second logout is refused
    let mut r2 = req();
    r2.action = s("logout");
    r2.sat = Some(FieldValue::StrVal(token));
    assert_eq!(status_of(&r2, &mut state), 401);
}

#[test]
fn group_stat_gid_zero_or_mistyped_is_400() {
    let mut state = DataState::new();
    let mut r = req();
    r.action = s("group_stat");
    r.gid = u(0);
    assert_eq!(status_of(&r, &mut state), 400);
    r.gid = s("42"); // gid as a string is mistyped
    assert_eq!(status_of(&r, &mut state), 400);
    r.gid = None;
    assert_eq!(status_of(&r, &mut state), 400);
}

#[test]
fn group_stat_absent_group_is_404() {
    // The concrete scenario: {"action":"group_stat","gid":42} where group 42
    // does not exist.
    let mut state = DataState::new();
    let mut r = req();
    r.action = s("group_stat");
    r.gid = u(42);
    let out = process_req(&r, &mut state);
    assert_eq!(out.status, 404);
    assert!(matches!(out.body, Body::ErrNotFound));
}

#[test]
fn group_stat_lists_the_members() {
    let mut state = DataState::new();
    let (uid, token) = registered_session(&mut state);
    let mut mk = req();
    mk.action = s("new_group");
    mk.sat = Some(FieldValue::StrVal(token));
    mk.name = s("Team A");
    let gid = match process_req(&mk, &mut state).body {
        Body::Id(g) => g,
        _ => panic!("expected a group id"),
    };
    let mut r = req();
    r.action = s("group_stat");
    r.gid = u(gid);
    let out = process_req(&r, &mut state);
    assert_eq!(out.status, 200);
    match out.body {
        Body::GroupStat(g) => {
            assert_eq!(g.name, "Team A");
            assert!(!g.is_closed);
            assert_eq!(g.members.len(), 1);
            assert_eq!(g.members[0].uid, uid);
            assert!(g.members[0].is_admin);
        },
        _ => panic!("expected a group_stat body"),
    }
}

#[test]
fn group_stat_member_count_matches_the_store() {
    let mut state = DataState::new();
    let (_uid, token) = registered_session(&mut state);
    let mut mk = req();
    mk.action = s("new_group");
    mk.sat = Some(FieldValue::StrVal(token.clone()));
    mk.name = s("First");
    let first = match process_req(&mk, &mut state).body {
        Body::Id(g) => g,
        _ => panic!("expected a group id"),
    };
    mk.name = s("Second");
    let second = match process_req(&mk, &mut state).body {
        Body::Id(g) => g,
        _ => panic!("expected a group id"),
    };
    assert_ne!(first, second);
    for gid in [first, second] {
        let mut r = req();
        r.action = s("group_stat");
        r.gid = u(gid);
        match process_req(&r, &mut state).body {
            Body::GroupStat(g) => assert_eq!(g.members.len(), 1),
            _ => panic!("expected a group_stat body"),
        }
    }
}

#[test]
fn outcome_carries_status_and_body() {
    let out = Outcome { status: 200, body: Body::SessionEnded };
    assert_eq!(out.status, 200);
    assert!(matches!(out.body, Body::SessionEnded));
}
