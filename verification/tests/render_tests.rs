use group_dispatch::dispatch::process_req;
use group_dispatch::outcome::{render_body, Body, GroupStatBody};
use group_dispatch::request::{FieldValue, Request};
use group_dispatch::state::{DataState, MemberEntry};
use group_dispatch::text::u64_to_string;

#[test]
fn decimal_rendering_is_exact() {
    assert_eq!(u64_to_string(0), "0");
    assert_eq!(u64_to_string(7), "7");
    assert_eq!(u64_to_string(10), "10");
    assert_eq!(u64_to_string(409), "409");
    assert_eq!(u64_to_string(1234567890), "1234567890");
    assert_eq!(u64_to_string(u64::MAX), "18446744073709551615");
}

#[test]
fn error_bodies_are_fixed_json() {
    assert_eq!(render_body(&Body::ErrNoAction), "{\"error\":\"no action specified\"}");
    assert_eq!(
        render_body(&Body::ErrMissingFields),
        "{\"error\":\"missing or mistyped required fields\"}"
    );
    assert_eq!(
        render_body(&Body::ErrUnsupported),
        "{\"error\":\"unsupported or malformed operation\"}"
    );
    assert_eq!(render_body(&Body::ErrAuthRequired), "{\"error\":\"authentication required\"}");
    assert_eq!(render_body(&Body::ErrBadCredentials), "{\"error\":\"invalid user id or password\"}");
    assert_eq!(
        render_body(&Body::ErrForbidden),
        "{\"error\":\"action forbidden to unauthenticated clients or unsupported\"}"
    );
    assert_eq!(render_body(&Body::ErrNotFound), "{\"error\":\"requested object not found\"}");
    assert_eq!(render_body(&Body::ErrInternal), "{\"error\":\"internal server error\"}");
    assert_eq!(render_body(&Body::ErrNoSession), "{\"error\":\"no session found to end\"}");
    assert_eq!(
        render_body(&Body::ErrRegRejected),
        "{\"error\":\"invalid field values or password mismatch\"}"
    );
    assert_eq!(render_body(&Body::SessionEnded), "{\"msg\":\"session ended\"}");
}

#[test]
fn id_body_renders_the_number() {
    assert_eq!(render_body(&Body::Id(1)), "{\"id\":1}");
    assert_eq!(render_body(&Body::Id(12045)), "{\"id\":12045}");
}

#[test]
fn token_body_renders_the_token() {
    assert_eq!(render_body(&Body::Token("tok1".to_string())), "{\"token\":\"tok1\"}");
}

#[test]
fn group_stat_body_ends_the_member_array_cleanly() {
    let b = Body::GroupStat(GroupStatBody {
        name: "Team A".to_string(),
        is_closed: false,
        members: vec![
            MemberEntry { uid: 1, is_admin: true },
            MemberEntry { uid: 9, is_admin: false },
        ],
    });
    assert_eq!(
        render_body(&b),
        "{\"name\":\"Team A\", \"is_closed\": false, \"members\":[{\"uid\":1, \"is_admin\": true},{\"uid\":9, \"is_admin\": false}]}"
    );
}

#[test]
fn group_stat_body_with_no_members_is_an_empty_array() {
    let b = Body::GroupStat(GroupStatBody {
        name: "Empty".to_string(),
        is_closed: true,
        members: Vec::new(),
    });
    assert_eq!(
        render_body(&b),
        "{\"name\":\"Empty\", \"is_closed\": true, \"members\":[]}"
    );
}

#[test]
fn issued_tokens_follow_the_counter() {
    let mut state = DataState::new();
    let mut r = Request::empty();
    r.action = Some(FieldValue::StrVal("reg".to_string()));
    r.name = Some(FieldValue::StrVal("ann".to_string()));
    r.password = Some(FieldValue::StrVal("pw".to_string()));
    r.password_repeat = Some(FieldValue::StrVal("pw".to_string()));
    process_req(&r, &mut state);
    let mut l = Request::empty();
    l.action = Some(FieldValue::StrVal("login".to_string()));
    l.uid = Some(FieldValue::UIntVal(1));
    l.password = Some(FieldValue::StrVal("pw".to_string()));
    match process_req(&l, &mut state).body {
        Body::Token(t) => assert_eq!(t, "tok1"),
        _ => panic!("expected a token body"),
    }
}
