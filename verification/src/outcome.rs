//! The response vocabulary: every outcome the dispatcher can produce, and
//! the JSON-shaped rendering of its body.

use vstd::prelude::*;

use crate::state::MemberEntry;
use crate::text::{bool_str, push_digits, spec_bool_str, spec_digits, u64_to_string};

verus! {

/// The body of a `group_stat` success response.
pub struct GroupStatBody {
    pub name: String,
    pub is_closed: bool,
    pub members: Vec<MemberEntry>,
}

/// Ghost model of a `group_stat` success body.
pub ghost struct GroupStatBodyView {
    pub name: Seq<char>,
    pub is_closed: bool,
    pub members: Seq<MemberEntry>,
}

impl View for GroupStatBody {
    type V = GroupStatBodyView;

    open spec fn view(&self) -> GroupStatBodyView {
        GroupStatBodyView { name: self.name@, is_closed: self.is_closed, members: self.members@ }
    }
}

/// Every response body the dispatcher can produce. Error variants carry no
/// data: their text is fixed; success variants carry the payload fields.
pub enum Body {
    /// The request has no `action` field.
    ErrNoAction,
    /// A required field is missing or has the wrong type.
    ErrMissingFields,
    /// An authenticated request selects an action outside the authenticated
    /// set.
    ErrUnsupported,
    /// A protected action without a valid session.
    ErrAuthRequired,
    /// Login credentials that name no account.
    ErrBadCredentials,
    /// An unauthenticated request selects an action outside the public set.
    ErrForbidden,
    /// The referenced entity does not exist.
    ErrNotFound,
    /// A downstream operation failed although the request was well-formed.
    ErrInternal,
    /// A logout found no session to end.
    ErrNoSession,
    /// A registration attempt was rejected.
    ErrRegRejected,
    /// A session was ended.
    SessionEnded,
    /// A fresh user or group id.
    Id(u64),
    /// A fresh session token.
    Token(String),
    /// The display data and member list of a group.
    GroupStat(GroupStatBody),
}

/// Ghost model of a response body.
pub ghost enum BodyView {
    ErrNoAction,
    ErrMissingFields,
    ErrUnsupported,
    ErrAuthRequired,
    ErrBadCredentials,
    ErrForbidden,
    ErrNotFound,
    ErrInternal,
    ErrNoSession,
    ErrRegRejected,
    SessionEnded,
    Id(u64),
    Token(Seq<char>),
    GroupStat(GroupStatBodyView),
}

impl View for Body {
    type V = BodyView;

    open spec fn view(&self) -> BodyView {
        match self {
            Body::ErrNoAction => BodyView::ErrNoAction,
            Body::ErrMissingFields => BodyView::ErrMissingFields,
            Body::ErrUnsupported => BodyView::ErrUnsupported,
            Body::ErrAuthRequired => BodyView::ErrAuthRequired,
            Body::ErrBadCredentials => BodyView::ErrBadCredentials,
            Body::ErrForbidden => BodyView::ErrForbidden,
            Body::ErrNotFound => BodyView::ErrNotFound,
            Body::ErrInternal => BodyView::ErrInternal,
            Body::ErrNoSession => BodyView::ErrNoSession,
            Body::ErrRegRejected => BodyView::ErrRegRejected,
            Body::SessionEnded => BodyView::SessionEnded,
            Body::Id(n) => BodyView::Id(*n),
            Body::Token(t) => BodyView::Token(t@),
            Body::GroupStat(g) => BodyView::GroupStat(g@),
        }
    }
}

/// One (status, body) outcome; the dispatcher returns exactly one per
/// request.
pub struct Outcome {
    pub status: u16,
    pub body: Body,
}

/// Ghost model of an outcome.
pub ghost struct OutcomeView {
    pub status: u16,
    pub body: BodyView,
}

impl View for Outcome {
    type V = OutcomeView;

    open spec fn view(&self) -> OutcomeView {
        OutcomeView { status: self.status, body: self.body@ }
    }
}

/// The JSON rendering of one member entry.
pub open spec fn spec_member_json(m: MemberEntry) -> Seq<char> {
    "{\"uid\":"@ + spec_digits(m.uid) + ", \"is_admin\": "@ + spec_bool_str(m.is_admin) + "}"@
}

/// The JSON rendering of a member list: entries in order, comma-separated,
/// with no trailing sentinel.
pub open spec fn spec_members_json(ms: Seq<MemberEntry>) -> Seq<char>
    decreases ms.len(),
{
    if ms.len() == 0 {
        Seq::empty()
    } else if ms.len() == 1 {
        spec_member_json(ms[0])
    } else {
        spec_members_json(ms.drop_last()) + ","@ + spec_member_json(ms.last())
    }
}

/// The JSON rendering of each response body.
pub open spec fn spec_body_json(b: BodyView) -> Seq<char> {
    match b {
        BodyView::ErrNoAction => "{\"error\":\"no action specified\"}"@,
        BodyView::ErrMissingFields => "{\"error\":\"missing or mistyped required fields\"}"@,
        BodyView::ErrUnsupported => "{\"error\":\"unsupported or malformed operation\"}"@,
        BodyView::ErrAuthRequired => "{\"error\":\"authentication required\"}"@,
        BodyView::ErrBadCredentials => "{\"error\":\"invalid user id or password\"}"@,
        BodyView::ErrForbidden => (
        "{\"error\":\"action forbidden to unauthenticated clients or unsupported\"}"@),
        BodyView::ErrNotFound => "{\"error\":\"requested object not found\"}"@,
        BodyView::ErrInternal => "{\"error\":\"internal server error\"}"@,
        BodyView::ErrNoSession => "{\"error\":\"no session found to end\"}"@,
        BodyView::ErrRegRejected => (
        "{\"error\":\"invalid field values or password mismatch\"}"@),
        BodyView::SessionEnded => "{\"msg\":\"session ended\"}"@,
        BodyView::Id(n) => "{\"id\":"@ + spec_digits(n) + "}"@,
        BodyView::Token(t) => "{\"token\":\""@ + t + "\"}"@,
        BodyView::GroupStat(g) => "{\"name\":\""@ + g.name + "\", \"is_closed\": "@ + spec_bool_str(
            g.is_closed,
        ) + ", \"members\":["@ + spec_members_json(g.members) + "]}"@,
    }
}

/// Renders one member entry.
fn push_member_json(m: MemberEntry, out: &mut String)
    ensures
        final(out)@ == old(out)@ + spec_member_json(m),
{
    out.append("{\"uid\":");
    push_digits(m.uid, out);
    out.append(", \"is_admin\": ");
    out.append(bool_str(m.is_admin));
    out.append("}");
    proof {
        assert(out@ =~= old(out)@ + spec_member_json(m));
    }
}

/// Renders a member list, comma-separated, with no trailing sentinel.
fn push_members_json(ms: &Vec<MemberEntry>, out: &mut String)
    ensures
        final(out)@ == old(out)@ + spec_members_json(ms@),
{
    let ghost all = ms@;
    proof {
        assert(out@ =~= old(out)@ + spec_members_json(all.take(0)));
    }
    let mut i: usize = 0;
    while i < ms.len()
        invariant
            0 <= i <= ms.len(),
            all == ms@,
            out@ == old(out)@ + spec_members_json(all.take(i as int)),
        decreases ms.len() - i,
    {
        let ghost pre = out@;
        if i > 0 {
            out.append(",");
        }
        push_member_json(ms[i], out);
        proof {
            assert(all.take(i as int + 1).drop_last() =~= all.take(i as int));
            assert(all.take(i as int + 1).last() == all[i as int]);
            if i == 0 {
                assert(all.take(1)[0] == all[0]);
                assert(out@ =~= old(out)@ + spec_members_json(all.take(1)));
            } else {
                assert(out@ =~= old(out)@ + spec_members_json(all.take(i as int + 1)));
            }
        }
        i = i + 1;
    }
    proof {
        assert(all.take(ms.len() as int) =~= all);
    }
}

/// Renders a response body as its JSON-shaped string.
pub fn render_body(b: &Body) -> (r: String)
    ensures
        r@ == spec_body_json(b@),
{
    match b {
        Body::ErrNoAction => "{\"error\":\"no action specified\"}".to_owned(),
        Body::ErrMissingFields => "{\"error\":\"missing or mistyped required fields\"}".to_owned(),
        Body::ErrUnsupported => "{\"error\":\"unsupported or malformed operation\"}".to_owned(),
        Body::ErrAuthRequired => "{\"error\":\"authentication required\"}".to_owned(),
        Body::ErrBadCredentials => "{\"error\":\"invalid user id or password\"}".to_owned(),
        Body::ErrForbidden => "{\"error\":\"action forbidden to unauthenticated clients or unsupported\"}".to_owned(),
        Body::ErrNotFound => "{\"error\":\"requested object not found\"}".to_owned(),
        Body::ErrInternal => "{\"error\":\"internal server error\"}".to_owned(),
        Body::ErrNoSession => "{\"error\":\"no session found to end\"}".to_owned(),
        Body::ErrRegRejected => "{\"error\":\"invalid field values or password mismatch\"}".to_owned(),
        Body::SessionEnded => "{\"msg\":\"session ended\"}".to_owned(),
        Body::Id(n) => {
            let mut r: String = "{\"id\":".to_owned();
            push_digits(*n, &mut r);
            r.append("}");
            proof {
                assert(r@ =~= spec_body_json(b@));
            }
            r
        },
        Body::Token(t) => {
            let mut r: String = "{\"token\":\"".to_owned();
            r.append(t.as_str());
            r.append("\"}");
            proof {
                assert(r@ =~= spec_body_json(b@));
            }
            r
        },
        Body::GroupStat(g) => {
            let mut r: String = "{\"name\":\"".to_owned();
            r.append(g.name.as_str());
            r.append("\", \"is_closed\": ");
            r.append(bool_str(g.is_closed));
            r.append(", \"members\":[");
            push_members_json(&g.members, &mut r);
            r.append("]}");
            proof {
                assert(r@ =~= spec_body_json(b@));
            }
            r
        },
    }
}

} // verus!
