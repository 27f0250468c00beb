//! The guarantees the dispatcher gives, stated over the decision tree that
//! `process_req` is proved to follow.

use vstd::prelude::*;

use crate::dispatch::{spec_action, spec_dispatch};
use crate::outcome::BodyView;
use crate::request::{Action, FieldView, RequestView};
use crate::state::{
    lemma_members_of_uids_nonzero, spec_find_group, spec_good_creds, spec_members_of, spec_resolve,
    StateModel,
};
use crate::text::lemma_spec_digits_nonempty;

verus! {

/// A request lacking an `action` field is always malformed: status 400, on
/// any state.
pub proof fn lemma_no_action_rejected(r: RequestView, s: StateModel)
    requires
        r.action is None,
    ensures
        spec_dispatch(r, s).1.status == 400,
        spec_dispatch(r, s).0 == s,
{
}

/// A request whose string `sat` token resolves to the reserved identity `0`
/// is refused with status 401, whatever action it names.
pub proof fn lemma_unresolved_token_rejected(r: RequestView, s: StateModel, tok: Seq<char>)
    requires
        r.action is Some,
        r.sat == Option::Some(FieldView::Str(tok)),
        spec_resolve(s.sessions, tok) == 0,
    ensures
        spec_dispatch(r, s).1.status == 401,
        spec_dispatch(r, s).0 == s,
{
}

/// `new_group` under a resolving token and with a string `name` yields
/// either 200 carrying a positive group id, or 500; a 200 body never carries
/// id `0`.
pub proof fn lemma_new_group_outcome(r: RequestView, s: StateModel, tok: Seq<char>)
    requires
        r.sat == Option::Some(FieldView::Str(tok)),
        spec_resolve(s.sessions, tok) != 0,
        spec_action(r) == Action::NewGroup,
        r.name matches Option::Some(FieldView::Str(_)),
    ensures
        ({
            let out = spec_dispatch(r, s).1;
            out.status == 500 || (out.body matches BodyView::Id(gid) && out.status == 200
                && gid > 0)
        }),
{
}

/// `login` with registered credentials (and a mintable token) succeeds:
/// status 200 with a non-empty token.
pub proof fn lemma_login_correct_creds(r: RequestView, s: StateModel, u: u64, p: Seq<char>)
    requires
        spec_action(r) == Action::Login,
        r.sat is None,
        r.uid == Option::Some(FieldView::UInt(u)),
        r.password == Option::Some(FieldView::Str(p)),
        spec_good_creds(s.users, u, p),
        s.next_token < u64::MAX,
    ensures
        ({
            let out = spec_dispatch(r, s).1;
            out.body matches BodyView::Token(t) && out.status == 200 && t.len() > 0
        }),
{
    lemma_spec_digits_nonempty(s.next_token);
}

/// `login` with credentials that name no account fails with 401, and the
/// state is untouched.
pub proof fn lemma_login_bad_creds(r: RequestView, s: StateModel, u: u64, p: Seq<char>)
    requires
        spec_action(r) == Action::Login,
        r.sat is None,
        r.uid == Option::Some(FieldView::UInt(u)),
        r.password == Option::Some(FieldView::Str(p)),
        !spec_good_creds(s.users, u, p),
    ensures
        spec_dispatch(r, s).1.status == 401,
        spec_dispatch(r, s).0 == s,
{
}

/// `login` with a missing or mistyped `uid` or `password` is malformed:
/// status 400, on any state.
pub proof fn lemma_login_missing_fields(r: RequestView, s: StateModel)
    requires
        spec_action(r) == Action::Login,
        r.sat is None,
        !(r.uid matches Option::Some(FieldView::UInt(_)) && r.password matches Option::Some(
            FieldView::Str(_),
        )),
    ensures
        spec_dispatch(r, s).1.status == 400,
        spec_dispatch(r, s).0 == s,
{
}

/// `reg` is rejected with 400 whenever `password` and `password_repeat`
/// differ, however well-formed both are.
pub proof fn lemma_reg_password_mismatch(
    r: RequestView,
    s: StateModel,
    nm: Seq<char>,
    pw: Seq<char>,
    pwr: Seq<char>,
)
    requires
        spec_action(r) == Action::Reg,
        r.sat is None,
        r.name == Option::Some(FieldView::Str(nm)),
        r.password == Option::Some(FieldView::Str(pw)),
        r.password_repeat == Option::Some(FieldView::Str(pwr)),
        pw != pwr,
    ensures
        spec_dispatch(r, s).1.status == 400,
        spec_dispatch(r, s).1.body == BodyView::ErrRegRejected,
        spec_dispatch(r, s).0 == s,
{
}

/// `group_stat` with `gid` absent, non-integer, or `0` is malformed: status
/// 400, on any state.
pub proof fn lemma_group_stat_bad_gid(r: RequestView, s: StateModel)
    requires
        spec_action(r) == Action::GroupStat,
        r.sat is None,
        !(r.gid matches Option::Some(FieldView::UInt(g)) && g > 0),
    ensures
        spec_dispatch(r, s).1.status == 400,
        spec_dispatch(r, s).0 == s,
{
}

/// `group_stat` with a well-formed positive `gid` that names no group yields
/// 404.
pub proof fn lemma_group_stat_not_found(r: RequestView, s: StateModel, g: u64)
    requires
        spec_action(r) == Action::GroupStat,
        r.sat is None,
        r.gid == Option::Some(FieldView::UInt(g)),
        g > 0,
        spec_find_group(s.groups, g) is None,
    ensures
        spec_dispatch(r, s).1.status == 404,
        spec_dispatch(r, s).0 == s,
{
}

/// `group_stat` on a present group yields 200, and the `members` array is
/// exactly the store's member list for that group — in particular its length
/// is the store's membership count; on a well-formed state no listed member
/// carries the reserved identity `0`.
pub proof fn lemma_group_stat_found(r: RequestView, s: StateModel, g: u64)
    requires
        s.wf(),
        spec_action(r) == Action::GroupStat,
        r.sat is None,
        r.gid == Option::Some(FieldView::UInt(g)),
        g > 0,
        spec_find_group(s.groups, g) is Some,
    ensures
        ({
            let out = spec_dispatch(r, s).1;
            out.body matches BodyView::GroupStat(b) && out.status == 200 && b.members
                == spec_members_of(s.members, g) && b.members.len() == spec_members_of(
                s.members,
                g,
            ).len() && (forall|i: int|
                0 <= i < b.members.len() ==> #[trigger] b.members[i].uid != 0)
        }),
        spec_dispatch(r, s).0 == s,
{
    lemma_members_of_uids_nonzero(s.members, g);
}

/// A success body never carries the reserved id `0`: any 200 outcome whose
/// body is an id holds a positive one.
pub proof fn lemma_success_id_positive(r: RequestView, s: StateModel)
    requires
        s.wf(),
    ensures
        ({
            let out = spec_dispatch(r, s).1;
            out.body matches BodyView::Id(n) ==> (out.status == 200 ==> n > 0)
        }),
{
}

} // verus!
