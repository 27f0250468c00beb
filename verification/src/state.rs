//! The shared state the dispatcher works on: the user table, the session
//! table, and the group/membership tables, with the narrow operations the
//! dispatcher consumes.
//!
//! Failure conventions, kept uniform across operations: a user or group id of
//! `0` never names a real entity and is the failure sentinel; an empty token
//! is the failure sentinel of token issuance.

use vstd::prelude::*;

use crate::text::spec_digits;

verus! {

/// One registered user account.
pub struct UserRec {
    pub id: u64,
    pub name: String,
    pub password: String,
}

/// Ghost model of a user account.
pub ghost struct UserModel {
    pub id: u64,
    pub name: Seq<char>,
    pub password: Seq<char>,
}

impl View for UserRec {
    type V = UserModel;

    open spec fn view(&self) -> UserModel {
        UserModel { id: self.id, name: self.name@, password: self.password@ }
    }
}

/// One live session: an opaque token standing for an authenticated user.
pub struct SessionRec {
    pub token: String,
    pub uid: u64,
}

/// Ghost model of a session.
pub ghost struct SessionModel {
    pub token: Seq<char>,
    pub uid: u64,
}

impl View for SessionRec {
    type V = SessionModel;

    open spec fn view(&self) -> SessionModel {
        SessionModel { token: self.token@, uid: self.uid }
    }
}

/// One group: a display name and a closed/open flag.
pub struct GroupRec {
    pub id: u64,
    pub name: String,
    pub is_closed: bool,
}

/// Ghost model of a group.
pub ghost struct GroupModel {
    pub id: u64,
    pub name: Seq<char>,
    pub is_closed: bool,
}

impl View for GroupRec {
    type V = GroupModel;

    open spec fn view(&self) -> GroupModel {
        GroupModel { id: self.id, name: self.name@, is_closed: self.is_closed }
    }
}

/// One membership: a user belongs to a group, possibly as admin.
#[derive(PartialEq, Eq, Structural, Clone, Copy, Debug)]
pub struct MembershipRec {
    pub gid: u64,
    pub uid: u64,
    pub is_admin: bool,
}

/// What a group lookup yields: the group's display data.
pub struct GroupInfo {
    pub name: String,
    pub is_closed: bool,
}

/// Ghost model of a group lookup result.
pub ghost struct GroupInfoView {
    pub name: Seq<char>,
    pub is_closed: bool,
}

impl View for GroupInfo {
    type V = GroupInfoView;

    open spec fn view(&self) -> GroupInfoView {
        GroupInfoView { name: self.name@, is_closed: self.is_closed }
    }
}

/// A member as it appears in a `group_stat` response.
#[derive(PartialEq, Eq, Structural, Clone, Copy, Debug)]
pub struct MemberEntry {
    pub uid: u64,
    pub is_admin: bool,
}

/// The shared state: all tables, plus the counters that mint fresh ids and
/// tokens.
pub struct DataState {
    pub users: Vec<UserRec>,
    pub sessions: Vec<SessionRec>,
    pub groups: Vec<GroupRec>,
    pub members: Vec<MembershipRec>,
    pub next_uid: u64,
    pub next_gid: u64,
    pub next_token: u64,
}

/// Ghost model of the shared state.
pub ghost struct StateModel {
    pub users: Seq<UserModel>,
    pub sessions: Seq<SessionModel>,
    pub groups: Seq<GroupModel>,
    pub members: Seq<MembershipRec>,
    pub next_uid: u64,
    pub next_gid: u64,
    pub next_token: u64,
}

impl View for DataState {
    type V = StateModel;

    open spec fn view(&self) -> StateModel {
        StateModel {
            users: self.users@.map_values(|u: UserRec| u@),
            sessions: self.sessions@.map_values(|s: SessionRec| s@),
            groups: self.groups@.map_values(|g: GroupRec| g@),
            members: self.members@,
            next_uid: self.next_uid,
            next_gid: self.next_gid,
            next_token: self.next_token,
        }
    }
}

impl StateModel {
    /// Well-formedness: ids are non-zero, below their minting counter, and
    /// unique; a session never stands for the reserved identity `0`.
    pub open spec fn wf(self) -> bool {
        &&& self.next_uid >= 1
        &&& self.next_gid >= 1
        &&& self.next_token >= 1
        &&& forall|i: int|
            0 <= i < self.users.len() ==> 0 < #[trigger] self.users[i].id < self.next_uid
        &&& forall|i: int, j: int|
            0 <= i < j < self.users.len() ==> #[trigger] self.users[i].id != #[trigger] self.users[j].id
        &&& forall|i: int|
            0 <= i < self.groups.len() ==> 0 < #[trigger] self.groups[i].id < self.next_gid
        &&& forall|i: int, j: int|
            0 <= i < j < self.groups.len() ==> #[trigger] self.groups[i].id != #[trigger] self.groups[j].id
        &&& forall|i: int| 0 <= i < self.sessions.len() ==> #[trigger] self.sessions[i].uid != 0
        &&& forall|i: int| 0 <= i < self.members.len() ==> #[trigger] self.members[i].uid != 0
    }
}

/// The token minted from counter value `n`.
pub open spec fn spec_token(n: u64) -> Seq<char> {
    "tok"@ + spec_digits(n)
}

/// The identity a token resolves to: the uid of the first session holding the
/// token, `0` when no session does.
pub open spec fn spec_resolve(sessions: Seq<SessionModel>, token: Seq<char>) -> u64
    decreases sessions.len(),
{
    if sessions.len() == 0 {
        0
    } else if sessions[0].token == token {
        sessions[0].uid
    } else {
        spec_resolve(sessions.drop_first(), token)
    }
}

/// Whether some session holds the token.
pub open spec fn spec_has_session(sessions: Seq<SessionModel>, token: Seq<char>) -> bool {
    exists|i: int| 0 <= i < sessions.len() && #[trigger] sessions[i].token == token
}

/// The session table with every session holding `token` removed.
pub open spec fn spec_without_token(sessions: Seq<SessionModel>, token: Seq<char>) -> Seq<
    SessionModel,
>
    decreases sessions.len(),
{
    if sessions.len() == 0 {
        sessions
    } else {
        let rest = spec_without_token(sessions.drop_last(), token);
        if sessions.last().token == token {
            rest
        } else {
            rest.push(sessions.last())
        }
    }
}

/// Whether `(uid, password)` names a registered account.
pub open spec fn spec_good_creds(users: Seq<UserModel>, uid: u64, password: Seq<char>) -> bool {
    exists|i: int|
        0 <= i < users.len() && #[trigger] users[i].id == uid && users[i].password == password
}

/// The first group with id `gid`, if any, reduced to its display data.
pub open spec fn spec_find_group(groups: Seq<GroupModel>, gid: u64) -> Option<GroupInfoView>
    decreases groups.len(),
{
    if groups.len() == 0 {
        Option::None
    } else if groups[0].id == gid {
        Option::Some(GroupInfoView { name: groups[0].name, is_closed: groups[0].is_closed })
    } else {
        spec_find_group(groups.drop_first(), gid)
    }
}

/// The members of group `gid`, in table order.
pub open spec fn spec_members_of(members: Seq<MembershipRec>, gid: u64) -> Seq<MemberEntry>
    decreases members.len(),
{
    if members.len() == 0 {
        Seq::empty()
    } else {
        let rest = spec_members_of(members.drop_last(), gid);
        if members.last().gid == gid {
            rest.push(MemberEntry { uid: members.last().uid, is_admin: members.last().is_admin })
        } else {
            rest
        }
    }
}

/// A member list drawn from a table without the reserved identity `0`
/// carries no reserved identity either.
pub proof fn lemma_members_of_uids_nonzero(members: Seq<MembershipRec>, gid: u64)
    requires
        forall|i: int| 0 <= i < members.len() ==> #[trigger] members[i].uid != 0,
    ensures
        forall|i: int|
            0 <= i < spec_members_of(members, gid).len() ==> #[trigger] spec_members_of(
                members,
                gid,
            )[i].uid != 0,
    decreases members.len(),
{
    if members.len() > 0 {
        assert(forall|i: int|
            0 <= i < members.drop_last().len() ==> #[trigger] members.drop_last()[i].uid != 0);
        lemma_members_of_uids_nonzero(members.drop_last(), gid);
        let rest = spec_members_of(members.drop_last(), gid);
        if members.last().gid == gid {
            let whole = spec_members_of(members, gid);
            assert(forall|i: int| 0 <= i < rest.len() ==> #[trigger] whole[i] == rest[i]);
            assert(whole[whole.len() - 1].uid == members.last().uid);
        }
    }
}

/// Token issuance: with registered credentials (and a mintable token) a fresh
/// session is appended and its token returned; otherwise the state is
/// unchanged and the empty token signals failure.
pub open spec fn spec_issue(s: StateModel, uid: u64, password: Seq<char>) -> (StateModel, Seq<
    char,
>) {
    if spec_good_creds(s.users, uid, password) && s.next_token < u64::MAX {
        (
            StateModel {
                sessions: s.sessions.push(SessionModel { token: spec_token(s.next_token), uid }),
                next_token: (s.next_token + 1) as u64,
                ..s
            },
            spec_token(s.next_token),
        )
    } else {
        (s, Seq::empty())
    }
}

/// Whether a registration attempt is acceptable: non-empty name and password,
/// matching password confirmation, and a mintable id.
pub open spec fn spec_register_ok(
    s: StateModel,
    name: Seq<char>,
    password: Seq<char>,
    password_repeat: Seq<char>,
) -> bool {
    name.len() > 0 && password.len() > 0 && password == password_repeat && s.next_uid < u64::MAX
}

/// Account creation: an acceptable attempt appends a fresh account and
/// returns its id; otherwise the state is unchanged and `0` signals the
/// validation failure.
pub open spec fn spec_register(
    s: StateModel,
    name: Seq<char>,
    password: Seq<char>,
    password_repeat: Seq<char>,
) -> (StateModel, u64) {
    if spec_register_ok(s, name, password, password_repeat) {
        (
            StateModel {
                users: s.users.push(UserModel { id: s.next_uid, name, password }),
                next_uid: (s.next_uid + 1) as u64,
                ..s
            },
            s.next_uid,
        )
    } else {
        (s, 0)
    }
}

/// Session revocation: every session holding the token is removed; the flag
/// says whether there was one.
pub open spec fn spec_revoke(s: StateModel, token: Seq<char>) -> (StateModel, bool) {
    (
        StateModel { sessions: spec_without_token(s.sessions, token), ..s },
        spec_has_session(s.sessions, token),
    )
}

/// Group creation: with a mintable id, a fresh group is appended and its
/// owner becomes its first (admin) member; `0` signals failure.
pub open spec fn spec_create_group(s: StateModel, owner: u64, name: Seq<char>) -> (StateModel, u64) {
    if s.next_gid < u64::MAX {
        (
            StateModel {
                groups: s.groups.push(GroupModel { id: s.next_gid, name, is_closed: false }),
                members: s.members.push(
                    MembershipRec { gid: s.next_gid, uid: owner, is_admin: true },
                ),
                next_gid: (s.next_gid + 1) as u64,
                ..s
            },
            s.next_gid,
        )
    } else {
        (s, 0)
    }
}

/// Builds the token minted from counter value `n`.
fn make_token(n: u64) -> (r: String)
    ensures
        r@ == spec_token(n),
{
    let mut t: String = "tok".to_owned();
    crate::text::push_digits(n, &mut t);
    t
}

impl DataState {
    /// An empty state: no accounts, no sessions, no groups; counters start at
    /// `1`, so id `0` is never minted.
    pub fn new() -> (r: DataState)
        ensures
            r@.wf(),
            r@.users == Seq::<UserModel>::empty(),
            r@.sessions == Seq::<SessionModel>::empty(),
            r@.groups == Seq::<GroupModel>::empty(),
            r@.members == Seq::<MembershipRec>::empty(),
            r@.next_uid == 1,
            r@.next_gid == 1,
            r@.next_token == 1,
    {
        let r = DataState {
            users: Vec::new(),
            sessions: Vec::new(),
            groups: Vec::new(),
            members: Vec::new(),
            next_uid: 1,
            next_gid: 1,
            next_token: 1,
        };
        proof {
            assert(r@.users =~= Seq::<UserModel>::empty());
            assert(r@.sessions =~= Seq::<SessionModel>::empty());
            assert(r@.groups =~= Seq::<GroupModel>::empty());
            assert(r@.members =~= Seq::<MembershipRec>::empty());
        }
        r
    }

    /// Decides well-formedness, so that an unverified caller can test it
    /// before handing a state it built itself to the operations that require
    /// it.
    pub fn is_wf(&self) -> (r: bool)
        ensures
            r == self@.wf(),
    {
        let ghost m = self@;
        if self.next_uid < 1 || self.next_gid < 1 || self.next_token < 1 {
            return false;
        }
        let mut i: usize = 0;
        while i < self.users.len()
            invariant
                0 <= i <= self.users.len(),
                m == self@,
                m.users.len() == self.users.len(),
                forall|k: int| 0 <= k < m.users.len() ==> m.users[k] == #[trigger] self.users@[k]@,
                forall|k: int| 0 <= k < i ==> 0 < #[trigger] m.users[k].id < m.next_uid,
                forall|a: int, b: int|
                    0 <= a < b < m.users.len() && a < i ==> #[trigger] m.users[a].id
                        != #[trigger] m.users[b].id,
            decreases self.users.len() - i,
        {
            let id = self.users[i].id;
            if id == 0 || id >= self.next_uid {
                proof {
                    assert(!(0 < m.users[i as int].id < m.next_uid));
                }
                return false;
            }
            let mut j: usize = i + 1;
            while j < self.users.len()
                invariant
                    i < j <= self.users.len(),
                    m == self@,
                    m.users.len() == self.users.len(),
                    forall|k: int|
                        0 <= k < m.users.len() ==> m.users[k] == #[trigger] self.users@[k]@,
                    id == m.users[i as int].id,
                    forall|l: int| i < l < j ==> #[trigger] m.users[l].id != id,
                decreases self.users.len() - j,
            {
                if self.users[j].id == id {
                    proof {
                        assert(m.users[i as int].id == m.users[j as int].id);
                    }
                    return false;
                }
                j = j + 1;
            }
            i = i + 1;
        }
        let mut i: usize = 0;
        while i < self.groups.len()
            invariant
                0 <= i <= self.groups.len(),
                m == self@,
                m.groups.len() == self.groups.len(),
                forall|k: int|
                    0 <= k < m.groups.len() ==> m.groups[k] == #[trigger] self.groups@[k]@,
                forall|k: int| 0 <= k < i ==> 0 < #[trigger] m.groups[k].id < m.next_gid,
                forall|a: int, b: int|
                    0 <= a < b < m.groups.len() && a < i ==> #[trigger] m.groups[a].id
                        != #[trigger] m.groups[b].id,
            decreases self.groups.len() - i,
        {
            let id = self.groups[i].id;
            if id == 0 || id >= self.next_gid {
                proof {
                    assert(!(0 < m.groups[i as int].id < m.next_gid));
                }
                return false;
            }
            let mut j: usize = i + 1;
            while j < self.groups.len()
                invariant
                    i < j <= self.groups.len(),
                    m == self@,
                    m.groups.len() == self.groups.len(),
                    forall|k: int|
                        0 <= k < m.groups.len() ==> m.groups[k] == #[trigger] self.groups@[k]@,
                    id == m.groups[i as int].id,
                    forall|l: int| i < l < j ==> #[trigger] m.groups[l].id != id,
                decreases self.groups.len() - j,
            {
                if self.groups[j].id == id {
                    proof {
                        assert(m.groups[i as int].id == m.groups[j as int].id);
                    }
                    return false;
                }
                j = j + 1;
            }
            i = i + 1;
        }
        let mut i: usize = 0;
        while i < self.sessions.len()
            invariant
                0 <= i <= self.sessions.len(),
                m == self@,
                m.sessions.len() == self.sessions.len(),
                forall|k: int|
                    0 <= k < m.sessions.len() ==> m.sessions[k] == #[trigger] self.sessions@[k]@,
                forall|k: int| 0 <= k < i ==> #[trigger] m.sessions[k].uid != 0,
            decreases self.sessions.len() - i,
        {
            if self.sessions[i].uid == 0 {
                proof {
                    assert(m.sessions[i as int].uid == 0);
                }
                return false;
            }
            i = i + 1;
        }
        let mut i: usize = 0;
        while i < self.members.len()
            invariant
                0 <= i <= self.members.len(),
                m == self@,
                m.members.len() == self.members.len(),
                m.members == self.members@,
                forall|k: int| 0 <= k < i ==> #[trigger] m.members[k].uid != 0,
            decreases self.members.len() - i,
        {
            if self.members[i].uid == 0 {
                proof {
                    assert(m.members[i as int].uid == 0);
                }
                return false;
            }
            i = i + 1;
        }
        true
    }

    /// Resolves a session token to the identity it stands for; `0` means the
    /// token is invalid or expired.
    pub fn verify(&self, token: &String) -> (uid: u64)
        ensures
            uid == spec_resolve(self@.sessions, token@),
    {
        let ghost all = self@.sessions;
        proof {
            assert(all.skip(0) =~= all);
        }
        let mut i: usize = 0;
        while i < self.sessions.len()
            invariant
                0 <= i <= self.sessions.len(),
                all == self@.sessions,
                all.len() == self.sessions.len(),
                forall|k: int| 0 <= k < all.len() ==> all[k] == #[trigger] self.sessions@[k]@,
                spec_resolve(all, token@) == spec_resolve(all.skip(i as int), token@),
            decreases self.sessions.len() - i,
        {
            let rec = &self.sessions[i];
            proof {
                assert(all.skip(i as int)[0] == all[i as int]);
            }
            if crate::request::string_eq(&rec.token, token.as_str()) {
                return rec.uid;
            }
            proof {
                assert(all.skip(i as int).drop_first() =~= all.skip(i as int + 1));
            }
            i = i + 1;
        }
        proof {
            assert(all.skip(self.sessions.len() as int).len() == 0);
        }
        0
    }

    /// Issues a session token for `(uid, password)`; the empty string signals
    /// invalid credentials (or an exhausted token counter).
    pub fn issue(&mut self, uid: u64, password: &String) -> (token: String)
        requires
            old(self)@.wf(),
        ensures
            final(self)@ == spec_issue(old(self)@, uid, password@).0,
            token@ == spec_issue(old(self)@, uid, password@).1,
            final(self)@.wf(),
    {
        let ghost usrs = self@.users;
        let mut found: bool = false;
        let mut i: usize = 0;
        while i < self.users.len()
            invariant
                0 <= i <= self.users.len(),
                *self == *old(self),
                usrs == self@.users,
                usrs.len() == self.users.len(),
                forall|k: int| 0 <= k < usrs.len() ==> usrs[k] == #[trigger] self.users@[k]@,
                found ==> spec_good_creds(usrs, uid, password@),
                !found ==> forall|k: int|
                    0 <= k < i ==> !((#[trigger] usrs[k].id) == uid && usrs[k].password
                        == password@),
            decreases self.users.len() - i,
        {
            let u = &self.users[i];
            if u.id == uid && crate::request::string_eq(&u.password, password.as_str()) {
                found = true;
                proof {
                    assert(usrs[i as int].id == uid && usrs[i as int].password == password@);
                }
            }
            i = i + 1;
        }
        proof {
            if !found {
                assert(!spec_good_creds(usrs, uid, password@));
            }
        }
        if found && self.next_token < u64::MAX {
            let tok = make_token(self.next_token);
            let stored = tok.clone();
            self.sessions.push(SessionRec { token: stored, uid });
            self.next_token = self.next_token + 1;
            proof {
                assert(self@.sessions =~= old(self)@.sessions.push(
                    SessionModel { token: spec_token(old(self)@.next_token), uid },
                ));
                assert(self@.users =~= old(self)@.users);
                assert(self@.groups =~= old(self)@.groups);
                assert(uid != 0) by {
                    let k = choose|k: int|
                        0 <= k < usrs.len() && (#[trigger] usrs[k].id) == uid && usrs[k].password
                            == password@;
                    assert(usrs[k].id > 0);
                }
            }
            tok
        } else {
            proof {
                assert(self@.users =~= old(self)@.users);
                assert(self@.sessions =~= old(self)@.sessions);
                assert(self@.groups =~= old(self)@.groups);
            }
            String::new()
        }
    }

    /// Creates an account for `(name, password)` when the attempt is
    /// acceptable, returning the fresh user id; `0` signals rejection.
    pub fn register(&mut self, name: &String, password: &String, password_repeat: &String) -> (uid:
        u64)
        requires
            old(self)@.wf(),
        ensures
            final(self)@ == spec_register(old(self)@, name@, password@, password_repeat@).0,
            uid == spec_register(old(self)@, name@, password@, password_repeat@).1,
            final(self)@.wf(),
    {
        let acceptable = !name.as_str().is_empty() && !password.as_str().is_empty()
            && crate::request::string_eq(password, password_repeat.as_str())
            && self.next_uid < u64::MAX;
        if acceptable {
            let id = self.next_uid;
            self.users.push(UserRec { id, name: name.clone(), password: password.clone() });
            self.next_uid = self.next_uid + 1;
            proof {
                assert(self@.users =~= old(self)@.users.push(
                    UserModel { id: old(self)@.next_uid, name: name@, password: password@ },
                ));
                assert(self@.sessions =~= old(self)@.sessions);
                assert(self@.groups =~= old(self)@.groups);
            }
            id
        } else {
            proof {
                assert(self@.users =~= old(self)@.users);
                assert(self@.sessions =~= old(self)@.sessions);
                assert(self@.groups =~= old(self)@.groups);
            }
            0
        }
    }

    /// Ends every session holding `token`; the result says whether any
    /// existed.
    pub fn revoke(&mut self, token: &String) -> (found: bool)
        requires
            old(self)@.wf(),
        ensures
            final(self)@ == spec_revoke(old(self)@, token@).0,
            found == spec_revoke(old(self)@, token@).1,
            final(self)@.wf(),
    {
        let ghost all = old(self)@.sessions;
        let mut pending: Vec<SessionRec> = Vec::new();
        core::mem::swap(&mut pending, &mut self.sessions);
        let ghost mut done = Seq::<SessionModel>::empty();
        let mut found: bool = false;
        proof {
            assert(done + pending@.map_values(|s: SessionRec| s@) =~= all);
            assert(self@.sessions =~= spec_without_token(done, token@));
        }
        while pending.len() > 0
            invariant
                done + pending@.map_values(|s: SessionRec| s@) == all,
                self@.sessions == spec_without_token(done, token@),
                found == spec_has_session(done, token@),
                self.users == old(self).users,
                self.groups == old(self).groups,
                self.members == old(self).members,
                self.next_uid == old(self).next_uid,
                self.next_gid == old(self).next_gid,
                self.next_token == old(self).next_token,
                forall|i: int|
                    0 <= i < self@.sessions.len() ==> #[trigger] self@.sessions[i].uid != 0,
                forall|i: int| 0 <= i < all.len() ==> #[trigger] all[i].uid != 0,
            decreases pending.len(),
        {
            let ghost pend_pre = pending@.map_values(|s: SessionRec| s@);
            let rec = pending.remove(0);
            let ghost done_pre = done;
            proof {
                done = done.push(rec@);
                assert(pending@.map_values(|s: SessionRec| s@) =~= pend_pre.drop_first());
                assert(done + pending@.map_values(|s: SessionRec| s@) =~= all) by {
                    assert(pend_pre[0] == rec@);
                    assert(done_pre + pend_pre =~= all);
                }
                assert(done.drop_last() =~= done_pre);
                assert(done.last() == rec@);
                assert((done_pre + pend_pre)[done_pre.len() as int] == pend_pre[0]);
                assert(rec@.uid != 0);
            }
            if crate::request::string_eq(&rec.token, token.as_str()) {
                found = true;
                proof {
                    assert(spec_has_session(done, token@)) by {
                        assert(done[done.len() as int - 1] == rec@);
                        assert(done[done.len() as int - 1].token == token@);
                    }
                }
            } else {
                self.sessions.push(rec);
                proof {
                    assert(self@.sessions =~= spec_without_token(done_pre, token@).push(rec@));
                    assert(spec_has_session(done, token@) == spec_has_session(done_pre, token@))
                        by {
                        if spec_has_session(done_pre, token@) {
                            let i = choose|i: int|
                                0 <= i < done_pre.len() && #[trigger] done_pre[i].token == token@;
                            assert(done[i] == done_pre[i]);
                        }
                        if spec_has_session(done, token@) {
                            let i = choose|i: int|
                                0 <= i < done.len() && #[trigger] done[i].token == token@;
                            if i < done_pre.len() {
                                assert(done_pre[i] == done[i]);
                            }
                        }
                    }
                }
            }
        }
        proof {
            assert(pending@.map_values(|s: SessionRec| s@).len() == 0);
            assert(done =~= all);
            assert(self@.members =~= old(self)@.members);
            assert(self@.users =~= old(self)@.users);
            assert(self@.groups =~= old(self)@.groups);
            assert(self@.wf());
        }
        found
    }

    /// Creates a group named `name`, owned by `owner`, who becomes its first
    /// (admin) member; the fresh group id is returned, `0` signalling
    /// failure.
    pub fn create_group(&mut self, owner: u64, name: &String) -> (gid: u64)
        requires
            old(self)@.wf(),
            owner != 0,
        ensures
            final(self)@ == spec_create_group(old(self)@, owner, name@).0,
            gid == spec_create_group(old(self)@, owner, name@).1,
            final(self)@.wf(),
    {
        if self.next_gid < u64::MAX {
            let id = self.next_gid;
            self.groups.push(GroupRec { id, name: name.clone(), is_closed: false });
            self.members.push(MembershipRec { gid: id, uid: owner, is_admin: true });
            self.next_gid = self.next_gid + 1;
            proof {
                assert(self@.groups =~= old(self)@.groups.push(
                    GroupModel { id: old(self)@.next_gid, name: name@, is_closed: false },
                ));
                assert(self@.users =~= old(self)@.users);
                assert(self@.sessions =~= old(self)@.sessions);
            }
            id
        } else {
            proof {
                assert(self@.users =~= old(self)@.users);
                assert(self@.sessions =~= old(self)@.sessions);
                assert(self@.groups =~= old(self)@.groups);
            }
            0
        }
    }

    /// Looks a group up by id, yielding its display data when it exists.
    pub fn find_group(&self, gid: u64) -> (r: Option<GroupInfo>)
        ensures
            match r {
                Option::None => spec_find_group(self@.groups, gid) is None,
                Option::Some(info) => spec_find_group(self@.groups, gid) == Option::Some(info@),
            },
    {
        let ghost all = self@.groups;
        proof {
            assert(all.skip(0) =~= all);
        }
        let mut i: usize = 0;
        while i < self.groups.len()
            invariant
                0 <= i <= self.groups.len(),
                all == self@.groups,
                all.len() == self.groups.len(),
                forall|k: int| 0 <= k < all.len() ==> all[k] == #[trigger] self.groups@[k]@,
                spec_find_group(all, gid) == spec_find_group(all.skip(i as int), gid),
            decreases self.groups.len() - i,
        {
            let rec = &self.groups[i];
            proof {
                assert(all.skip(i as int)[0] == all[i as int]);
            }
            if rec.id == gid {
                return Option::Some(GroupInfo { name: rec.name.clone(), is_closed: rec.is_closed });
            }
            proof {
                assert(all.skip(i as int).drop_first() =~= all.skip(i as int + 1));
            }
            i = i + 1;
        }
        proof {
            assert(all.skip(self.groups.len() as int).len() == 0);
        }
        Option::None
    }

    /// Lists the members of group `gid`, in table order.
    pub fn list_members(&self, gid: u64) -> (r: Vec<MemberEntry>)
        ensures
            r@ == spec_members_of(self@.members, gid),
    {
        let ghost all = self@.members;
        let mut r: Vec<MemberEntry> = Vec::new();
        proof {
            assert(all.take(0) =~= Seq::<MembershipRec>::empty());
            assert(r@ =~= spec_members_of(all.take(0), gid));
        }
        let mut i: usize = 0;
        while i < self.members.len()
            invariant
                0 <= i <= self.members.len(),
                all == self@.members,
                all.len() == self.members.len(),
                r@ == spec_members_of(all.take(i as int), gid),
            decreases self.members.len() - i,
        {
            let rec = self.members[i];
            proof {
                assert(all.take(i as int + 1).drop_last() =~= all.take(i as int));
                assert(all.take(i as int + 1).last() == all[i as int]);
            }
            if rec.gid == gid {
                r.push(MemberEntry { uid: rec.uid, is_admin: rec.is_admin });
            }
            i = i + 1;
        }
        proof {
            assert(all.take(self.members.len() as int) =~= all);
        }
        r
    }
}

} // verus!
