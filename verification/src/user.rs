//! Accounts, their rooms and their passwords.

use vstd::prelude::*;
use chrono::NaiveDateTime;
use crate::error::AppError;
use crate::grouping::{group_pairs, has_key, is_grouping, values_of};

verus! {

/// The role of an account.
#[derive(Clone, Copy, Debug, PartialEq, Eq, Structural)]
pub enum RoleType {
    Root,
    Manager,
    SubManager,
    User,
}

impl Default for RoleType {
    /// An account is an ordinary user unless said otherwise.
    fn default() -> (r: RoleType)
        ensures
            r == RoleType::User,
    {
        RoleType::User
    }
}

impl RoleType {
    /// The name of the role, as `Debug` writes it.
    pub open spec fn name(self) -> Seq<char> {
        match self {
            RoleType::Root => "Root"@,
            RoleType::Manager => "Manager"@,
            RoleType::SubManager => "SubManager"@,
            RoleType::User => "User"@,
        }
    }

    /// The name of the role, as `Debug` writes it.
    pub fn name_text(&self) -> (r: String)
        ensures
            r@ == self.name(),
    {
        match self {
            RoleType::Root => String::from_str("Root"),
            RoleType::Manager => String::from_str("Manager"),
            RoleType::SubManager => String::from_str("SubManager"),
            RoleType::User => String::from_str("User"),
        }
    }
}

/// What a login token says of an account.
#[derive(Debug)]
pub struct AccountInfo {
    pub account: String,
    pub name: String,
    pub account_id: String,
    pub role_type: String,
}

/// The operator name under which the system itself books records.
pub open spec fn system_operator() -> Seq<char> {
    "system"@
}

pub fn system_operator_name() -> (r: String)
    ensures
        r@ == system_operator(),
{
    proof {
        reveal_strlit("system");
    }
    String::from_str("system")
}

/// An account.
#[derive(Debug)]
pub struct UserPo {
    pub id: i64,
    pub account_id: String,
    pub account: String,
    pub password: String,
    pub name: String,
    pub role_type: RoleType,
    pub create_by: String,
    pub update_by: String,
    pub create_time: NaiveDateTime,
    pub update_time: NaiveDateTime,
    pub comment: Option<String>,
    pub is_delete: bool,
}

impl UserPo {
    /// What a login token says of the account: its name, display name, id
    /// and the name of its role.
    pub fn create_info(self) -> (r: AccountInfo)
        ensures
            r.account == self.account,
            r.name == self.name,
            r.account_id == self.account_id,
            r.role_type@ == self.role_type.name(),
    {
        let role_type = self.role_type.name_text();
        AccountInfo { account: self.account, name: self.name, account_id: self.account_id, role_type }
    }
}

/// Two accounts are the same account when their account ids agree.
impl PartialEq for UserPo {
    fn eq(&self, other: &Self) -> (r: bool) {
        self.account_id == other.account_id
    }
}

impl vstd::std_specs::cmp::PartialEqSpecImpl for UserPo {
    open spec fn obeys_eq_spec() -> bool {
        true
    }

    open spec fn eq_spec(&self, other: &UserPo) -> bool {
        self.account_id@ == other.account_id@
    }
}

/// A new account.
#[derive(Debug)]
pub struct UserInsertPo {
    pub account_id: Option<String>,
    pub account: String,
    pub password: String,
    pub name: String,
    pub role_type: RoleType,
    pub create_by: String,
    pub update_by: String,
    pub create_time: Option<NaiveDateTime>,
    pub update_time: Option<NaiveDateTime>,
    pub comment: Option<String>,
    pub is_delete: bool,
    pub relate_user_id: Option<String>,
}

/// A binding of a room to an account.
#[derive(Debug)]
pub struct UserRelateRoomPo {
    pub id: i64,
    pub relate_account_id: String,
    pub relate_number: String,
}

/// A binding to be stored.
#[derive(Debug)]
pub struct UserRelateRoomInsertPo {
    pub relate_account_id: String,
    pub relate_number: String,
}

/// The bindings that bind each of `p_room_numbers` to the account, in order;
/// none for no rooms.
pub fn relate_rows(p_account_id: &str, p_room_numbers: &Vec<&str>) -> (r: Vec<UserRelateRoomInsertPo>)
    ensures
        r.len() == p_room_numbers.len(),
        forall|i: int|
            0 <= i < r.len() ==> (#[trigger] r@[i]).relate_account_id@ == p_account_id@
                && r@[i].relate_number@ == p_room_numbers@[i]@,
{
    let mut rows: Vec<UserRelateRoomInsertPo> = Vec::new();
    let mut i: usize = 0;
    while i < p_room_numbers.len()
        invariant
            i <= p_room_numbers.len(),
            rows.len() == i,
            forall|k: int|
                0 <= k < i ==> (#[trigger] rows@[k]).relate_account_id@ == p_account_id@
                    && rows@[k].relate_number@ == p_room_numbers@[k]@,
        decreases p_room_numbers.len() - i,
    {
        rows.push(
            UserRelateRoomInsertPo {
                relate_account_id: String::from_str(p_account_id),
                relate_number: String::from_str(p_room_numbers[i]),
            },
        );
        i = i + 1;
    }
    rows
}

/// The pattern that finds names or accounts containing `value`.
pub fn contains_like_pattern(value: &str) -> (r: String)
    ensures
        r@ == "%"@ + value@ + "%"@,
{
    proof {
        reveal_strlit("%");
    }
    let mut s = String::from_str("%");
    s.append(value);
    s.append("%");
    s
}

/// The rooms bound to the account of user `i`: the rooms of its account,
/// given to the first user of that account only, as removing them from a map
/// of accounts to rooms does.
pub open spec fn rooms_for(
    users: Seq<UserPo>,
    pairs: Seq<(String, String)>,
    i: int,
) -> Option<Seq<String>> {
    let acc = users[i].account_id@;
    if has_key(pairs, acc) && !(exists|j: int| 0 <= j < i && #[trigger] users[j].account_id@ == acc) {
        Some(values_of(pairs, acc))
    } else {
        None
    }
}

/// The users of a search, each with the rooms bound to its account (none
/// where it has none).
pub fn attach_relations(users: Vec<UserPo>, relations: Vec<UserRelateRoomPo>) -> (r: Vec<
    (UserPo, Option<Vec<String>>),
>)
    ensures
        r.len() == users.len(),
        exists|pairs: Seq<(String, String)>|
            pairs.len() == relations.len() && (forall|k: int|
                0 <= k < pairs.len() ==> (#[trigger] pairs[k]).0@ == relations@[k].relate_account_id@
                    && pairs[k].1@ == relations@[k].relate_number@) && forall|i: int|
                0 <= i < r.len() ==> (#[trigger] r@[i]).0 == users@[i] && match r@[i].1 {
                    Some(v) => rooms_for(users@, pairs, i) == Some(v@),
                    None => rooms_for(users@, pairs, i) is None,
                },
{
    let ghost rel = relations@;
    let mut pairs: Vec<(String, String)> = Vec::new();
    let mut i: usize = 0;
    while i < relations.len()
        invariant
            i <= relations.len(),
            rel == relations@,
            pairs.len() == i,
            forall|k: int|
                0 <= k < i ==> (#[trigger] pairs@[k]).0@ == rel[k].relate_account_id@
                    && pairs@[k].1@ == rel[k].relate_number@,
        decreases relations.len() - i,
    {
        pairs.push((relations[i].relate_account_id.clone(), relations[i].relate_number.clone()));
        i = i + 1;
    }
    let ghost p = pairs@;
    let groups = group_pairs(pairs);
    let mut taken: Vec<bool> = Vec::new();
    let mut g: usize = 0;
    while g < groups.len()
        invariant
            g <= groups.len(),
            taken.len() == g,
            forall|a: int| 0 <= a < g ==> !taken@[a],
        decreases groups.len() - g,
    {
        taken.push(false);
        g = g + 1;
    }
    let ghost orig = users@;
    assert(orig.len() == users.len());
    let mut rest = users;
    let mut result: Vec<(UserPo, Option<Vec<String>>)> = Vec::new();
    let mut u: usize = 0;
    while rest.len() > 0
        invariant
            u <= orig.len(),
            orig.len() <= usize::MAX,
            rest.len() + u == orig.len(),
            rest@ == orig.skip(u as int),
            is_grouping(p, groups@),
            taken.len() == groups.len(),
            forall|a: int|
                0 <= a < groups.len() ==> (#[trigger] taken@[a] <==> exists|j: int|
                    0 <= j < u && #[trigger] orig[j].account_id@ == groups@[a].0@),
            result.len() == u,
            forall|k: int|
                0 <= k < u ==> (#[trigger] result@[k]).0 == orig[k] && match result@[k].1 {
                    Some(v) => rooms_for(orig, p, k) == Some(v@),
                    None => rooms_for(orig, p, k) is None,
                },
        decreases rest.len(),
    {
        let user = rest.remove(0);
        proof {
            assert(orig.skip(u + 1) =~= orig.skip(u as int).remove(0));
            assert(orig[u as int] == user);
        }
        let mut a: usize = 0;
        while a < groups.len() && !(groups[a].0 == user.account_id)
            invariant
                a <= groups.len(),
                forall|b: int| 0 <= b < a ==> (#[trigger] groups@[b]).0@ != user.account_id@,
            decreases groups.len() - a,
        {
            a = a + 1;
        }
        let ghost acc = user.account_id@;
        let ghost old_taken = taken@;
        let rooms: Option<Vec<String>> = if a < groups.len() && !taken[a] {
            taken.set(a, true);
            Some(clone_rooms(&groups[a].1))
        } else {
            None
        };
        proof {
            if a < groups.len() {
                if !old_taken[a as int] {
                    assert(!(exists|j: int| 0 <= j < u && #[trigger] orig[j].account_id@ == acc));
                    assert(has_key(p, acc));
                } else {
                    let j = choose|j: int| 0 <= j < u && #[trigger] orig[j].account_id@ == groups@[a as int].0@;
                    assert(orig[j].account_id@ == acc);
                }
            } else {
                assert(!has_key(p, acc)) by {
                    if has_key(p, acc) {
                        let w = choose|w: int| 0 <= w < p.len() && #[trigger] p[w].0@ == acc;
                        let b = choose|b: int| 0 <= b < groups@.len() && #[trigger] groups@[b].0@ == #[trigger] p[w].0@;
                        assert(groups@[b].0@ != acc);
                    }
                }
            }
            assert forall|b: int| 0 <= b < groups.len() implies (#[trigger] taken@[b] <==> exists|j: int|
                0 <= j < u + 1 && #[trigger] orig[j].account_id@ == groups@[b].0@) by {
                if b != a {
                    if exists|j: int| 0 <= j < u + 1 && #[trigger] orig[j].account_id@ == groups@[b].0@ {
                        let j = choose|j: int| 0 <= j < u + 1 && #[trigger] orig[j].account_id@ == groups@[b].0@;
                        if j == u {
                            if (a as int) < groups@.len() {
                                assert(groups@[a as int].0@ == acc);
                            }
                        }
                    }
                } else {
                    assert(orig[u as int].account_id@ == groups@[b].0@);
                }
            }
        }
        let ghost before = result@;
        result.push((user, rooms));
        proof {
            assert forall|k: int| 0 <= k < u + 1 implies (#[trigger] result@[k]).0 == orig[k] && match result@[k].1 {
                Some(v) => rooms_for(orig, p, k) == Some(v@),
                None => rooms_for(orig, p, k) is None,
            } by {
                if k < u {
                    assert(result@[k] == before[k]);
                }
            }
        }
        u = u + 1;
    }
    assert(p.len() == rel.len() && (forall|k: int|
        0 <= k < p.len() ==> (#[trigger] p[k]).0@ == rel[k].relate_account_id@ && p[k].1@ == rel[k].relate_number@));
    result
}

fn clone_rooms(rooms: &Vec<String>) -> (r: Vec<String>)
    ensures
        r@ == rooms@,
{
    let mut out: Vec<String> = Vec::new();
    let mut i: usize = 0;
    while i < rooms.len()
        invariant
            i <= rooms.len(),
            out@ == rooms@.take(i as int),
        decreases rooms.len() - i,
    {
        out.push(rooms[i].clone());
        assert(out@ =~= rooms@.take(i + 1));
        i = i + 1;
    }
    assert(rooms@.take(i as int) =~= rooms@);
    out
}

} // verus!
