//! Approvals: requests that an administrator approves or rejects, and what
//! an approval sets in motion.

use vstd::prelude::*;
use crate::error::AppError;
use crate::password::generate_password;
use crate::owner_info::OtherPartInfo;
use crate::user::{system_operator, system_operator_name, RoleType, UserInsertPo};

verus! {

/// The state of an approval.
#[derive(Clone, Copy, Debug, PartialEq, Eq, Structural)]
pub enum ApproveState {
    Pending,
    Approved,
    Rejected,
}

impl Default for ApproveState {
    /// A new approval is pending.
    fn default() -> (r: ApproveState)
        ensures
            r == ApproveState::Pending,
    {
        ApproveState::Pending
    }
}

impl ApproveState {
    /// The label shown for the state.
    pub open spec fn label(self) -> Seq<char> {
        match self {
            ApproveState::Pending => "待审批"@,
            ApproveState::Approved => "已通过"@,
            ApproveState::Rejected => "已拒绝"@,
        }
    }

    /// The label shown for the state.
    pub fn to_string(&self) -> (r: String)
        ensures
            r@ == self.label(),
    {
        proof {
            reveal_strlit("待审批");
            reveal_strlit("已通过");
            reveal_strlit("已拒绝");
        }
        match self {
            ApproveState::Pending => String::from_str("待审批"),
            ApproveState::Approved => String::from_str("已通过"),
            ApproveState::Rejected => String::from_str("已拒绝"),
        }
    }
}

/// What an approval asks for.
#[derive(Clone, Copy, Debug, PartialEq, Eq, Structural)]
pub enum ApproveType {
    CreateUser,
    WeChartCreateUser,
    BindingRooms,
    ChangeRoomInfo,
}

impl ApproveType {
    /// The label shown for the request.
    pub open spec fn label(self) -> Seq<char> {
        match self {
            ApproveType::CreateUser => "创建用户"@,
            ApproveType::WeChartCreateUser => "微信小程序创建用户"@,
            ApproveType::BindingRooms => "绑定房间"@,
            ApproveType::ChangeRoomInfo => "修改房间信息"@,
        }
    }

    /// The label shown for the request.
    pub fn to_string(&self) -> (r: String)
        ensures
            r@ == self.label(),
    {
        proof {
            reveal_strlit("创建用户");
            reveal_strlit("微信小程序创建用户");
            reveal_strlit("绑定房间");
            reveal_strlit("修改房间信息");
        }
        match self {
            ApproveType::CreateUser => String::from_str("创建用户"),
            ApproveType::WeChartCreateUser => String::from_str("微信小程序创建用户"),
            ApproveType::BindingRooms => String::from_str("绑定房间"),
            ApproveType::ChangeRoomInfo => String::from_str("修改房间信息"),
        }
    }
}

impl Default for ApproveType {
    /// A request is to create a user unless said otherwise.
    fn default() -> (r: ApproveType)
        ensures
            r == ApproveType::CreateUser,
    {
        ApproveType::CreateUser
    }
}

/// What a change of state sets in motion.
#[derive(Debug, PartialEq, Eq)]
pub enum ApproveAction {
    /// Carry out the request.
    Carry(ApproveType),
    /// Nothing: the request was rejected.
    Nothing,
}

/// What setting an approval of type `approve_type` to `state` does (no state
/// given means pending): a pending state is refused, an approval carries out
/// the request and a rejection does nothing.
pub fn approve_action(state: Option<ApproveState>, approve_type: ApproveType) -> (r: Result<ApproveAction, AppError>)
    ensures
        match state {
            Some(ApproveState::Approved) => r == Ok::<ApproveAction, AppError>(ApproveAction::Carry(approve_type)),
            Some(ApproveState::Rejected) => r == Ok::<ApproveAction, AppError>(ApproveAction::Nothing),
            _ => r == Err::<ApproveAction, AppError>(AppError::ApproveStateError),
        },
{
    let s = match state {
        Some(s) => s,
        None => ApproveState::default(),
    };
    match s {
        ApproveState::Pending => Err(AppError::ApproveStateError),
        ApproveState::Approved => Ok(ApproveAction::Carry(approve_type)),
        ApproveState::Rejected => Ok(ApproveAction::Nothing),
    }
}

/// A request to create an account.
#[derive(Debug)]
pub struct UserCreateValue {
    pub account: String,
    pub name: String,
    pub binding_room_number: Option<Vec<String>>,
}

impl UserCreateValue {
    /// The account to create: the password starts as the account name, the
    /// account is an ordinary user booked by the system.
    pub fn to_insert_po(&self) -> (r: UserInsertPo)
        ensures
            r.account_id is None,
            r.account@ == self.account@,
            r.password@ == self.account@,
            r.name@ == self.name@,
            r.role_type == RoleType::User,
            r.create_by@ == system_operator(),
            r.update_by@ == system_operator(),
            r.create_time is None,
            r.update_time is None,
            r.comment is None,
            !r.is_delete,
            r.relate_user_id is None,
    {
        UserInsertPo {
            account_id: None,
            account: self.account.clone(),
            password: self.account.clone(),
            name: self.name.clone(),
            role_type: RoleType::User,
            create_by: system_operator_name(),
            update_by: system_operator_name(),
            create_time: None,
            update_time: None,
            comment: None,
            is_delete: false,
            relate_user_id: None,
        }
    }
}

/// A request to create an account through the mini program.
#[derive(Debug)]
pub struct WeChartUserCreateValue {
    pub nick_name: String,
    pub code: String,
    pub binding_room_number: Option<Vec<String>>,
}

impl WeChartUserCreateValue {
    /// The account to create: named by the nickname, bound to the session key
    /// `relate_user_id`, with a freshly generated password of twelve characters.
    pub fn to_insert_po(&self, relate_user_id: String) -> (r: UserInsertPo)
        ensures
            r.account_id is None,
            r.account@ == self.nick_name@,
            r.password@.len() == 12,
            r.name@ == self.nick_name@,
            r.role_type == RoleType::User,
            r.create_by@ == system_operator(),
            r.update_by@ == system_operator(),
            r.create_time is None,
            r.update_time is None,
            r.comment is None,
            !r.is_delete,
            r.relate_user_id == Some(relate_user_id),
    {
        UserInsertPo {
            account_id: None,
            account: self.nick_name.clone(),
            password: generate_password(),
            name: self.nick_name.clone(),
            role_type: RoleType::User,
            create_by: system_operator_name(),
            update_by: system_operator_name(),
            create_time: None,
            update_time: None,
            comment: None,
            is_delete: false,
            relate_user_id: Some(relate_user_id),
        }
    }
}

/// A request to bind rooms to the requesting account.
#[derive(Debug)]
pub struct BindingRoomValue {
    pub binding_room_number: Vec<String>,
}

impl BindingRoomValue {
    /// The room numbers, borrowed, in order.
    pub fn get_room_ref(&self) -> (r: Vec<&str>)
        ensures
            r.len() == self.binding_room_number.len(),
            forall|i: int| 0 <= i < r.len() ==> (#[trigger] r@[i])@ == self.binding_room_number@[i]@,
    {
        let mut refs: Vec<&str> = Vec::new();
        let mut i: usize = 0;
        while i < self.binding_room_number.len()
            invariant
                i <= self.binding_room_number.len(),
                refs.len() == i,
                forall|k: int| 0 <= k < i ==> (#[trigger] refs@[k])@ == self.binding_room_number@[k]@,
            decreases self.binding_room_number.len() - i,
        {
            refs.push(self.binding_room_number[i].as_str());
            i = i + 1;
        }
        refs
    }
}

/// A request to change the parking information of a room.
#[derive(Debug)]
pub struct ChangeRoomInfo {
    pub room_number: String,
    pub other_part_info: OtherPartInfo,
}

/// The account whose rooms are `relate_room` may change room `room_number`:
/// the room is among its rooms.
pub open spec fn may_change_room(relate_room: Option<Vec<String>>, room_number: Seq<char>) -> bool {
    match relate_room {
        Some(rooms) => exists|i: int| 0 <= i < rooms@.len() && #[trigger] rooms@[i]@ == room_number,
        None => false,
    }
}

/// A change of room information is allowed only for a room bound to the
/// requesting account; refused otherwise.
pub fn change_room_auth(relate_room: &Option<Vec<String>>, room_number: &str) -> (r: Result<(), AppError>)
    ensures
        r is Ok <==> may_change_room(*relate_room, room_number@),
        r matches Err(e) ==> e == AppError::NoAuth,
{
    match relate_room {
        Some(rooms) => {
            let mut i: usize = 0;
            while i < rooms.len()
                invariant
                    i <= rooms.len(),
                    *relate_room == Some(*rooms),
                    forall|k: int| 0 <= k < i ==> #[trigger] rooms@[k]@ != room_number@,
                decreases rooms.len() - i,
            {
                if crate::text::str_equal(rooms[i].as_str(), room_number) {
                    assert(rooms@[i as int]@ == room_number@);
                    assert(relate_room.unwrap()@[i as int]@ == room_number@);
                    assert(may_change_room(*relate_room, room_number@));
                    return Ok(());
                }
                i = i + 1;
            }
            Err(AppError::NoAuth)
        },
        None => Err(AppError::NoAuth),
    }
}

/// A new account may not take an account name that exists.
pub fn account_free(account_taken: bool) -> (r: Result<(), AppError>)
    ensures
        r is Err <==> account_taken,
        r matches Err(e) ==> e == AppError::UserAccountExist,
{
    if account_taken {
        Err(AppError::UserAccountExist)
    } else {
        Ok(())
    }
}

} // verus!
