//! Password encoding: HMAC-SHA256 under the configured secret key, written in
//! standard Base64.

use vstd::prelude::*;
use base64::Engine;
use hmac::Mac;
use crate::attachment::AttachmentInsertPo;
use crate::error::AppError;
use crate::user::{system_operator, system_operator_name, RoleType, UserInsertPo, UserPo};

verus! {

/// The HMAC-SHA256 tag of `message` under `key`.
pub uninterp spec fn hmac_sha256_tag(key: Seq<u8>, message: Seq<u8>) -> Seq<u8>;

/// The character of the standard Base64 alphabet for the six-bit value `v`.
pub open spec fn base64_char(v: int) -> char {
    if v < 26 {
        (65 + v) as char
    } else if v < 52 {
        (97 + v - 26) as char
    } else if v < 62 {
        (48 + v - 52) as char
    } else if v == 62 {
        '+'
    } else {
        '/'
    }
}

/// The standard Base64 text of `bytes`, with `=` padding: each group of three
/// bytes becomes four characters of six bits each, and a last group of one or
/// two bytes is filled with zero bits and padded to four characters.
pub open spec fn base64_standard_text(bytes: Seq<u8>) -> Seq<char>
    decreases bytes.len(),
{
    if bytes.len() == 0 {
        Seq::empty()
    } else if bytes.len() == 1 {
        let n = bytes[0] as int;
        seq![base64_char(n / 4), base64_char((n % 4) * 16), '=', '=']
    } else if bytes.len() == 2 {
        let n = bytes[0] as int * 256 + bytes[1] as int;
        seq![base64_char(n / 1024), base64_char((n / 16) % 64), base64_char((n % 16) * 4), '=']
    } else {
        let n = bytes[0] as int * 65536 + bytes[1] as int * 256 + bytes[2] as int;
        seq![
            base64_char(n / 262144),
            base64_char((n / 4096) % 64),
            base64_char((n / 64) % 64),
            base64_char(n % 64),
        ] + base64_standard_text(bytes.subrange(3, bytes.len() as int))
    }
}

/// Calls `Hmac::<Sha256>::new_from_slice(key)`, `update(message)` and
/// `finalize()`.  The contract claims that a key of any length is accepted
/// (the source of `hmac` derives a block key from any key) and that the tag is
/// a function of key and message, named `hmac_sha256_tag`, of 32 bytes.
#[verifier::external_body]
fn hmac_sha256(key: &[u8], message: &[u8]) -> (r: Option<Vec<u8>>)
    ensures
        r is Some,
        r.unwrap()@ == hmac_sha256_tag(key@, message@),
        r.unwrap()@.len() == 32,
{
    let mut mac = match <hmac::Hmac<sha2::Sha256> as hmac::Mac>::new_from_slice(key) {
        Ok(mac) => mac,
        Err(_) => return None,
    };
    mac.update(message);
    Some(mac.finalize().into_bytes().to_vec())
}

/// Calls `base64::engine::general_purpose::STANDARD.encode(bytes)`.  The
/// contract claims that the text is the standard Base64 encoding with padding,
/// as `base64_standard_text` writes it out.
#[verifier::external_body]
fn base64_standard(bytes: &[u8]) -> (r: String)
    ensures
        r@ == base64_standard_text(bytes@),
{
    base64::engine::general_purpose::STANDARD.encode(bytes)
}

/// The stored form of password `password` under secret key `sec_key`.
pub open spec fn encoded_password(password: Seq<char>, sec_key: Seq<char>) -> Seq<char> {
    base64_standard_text(
        hmac_sha256_tag(
            vstd::utf8::encode_utf8(sec_key),
            vstd::utf8::encode_utf8(password),
        ),
    )
}

/// Something that carries a password in clear.
pub trait Password {
    fn raw_password(&self) -> &str;
}

impl Password for &str {
    /// The text itself.
    fn raw_password(&self) -> (r: &str)
        ensures
            r@ == (*self)@,
    {
        *self
    }
}

impl Password for UserInsertPo {
    /// The password of the new account.
    fn raw_password(&self) -> (r: &str)
        ensures
            r@ == self.password@,
    {
        self.password.as_str()
    }
}

/// The stored form of a password: its HMAC-SHA256 tag under the secret key,
/// in standard Base64.
pub fn parse_password(password: &str, sec_key: &str) -> (r: Option<String>)
    ensures
        r matches Some(s) && s@ == encoded_password(password@, sec_key@),
{
    let key = sec_key.as_bytes();
    let message = password.as_bytes();
    match hmac_sha256(key, message) {
        Some(tag) => Some(base64_standard(tag.as_slice())),
        None => None,
    }
}

/// Checks a password against the account found for the given name: the
/// account where the stored password is the encoded one, else an error.
pub fn verify_password(user_po: UserPo, password: &str, sec_key: &str) -> (r: Result<UserPo, AppError>)
    ensures
        r is Ok <==> user_po.password@ == encoded_password(password@, sec_key@),
        r matches Ok(u) ==> u == user_po,
        r matches Err(e) ==> e == AppError::UserPasswordError,
{
    let sec_password = match parse_password(password, sec_key) {
        Some(s) => s,
        None => String::new(),
    };
    if user_po.password == sec_password {
        Ok(user_po)
    } else {
        Err(AppError::UserPasswordError)
    }
}

/// A new account made ready to store: it gets the account id and its password
/// is stored encoded.
pub fn prepare_account(po: UserInsertPo, account_id: String, sec_key: &str) -> (r: Result<UserInsertPo, AppError>)
    ensures
        r matches Ok(p) && p.account_id == Some(account_id) && p.password@ == encoded_password(
            po.password@,
            sec_key@,
        ) && p == (UserInsertPo { account_id: p.account_id, password: p.password, ..po }),
{
    let encoded = parse_password(po.password.as_str(), sec_key);
    match encoded {
        Some(encode_password) => {
            let mut p = po;
            p.account_id = Some(account_id);
            p.password = encode_password;
            Ok(p)
        },
        None => Err(AppError::UserPasswordError),
    }
}

/// The password drawn from a UUID text: its last twelve characters, the
/// hexadecimal digits of its last group.
pub fn password_of_uuid(id: &str) -> (r: String)
    requires
        id@.len() == 36,
    ensures
        r@ == id@.subrange(24, 36),
{
    String::from_str(id.substring_char(24, 36))
}

/// A fresh password of twelve characters: the last twelve hexadecimal digits
/// of a new version-7 UUID, the part of it that is drawn at random.
pub fn generate_password() -> (r: String)
    ensures
        r@.len() == 12,
{
    let id = AttachmentInsertPo::uuid_v7();
    password_of_uuid(id.as_str())
}

/// A quick login needs an account that logged in before.
pub fn fast_login_check(fast_login_flag: bool, has_logged_in: bool) -> (r: Result<(), AppError>)
    ensures
        r is Err <==> fast_login_flag && !has_logged_in,
        r matches Err(e) ==> e == AppError::AccountNotSupportFastLogin,
{
    if fast_login_flag && !has_logged_in {
        Err(AppError::AccountNotSupportFastLogin)
    } else {
        Ok(())
    }
}

/// The account that a registration through the mini program creates: named
/// by the nickname, bound to the session key, with a freshly generated
/// password of twelve characters; refused where the session key or the
/// nickname has an account already.
pub fn registration(
    nick_name: &str,
    session_key: String,
    session_taken: bool,
    account_taken: bool,
) -> (r: Result<UserInsertPo, AppError>)
    ensures
        r is Err <==> session_taken || account_taken,
        r matches Err(e) ==> e == AppError::AccountExist,
        r matches Ok(p) ==> p.account_id is None && p.account@ == nick_name@ && p.name@ == nick_name@
            && p.password@.len() == 12 && p.role_type == RoleType::User && p.create_by@
            == system_operator() && p.update_by@ == system_operator() && p.create_time is None
            && p.update_time is None && p.comment is None && !p.is_delete && p.relate_user_id
            == Some(session_key),
{
    if session_taken || account_taken {
        return Err(AppError::AccountExist);
    }
    Ok(
        UserInsertPo {
            account_id: None,
            password: generate_password(),
            account: String::from_str(nick_name),
            name: String::from_str(nick_name),
            role_type: RoleType::User,
            create_by: system_operator_name(),
            update_by: system_operator_name(),
            create_time: None,
            update_time: None,
            comment: None,
            is_delete: false,
            relate_user_id: Some(session_key),
        },
    )
}

/// The address of the session service of the mini program on `host`.
pub fn sns_url(host: &str) -> (r: String)
    ensures
        r@ == "https://"@ + host@ + "/sns/jscode2session"@,
{
    proof {
        reveal_strlit("https://");
        reveal_strlit("/sns/jscode2session");
    }
    let mut s = String::from_str("https://");
    s.append(host);
    s.append("/sns/jscode2session");
    s
}

/// The rooms to be bound exist: refused at the first room that does not
/// (`exists[i]` tells whether room `i` was found).
pub fn valid_room_number(param: &Option<Vec<String>>, exists: &Vec<bool>) -> (r: Result<(), AppError>)
    requires
        param matches Some(rooms) ==> exists.len() == rooms.len(),
    ensures
        r is Err <==> param is Some && (exists|i: int| 0 <= i < exists.len() && !#[trigger] exists@[i]),
        r matches Err(e) ==> e == AppError::RoomIsNotExist,
{
    if param.is_some() {
        let mut i: usize = 0;
        while i < exists.len()
            invariant
                i <= exists.len(),
                param is Some,
                forall|k: int| 0 <= k < i ==> #[trigger] exists@[k],
            decreases exists.len() - i,
        {
            if !exists[i] {
                return Err(AppError::RoomIsNotExist);
            }
            i = i + 1;
        }
    }
    Ok(())
}

/// The rooms to be bound are free: refused where some room already has a
/// binding (`bound[i]` tells whether room `i` has a binding row).
pub fn valid_has_being_bind(param: &Option<Vec<String>>, bound: &Vec<bool>) -> (r: Result<(), AppError>)
    requires
        param matches Some(rooms) ==> bound.len() == rooms.len(),
    ensures
        r is Err <==> param is Some && (exists|i: int| 0 <= i < bound.len() && #[trigger] bound@[i]),
        r matches Err(e) ==> e == AppError::RoomHasBeenBind,
{
    if param.is_some() {
        let mut i: usize = 0;
        while i < bound.len()
            invariant
                i <= bound.len(),
                param is Some,
                forall|k: int| 0 <= k < i ==> !#[trigger] bound@[k],
            decreases bound.len() - i,
        {
            if bound[i] {
                return Err(AppError::RoomHasBeenBind);
            }
            i = i + 1;
        }
    }
    Ok(())
}

/// The answer of the session service of the mini program.
#[derive(Debug)]
pub struct WeChartSns {
    pub session_key: String,
    pub openid: String,
}

/// How a user logs in: by account and password, or by a code of the mini
/// program, with the flag that asks for a quick login.
#[derive(Debug)]
pub enum LoginType {
    Password(String, String),
    WeChartCode(String, bool),
}

} // verus!
