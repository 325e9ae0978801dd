//! Uploaded attachments and their storage names.

use vstd::prelude::*;
use chrono::NaiveDateTime;
use crate::user::{system_operator, system_operator_name};

verus! {

/// The state of an upload.
#[derive(Clone, Copy, Debug, PartialEq, Eq, Structural)]
pub enum AttachmentStatus {
    Init,
    Done,
}

/// A new attachment.
#[derive(Debug)]
pub struct AttachmentInsertPo {
    pub attachment_id: String,
    pub attachment_file_name: Option<String>,
    pub oss_file_name: Option<String>,
    pub comment: Option<String>,
    pub status: AttachmentStatus,
    pub create_by: String,
    pub update_by: String,
    pub create_time: Option<NaiveDateTime>,
    pub update_time: Option<NaiveDateTime>,
    pub is_delete: bool,
}

/// The text of a UUID as `Uuid`'s `Display` writes it: 36 characters, with
/// hyphens after the 8th, 12th, 16th and 20th hexadecimal digit.
pub open spec fn uuid_shaped(s: Seq<char>) -> bool {
    &&& s.len() == 36
    &&& s[8] == '-' && s[13] == '-' && s[18] == '-' && s[23] == '-'
}

/// The folder under which uploaded pictures are stored.
pub open spec fn picture_folder() -> Seq<char> {
    "picture_extract"@
}

impl AttachmentInsertPo {
    /// Calls `uuid_v7::gen_uuid_v7().to_string()`.  The value rests on the
    /// clock and on chance; the contract claims only its shape, as the
    /// `Display` of `uuid::Uuid` writes it.
    #[verifier::external_body]
    pub fn uuid_v7() -> (r: String)
        ensures
            uuid_shaped(r@),
    {
        uuid_v7::gen_uuid_v7().to_string()
    }

    /// The record of a new upload of `file_name` under id `attachment_id`:
    /// stored as `picture_extract/<id>`, in state `Init`, booked by the system.
    pub fn upload_token(attachment_id: String, file_name: &str) -> (r: AttachmentInsertPo)
        ensures
            r.attachment_id == attachment_id,
            r.attachment_file_name matches Some(f) && f@ == file_name@,
            r.oss_file_name matches Some(o) && o@ == picture_folder() + "/"@ + attachment_id@,
            r.comment is None,
            r.status == AttachmentStatus::Init,
            r.create_by@ == system_operator(),
            r.update_by@ == system_operator(),
            r.create_time is None,
            r.update_time is None,
            !r.is_delete,
    {
        proof {
            reveal_strlit("picture_extract");
            reveal_strlit("/");
        }
        let mut oss = String::from_str("picture_extract");
        oss.append("/");
        oss.append(attachment_id.as_str());
        AttachmentInsertPo {
            attachment_id,
            attachment_file_name: Some(String::from_str(file_name)),
            oss_file_name: Some(oss),
            comment: None,
            status: AttachmentStatus::Init,
            create_by: system_operator_name(),
            update_by: system_operator_name(),
            create_time: None,
            update_time: None,
            is_delete: false,
        }
    }
}

} // verus!
