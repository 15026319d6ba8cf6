//! Attachments of a task and the text their kind is stored as.

use vstd::prelude::*;
use vstd::std_specs::convert::FromSpecImpl;
use crate::text::same_text;

verus! {

/// What an attachment points at.
#[derive(Debug, Clone, Copy, PartialEq, Eq, Structural)]
pub enum AttachmentType {
    /// A web address.
    Url,
    /// A file or directory on this machine.
    LocalPath,
}

/// Something attached to a task.
#[derive(Debug, Clone, PartialEq, Eq)]
pub struct Attachment {
    pub id: i64,
    pub task_id: i64,
    pub attachment_type: AttachmentType,
    pub payload: String,
}

/// A row of the attachments table, as the store hands it out.
#[derive(Debug, Clone, PartialEq, Eq)]
pub struct AttachmentRow {
    pub id: i64,
    pub task_id: i64,
    pub kind: String,
    pub payload: String,
}

impl Attachment {
    /// The attachment that a row of the store stands for. A kind column
    /// that names no kind reads as a web address.
    pub fn from_row(row: AttachmentRow) -> (attachment: Attachment)
        ensures
            attachment.id == row.id,
            attachment.task_id == row.task_id,
            attachment.attachment_type == AttachmentType::of_tag_or_url(row.kind@),
            attachment.payload@ == row.payload@,
    {
        Attachment {
            id: row.id,
            task_id: row.task_id,
            attachment_type: AttachmentType::from(row.kind.as_str()),
            payload: row.payload,
        }
    }
}

impl AttachmentType {
    /// The text a kind is stored as.
    pub open spec fn tag(self) -> Seq<char> {
        match self {
            AttachmentType::Url => "Url"@,
            AttachmentType::LocalPath => "LocalPath"@,
        }
    }

    /// The kind that a stored text names, if it names one.
    pub open spec fn of_tag(tag: Seq<char>) -> Option<AttachmentType> {
        if tag == "Url"@ {
            Some(AttachmentType::Url)
        } else if tag == "LocalPath"@ {
            Some(AttachmentType::LocalPath)
        } else {
            None
        }
    }

    /// The kind that a stored text is read as: a text that names no kind is
    /// read as a web address.
    pub open spec fn of_tag_or_url(tag: Seq<char>) -> AttachmentType {
        match AttachmentType::of_tag(tag) {
            Some(kind) => kind,
            None => AttachmentType::Url,
        }
    }

    /// The two stored texts differ, so reading back what was stored gives
    /// the kind that was stored.
    pub proof fn lemma_tag_round_trip(kind: AttachmentType)
        ensures
            AttachmentType::of_tag(kind.tag()) == Some(kind),
            AttachmentType::of_tag_or_url(kind.tag()) == kind,
    {
        reveal_strlit("Url");
        reveal_strlit("LocalPath");
        assert("Url"@.len() != "LocalPath"@.len());
    }

    /// The text this kind is stored as.
    pub fn as_str(self) -> (tag: &'static str)
        ensures
            tag@ == self.tag(),
    {
        match self {
            AttachmentType::Url => "Url",
            AttachmentType::LocalPath => "LocalPath",
        }
    }

    /// Reads a stored text strictly: a text that names no kind is refused.
    pub fn parse(tag: &str) -> (kind: Option<AttachmentType>)
        ensures
            kind == AttachmentType::of_tag(tag@),
    {
        if same_text(tag, "Url") {
            Some(AttachmentType::Url)
        } else if same_text(tag, "LocalPath") {
            Some(AttachmentType::LocalPath)
        } else {
            None
        }
    }
}

impl<'a> From<&'a str> for AttachmentType {
    /// Reads a stored text leniently: a text that names no kind is read as
    /// a web address.
    fn from(value: &'a str) -> (kind: AttachmentType) {
        match AttachmentType::parse(value) {
            Some(kind) => kind,
            None => AttachmentType::Url,
        }
    }
}

impl<'a> FromSpecImpl<&'a str> for AttachmentType {
    open spec fn obeys_from_spec() -> bool {
        true
    }

    open spec fn from_spec(value: &'a str) -> AttachmentType {
        AttachmentType::of_tag_or_url(value@)
    }
}

impl From<AttachmentType> for &'static str {
    fn from(value: AttachmentType) -> (tag: &'static str) {
        match value {
            AttachmentType::Url => "Url",
            AttachmentType::LocalPath => "LocalPath",
        }
    }
}

impl FromSpecImpl<AttachmentType> for &'static str {
    open spec fn obeys_from_spec() -> bool {
        true
    }

    open spec fn from_spec(value: AttachmentType) -> &'static str {
        match value {
            AttachmentType::Url => "Url",
            AttachmentType::LocalPath => "LocalPath",
        }
    }
}

} // verus!
