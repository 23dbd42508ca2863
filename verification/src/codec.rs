//! The wire contract with the host: its three actions, the shape of the
//! request that goes with each, and the reading of what comes back.

use crate::error::{DecodeError, TransportError};
use vstd::prelude::*;

verus! {

/// The operations that the host performs.
#[derive(Clone, Copy, Debug, PartialEq, Eq, Structural)]
pub enum Action {
    Exists,
    ReadFile,
    WriteFile,
}

impl Action {
    /// The tag by which the host knows the action.
    pub open spec fn tag_text(self) -> Seq<char> {
        match self {
            Action::Exists => "vfs/exists"@,
            Action::ReadFile => "vfs/readFile"@,
            Action::WriteFile => "vfs/writeFile"@,
        }
    }

    /// The tag by which the host knows the action.
    pub fn tag(&self) -> (tag: &'static str)
        ensures
            tag@ == self.tag_text(),
    {
        match self {
            Action::Exists => "vfs/exists",
            Action::ReadFile => "vfs/readFile",
            Action::WriteFile => "vfs/writeFile",
        }
    }
}

/// No two actions share a tag: the host tells them apart by the tag alone.
pub proof fn lemma_tags_are_distinct(first: Action, second: Action)
    ensures
        first.tag_text() == second.tag_text() <==> first == second,
{
    reveal_strlit("vfs/exists");
    reveal_strlit("vfs/readFile");
    reveal_strlit("vfs/writeFile");
    if first != second {
        assert(first.tag_text().len() != second.tag_text().len());
    }
}

/// The payload of an existence check and of a read.
#[derive(Clone, Debug, PartialEq, Eq)]
pub struct VFSRequest {
    pub path: String,
}

/// The payload of a write. The content stays the caller's.
#[derive(Clone, Debug, PartialEq, Eq)]
pub struct VFSWriteRequest<'a> {
    pub path: String,
    pub content: &'a [u8],
}

/// One call to the host: an action with the payload of its shape.
#[derive(Clone, Debug, PartialEq, Eq)]
pub enum HostCall<'a> {
    Exists(VFSRequest),
    ReadFile(VFSRequest),
    WriteFile(VFSWriteRequest<'a>),
}

/// What a [`HostCall`] is to the contracts.
pub struct HostCallView {
    pub action: Action,
    pub path: Seq<char>,
    /// The bytes to write; `None` but for a write.
    pub content: Option<Seq<u8>>,
}

impl<'a> View for HostCall<'a> {
    type V = HostCallView;

    open spec fn view(&self) -> HostCallView {
        match self {
            HostCall::Exists(request) => HostCallView {
                action: Action::Exists,
                path: request.path@,
                content: None,
            },
            HostCall::ReadFile(request) => HostCallView {
                action: Action::ReadFile,
                path: request.path@,
                content: None,
            },
            HostCall::WriteFile(request) => HostCallView {
                action: Action::WriteFile,
                path: request.path@,
                content: Some(request.content@),
            },
        }
    }
}

impl<'a> HostCall<'a> {
    /// The action that the call asks for.
    pub fn action(&self) -> (action: Action)
        ensures
            action == self@.action,
    {
        match self {
            HostCall::Exists(_) => Action::Exists,
            HostCall::ReadFile(_) => Action::ReadFile,
            HostCall::WriteFile(_) => Action::WriteFile,
        }
    }

    /// The path that the call is about.
    pub fn path(&self) -> (path: &str)
        ensures
            path@ == self@.path,
    {
        match self {
            HostCall::Exists(request) => request.path.as_str(),
            HostCall::ReadFile(request) => request.path.as_str(),
            HostCall::WriteFile(request) => request.path.as_str(),
        }
    }
}

/// What the accessor reads of a value that the host gave: whether the host's
/// language counts it as true, and the text that it decodes to, if any.
#[derive(Clone, Debug, PartialEq, Eq)]
pub struct HostValue {
    pub truthy: bool,
    pub text: Option<String>,
}

/// What a [`HostValue`] is to the contracts.
pub struct HostValueView {
    pub truthy: bool,
    pub text: Option<Seq<char>>,
}

impl View for HostValue {
    type V = HostValueView;

    open spec fn view(&self) -> HostValueView {
        HostValueView {
            truthy: self.truthy,
            text: match self.text {
                Some(text) => Some(text@),
                None => None,
            },
        }
    }
}

/// What a call to the host came to: the value that the host gave, or why it
/// gave none.
pub type HostReply = Result<HostValue, TransportError>;

/// What a [`HostReply`] is to the contracts.
pub open spec fn reply_view(reply: HostReply) -> Result<HostValueView, TransportError> {
    match reply {
        Ok(value) => Ok(value@),
        Err(error) => Err(error),
    }
}

/// The answer to an existence check: the value's truth.
pub open spec fn flag_of(value: HostValueView) -> bool {
    value.truthy
}

/// The answer to a read: the value's text, or `NotText` where it has none.
pub open spec fn text_of(value: HostValueView) -> Result<Seq<char>, DecodeError> {
    match value.text {
        Some(text) => Ok(text),
        None => Err(DecodeError::NotText),
    }
}

/// Reads the answer to an existence check.
pub fn decode_flag(value: &HostValue) -> (flag: bool)
    ensures
        flag == flag_of(value@),
{
    value.truthy
}

/// Reads the answer to a read. The text is handed on as the host gave it.
pub fn decode_text(value: HostValue) -> (result: Result<String, DecodeError>)
    ensures
        match text_of(value@) {
            Ok(text) => result matches Ok(decoded) && decoded@ == text && Some(decoded)
                == value.text,
            Err(error) => result == Err::<String, DecodeError>(error),
        },
{
    match value.text {
        Some(text) => Ok(text),
        None => Err(DecodeError::NotText),
    }
}

} // verus!
