//! The four operations of the accessor. Each is one round trip to the host,
//! and each is given here in two steps: the call that it makes, and the
//! result that the host's reply amounts to. Making the call and awaiting the
//! reply is the caller's part. Nothing is kept between operations.

use crate::codec::{
    reply_view, text_of, Action, HostCall, HostCallView, HostReply, HostValueView, VFSRequest,
    VFSWriteRequest,
};
use crate::error::{DecodeError, Error, PathError, TransportError};
use crate::location::{contract_location, resolve_contract_location, Location, LocationView};
use vstd::prelude::*;

verus! {

/// The call that asks whether the file at `location` exists.
pub open spec fn exists_call(location: LocationView) -> HostCallView {
    HostCallView { action: Action::Exists, path: location.text, content: None }
}

/// The call that reads the file at `location`.
pub open spec fn read_call(location: LocationView) -> HostCallView {
    HostCallView { action: Action::ReadFile, path: location.text, content: None }
}

/// The call that writes `content` to `path`.
pub open spec fn write_call(path: Seq<char>, content: Seq<u8>) -> HostCallView {
    HostCallView { action: Action::WriteFile, path, content: Some(content) }
}

/// What an existence check comes to: the truth of the host's value. That the
/// host gave no value is an error, never `false`.
pub open spec fn exists_outcome(reply: Result<HostValueView, TransportError>) -> Result<
    bool,
    Error,
> {
    match reply {
        Ok(value) => Ok(value.truthy),
        Err(error) => Err(Error::Transport(error)),
    }
}

/// What a read of `location` comes to: the location with the text that the
/// host gave.
pub open spec fn read_outcome(
    location: LocationView,
    reply: Result<HostValueView, TransportError>,
) -> Result<(LocationView, Seq<char>), Error> {
    match reply {
        Ok(value) => match text_of(value) {
            Ok(text) => Ok((location, text)),
            Err(error) => Err(Error::Decode(error)),
        },
        Err(error) => Err(Error::Transport(error)),
    }
}

/// What a write comes to: success where the host gave any value.
pub open spec fn write_outcome(reply: Result<HostValueView, TransportError>) -> Result<(), Error> {
    match reply {
        Ok(_) => Ok(()),
        Err(error) => Err(Error::Transport(error)),
    }
}

/// Decides what the host is asked and what its replies mean.
#[derive(Clone, Copy, Debug)]
pub struct VscodeFilesystemAccessor {}

impl VscodeFilesystemAccessor {
    pub fn new() -> VscodeFilesystemAccessor {
        VscodeFilesystemAccessor {  }
    }

    /// The call for an existence check of `location`.
    pub fn file_exists(&self, location: Location) -> (call: HostCall<'static>)
        ensures
            call@ == exists_call(location@),
    {
        HostCall::Exists(VFSRequest { path: location.to_string() })
    }

    /// The result of an existence check, from the host's reply.
    pub fn file_exists_result(&self, reply: HostReply) -> (result: Result<bool, Error>)
        ensures
            result == exists_outcome(reply_view(reply)),
    {
        match reply {
            Ok(value) => Ok(value.truthy),
            Err(error) => Err(Error::Transport(error)),
        }
    }

    /// The call for a read of the manifest at `manifest_location`, with the
    /// location that the content will belong to: the same one.
    pub fn read_manifest_content(&self, manifest_location: Location) -> (pending: (
        Location,
        HostCall<'static>,
    ))
        ensures
            pending.0 == manifest_location,
            pending.1@ == read_call(manifest_location@),
    {
        let path = manifest_location.to_string();
        (manifest_location, HostCall::ReadFile(VFSRequest { path }))
    }

    /// The call for a read of the contract that `relative_path` names in the
    /// manifest at `manifest_location`, with the location that the content
    /// will belong to: the contract's. Where that location cannot be derived
    /// there is no call to make.
    pub fn read_contract_content(
        &self,
        manifest_location: Location,
        relative_path: String,
    ) -> (pending: Result<(Location, HostCall<'static>), Error>)
        ensures
            match contract_location(manifest_location@, relative_path@) {
                Ok(resolved) => pending matches Ok((location, call)) && location@ == resolved
                    && call@ == read_call(resolved),
                Err(error) => pending matches Err(e) && e == Error::Path(error),
            },
    {
        self.read_resolved(resolve_contract_location(&manifest_location, relative_path.as_str()))
    }

    /// The call for a read of a contract whose location was to be derived:
    /// a read of that location, or the failure to derive it, with no call.
    pub fn read_resolved(&self, resolved: Result<Location, PathError>) -> (pending: Result<
        (Location, HostCall<'static>),
        Error,
    >)
        ensures
            match resolved {
                Ok(location) => pending matches Ok((owner, call)) && owner == location && call@
                    == read_call(location@),
                Err(error) => pending matches Err(e) && e == Error::Path(error),
            },
    {
        match resolved {
            Ok(contract_location) => Ok(self.read_manifest_content(contract_location)),
            Err(error) => Err(Error::Path(error)),
        }
    }

    /// The result of a read of `location`, from the host's reply.
    pub fn read_result(&self, location: Location, reply: HostReply) -> (result: Result<
        (Location, String),
        Error,
    >)
        ensures
            match read_outcome(location@, reply_view(reply)) {
                Ok((_, text)) => result matches Ok((owner, content)) && owner == location
                    && content@ == text,
                Err(error) => result matches Err(e) && e == error,
            },
    {
        match reply {
            Ok(value) => match value.text {
                Some(text) => Ok((location, text)),
                None => Err(Error::Decode(DecodeError::NotText)),
            },
            Err(error) => Err(Error::Transport(error)),
        }
    }

    /// The call for a write of `content` to `relative_path`. The path goes to
    /// the host as it is given: the manifest's location plays no part.
    pub fn write_file<'a>(
        &self,
        _manifest_location: Location,
        relative_path: String,
        content: &'a [u8],
    ) -> (call: HostCall<'a>)
        ensures
            call@ == write_call(relative_path@, content@),
    {
        HostCall::WriteFile(VFSWriteRequest { path: relative_path, content })
    }

    /// The result of a write, from the host's reply.
    pub fn write_file_result(&self, reply: HostReply) -> (result: Result<(), Error>)
        ensures
            result == write_outcome(reply_view(reply)),
    {
        match reply {
            Ok(_) => Ok(()),
            Err(error) => Err(Error::Transport(error)),
        }
    }
}

} // verus!
