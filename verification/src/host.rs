//! What the accessor takes a host to do with its calls, and what follows from
//! that for operations made one after another.
//!
//! The host is not part of this library. It is described here only as far as
//! the accessor relies on it: a host keeps the content of each path that was
//! written, says whether a path has content, and gives the content of a path
//! back as text.

use crate::accessor::{
    exists_call, exists_outcome, read_call, read_outcome, write_call, write_outcome,
};
use crate::codec::{Action, HostCallView, HostValueView};
use crate::error::{Error, TransportError};
use crate::location::LocationView;
use vstd::prelude::*;
use vstd::utf8::{decode_utf8, decode_utf8_encode_utf8, encode_utf8, valid_utf8};

verus! {

/// The files that a host holds: the content of each path that has one.
pub type Files = Map<Seq<char>, Seq<u8>>;

/// The files that a host holds once it has answered `call` with `reply`. Only
/// a write that it did not refuse changes them.
pub open spec fn files_after(
    files: Files,
    call: HostCallView,
    reply: Result<HostValueView, TransportError>,
) -> Files {
    match call.content {
        Some(content) => if call.action == Action::WriteFile && reply is Ok {
            files.insert(call.path, content)
        } else {
            files
        },
        None => files,
    }
}

/// Whether `reply` is an answer that a host holding `files` may give to
/// `call`. An existence check is answered by a value that is true exactly
/// where the path has content, never by a refusal. A read of a path that has
/// content is answered by a value that holds the content as text, or no text
/// where the content is none; a read of a path without content is refused. A
/// write may be answered either way.
pub open spec fn faithful(
    files: Files,
    call: HostCallView,
    reply: Result<HostValueView, TransportError>,
) -> bool {
    match call.action {
        Action::Exists => {
            &&& reply matches Ok(value)
            &&& value.truthy == files.contains_key(call.path)
        },
        Action::ReadFile => if files.contains_key(call.path) {
            &&& reply matches Ok(value)
            &&& value.text == if valid_utf8(files[call.path]) {
                Some(decode_utf8(files[call.path]))
            } else {
                None
            }
        } else {
            reply is Err
        },
        Action::WriteFile => true,
    }
}

/// Content that was written is read back unchanged: after a write of
/// `content`, which is text in UTF-8, to `path` that the host did not refuse,
/// a read of a location whose text is `path` gives that location and the text
/// of which `content` is the encoding.
pub proof fn lemma_written_content_is_read_back(
    files: Files,
    path: Seq<char>,
    content: Seq<u8>,
    written: Result<HostValueView, TransportError>,
    location: LocationView,
    read: Result<HostValueView, TransportError>,
)
    requires
        valid_utf8(content),
        write_outcome(written) is Ok,
        location.text == path,
        faithful(files_after(files, write_call(path, content), written), read_call(location), read),
    ensures
        read_outcome(location, read) == Ok::<(LocationView, Seq<char>), Error>(
            (location, decode_utf8(content)),
        ),
        encode_utf8(decode_utf8(content)) == content,
{
    decode_utf8_encode_utf8(content);
}

/// A file that was written exists: after a write to `path` that the host did
/// not refuse, an existence check of a location whose text is `path` gives
/// `true`.
pub proof fn lemma_written_file_exists(
    files: Files,
    path: Seq<char>,
    content: Seq<u8>,
    written: Result<HostValueView, TransportError>,
    location: LocationView,
    checked: Result<HostValueView, TransportError>,
)
    requires
        write_outcome(written) is Ok,
        location.text == path,
        faithful(
            files_after(files, write_call(path, content), written),
            exists_call(location),
            checked,
        ),
    ensures
        exists_outcome(checked) == Ok::<bool, Error>(true),
{
}

/// A file that was never written does not exist, and that is no error: an
/// existence check of a location whose text has no content gives `false`.
pub proof fn lemma_unwritten_file_does_not_exist(
    files: Files,
    location: LocationView,
    checked: Result<HostValueView, TransportError>,
)
    requires
        !files.contains_key(location.text),
        faithful(files, exists_call(location), checked),
    ensures
        exists_outcome(checked) == Ok::<bool, Error>(false),
{
}

/// Existence checks do not bear on one another: of two checks made one after
/// the other, whichever comes first, each gives whether its own location has
/// content, and the files are as they were.
pub proof fn lemma_existence_checks_are_independent(
    files: Files,
    first: LocationView,
    first_checked: Result<HostValueView, TransportError>,
    second: LocationView,
    second_checked: Result<HostValueView, TransportError>,
)
    requires
        faithful(files, exists_call(first), first_checked),
        faithful(
            files_after(files, exists_call(first), first_checked),
            exists_call(second),
            second_checked,
        ),
    ensures
        exists_outcome(first_checked) == Ok::<bool, Error>(
            files.contains_key(first.text),
        ),
        exists_outcome(second_checked) == Ok::<bool, Error>(
            files.contains_key(second.text),
        ),
        files_after(
            files_after(files, exists_call(first), first_checked),
            exists_call(second),
            second_checked,
        ) == files,
{
}

} // verus!
