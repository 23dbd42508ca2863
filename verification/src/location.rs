//! File locations and the two steps by which one location is derived from
//! another: going to the enclosing directory, and descending along a relative
//! path.
//!
//! A [`Location`] is plain data: which of the two kinds it is, and its
//! canonical text. The derivations themselves are made by `clarinet_files`,
//! so that a location derived here reads exactly as the one the analysis
//! engine would have derived.

use crate::error::PathError;
use clarinet_files::url::Url;
use clarinet_files::FileLocation;
use std::path::PathBuf;
use vstd::prelude::*;
use vstd::utf8::encode_utf8;

verus! {

/// Identifies a file, either by a path of the file system or by a URL.
#[derive(Clone, Debug, PartialEq, Eq)]
pub enum Location {
    FileSystem { path: String },
    Url { url: String },
}

/// What a [`Location`] is to the contracts: its kind and its canonical text.
pub struct LocationView {
    pub is_url: bool,
    pub text: Seq<char>,
}

impl View for Location {
    type V = LocationView;

    open spec fn view(&self) -> LocationView {
        match self {
            Location::FileSystem { path } => LocationView { is_url: false, text: path@ },
            Location::Url { url } => LocationView { is_url: true, text: url@ },
        }
    }
}

/// The longest text, in bytes of UTF-8, from which a location is derived,
/// be it a location's own text or a relative path.
pub const MAX_TEXT_BYTES: usize = 16_777_216;

/// The length of `text` in bytes of UTF-8.
pub open spec fn byte_len(text: Seq<char>) -> nat {
    encode_utf8(text).len()
}

/// Whether `text` is no longer than [`MAX_TEXT_BYTES`].
pub open spec fn fits(text: Seq<char>) -> bool {
    byte_len(text) <= MAX_TEXT_BYTES
}

/// The canonical text of the enclosing directory of the location with the
/// given kind and text, as `FileLocation::get_parent_location` derives it, or
/// `None` where it reports that there is none. For a path this follows
/// `std::path` on the platform the library is built for.
pub uninterp spec fn parent_text(is_url: bool, text: Seq<char>) -> Option<Seq<char>>;

/// The canonical text of the location reached from the one with the given
/// kind and text along `relative`, as `FileLocation::append_path` derives it,
/// or `None` where it refuses. For a path this follows `std::path` on the
/// platform the library is built for.
pub uninterp spec fn appended_text(is_url: bool, text: Seq<char>, relative: Seq<char>) -> Option<
    Seq<char>,
>;

/// Whether `relative` starts at a root, and so is no relative path.
pub open spec fn is_absolute(relative: Seq<char>) -> bool {
    relative.len() > 0 && relative[0] == '/'
}

/// Whether `relative` may be appended to `location` at all: it is not
/// absolute, and neither text is longer than [`MAX_TEXT_BYTES`].
pub open spec fn admits(location: LocationView, relative: Seq<char>) -> bool {
    &&& !is_absolute(relative)
    &&& fits(location.text)
    &&& fits(relative)
}

/// What becomes of the text that was derived as the enclosing directory of
/// `location`. A location that would be its own enclosing directory is a
/// root, and has none.
pub open spec fn parent_from(location: LocationView, derived: Option<Seq<char>>) -> Result<
    LocationView,
    PathError,
> {
    match derived {
        Some(text) => if text == location.text {
            Err(PathError::NoParent)
        } else {
            Ok(LocationView { is_url: location.is_url, text })
        },
        None => Err(PathError::NoParent),
    }
}

/// What becomes of the text that was derived by appending to `location`.
pub open spec fn appended_from(location: LocationView, derived: Option<Seq<char>>) -> Result<
    LocationView,
    PathError,
> {
    match derived {
        Some(text) => Ok(LocationView { is_url: location.is_url, text }),
        None => Err(PathError::InvalidSegment),
    }
}

/// The enclosing directory of `location`. None is derived from a text longer
/// than [`MAX_TEXT_BYTES`].
pub open spec fn parent_of(location: LocationView) -> Result<LocationView, PathError> {
    if fits(location.text) {
        parent_from(location, parent_text(location.is_url, location.text))
    } else {
        Err(PathError::NoParent)
    }
}

/// The location reached from `location` along `relative`. Segments `..` are
/// not held below any root: what becomes of them is `appended_text`'s.
pub open spec fn appended_to(location: LocationView, relative: Seq<char>) -> Result<
    LocationView,
    PathError,
> {
    if admits(location, relative) {
        appended_from(location, appended_text(location.is_url, location.text, relative))
    } else {
        Err(PathError::InvalidSegment)
    }
}

/// The location of a contract named by `relative` in the manifest at
/// `manifest`: the manifest's directory, then the relative path.
pub open spec fn contract_location(manifest: LocationView, relative: Seq<char>) -> Result<
    LocationView,
    PathError,
> {
    match parent_of(manifest) {
        Ok(directory) => appended_to(directory, relative),
        Err(error) => Err(error),
    }
}

/// Calls `FileLocation::get_parent_location` on the location that
/// `FileLocation::from_path` or `FileLocation::from_url` makes of `location`'s
/// text, and hands back the result's kind and its `to_string`.
///
/// Trusted: the result is `parent_text` of the kind and text, it is of the
/// same kind as `location`, and it is `None` exactly where the text is not a
/// URL though the kind says so, or where the outside function returns `Err`
/// (a path that `PathBuf::pop` leaves unchanged, a URL that cannot be a base).
/// The bound keeps a URL's text below the length at which the `url` crate
/// panics.
#[verifier::external_body]
fn outside_parent(location: &Location) -> (parent: Option<Location>)
    requires
        fits(location@.text),
    ensures
        parent matches Some(p) ==> p@.is_url == location@.is_url && parent_text(
            location@.is_url,
            location@.text,
        ) == Some(p@.text),
        parent is None ==> parent_text(location@.is_url, location@.text) is None,
{
    let outside = match location {
        Location::FileSystem { path } => FileLocation::from_path(PathBuf::from(path)),
        Location::Url { url } => FileLocation::from_url(Url::parse(url).ok()?),
    };
    let parent = outside.get_parent_location().ok()?;
    Some(
        match parent {
            FileLocation::FileSystem { .. } => Location::FileSystem { path: parent.to_string() },
            FileLocation::Url { .. } => Location::Url { url: parent.to_string() },
        },
    )
}

/// Calls `FileLocation::append_path` with `relative` on the location that
/// `FileLocation::from_path` or `FileLocation::from_url` makes of `location`'s
/// text, and hands back the result's kind and its `to_string`.
///
/// Trusted: the result is `appended_text` of the kind, the text and the
/// relative path, it is of the same kind as `location`, and it is `None`
/// exactly where the text is not a URL though the kind says so, or where the
/// outside function returns `Err` (a URL that cannot be a base). The bound
/// keeps a URL's text below the length at which the `url` crate panics.
#[verifier::external_body]
fn outside_append(location: &Location, relative: &str) -> (appended: Option<Location>)
    requires
        fits(location@.text),
        fits(relative@),
    ensures
        appended matches Some(a) ==> a@.is_url == location@.is_url && appended_text(
            location@.is_url,
            location@.text,
            relative@,
        ) == Some(a@.text),
        appended is None ==> appended_text(location@.is_url, location@.text, relative@) is None,
{
    let mut outside = match location {
        Location::FileSystem { path } => FileLocation::from_path(PathBuf::from(path)),
        Location::Url { url } => FileLocation::from_url(Url::parse(url).ok()?),
    };
    outside.append_path(relative).ok()?;
    Some(
        match outside {
            FileLocation::FileSystem { .. } => Location::FileSystem { path: outside.to_string() },
            FileLocation::Url { .. } => Location::Url { url: outside.to_string() },
        },
    )
}

impl Location {
    fn text(&self) -> (text: &String)
        ensures
            text@ == self@.text,
    {
        match self {
            Location::FileSystem { path } => path,
            Location::Url { url } => url,
        }
    }

    /// The canonical text of the location: what the host is given as a path.
    pub fn to_string(&self) -> (canonical: String)
        ensures
            canonical@ == self@.text,
    {
        self.text().clone()
    }

    /// Decides on what was derived as the enclosing directory of this
    /// location: it stands, unless it reads as this location does.
    pub fn accept_parent(&self, derived: Option<Location>) -> (result: Result<Location, PathError>)
        ensures
            result == match derived {
                Some(parent) => if parent@.text == self@.text {
                    Err(PathError::NoParent)
                } else {
                    Ok(parent)
                },
                None => Err(PathError::NoParent),
            },
    {
        match derived {
            Some(parent) => if *parent.text() == *self.text() {
                Err(PathError::NoParent)
            } else {
                Ok(parent)
            },
            None => Err(PathError::NoParent),
        }
    }

    /// Decides on what was derived by appending to a location: it stands.
    /// That nothing was derived is laid to the relative path.
    pub fn accept_appended(derived: Option<Location>) -> (result: Result<Location, PathError>)
        ensures
            result == match derived {
                Some(reached) => Ok(reached),
                None => Err(PathError::InvalidSegment),
            },
    {
        match derived {
            Some(reached) => Ok(reached),
            None => Err(PathError::InvalidSegment),
        }
    }

    /// Whether the location's text is short enough to derive another from.
    pub fn fits(&self) -> (short: bool)
        ensures
            short == fits(self@.text),
    {
        self.text().as_str().as_bytes().len() <= MAX_TEXT_BYTES
    }

    /// Whether `relative` may be appended to this location at all.
    pub fn admits(&self, relative: &str) -> (admitted: bool)
        ensures
            admitted == admits(self@, relative@),
    {
        if !relative.is_empty() && relative.get_char(0) == '/' {
            return false;
        }
        self.fits() && relative.as_bytes().len() <= MAX_TEXT_BYTES
    }

    /// The enclosing directory, or `NoParent` where there is none or the
    /// text is over-long.
    pub fn parent(&self) -> (result: Result<Location, PathError>)
        ensures
            match parent_of(self@) {
                Ok(directory) => result matches Ok(parent) && parent@ == directory,
                Err(error) => result == Err::<Location, PathError>(error),
            },
    {
        if !self.fits() {
            return Err(PathError::NoParent);
        }
        self.accept_parent(outside_parent(self))
    }

    /// The location reached along `relative`, or `InvalidSegment` where the
    /// relative path is not admitted or cannot be appended.
    pub fn append(&self, relative: &str) -> (result: Result<Location, PathError>)
        ensures
            match appended_to(self@, relative@) {
                Ok(reached) => result matches Ok(location) && location@ == reached,
                Err(error) => result == Err::<Location, PathError>(error),
            },
    {
        if !self.admits(relative) {
            return Err(PathError::InvalidSegment);
        }
        Location::accept_appended(outside_append(self, relative))
    }
}

/// Resolves the contract named by `relative` in the manifest at `manifest`.
/// The first step that fails decides the error.
pub fn resolve_contract_location(manifest: &Location, relative: &str) -> (result: Result<
    Location,
    PathError,
>)
    ensures
        match contract_location(manifest@, relative@) {
            Ok(resolved) => result matches Ok(l) && l@ == resolved,
            Err(error) => result == Err::<Location, PathError>(error),
        },
{
    match manifest.parent() {
        Ok(directory) => directory.append(relative),
        Err(error) => Err(error),
    }
}

} // verus!
