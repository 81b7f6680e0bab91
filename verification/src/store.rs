use crate::error::{access_failure, quoted, ErrorFrame, ErrorKind, UpdateError};
use crate::version::{canonical, lemma_text_round_trip, version_of_text, Version, VersionModel};
use vstd::prelude::*;
use vstd::string::*;

verus! {

/// What is said of a marker that does not hold the text of a version.
pub const MARKER_NOT_PARSED: &'static str = "Failed to parse current nvim version";

/// The version store, as contracts see it: where the marker is kept, and what
/// it holds if it is there.
pub struct StoreModel {
    pub path: Seq<char>,
    pub marker: Option<Seq<char>>,
}

/// What reading the current version comes to.
pub enum ReadModel {
    /// The version that is installed, or `0.0.0` for none.
    Version(VersionModel),
    /// The marker cannot be had.
    Missing,
    /// The marker does not hold the text of a version.
    Unreadable,
}

impl StoreModel {
    /// The current version. Where the caller knows of no marker, the store is
    /// not looked at, and the answer is `0.0.0`.
    pub open spec fn read(self, marker_exists: bool) -> ReadModel {
        if !marker_exists {
            ReadModel::Version(VersionModel::release(0, 0, 0))
        } else {
            match self.marker {
                None => ReadModel::Missing,
                Some(text) => match version_of_text(text) {
                    Some(v) => ReadModel::Version(v),
                    None => ReadModel::Unreadable,
                },
            }
        }
    }

    /// The store once `v` is recorded as the current version.
    pub open spec fn write(self, v: VersionModel) -> StoreModel {
        StoreModel { marker: Some(canonical(v)), ..self }
    }
}

/// What has been written is what is read: after a version is recorded, the
/// current version is that version.
pub proof fn lemma_write_then_read(store: StoreModel, v: VersionModel)
    requires
        v.wf(),
    ensures
        store.write(v).read(true) == ReadModel::Version(v),
        store.write(v).path == store.path,
{
    lemma_text_round_trip(v);
}

/// Without a marker the current version is `0.0.0`, whatever the store holds.
pub proof fn lemma_read_without_marker(store: StoreModel)
    ensures
        store.read(false) == ReadModel::Version(VersionModel::release(0, 0, 0)),
{
}

/// The version store: the marker that records which version is installed.
#[derive(Debug, PartialEq, Eq)]
pub struct VersionStore {
    path: String,
    marker: Option<String>,
}

impl View for VersionStore {
    type V = StoreModel;

    closed spec fn view(&self) -> StoreModel {
        StoreModel {
            path: self.path@,
            marker: match self.marker {
                Some(text) => Some(text@),
                None => None,
            },
        }
    }
}

impl VersionStore {
    /// A store whose marker is not there.
    pub fn absent(path: &str) -> (store: VersionStore)
        ensures
            store@ == (StoreModel { path: path@, marker: None }),
    {
        VersionStore { path: String::from_str(path), marker: None }
    }

    /// A store whose marker holds `contents`.
    pub fn holding(path: &str, contents: &str) -> (store: VersionStore)
        ensures
            store@ == (StoreModel { path: path@, marker: Some(contents@) }),
    {
        VersionStore { path: String::from_str(path), marker: Some(String::from_str(contents)) }
    }

    /// Where the marker is kept.
    pub fn path(&self) -> (path: &str)
        ensures
            path@ == self@.path,
    {
        self.path.as_str()
    }

    /// What the marker holds, if it is there.
    pub fn marker(&self) -> (marker: Option<&str>)
        ensures
            marker is Some <==> self@.marker is Some,
            marker matches Some(text) ==> Some(text@) == self@.marker,
    {
        match &self.marker {
            Some(text) => Some(text.as_str()),
            None => None,
        }
    }

    /// The current version: `0.0.0` where the caller knows of no marker, else
    /// the version whose text the marker holds.
    pub fn read_current(&self, marker_exists: bool) -> (current: Result<Version, UpdateError>)
        ensures
            match current {
                Ok(v) => self@.read(marker_exists) == ReadModel::Version(v@) && v@.wf(),
                Err(e) => match self@.read(marker_exists) {
                    ReadModel::Version(_) => false,
                    ReadModel::Missing => e@ == seq![
                        ErrorFrame { kind: ErrorKind::Io, message: access_failure(self@.path) },
                    ],
                    ReadModel::Unreadable => {
                        &&& e@.len() == 2
                        &&& e@[0] == ErrorFrame {
                            kind: ErrorKind::Parse,
                            message: MARKER_NOT_PARSED@,
                        }
                        &&& e@[1].kind == ErrorKind::Parse
                    },
                },
            },
    {
        if !marker_exists {
            return Ok(Version::none_installed());
        }
        match &self.marker {
            None => {
                let message = quoted("Failed to access '", self.path.as_str());
                Err(UpdateError::new(ErrorKind::Io, message.as_str()))
            },
            Some(text) => match Version::parse(text.as_str()) {
                Ok(v) => Ok(v),
                Err(e) => Err(e.context(MARKER_NOT_PARSED)),
            },
        }
    }

    /// Records `v` as the current version: the marker then holds the text of
    /// `v` and nothing else.
    pub fn write_current(&mut self, v: &Version)
        ensures
            final(self)@ == old(self)@.write(v@),
            v@.wf(),
    {
        let text = v.to_text();
        self.marker = Some(text);
    }
}

} // verus!
