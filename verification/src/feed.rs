use crate::error::{ErrorFrame, ErrorKind, FormatStep, UpdateError};
use crate::outside::{parse_url, url_error_text, url_serialization};
use crate::text::{after_prefix, lines, nth_field, nth_line, split, strip_prefix_char};
use crate::version::{canonical, lemma_text_round_trip, version_of_text, Version, VersionModel};
use vstd::prelude::*;
use vstd::string::*;

verus! {

/// The content type of the asset that is the artifact.
pub const APPIMAGE_CONTENT_TYPE: &'static str = "application/vnd.appimage";

/// What is said of a body with fewer than two lines.
pub const MISSING_SECOND_LINE: &'static str = "Could not get second line of 'body'";

/// What is said of a second line with fewer than two tokens.
pub const MISSING_SECOND_TOKEN: &'static str =
    "Could not get second segment of second line of 'body'";

/// What is said of a second token that does not begin with `v`.
pub const MISSING_PREFIX: &'static str = "Could not strip 'v' from segment";

/// What is said of a second token that is not the text of a version.
pub const VERSION_NOT_PARSED: &'static str = "Failed to parse version from 'body'";

/// What is said of a release without an asset that is the artifact.
pub const ASSET_NOT_FOUND: &'static str = "Could not find correct asset";

/// What is said of an artifact whose URL is none.
pub const URL_NOT_PARSED: &'static str = "Failed to parse Url from JSON";

/// What is said of a request to the feed that failed.
pub const REQUEST_FAILED: &'static str = "JSON Request Failed";

/// What is said of a response of the feed that is not the expected document.
pub const CONVERSION_FAILED: &'static str = "JSON Conversion Failed";

/// One downloadable file of a release.
#[derive(Debug, PartialEq, Eq)]
pub struct Asset {
    pub content_type: String,
    pub browser_download_url: String,
}

/// What the feed says of the latest release.
#[derive(Debug, PartialEq, Eq)]
pub struct FeedResponse {
    pub assets: Vec<Asset>,
    pub body: String,
}

/// The latest release: its version and where its artifact is to be had.
#[derive(Debug, PartialEq, Eq)]
pub struct ReleaseInfo {
    pub version: Version,
    /// The URL of the artifact, serialized.
    pub download_url: String,
}

/// A release, as contracts see it.
pub struct ReleaseModel {
    pub version: VersionModel,
    pub download_url: Seq<char>,
}

impl View for ReleaseInfo {
    type V = ReleaseModel;

    open spec fn view(&self) -> ReleaseModel {
        ReleaseModel { version: self.version@, download_url: self.download_url@ }
    }
}

/// The text of the version in the body of a release: of the second line the
/// second of the tokens that single spaces separate, without the `v` that it
/// has to begin with.
pub open spec fn version_token(body: Seq<char>) -> Result<Seq<char>, FormatStep> {
    if lines(body).len() < 2 {
        Err(FormatStep::SecondLine)
    } else if split(lines(body)[1], ' ').len() < 2 {
        Err(FormatStep::SecondToken)
    } else {
        match after_prefix(split(lines(body)[1], ' ')[1], 'v') {
            Some(token) => Ok(token),
            None => Err(FormatStep::Prefix),
        }
    }
}

/// The version that the body of a release names, if it names one where one
/// is looked for.
pub open spec fn body_version(body: Seq<char>) -> Option<VersionModel> {
    match version_token(body) {
        Ok(token) => version_of_text(token),
        Err(_) => None,
    }
}

/// The words for a step of the scraping that failed.
pub open spec fn step_message(step: FormatStep) -> Seq<char> {
    match step {
        FormatStep::SecondLine => MISSING_SECOND_LINE@,
        FormatStep::SecondToken => MISSING_SECOND_TOKEN@,
        FormatStep::Prefix => MISSING_PREFIX@,
    }
}

/// The chain of the error for a step of the scraping that failed.
pub open spec fn step_failure(step: FormatStep) -> Seq<ErrorFrame> {
    seq![ErrorFrame { kind: ErrorKind::Format(step), message: step_message(step) }]
}

/// Finds the text of the version in the body of a release.
pub fn find_version_token<'a>(body: &'a str) -> (found: Result<&'a str, UpdateError>)
    ensures
        match found {
            Ok(token) => version_token(body@) == Ok::<Seq<char>, FormatStep>(token@),
            Err(e) => version_token(body@) is Err && e@ == step_failure(version_token(body@)->Err_0),
        },
{
    let line = match nth_line(body, 1) {
        Some(line) => line,
        None => {
            return Err(
                UpdateError::new(ErrorKind::Format(FormatStep::SecondLine), MISSING_SECOND_LINE),
            );
        },
    };
    let token = match nth_field(line, ' ', 1) {
        Some(token) => token,
        None => {
            return Err(
                UpdateError::new(ErrorKind::Format(FormatStep::SecondToken), MISSING_SECOND_TOKEN),
            );
        },
    };
    match strip_prefix_char(token, 'v') {
        Some(rest) => Ok(rest),
        None => Err(UpdateError::new(ErrorKind::Format(FormatStep::Prefix), MISSING_PREFIX)),
    }
}

/// The chain of the error for a text that is not that of a version, or of a
/// URL: what was being read, and what the reader said.
pub open spec fn is_reading_failure(chain: Seq<ErrorFrame>, kind: ErrorKind, message: Seq<char>) -> bool {
    &&& chain.len() == 2
    &&& chain[0] == ErrorFrame { kind, message }
    &&& chain[1].kind == kind
}

/// Reads the version of a release from its body.
pub fn extract_version(body: &str) -> (found: Result<Version, UpdateError>)
    ensures
        match found {
            Ok(v) => body_version(body@) == Some(v@) && v@.wf(),
            Err(e) => body_version(body@) is None && match version_token(body@) {
                Err(step) => e@ == step_failure(step),
                Ok(_) => is_reading_failure(e@, ErrorKind::Parse, VERSION_NOT_PARSED@),
            },
        },
{
    let token = find_version_token(body)?;
    match Version::parse(token) {
        Ok(v) => Ok(v),
        Err(e) => Err(e.context(VERSION_NOT_PARSED)),
    }
}

/// Whether an asset is the artifact, by its content type.
pub open spec fn is_artifact(asset: Asset) -> bool {
    asset.content_type@ == APPIMAGE_CONTENT_TYPE@
}

/// Whether the asset at `index` is the first that is the artifact.
pub open spec fn is_first_artifact(assets: Seq<Asset>, index: int) -> bool {
    &&& 0 <= index < assets.len()
    &&& is_artifact(assets[index])
    &&& forall|j: int| 0 <= j < index ==> !is_artifact(#[trigger] assets[j])
}

/// The place of the first asset that is the artifact, if there is one.
pub open spec fn first_artifact(assets: Seq<Asset>) -> Option<int> {
    if exists|i: int| is_first_artifact(assets, i) {
        Some(choose|i: int| is_first_artifact(assets, i))
    } else {
        None
    }
}

/// The place of the first asset that is the artifact: the first in the order
/// of the list whose content type is exactly that of an AppImage.
pub fn select_asset(assets: &Vec<Asset>) -> (found: Result<usize, UpdateError>)
    ensures
        match found {
            Ok(index) => first_artifact(assets@) == Some(index as int) && is_first_artifact(
                assets@,
                index as int,
            ),
            Err(e) => first_artifact(assets@) is None && e@ == seq![
                ErrorFrame { kind: ErrorKind::NotFound, message: ASSET_NOT_FOUND@ },
            ],
        },
{
    let wanted = String::from_str(APPIMAGE_CONTENT_TYPE);
    let mut i: usize = 0;
    while i < assets.len()
        invariant
            i <= assets@.len(),
            wanted@ == APPIMAGE_CONTENT_TYPE@,
            forall|j: int| 0 <= j < i ==> !is_artifact(#[trigger] assets@[j]),
        decreases assets@.len() - i,
    {
        if assets[i].content_type == wanted {
            proof {
                lemma_first_artifact_is_first(assets@, i as int);
            }
            return Ok(i);
        }
        i = i + 1;
    }
    Err(UpdateError::new(ErrorKind::NotFound, ASSET_NOT_FOUND))
}

/// The latest release that a response of the feed describes, if it describes
/// one: the version that its body names, and the URL of the first asset that
/// is the artifact.
pub open spec fn release_of(response: FeedResponse) -> Option<ReleaseModel> {
    match (body_version(response.body@), first_artifact(response.assets@)) {
        (Some(version), Some(i)) => match url_serialization(
            response.assets@[i].browser_download_url@,
        ) {
            Some(download_url) => Some(ReleaseModel { version, download_url }),
            None => None,
        },
        _ => None,
    }
}

/// Reads the latest release from what the feed says: the version from the
/// body, then the artifact among the assets, then the artifact's URL. The
/// first of the three that fails gives the error.
pub fn release_info(response: &FeedResponse) -> (found: Result<ReleaseInfo, UpdateError>)
    ensures
        match found {
            Ok(release) => release_of(*response) == Some(release@) && release@.version.wf(),
            Err(e) => release_of(*response) is None && match version_token(response.body@) {
                Err(step) => e@ == step_failure(step),
                Ok(_) => if body_version(response.body@) is None {
                    is_reading_failure(e@, ErrorKind::Parse, VERSION_NOT_PARSED@)
                } else if first_artifact(response.assets@) is None {
                    e@ == seq![ErrorFrame { kind: ErrorKind::NotFound, message: ASSET_NOT_FOUND@ }]
                } else {
                    is_reading_failure(e@, ErrorKind::Decode, URL_NOT_PARSED@)
                },
            },
        },
{
    let version = extract_version(response.body.as_str())?;
    let index = select_asset(&response.assets)?;
    match parse_url(response.assets[index].browser_download_url.as_str()) {
        Ok(download_url) => Ok(ReleaseInfo { version, download_url }),
        Err(e) => {
            let cause = UpdateError::new(ErrorKind::Decode, url_error_text(&e).as_str());
            Err(cause.context(URL_NOT_PARSED))
        },
    }
}

/// A body names the version whose text, after a `v`, is the second token of
/// its second line, whatever else the body holds.
pub proof fn lemma_body_names_version(body: Seq<char>, v: VersionModel)
    requires
        v.wf(),
        lines(body).len() >= 2,
        split(lines(body)[1], ' ').len() >= 2,
        split(lines(body)[1], ' ')[1] == seq!['v'] + canonical(v),
    ensures
        body_version(body) == Some(v),
{
    lemma_text_round_trip(v);
    assert((seq!['v'] + canonical(v)).skip(1) =~= canonical(v));
}

/// A body names no version where it has fewer than two lines, where its
/// second line has fewer than two tokens, or where the second token does not
/// begin with `v`; the step that fails first is the one that is reported.
pub proof fn lemma_body_without_version(body: Seq<char>)
    ensures
        lines(body).len() < 2 ==> version_token(body) == Err::<Seq<char>, FormatStep>(
            FormatStep::SecondLine,
        ),
        lines(body).len() >= 2 && split(lines(body)[1], ' ').len() < 2 ==> version_token(body)
            == Err::<Seq<char>, FormatStep>(FormatStep::SecondToken),
        lines(body).len() >= 2 && split(lines(body)[1], ' ').len() >= 2 && after_prefix(
            split(lines(body)[1], ' ')[1],
            'v',
        ) is None ==> version_token(body) == Err::<Seq<char>, FormatStep>(FormatStep::Prefix),
        version_token(body) is Err ==> body_version(body) is None,
{
}

/// The first asset that is the artifact is the one before which none is.
pub proof fn lemma_first_artifact_is_first(assets: Seq<Asset>, index: int)
    requires
        is_first_artifact(assets, index),
    ensures
        first_artifact(assets) == Some(index),
{
    let chosen = choose|i: int| is_first_artifact(assets, i);
    if chosen < index {
        assert(!is_artifact(assets[chosen]));
    }
    if index < chosen {
        assert(!is_artifact(assets[index]));
    }
}

} // verus!
