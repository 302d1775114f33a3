//! Releases as the Spotify catalogue describes them.

use crate::command::new_release::assemble_parsed_date;
use crate::command::new_release::assembled_date;
use crate::command::new_release::AssembleDateError;
use crate::command::new_release::AssembleDateFault;
use crate::command::new_release::parse_date;
use crate::command::new_release::parsed_date;
use crate::interaction::text_view;
use crate::iri::InvalidIriRef;
use crate::iri::iri_reference_is_valid;
use crate::iri::iri_relative_segments;
use crate::iri::iri_same_authority;
use crate::iri::IriRefBuf;
use crate::iri::is_iri_reference;
use crate::iri::relative_segments;
use crate::iri::same_authority;
use crate::release::Artist;
use crate::release::artists_view;
use crate::release::Release;
use crate::release::ReleaseType;
use crate::release::ReleaseTypeView;
use crate::release::ReleaseView;
use crate::release::Track;
use crate::release::tracks_view;
use crate::text::caused;
use crate::text::texts;
use crate::text::with_cause;
use vstd::prelude::*;
use vstd::string::StringExecFns;

verus! {

/// Where the Spotify catalogue is found.
pub open spec fn spotify_base() -> Seq<char> {
    "https://open.spotify.com"@
}

/// `c` is an ASCII letter or digit.
pub open spec fn is_ascii_alphanumeric(c: char) -> bool {
    ||| 48 <= c as u32 <= 57
    ||| 65 <= c as u32 <= 90
    ||| 97 <= c as u32 <= 122
}

/// A text that can be the id of a Spotify resource: ASCII letters and digits
/// only.
pub open spec fn is_spotify_id(id: Seq<char>) -> bool {
    forall|i: int| 0 <= i < id.len() ==> is_ascii_alphanumeric(#[trigger] id[i])
}

/// `rspotify::model::AlbumId::from_id`: whether the text can be the id of an
/// album.
#[verifier::external_body]
fn album_id_is_valid(id: &str) -> (valid: bool)
    ensures
        valid == is_spotify_id(id@),
{
    rspotify::model::AlbumId::from_id(id).is_ok()
}

/// `rspotify::model::PlaylistId::from_id`: whether the text can be the id of
/// a playlist.
#[verifier::external_body]
fn playlist_id_is_valid(id: &str) -> (valid: bool)
    ensures
        valid == is_spotify_id(id@),
{
    rspotify::model::PlaylistId::from_id(id).is_ok()
}

/// `rspotify::model::TrackId::from_id`: whether the text can be the id of a
/// track.
#[verifier::external_body]
fn track_id_is_valid(id: &str) -> (valid: bool)
    ensures
        valid == is_spotify_id(id@),
{
    rspotify::model::TrackId::from_id(id).is_ok()
}

/// `rspotify::model::Id::url`, of an album: the link under which the album
/// is found.
#[verifier::external_body]
fn album_url(id: &str) -> (url: String)
    requires
        is_spotify_id(id@),
    ensures
        url@ == "https://open.spotify.com/album/"@ + id@,
{
    rspotify::model::Id::url(&rspotify::model::AlbumId::from_id(id).expect("a valid id"))
}

/// The kinds of Spotify resource that a link can name.
#[derive(Debug, Clone, Copy, PartialEq, Eq, Structural)]
pub enum SpotifyResourceKind {
    Album,
    Track,
    Playlist,
}

/// A resource of the Spotify catalogue: its kind and its id.
#[derive(Debug, PartialEq, Eq)]
pub struct SpotifyResource {
    kind: SpotifyResourceKind,
    id: String,
}

impl Clone for SpotifyResource {
    fn clone(&self) -> (copy: Self)
        ensures
            copy.kind_spec() == self.kind_spec(),
            copy.id_spec() == self.id_spec(),
    {
        proof {
            use_type_invariant(self);
        }
        SpotifyResource { kind: self.kind, id: self.id.clone() }
    }
}

impl SpotifyResource {
    #[verifier::type_invariant]
    spec fn id_is_valid(self) -> bool {
        is_spotify_id(self.id@)
    }

    /// The resource's kind.
    pub closed spec fn kind_spec(&self) -> SpotifyResourceKind {
        self.kind
    }

    /// The resource's id.
    pub closed spec fn id_spec(&self) -> Seq<char> {
        self.id@
    }

    /// The resource's kind.
    pub fn kind(&self) -> (kind: SpotifyResourceKind)
        ensures
            kind == self.kind_spec(),
    {
        self.kind
    }

    /// The resource's id.
    pub fn id(&self) -> (id: &str)
        ensures
            id@ == self.id_spec(),
            is_spotify_id(id@),
    {
        proof {
            use_type_invariant(self);
        }
        self.id.as_str()
    }
}

/// Why a link does not name a resource of the Spotify catalogue.
#[derive(Debug, Clone, PartialEq, Eq)]
pub enum SpotifyResourceFromUrlError {
    /// The link does not lead to Spotify.
    NotSpotify,
    /// The link names no kind of resource.
    MissingResourceType,
    /// The link names no resource id.
    MissingResourceId,
    /// The kind of resource that the link names is none that is known here.
    UnrecognizedResourceType { kind: String },
    /// The resource id that the link names is not valid by Spotify's rules.
    InvalidResourceId { id: String },
}

/// A `SpotifyResourceFromUrlError` with its texts as sequences of
/// characters.
pub enum SpotifyResourceFault {
    NotSpotify,
    MissingResourceType,
    MissingResourceId,
    UnrecognizedResourceType(Seq<char>),
    InvalidResourceId(Seq<char>),
}

impl View for SpotifyResourceFromUrlError {
    type V = SpotifyResourceFault;

    open spec fn view(&self) -> SpotifyResourceFault {
        match self {
            SpotifyResourceFromUrlError::NotSpotify => SpotifyResourceFault::NotSpotify,
            SpotifyResourceFromUrlError::MissingResourceType => {
                SpotifyResourceFault::MissingResourceType
            },
            SpotifyResourceFromUrlError::MissingResourceId => SpotifyResourceFault::MissingResourceId,
            SpotifyResourceFromUrlError::UnrecognizedResourceType {
                kind,
            } => SpotifyResourceFault::UnrecognizedResourceType(kind@),
            SpotifyResourceFromUrlError::InvalidResourceId {
                id,
            } => SpotifyResourceFault::InvalidResourceId(id@),
        }
    }
}

/// The kind of resource that a path segment names.
pub open spec fn named_kind(kind: Seq<char>) -> Option<SpotifyResourceKind> {
    if kind == "album"@ {
        Some(SpotifyResourceKind::Album)
    } else if kind == "playlist"@ {
        Some(SpotifyResourceKind::Playlist)
    } else if kind == "track"@ {
        Some(SpotifyResourceKind::Track)
    } else {
        None
    }
}

/// The Spotify resource that path segments name: the first names its kind,
/// the second is its id.
pub open spec fn resource_of_segments(segments: Seq<Seq<char>>) -> Result<
    (SpotifyResourceKind, Seq<char>),
    SpotifyResourceFault,
> {
    if segments.len() == 0 {
        Err(SpotifyResourceFault::MissingResourceType)
    } else if segments.len() == 1 {
        Err(SpotifyResourceFault::MissingResourceId)
    } else {
        match named_kind(segments[0]) {
            Some(kind) => if is_spotify_id(segments[1]) {
                Ok((kind, segments[1]))
            } else {
                Err(SpotifyResourceFault::InvalidResourceId(segments[1]))
            },
            None => Err(SpotifyResourceFault::UnrecognizedResourceType(segments[0])),
        }
    }
}

/// The Spotify resource that a link names: the link must lead to Spotify, and
/// its path from there must begin with the resource's kind and id.
pub open spec fn resource_of_url(url: Seq<char>) -> Result<
    (SpotifyResourceKind, Seq<char>),
    SpotifyResourceFault,
> {
    if is_iri_reference(spotify_base()) && iri_same_authority(url, spotify_base()) {
        resource_of_segments(iri_relative_segments(url, spotify_base()))
    } else {
        Err(SpotifyResourceFault::NotSpotify)
    }
}

/// The Spotify resource that path segments name.
pub fn resource_from_segments(segments: Vec<String>) -> (outcome: Result<
    SpotifyResource,
    SpotifyResourceFromUrlError,
>)
    ensures
        match resource_of_segments(texts(segments@)) {
            Ok((kind, id)) => outcome matches Ok(resource) && resource.kind_spec() == kind
                && resource.id_spec() == id,
            Err(fault) => outcome matches Err(error) && error@ == fault,
        },
{
    let mut segments = segments;
    let ghost all = texts(segments@);
    if segments.len() == 0 {
        return Err(SpotifyResourceFromUrlError::MissingResourceType);
    }
    if segments.len() == 1 {
        return Err(SpotifyResourceFromUrlError::MissingResourceId);
    }
    assert(all[0] == segments@[0]@ && all[1] == segments@[1]@);
    let id = segments.swap_remove(1);
    let kind = segments.swap_remove(0);
    assert(id@ == all[1] && kind@ == all[0]);
    if kind == String::from_str("album") {
        if album_id_is_valid(id.as_str()) {
            Ok(SpotifyResource { kind: SpotifyResourceKind::Album, id })
        } else {
            Err(SpotifyResourceFromUrlError::InvalidResourceId { id })
        }
    } else if kind == String::from_str("playlist") {
        if playlist_id_is_valid(id.as_str()) {
            Ok(SpotifyResource { kind: SpotifyResourceKind::Playlist, id })
        } else {
            Err(SpotifyResourceFromUrlError::InvalidResourceId { id })
        }
    } else if kind == String::from_str("track") {
        if track_id_is_valid(id.as_str()) {
            Ok(SpotifyResource { kind: SpotifyResourceKind::Track, id })
        } else {
            Err(SpotifyResourceFromUrlError::InvalidResourceId { id })
        }
    } else {
        Err(SpotifyResourceFromUrlError::UnrecognizedResourceType { kind })
    }
}

/// The Spotify resource that a link names.
pub fn parse_spotify_resource(url: &IriRefBuf) -> (outcome: Result<
    SpotifyResource,
    SpotifyResourceFromUrlError,
>)
    ensures
        match resource_of_url(url@) {
            Ok((kind, id)) => outcome matches Ok(resource) && resource.kind_spec() == kind
                && resource.id_spec() == id,
            Err(fault) => outcome matches Err(error) && error@ == fault,
        },
{
    let base = "https://open.spotify.com";
    if !iri_reference_is_valid(base) {
        return Err(SpotifyResourceFromUrlError::NotSpotify);
    }
    if !same_authority(url.as_str(), base) {
        return Err(SpotifyResourceFromUrlError::NotSpotify);
    }
    resource_from_segments(relative_segments(url.as_str(), base))
}

/// How the Spotify catalogue files an album.
#[derive(Debug, Clone, Copy, PartialEq, Eq, Structural)]
pub enum AlbumType {
    Album,
    Single,
    AppearsOn,
    Compilation,
}

/// What the Spotify catalogue tells of an album.
#[derive(Debug, Clone, PartialEq, Eq)]
pub struct SpotifyAlbum {
    pub album_type: AlbumType,
    /// The date of the release, as far as it is known: a year, a year and a
    /// month, or a full date, with hyphens between the parts.
    pub release_date: String,
    pub name: String,
    pub artists: Vec<Artist>,
    pub label: Option<String>,
}

/// Why the Spotify catalogue gave no release.
#[derive(Debug, Clone, PartialEq, Eq)]
pub enum GetSpotifyReleaseError {
    /// The link is for Spotify, but for a kind of resource that is no album.
    UrlForUnsupportedResource { got: SpotifyResource },
    /// Spotify did not let the client in.
    TokenError { source: String },
    /// The album could not be fetched.
    FetchAlbumError { source: String },
    /// The tracks of the album could not be fetched.
    FetchTracksError { source: String },
    /// The date of the release is invalid.
    DateInvalid { source: AssembleDateError },
    /// The link to the release is no valid link.
    ReturnedUrlInvalid { source: InvalidIriRef },
}

/// A `GetSpotifyReleaseError` with its texts as sequences of characters.
pub enum GetSpotifyReleaseFault {
    UrlForUnsupportedResource(SpotifyResourceKind, Seq<char>),
    TokenError(Seq<char>),
    FetchAlbumError(Seq<char>),
    FetchTracksError(Seq<char>),
    DateInvalid(AssembleDateFault),
    ReturnedUrlInvalid(Seq<char>),
}

impl View for GetSpotifyReleaseError {
    type V = GetSpotifyReleaseFault;

    open spec fn view(&self) -> GetSpotifyReleaseFault {
        match self {
            GetSpotifyReleaseError::UrlForUnsupportedResource {
                got,
            } => GetSpotifyReleaseFault::UrlForUnsupportedResource(got.kind_spec(), got.id_spec()),
            GetSpotifyReleaseError::TokenError { source } => GetSpotifyReleaseFault::TokenError(
                source@,
            ),
            GetSpotifyReleaseError::FetchAlbumError {
                source,
            } => GetSpotifyReleaseFault::FetchAlbumError(source@),
            GetSpotifyReleaseError::FetchTracksError {
                source,
            } => GetSpotifyReleaseFault::FetchTracksError(source@),
            GetSpotifyReleaseError::DateInvalid { source } => GetSpotifyReleaseFault::DateInvalid(
                source@,
            ),
            GetSpotifyReleaseError::ReturnedUrlInvalid {
                source,
            } => GetSpotifyReleaseFault::ReturnedUrlInvalid(source.0@),
        }
    }
}

impl GetSpotifyReleaseError {
    /// The error and what caused it, in words.
    pub open spec fn report_spec(&self) -> Seq<char> {
        match self {
            GetSpotifyReleaseError::UrlForUnsupportedResource { .. } => {
                "the `url` is for Spotify, but not a resource type valid for this command (currently just album)"@
            },
            GetSpotifyReleaseError::TokenError { source } => caused(
                "couldn't authenticate with Spotify"@,
                source@,
            ),
            GetSpotifyReleaseError::FetchAlbumError { source } => caused(
                "couldn't retrieve album data from Spotify"@,
                source@,
            ),
            GetSpotifyReleaseError::FetchTracksError { source } => caused(
                "couldn't retrieve data for tracks in this album from Spotify"@,
                source@,
            ),
            GetSpotifyReleaseError::DateInvalid { source } => caused(
                "the date of the Spotify release is invalid"@,
                source.report_spec(),
            ),
            GetSpotifyReleaseError::ReturnedUrlInvalid { source } => caused(
                "couldn't return a valid URL to the release (for clickability)"@,
                source.message_spec(),
            ),
        }
    }

    /// The error and what caused it, in words.
    pub fn report(&self) -> (text: String)
        ensures
            text@ == self.report_spec(),
    {
        match self {
            GetSpotifyReleaseError::UrlForUnsupportedResource { .. } => String::from_str(
                "the `url` is for Spotify, but not a resource type valid for this command (currently just album)",
            ),
            GetSpotifyReleaseError::TokenError { source } => with_cause(
                "couldn't authenticate with Spotify",
                source.clone(),
            ),
            GetSpotifyReleaseError::FetchAlbumError { source } => with_cause(
                "couldn't retrieve album data from Spotify",
                source.clone(),
            ),
            GetSpotifyReleaseError::FetchTracksError { source } => with_cause(
                "couldn't retrieve data for tracks in this album from Spotify",
                source.clone(),
            ),
            GetSpotifyReleaseError::DateInvalid { source } => with_cause(
                "the date of the Spotify release is invalid",
                source.report(),
            ),
            GetSpotifyReleaseError::ReturnedUrlInvalid { source } => with_cause(
                "couldn't return a valid URL to the release (for clickability)",
                source.message(),
            ),
        }
    }
}

/// Whether the client has to ask for a new access token before it asks for
/// anything else: it has none, or one without a known end, or one that has
/// ended by `now`. Times are counted in seconds.
pub open spec fn token_needs_refresh(expires_at: Option<Option<i64>>, now: i64) -> bool {
    match expires_at {
        Some(Some(expires_at)) => expires_at <= now,
        _ => true,
    }
}

/// Whether the client has to ask for a new access token. `expires_at` is
/// nothing where the client has no token, and holds nothing where the token's
/// end is not known.
pub fn needs_refresh(expires_at: Option<Option<i64>>, now: i64) -> (refresh: bool)
    ensures
        refresh == token_needs_refresh(expires_at, now),
{
    match expires_at {
        Some(Some(expires_at)) => expires_at <= now,
        _ => true,
    }
}

/// The id of the album that is to be asked for, where the resource is an
/// album.
pub fn requested_album(resource: SpotifyResource) -> (outcome: Result<
    SpotifyResource,
    GetSpotifyReleaseError,
>)
    ensures
        match outcome {
            Ok(album) => resource.kind_spec() == SpotifyResourceKind::Album && album.kind_spec()
                == resource.kind_spec() && album.id_spec() == resource.id_spec(),
            Err(error) => resource.kind_spec() != SpotifyResourceKind::Album && error@
                == GetSpotifyReleaseFault::UrlForUnsupportedResource(
                resource.kind_spec(),
                resource.id_spec(),
            ),
        },
{
    match resource.kind() {
        SpotifyResourceKind::Album => Ok(resource),
        _ => Err(GetSpotifyReleaseError::UrlForUnsupportedResource { got: resource }),
    }
}

/// The kind of a release that the Spotify catalogue files as `album_type`. A
/// "single" of three or more tracks is an EP.
pub open spec fn spotify_kind(album_type: AlbumType, n_tracks: int) -> ReleaseTypeView {
    match album_type {
        AlbumType::Album => ReleaseTypeView::LP,
        AlbumType::Compilation => ReleaseTypeView::Compilation,
        AlbumType::AppearsOn => ReleaseTypeView::Other("Appears On (I don't know what this means)"@),
        AlbumType::Single => if n_tracks >= 3 {
            ReleaseTypeView::EP
        } else {
            ReleaseTypeView::Single
        },
    }
}

/// The link under which an album of the Spotify catalogue is found.
pub open spec fn album_link(id: Seq<char>) -> Seq<char> {
    "https://open.spotify.com/album/"@ + id
}

/// The release that the Spotify catalogue describes under an album id, or
/// why it describes none: the resource must be an album, its date must be a
/// full date of the calendar, and the link to it must be a valid link.
pub open spec fn release_of_spotify(
    kind: SpotifyResourceKind,
    id: Seq<char>,
    album: SpotifyAlbum,
    all_tracks: Seq<Track>,
) -> Result<ReleaseView, GetSpotifyReleaseFault> {
    if kind != SpotifyResourceKind::Album {
        Err(GetSpotifyReleaseFault::UrlForUnsupportedResource(kind, id))
    } else {
        match assembled_date(parsed_date(album.release_date@)) {
            Err(fault) => Err(GetSpotifyReleaseFault::DateInvalid(fault)),
            Ok(date) => if is_iri_reference(album_link(id)) {
                Ok(
                    ReleaseView {
                        url: album_link(id),
                        kind: spotify_kind(album.album_type, all_tracks.len() as int),
                        title: album.name@,
                        date,
                        main_artists: artists_view(album.artists@),
                        tracks: tracks_view(all_tracks),
                        record_label: text_view(album.label),
                    },
                )
            } else {
                Err(GetSpotifyReleaseFault::ReturnedUrlInvalid(album_link(id)))
            },
        }
    }
}

/// Makes the release of what the Spotify catalogue told of an album and of
/// its tracks.
pub fn get_spotify_release(
    resource: SpotifyResource,
    album_data: SpotifyAlbum,
    all_tracks: Vec<Track>,
) -> (outcome: Result<Release, GetSpotifyReleaseError>)
    ensures
        match release_of_spotify(
            resource.kind_spec(),
            resource.id_spec(),
            album_data,
            all_tracks@,
        ) {
            Ok(release) => outcome matches Ok(made) && made@ == release,
            Err(fault) => outcome matches Err(error) && error@ == fault,
        },
{
    let album_id = match requested_album(resource) {
        Ok(album_id) => album_id,
        Err(error) => {
            return Err(error);
        },
    };
    let SpotifyAlbum { album_type, release_date, name, artists, label } = album_data;
    let kind = match album_type {
        AlbumType::Album => ReleaseType::LP,
        AlbumType::Compilation => ReleaseType::Compilation,
        AlbumType::AppearsOn => ReleaseType::Other(
            String::from_str("Appears On (I don't know what this means)"),
        ),
        AlbumType::Single => if all_tracks.len() >= 3 {
            ReleaseType::EP
        } else {
            ReleaseType::Single
        },
    };
    let date = match assemble_parsed_date(parse_date(release_date.as_str())) {
        Ok(date) => date,
        Err(source) => {
            return Err(GetSpotifyReleaseError::DateInvalid { source });
        },
    };
    let url = match IriRefBuf::new(album_url(album_id.id())) {
        Ok(url) => url.into_string(),
        Err(source) => {
            return Err(GetSpotifyReleaseError::ReturnedUrlInvalid { source });
        },
    };
    Ok(
        Release {
            url,
            kind,
            title: name,
            date,
            main_artists: artists,
            tracks: all_tracks,
            record_label: label,
        },
    )
}

/// Where the description of a release is to come from.
#[derive(Debug, Clone, PartialEq, Eq)]
pub enum ReleaseSource {
    /// From the Spotify catalogue, under the resource that the link names.
    Spotify(SpotifyResource),
    /// From the semantic data of the page that the link leads to.
    Page,
}

/// Where the description of the release under a link is to come from: from
/// Spotify where the link names a Spotify resource, from the page otherwise.
pub fn release_source(url: &IriRefBuf) -> (source: ReleaseSource)
    ensures
        match resource_of_url(url@) {
            Ok((kind, id)) => source matches ReleaseSource::Spotify(resource) && resource.kind_spec()
                == kind && resource.id_spec() == id,
            Err(_) => source is Page,
        },
{
    match parse_spotify_resource(url) {
        Ok(resource) => ReleaseSource::Spotify(resource),
        Err(_) => ReleaseSource::Page,
    }
}

} // verus!
