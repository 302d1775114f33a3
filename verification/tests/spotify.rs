use discord_bot::calendar::{CalendarDate, ComponentRange};
use discord_bot::command::new_release::AssembleDateError;
use discord_bot::iri::{InvalidIriRef, IriRefBuf};
use discord_bot::release::{Artist, Release, ReleaseType, Track};
use discord_bot::spotify::{
    get_spotify_release, needs_refresh, parse_spotify_resource, release_source, requested_album,
    resource_from_segments, AlbumType, GetSpotifyReleaseError, ReleaseSource, SpotifyAlbum,
    SpotifyResource, SpotifyResourceFromUrlError, SpotifyResourceKind,
};
use discord_bot::text::IntErrorKind;

fn link(text: &str) -> IriRefBuf {
    IriRefBuf::new(text.to_owned()).expect("a link")
}

fn resource(text: &str) -> SpotifyResource {
    parse_spotify_resource(&link(text)).expect("a Spotify resource")
}

fn segments(segments: &[&str]) -> Vec<String> {
    segments.iter().map(|segment| (*segment).to_owned()).collect()
}

fn artist(id: &str, name: &str) -> Artist {
    Artist { id: Some(id.to_owned()), name: name.to_owned() }
}

fn album(album_type: AlbumType, release_date: &str) -> SpotifyAlbum {
    SpotifyAlbum {
        album_type,
        release_date: release_date.to_owned(),
        name: "Night Drive".to_owned(),
        artists: vec![artist("a1", "Alice")],
        label: Some("Ghostly".to_owned()),
    }
}

fn tracks(count: usize) -> Vec<Track> {
    (0..count).map(|_| Track { artists: vec![artist("a1", "Alice"), artist("b1", "Bob")] }).collect()
}

#[test]
fn links_are_iri_references() {
    assert!(IriRefBuf::new("https://open.spotify.com/album/abc".to_owned()).is_ok());
    assert!(IriRefBuf::new("/album/abc".to_owned()).is_ok());
    assert!(IriRefBuf::new("".to_owned()).is_ok());
    assert_eq!(
        IriRefBuf::new("not a link".to_owned()),
        Err(InvalidIriRef("not a link".to_owned()))
    );
    assert_eq!(link("https://example.com/a?b#c").as_str(), "https://example.com/a?b#c");
    assert_eq!(link("https://example.com/a").clone().into_string(), "https://example.com/a");
    assert_eq!(InvalidIriRef("a b".to_owned()).message(), "invalid IRI reference: a b");
}

#[test]
fn reads_kind_and_id_off_a_spotify_link() {
    let album = resource("https://open.spotify.com/album/4aawyAB9vmqN3uQ7FjRGTy");
    assert_eq!(album.kind(), SpotifyResourceKind::Album);
    assert_eq!(album.id(), "4aawyAB9vmqN3uQ7FjRGTy");
    let track = resource("https://open.spotify.com/track/4y4VO05kYgUTo2bzbox1an?si=abcdef");
    assert_eq!(track.kind(), SpotifyResourceKind::Track);
    assert_eq!(track.id(), "4y4VO05kYgUTo2bzbox1an");
    let playlist = resource("https://open.spotify.com/playlist/37i9dQZF1DXcBWIGoYBM5M/extra#top");
    assert_eq!(playlist.kind(), SpotifyResourceKind::Playlist);
    assert_eq!(playlist.id(), "37i9dQZF1DXcBWIGoYBM5M");
}

#[test]
fn says_why_a_link_names_no_spotify_resource() {
    let parse = |text: &str| parse_spotify_resource(&link(text)).map(|_| ());
    assert_eq!(
        parse("https://example.com/album/4aawyAB9vmqN3uQ7FjRGTy"),
        Err(SpotifyResourceFromUrlError::NotSpotify)
    );
    assert_eq!(
        parse("https://artist.bandcamp.com/album/night-drive"),
        Err(SpotifyResourceFromUrlError::NotSpotify)
    );
    assert_eq!(parse("/album/4aawyAB9vmqN3uQ7FjRGTy"), Err(SpotifyResourceFromUrlError::NotSpotify));
    assert_eq!(
        parse("https://open.spotify.com"),
        Err(SpotifyResourceFromUrlError::MissingResourceType)
    );
    assert_eq!(
        parse("https://open.spotify.com/album"),
        Err(SpotifyResourceFromUrlError::MissingResourceId)
    );
    assert_eq!(
        parse("https://open.spotify.com/artist/2QI8e2Vwgg9KXOz2zjcrkI"),
        Err(SpotifyResourceFromUrlError::UnrecognizedResourceType { kind: "artist".to_owned() })
    );
    assert_eq!(
        parse("https://open.spotify.com/Album/2QI8e2Vwgg9KXOz2zjcrkI"),
        Err(SpotifyResourceFromUrlError::UnrecognizedResourceType { kind: "Album".to_owned() })
    );
    assert_eq!(
        parse("https://open.spotify.com/album/not-an-id"),
        Err(SpotifyResourceFromUrlError::InvalidResourceId { id: "not-an-id".to_owned() })
    );
}

#[test]
fn reads_kind_and_id_off_path_segments() {
    let read = |parts: &[&str]| resource_from_segments(segments(parts));
    let album = read(&["album", "abc123", "more"]).unwrap();
    assert_eq!((album.kind(), album.id()), (SpotifyResourceKind::Album, "abc123"));
    let track = read(&["track", "XYZ"]).unwrap();
    assert_eq!((track.kind(), track.id()), (SpotifyResourceKind::Track, "XYZ"));
    let playlist = read(&["playlist", "0"]).unwrap();
    assert_eq!((playlist.kind(), playlist.id()), (SpotifyResourceKind::Playlist, "0"));
    assert_eq!(read(&[]).map(|_| ()), Err(SpotifyResourceFromUrlError::MissingResourceType));
    assert_eq!(read(&["album"]).map(|_| ()), Err(SpotifyResourceFromUrlError::MissingResourceId));
    assert_eq!(
        read(&["show", "abc"]).map(|_| ()),
        Err(SpotifyResourceFromUrlError::UnrecognizedResourceType { kind: "show".to_owned() })
    );
    assert_eq!(
        read(&["album", "abc_123"]).map(|_| ()),
        Err(SpotifyResourceFromUrlError::InvalidResourceId { id: "abc_123".to_owned() })
    );
    assert_eq!(
        read(&["track", "é"]).map(|_| ()),
        Err(SpotifyResourceFromUrlError::InvalidResourceId { id: "é".to_owned() })
    );
    assert_eq!(
        read(&["playlist", "a b"]).map(|_| ()),
        Err(SpotifyResourceFromUrlError::InvalidResourceId { id: "a b".to_owned() })
    );
}

#[test]
fn a_link_leads_to_spotify_or_to_a_page() {
    assert_eq!(
        release_source(&link("https://open.spotify.com/album/abc")),
        ReleaseSource::Spotify(resource("https://open.spotify.com/album/abc"))
    );
    assert_eq!(
        release_source(&link("https://artist.bandcamp.com/album/night-drive")),
        ReleaseSource::Page
    );
    assert_eq!(release_source(&link("https://open.spotify.com/artist/abc")), ReleaseSource::Page);
}

#[test]
fn only_albums_are_asked_for() {
    let album = resource("https://open.spotify.com/album/abc");
    assert_eq!(requested_album(album.clone()), Ok(album));
    let track = resource("https://open.spotify.com/track/abc");
    assert_eq!(
        requested_album(track.clone()),
        Err(GetSpotifyReleaseError::UrlForUnsupportedResource { got: track })
    );
    let playlist = resource("https://open.spotify.com/playlist/abc");
    assert_eq!(
        get_spotify_release(playlist.clone(), album_data(), tracks(1)),
        Err(GetSpotifyReleaseError::UrlForUnsupportedResource { got: playlist })
    );
}

fn album_data() -> SpotifyAlbum {
    album(AlbumType::Album, "2024-03-15")
}

#[test]
fn a_token_is_asked_for_when_there_is_none_to_use() {
    assert!(needs_refresh(None, 100));
    assert!(needs_refresh(Some(None), 100));
    assert!(needs_refresh(Some(Some(99)), 100));
    assert!(needs_refresh(Some(Some(100)), 100));
    assert!(!needs_refresh(Some(Some(101)), 100));
    assert!(!needs_refresh(Some(Some(i64::MAX)), i64::MIN));
}

#[test]
fn makes_the_release_of_an_album() {
    let made = get_spotify_release(
        resource("https://open.spotify.com/album/4aawyAB9vmqN3uQ7FjRGTy"),
        album_data(),
        tracks(9),
    );
    assert_eq!(
        made,
        Ok(Release {
            url: "https://open.spotify.com/album/4aawyAB9vmqN3uQ7FjRGTy".to_owned(),
            kind: ReleaseType::LP,
            title: "Night Drive".to_owned(),
            date: CalendarDate::from_calendar_date(2024, 3, 15).unwrap(),
            main_artists: vec![artist("a1", "Alice")],
            tracks: tracks(9),
            record_label: Some("Ghostly".to_owned()),
        })
    );
}

#[test]
fn tells_the_kinds_of_release_apart() {
    let kind = |album_type, count| {
        get_spotify_release(
            resource("https://open.spotify.com/album/abc"),
            album(album_type, "2024-03-15"),
            tracks(count),
        )
        .unwrap()
        .kind
    };
    assert_eq!(kind(AlbumType::Album, 1), ReleaseType::LP);
    assert_eq!(kind(AlbumType::Compilation, 1), ReleaseType::Compilation);
    assert_eq!(
        kind(AlbumType::AppearsOn, 1),
        ReleaseType::Other("Appears On (I don't know what this means)".to_owned())
    );
    assert_eq!(kind(AlbumType::Single, 0), ReleaseType::Single);
    assert_eq!(kind(AlbumType::Single, 2), ReleaseType::Single);
    assert_eq!(kind(AlbumType::Single, 3), ReleaseType::EP);
    assert_eq!(kind(AlbumType::Single, 10), ReleaseType::EP);
}

#[test]
fn an_album_needs_a_full_date() {
    let made = |release_date: &str| {
        get_spotify_release(
            resource("https://open.spotify.com/album/abc"),
            album(AlbumType::Album, release_date),
            tracks(1),
        )
        .map(|_| ())
    };
    assert_eq!(
        made("2024"),
        Err(GetSpotifyReleaseError::DateInvalid { source: AssembleDateError::MonthMissing })
    );
    assert_eq!(
        made("2024-03"),
        Err(GetSpotifyReleaseError::DateInvalid { source: AssembleDateError::DayMissing })
    );
    assert_eq!(
        made("someday"),
        Err(GetSpotifyReleaseError::DateInvalid {
            source: AssembleDateError::ParseYearError { source: IntErrorKind::InvalidDigit }
        })
    );
    assert_eq!(
        made("2023-02-29"),
        Err(GetSpotifyReleaseError::DateInvalid {
            source: AssembleDateError::OutOfRange {
                source: ComponentRange { name: "day".to_owned() }
            }
        })
    );
    assert_eq!(made("2024-03-15"), Ok(()));
}

#[test]
fn spotify_errors_report_their_causes() {
    assert_eq!(
        GetSpotifyReleaseError::DateInvalid { source: AssembleDateError::MonthMissing }.report(),
        "the date of the Spotify release is invalid: month is missing"
    );
    assert_eq!(
        GetSpotifyReleaseError::TokenError { source: "denied".to_owned() }.report(),
        "couldn't authenticate with Spotify: denied"
    );
    assert_eq!(
        GetSpotifyReleaseError::UrlForUnsupportedResource {
            got: resource("https://open.spotify.com/track/abc")
        }
        .report(),
        "the `url` is for Spotify, but not a resource type valid for this command (currently just album)"
    );
}
