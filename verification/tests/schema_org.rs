use discord_bot::calendar::CalendarDate;
use discord_bot::command::new_release::{
    get_release_from_ld_json, ld_json_texts, GetReleaseFromLdJsonError, LD_JSON_SELECTOR,
};
use discord_bot::release::{Artist, Release, ReleaseType, Track};
use discord_bot::schema_org::{
    CreativeWork, Date, DateOrDateTime, DateTime, DateTimeParseError, Intangible, ItemList,
    ListItem, MusicAlbum, MusicAlbumReleaseType, MusicGroup, MusicPlaylist, MusicRecording,
    Organization, PerformingGroup, PerformingGroupOrSub, PersonOrSubOrOrganizationOrSub,
    SubOfOrganization, SubOfPerformingGroup, Thing,
};

fn thing(id: Option<&str>, name: Option<&str>) -> Thing {
    Thing { id: id.map(str::to_owned), name: name.map(str::to_owned) }
}

fn group(name: Option<&str>) -> MusicGroup {
    MusicGroup {
        album: None,
        genre: None,
        performing_group: PerformingGroup {
            organization: Organization { founding_location: None, thing: thing(None, name) },
        },
    }
}

fn work(thing: Thing) -> CreativeWork {
    CreativeWork { date_created: None, date_modified: None, date_published: None, publisher: None, thing }
}

fn recording(by_artist: Option<MusicGroup>) -> ListItem<MusicRecording> {
    ListItem {
        item: MusicRecording { by_artist, creative_work: work(thing(None, Some("a track"))) },
        position: None,
        intangible: Intangible { thing: thing(None, None) },
    }
}

fn track_list(items: Vec<ListItem<MusicRecording>>) -> ItemList<MusicRecording> {
    ItemList { item_list_element: items, intangible: Intangible { thing: thing(None, None) } }
}

fn published(year: i16, month: i8, day: i8) -> Option<DateOrDateTime> {
    Some(DateOrDateTime::Date(Date { year, month, day }))
}

fn album(tracks: usize) -> MusicAlbum {
    let mut creative_work = work(thing(Some("https://artist.example/album/night"), Some("Night Drive")));
    creative_work.date_published = published(2024, 3, 15);
    MusicAlbum {
        album_production_type: None,
        album_release: vec![],
        album_release_type: Some(MusicAlbumReleaseType::AlbumRelease),
        by_artist: Some(group(Some("Alice, Bob & Carol"))),
        music_playlist: MusicPlaylist {
            num_tracks: None,
            track: Some(track_list((0..tracks).map(|_| recording(None)).collect())),
            creative_work,
        },
    }
}

fn named(name: &str) -> Artist {
    Artist { id: Some(name.to_owned()), name: name.to_owned() }
}

fn main_artists() -> Vec<Artist> {
    vec![named("Alice"), named("Bob"), named("Carol")]
}

fn release(kind: ReleaseType, tracks: usize) -> Release {
    Release {
        url: "https://artist.example/album/night".to_owned(),
        kind,
        title: "Night Drive".to_owned(),
        date: CalendarDate::from_calendar_date(2024, 3, 15).unwrap(),
        main_artists: main_artists(),
        tracks: (0..tracks).map(|_| Track { artists: main_artists() }).collect(),
        record_label: None,
    }
}

#[test]
fn things_come_out_of_what_holds_them() {
    let inner = || thing(Some("https://a.example"), Some("A"));
    let organization = || Organization { founding_location: None, thing: inner() };
    let performing_group = || PerformingGroup { organization: organization() };
    let music_group =
        || MusicGroup { album: None, genre: None, performing_group: performing_group() };
    assert_eq!(Thing::from(organization()), inner());
    assert_eq!(Thing::from(performing_group()), inner());
    assert_eq!(Thing::from(music_group()), inner());
    assert_eq!(Thing::from(SubOfPerformingGroup::MusicGroup(music_group())), inner());
    assert_eq!(
        Thing::from(PerformingGroupOrSub::Sub(SubOfPerformingGroup::MusicGroup(music_group()))),
        inner()
    );
    assert_eq!(Thing::from(PerformingGroupOrSub::PerformingGroup(performing_group())), inner());
    assert_eq!(
        Thing::from(SubOfOrganization::PerformingGroupOrSub(PerformingGroupOrSub::PerformingGroup(
            performing_group()
        ))),
        inner()
    );
    assert_eq!(
        Thing::from(PersonOrSubOrOrganizationOrSub::SubOfOrganization(
            SubOfOrganization::PerformingGroupOrSub(PerformingGroupOrSub::Sub(
                SubOfPerformingGroup::MusicGroup(music_group())
            ))
        )),
        inner()
    );
}

#[test]
fn a_point_in_time_is_what_the_formats_found() {
    let found = DateTime { year: 2024, month: 3, day: 15 };
    assert_eq!(DateTime::from_parsed(Some(found), "2024-03-15T10:00:00Z"), Ok(found));
    assert_eq!(
        DateTime::from_parsed(None, "someday"),
        Err(DateTimeParseError::Unmatched { original: "someday".to_owned() })
    );
    assert_eq!(
        DateTimeParseError::Unmatched { original: "someday".to_owned() }.message(),
        "someday does not match any expected date formats"
    );
}

#[test]
fn makes_the_release_of_the_first_album() {
    assert_eq!(get_release_from_ld_json(vec![Ok(album(8))]), Ok(release(ReleaseType::LP, 8)));
    let mut second = album(1);
    second.music_playlist.creative_work.thing.name = Some("Another".to_owned());
    assert_eq!(
        get_release_from_ld_json(vec![Err("unreadable".to_owned()), Ok(album(8)), Ok(second)]),
        Ok(release(ReleaseType::LP, 8))
    );
}

#[test]
fn an_album_is_told_apart_by_its_number_of_tracks() {
    let kind = |tracks| get_release_from_ld_json(vec![Ok(album(tracks))]).unwrap().kind;
    assert_eq!(kind(0), ReleaseType::Single);
    assert_eq!(kind(2), ReleaseType::Single);
    assert_eq!(kind(3), ReleaseType::EP);
    assert_eq!(kind(6), ReleaseType::EP);
    assert_eq!(kind(7), ReleaseType::LP);
    let typed = |release_type| {
        let mut album = album(8);
        album.album_release_type = Some(release_type);
        get_release_from_ld_json(vec![Ok(album)]).unwrap().kind
    };
    assert_eq!(typed(MusicAlbumReleaseType::EPRelease), ReleaseType::EP);
    assert_eq!(typed(MusicAlbumReleaseType::SingleRelease), ReleaseType::Single);
    assert_eq!(
        typed(MusicAlbumReleaseType::BroadcastRelease),
        ReleaseType::Other("Broadcast (I don't know what this means)".to_owned())
    );
}

#[test]
fn tracks_name_their_own_artists_or_those_of_the_release() {
    let mut album = album(0);
    album.music_playlist.track = Some(track_list(vec![
        recording(Some(group(Some("Dave & Erin")))),
        recording(Some(group(None))),
        recording(None),
    ]));
    let made = get_release_from_ld_json(vec![Ok(album)]).unwrap();
    assert_eq!(
        made.tracks,
        vec![
            Track { artists: vec![named("Dave"), named("Erin")] },
            Track { artists: main_artists() },
            Track { artists: main_artists() },
        ]
    );
    assert_eq!(made.kind, ReleaseType::EP);
}

#[test]
fn the_publisher_is_the_record_label() {
    let mut album = album(1);
    album.music_playlist.creative_work.publisher =
        Some(PersonOrSubOrOrganizationOrSub::SubOfOrganization(
            SubOfOrganization::PerformingGroupOrSub(PerformingGroupOrSub::PerformingGroup(
                PerformingGroup {
                    organization: Organization {
                        founding_location: None,
                        thing: thing(None, Some("Ghostly")),
                    },
                },
            )),
        ));
    assert_eq!(
        get_release_from_ld_json(vec![Ok(album)]).unwrap().record_label,
        Some("Ghostly".to_owned())
    );
}

#[test]
fn the_date_is_that_of_publication_or_else_of_creation() {
    let date_of = |album| get_release_from_ld_json(vec![Ok(album)]).map(|release| release.date);
    let mut both = album(1);
    both.music_playlist.creative_work.date_created = published(2020, 1, 1);
    assert_eq!(date_of(both), CalendarDate::from_calendar_date(2024, 3, 15).map_err(|_| GetReleaseFromLdJsonError::NoDate));
    let mut created = album(1);
    created.music_playlist.creative_work.date_published = None;
    created.music_playlist.creative_work.date_created =
        Some(DateOrDateTime::DateTime(DateTime { year: 2020, month: 2, day: 29 }));
    assert_eq!(date_of(created), CalendarDate::from_calendar_date(2020, 2, 29).map_err(|_| GetReleaseFromLdJsonError::NoDate));
    let mut neither = album(1);
    neither.music_playlist.creative_work.date_published = None;
    assert_eq!(date_of(neither), Err(GetReleaseFromLdJsonError::NoDate));
    let mut impossible = album(1);
    impossible.music_playlist.creative_work.date_published = published(2023, 2, 29);
    assert_eq!(date_of(impossible), Err(GetReleaseFromLdJsonError::DateOutOfRange));
    let mut negative = album(1);
    negative.music_playlist.creative_work.date_published = published(2023, -2, 1);
    assert_eq!(date_of(negative), Err(GetReleaseFromLdJsonError::DateOutOfRange));
    let mut far = album(1);
    far.music_playlist.creative_work.date_published =
        Some(DateOrDateTime::DateTime(DateTime { year: 262000, month: 1, day: 1 }));
    assert_eq!(date_of(far), Err(GetReleaseFromLdJsonError::DateOutOfRange));
    let mut wide = album(1);
    wide.music_playlist.creative_work.date_published =
        Some(DateOrDateTime::DateTime(DateTime { year: 2024, month: 257, day: 1 }));
    assert_eq!(date_of(wide), Err(GetReleaseFromLdJsonError::DateOutOfRange));
}

#[test]
fn says_what_the_description_lacks() {
    let made = |album| get_release_from_ld_json(vec![Ok(album)]).map(|_| ());
    let mut no_url = album(1);
    no_url.music_playlist.creative_work.thing.id = None;
    no_url.album_release_type = None;
    assert_eq!(made(no_url), Err(GetReleaseFromLdJsonError::NoUrl));
    let mut no_type = album(1);
    no_type.album_release_type = None;
    no_type.music_playlist.creative_work.thing.name = None;
    assert_eq!(made(no_type), Err(GetReleaseFromLdJsonError::NoReleaseType));
    let mut no_title = album(1);
    no_title.music_playlist.creative_work.thing.name = None;
    no_title.music_playlist.creative_work.date_published = None;
    assert_eq!(made(no_title), Err(GetReleaseFromLdJsonError::NoTitle));
    let mut no_artists = album(1);
    no_artists.by_artist = None;
    no_artists.music_playlist.track = None;
    assert_eq!(made(no_artists), Err(GetReleaseFromLdJsonError::NoArtists));
    let mut nameless = album(1);
    nameless.by_artist = Some(group(None));
    assert_eq!(made(nameless), Err(GetReleaseFromLdJsonError::NoArtists));
    let mut no_tracks = album(1);
    no_tracks.music_playlist.track = None;
    assert_eq!(made(no_tracks), Err(GetReleaseFromLdJsonError::NoTracks));
}

#[test]
fn says_why_a_page_describes_nothing() {
    assert_eq!(
        get_release_from_ld_json(vec![]),
        Err(GetReleaseFromLdJsonError::NoSemanticDataInPage)
    );
    assert_eq!(
        get_release_from_ld_json(vec![Err("first".to_owned()), Err("second".to_owned())]),
        Err(GetReleaseFromLdJsonError::UnsupportedSemanticDataInPage {
            errors: vec!["first".to_owned(), "second".to_owned()]
        })
    );
    assert_eq!(
        GetReleaseFromLdJsonError::NoUrl.report(),
        "the semantic data doesn't include a canonical URL to the music release"
    );
}

#[test]
fn takes_the_semantic_data_out_of_a_page() {
    assert_eq!(LD_JSON_SELECTOR, "script[type='application/ld+json']");
    let page = "<html><head><title>t</title>\
        <script type=\"application/ld+json\">{\"name\": \"first\"}</script>\
        <script type=\"text/javascript\">var x = 1;</script>\
        </head><body><p>text</p>\
        <script type='application/ld+json'>[1, 2]</script>\
        </body></html>";
    assert_eq!(ld_json_texts(page), vec!["{\"name\": \"first\"}", "[1, 2]"]);
    assert_eq!(ld_json_texts("<html><body><p>nothing</p></body></html>"), Vec::<String>::new());
    assert_eq!(ld_json_texts(""), Vec::<String>::new());
}
