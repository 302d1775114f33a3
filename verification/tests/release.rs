use discord_bot::calendar::CalendarDate;
use discord_bot::command::new_release::Role;
use discord_bot::release::{
    announce, format_release, is_recent, label_of_kind, split_title_and_kind, Artist, Release,
    ReleaseType, Track,
};

const URL: &str = "https://example.com/r";

fn artist(id: &str, name: &str) -> Artist {
    Artist { id: Some(id.to_owned()), name: name.to_owned() }
}

fn nameless(name: &str) -> Artist {
    Artist { id: None, name: name.to_owned() }
}

fn track(artists: Vec<Artist>) -> Track {
    Track { artists }
}

fn role(name: &str, id: u64) -> Role {
    Role { name: name.to_owned(), id }
}

fn date(year: i32, month: u8, day: u8) -> CalendarDate {
    CalendarDate::from_calendar_date(year, month, day).unwrap()
}

fn release(kind: ReleaseType, title: &str, main_artists: Vec<Artist>, tracks: Vec<Track>) -> Release {
    Release {
        url: URL.to_owned(),
        kind,
        title: title.to_owned(),
        date: date(2024, 3, 15),
        main_artists,
        tracks,
        record_label: None,
    }
}

#[test]
fn announces_an_album() {
    let alice = || artist("a1", "Alice");
    let tracks = (0..8).map(|_| track(vec![alice()])).collect();
    let release = release(ReleaseType::LP, "Night Drive", vec![alice()], tracks);
    assert_eq!(
        announce(release, &vec![], true),
        "**Alice** - [Night Drive](<https://example.com/r>) (LP, 8 tracks) [3/15]"
    );
}

#[test]
fn announces_features_roles_label_and_additional_artists() {
    let mut release = release(
        ReleaseType::LP,
        "Sunset (feat. Bob & Carol) - EP",
        vec![artist("a1", "Alice"), artist("b1", "Bob")],
        vec![
            track(vec![artist("a1", "Alice"), artist("d1", "Dave")]),
            track(vec![artist("d1", "Dave again"), nameless("Erin")]),
            track(vec![artist("c1", "Carol")]),
        ],
    );
    release.date = date(2020, 1, 5);
    release.record_label = Some("GHOSTLY".to_owned());
    let roles = vec![role("alice", 42), role("Ghostly", 7)];
    assert_eq!(
        announce(release, &roles, false),
        "<@&42> (feat. **Bob** & **Carol**) - [Sunset](<https://example.com/r>) (EP, 3 tracks) [2020/1/5 on <@&7>]\nwith **Dave**"
    );
}

#[test]
fn announces_a_remix_by_various_artists() {
    let release = release(
        ReleaseType::Single,
        "Track (Bob Remix)",
        vec![artist("va", "Various Artists")],
        vec![track(vec![artist("b1", "Bob")])],
    );
    assert_eq!(
        announce(release, &vec![], true),
        "[Track](<https://example.com/r>) (**Bob** Remix) [3/15]"
    );
}

#[test]
fn announces_featured_artists_alone_where_nobody_else_is_credited() {
    let release = release(
        ReleaseType::Single,
        "Track (feat. Bob, Carol & Dan)",
        vec![artist("b1", "Bob")],
        vec![track(vec![artist("b1", "Bob"), artist("x", "Xavier"), artist("y", "Yann")])],
    );
    assert_eq!(
        announce(release, &vec![role("carol", 3)], true),
        "**Bob** & <@&3> & **Dan** - [Track](<https://example.com/r>) [3/15]\nwith **Xavier**, **Yann**"
    );
}

#[test]
fn names_features_and_remixers_of_one_title() {
    let release = release(
        ReleaseType::Single,
        "Track (A & B Remix) (feat. C)",
        vec![artist("m", "Main"), artist("a", "A"), artist("c", "C")],
        vec![],
    );
    assert_eq!(
        announce(release, &vec![], true),
        "**Main** (feat. **C**) - [Track](<https://example.com/r>) (**A** & **B** Remix) [3/15]"
    );
}

#[test]
fn an_artist_counts_once_under_its_first_name() {
    let release = release(
        ReleaseType::Compilation,
        "Both",
        vec![artist("a1", "Alice"), artist("a1", "Alice Again"), nameless("Nobody")],
        vec![
            track(vec![artist("a1", "Alice Elsewhere"), artist("b1", "Bob")]),
            track(vec![artist("b1", "Bobby"), artist("c1", "Carol")]),
        ],
    );
    assert_eq!(
        announce(release, &vec![], true),
        "**Alice** - [Both](<https://example.com/r>) (Compilation, 2 tracks) [3/15]\nwith **Bob**, **Carol**"
    );
}

#[test]
fn label_without_a_role_is_left_out() {
    let mut release = release(ReleaseType::Other("Mixtape".to_owned()), "T", vec![], vec![]);
    release.record_label = Some("Nobody Records".to_owned());
    assert_eq!(
        announce(release, &vec![role("somebody", 1)], false),
        "[T](<https://example.com/r>) (Mixtape, 0 tracks) [2024/3/15]"
    );
}

#[test]
fn a_kind_at_the_end_of_the_title_is_taken_off() {
    let split = |title: &str| split_title_and_kind(title.to_owned(), ReleaseType::LP);
    assert_eq!(split("Name - EP"), ("Name".to_owned(), ReleaseType::EP));
    assert_eq!(split("Name (EP)"), ("Name".to_owned(), ReleaseType::EP));
    assert_eq!(split("Name EP"), ("Name".to_owned(), ReleaseType::EP));
    assert_eq!(split("Name - Remixes"), ("Name".to_owned(), ReleaseType::Remixes));
    assert_eq!(split("Name (Remixes)"), ("Name".to_owned(), ReleaseType::Remixes));
    assert_eq!(split("Name Remixes"), ("Name".to_owned(), ReleaseType::Remixes));
    assert_eq!(split("Name (The Remixes)"), ("Name".to_owned(), ReleaseType::Remixes));
    // " Remixes" is tried before " - The Remixes" and " The Remixes".
    assert_eq!(split("Name - The Remixes"), ("Name - The".to_owned(), ReleaseType::Remixes));
    assert_eq!(split("Name The Remixes"), ("Name The".to_owned(), ReleaseType::Remixes));
    assert_eq!(split("Name"), ("Name".to_owned(), ReleaseType::LP));
    assert_eq!(split("NameEP"), ("NameEP".to_owned(), ReleaseType::LP));
    assert_eq!(split(" EP"), ("".to_owned(), ReleaseType::EP));
    assert_eq!(split("Name - ep"), ("Name - ep".to_owned(), ReleaseType::LP));
    assert_eq!(
        split_title_and_kind("Name".to_owned(), ReleaseType::Other("x".to_owned())),
        ("Name".to_owned(), ReleaseType::Other("x".to_owned()))
    );
}

#[test]
fn kinds_are_written_out() {
    assert_eq!(label_of_kind(ReleaseType::Single), None);
    assert_eq!(label_of_kind(ReleaseType::EP), Some("EP".to_owned()));
    assert_eq!(label_of_kind(ReleaseType::LP), Some("LP".to_owned()));
    assert_eq!(label_of_kind(ReleaseType::Compilation), Some("Compilation".to_owned()));
    assert_eq!(label_of_kind(ReleaseType::Remixes), Some("Remixes".to_owned()));
    assert_eq!(label_of_kind(ReleaseType::Other("Live".to_owned())), Some("Live".to_owned()));
}

#[test]
fn a_release_is_recent_for_fifty_two_weeks() {
    assert!(is_recent(100, 100));
    assert!(is_recent(100, 463));
    assert!(!is_recent(100, 464));
    assert!(is_recent(100, 0));
    assert!(is_recent(i32::MAX, i32::MIN));
    assert!(!is_recent(i32::MIN, i32::MAX));
}

#[test]
fn the_year_is_written_once_a_release_is_old() {
    let make = || release(ReleaseType::Single, "T", vec![artist("a", "A")], vec![]);
    assert_eq!(
        format_release(make(), &vec![], &date(2024, 3, 15)),
        "**A** - [T](<https://example.com/r>) [3/15]"
    );
    assert_eq!(
        format_release(make(), &vec![], &date(2025, 3, 13)),
        "**A** - [T](<https://example.com/r>) [3/15]"
    );
    assert_eq!(
        format_release(make(), &vec![], &date(2025, 3, 14)),
        "**A** - [T](<https://example.com/r>) [2024/3/15]"
    );
    assert_eq!(
        format_release(make(), &vec![], &date(2020, 1, 1)),
        "**A** - [T](<https://example.com/r>) [3/15]"
    );
}

#[test]
fn letters_outside_ascii_are_left_as_they_are() {
    let release = release(
        ReleaseType::Single,
        "Träck (feat. Émile & Ün) - EP",
        vec![artist("b", "Björk"), artist("é", "Émile")],
        vec![track(vec![artist("z", "Žofie")])],
    );
    assert_eq!(
        announce(release, &vec![role("björk", 5), role("éMILE", 6), role("ÜN", 7)], true),
        "<@&5> (feat. **Émile** & <@&7>) - [Träck](<https://example.com/r>) (EP, 1 tracks) [3/15]\nwith **Žofie**"
    );
}

#[test]
fn a_title_that_only_begins_like_a_guest_list_stays_whole() {
    let make = |title: &str| release(ReleaseType::Single, title, vec![artist("a", "A")], vec![]);
    assert_eq!(
        announce(make("T (feat. é"), &vec![], true),
        "**A** - [T (feat. é](<https://example.com/r>) [3/15]"
    );
    assert_eq!(
        announce(make("T (feat. B) live"), &vec![], true),
        "**A** - [T (feat. B) live](<https://example.com/r>) [3/15]"
    );
    assert_eq!(
        announce(make("T (B Remix"), &vec![], true),
        "**A** - [T (B Remix](<https://example.com/r>) [3/15]"
    );
    // The first mark counts, and what follows it up to the end is the list.
    assert_eq!(
        announce(make("T (feat. B) (feat. C)"), &vec![], true),
        "**A** (feat. **B) (feat. C**) - [T](<https://example.com/r>) [3/15]"
    );
    assert_eq!(
        announce(make(" (feat. )"), &vec![], true),
        "**A** (feat. ****) - [](<https://example.com/r>) [3/15]"
    );
}

#[test]
fn years_before_the_common_era_are_written_with_their_sign() {
    let mut old = release(ReleaseType::Single, "T", vec![artist("a", "A")], vec![]);
    old.date = date(-5, 1, 2);
    assert_eq!(announce(old, &vec![], false), "**A** - [T](<https://example.com/r>) [-5/1/2]");
}
