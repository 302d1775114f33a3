//! A music release as its sources describe it, and the rules that the
//! announcement applies to it.

use ahash::AHashSet;
use crate::calendar::CalendarDate;
use crate::calendar::julian_day;
use crate::command::new_release::find_role;
use crate::command::new_release::format_or_role;
use crate::command::new_release::listed_artists;
use crate::command::new_release::name_or_role;
use crate::command::new_release::parse_list_of_artists;
use crate::command::new_release::Role;
use crate::command::new_release::role_named;
use crate::interaction::text_view;
use crate::text::contains_text;
use crate::text::decimal;
use crate::text::decimal_text;
use crate::text::ends_with;
use crate::text::join;
use crate::text::joined;
use crate::text::occurs_at;
use crate::text::read_format_two;
use crate::text::read_two;
use crate::text::strip_suffix;
use crate::text::texts;
use crate::text::without_suffix;
use vstd::prelude::*;
use vstd::string::StringExecFns;

verus! {

/// What kind of release a release is.
#[derive(Debug, Clone, PartialEq, Eq)]
pub enum ReleaseType {
    Single,
    EP,
    LP,
    Compilation,
    Remixes,
    /// A kind that has no name here, in its own words.
    Other(String),
}

/// An artist of a release or of one of its tracks.
#[derive(Debug, Clone, PartialEq, Eq)]
pub struct Artist {
    /// What tells the artist from others, where the source gives it.
    pub id: Option<String>,
    pub name: String,
}

/// One track of a release.
#[derive(Debug, Clone, PartialEq, Eq)]
pub struct Track {
    pub artists: Vec<Artist>,
}

/// A music release.
#[derive(Debug, Clone, PartialEq, Eq)]
pub struct Release {
    /// The link under which the release is found.
    pub url: String,
    pub kind: ReleaseType,
    pub title: String,
    pub date: CalendarDate,
    pub main_artists: Vec<Artist>,
    pub tracks: Vec<Track>,
    pub record_label: Option<String>,
}

/// A `ReleaseType` with its own words as a sequence of characters.
pub enum ReleaseTypeView {
    Single,
    EP,
    LP,
    Compilation,
    Remixes,
    Other(Seq<char>),
}

impl View for ReleaseType {
    type V = ReleaseTypeView;

    open spec fn view(&self) -> ReleaseTypeView {
        match self {
            ReleaseType::Single => ReleaseTypeView::Single,
            ReleaseType::EP => ReleaseTypeView::EP,
            ReleaseType::LP => ReleaseTypeView::LP,
            ReleaseType::Compilation => ReleaseTypeView::Compilation,
            ReleaseType::Remixes => ReleaseTypeView::Remixes,
            ReleaseType::Other(label) => ReleaseTypeView::Other(label@),
        }
    }
}

/// An `Artist` with its texts as sequences of characters.
pub struct ArtistView {
    pub id: Option<Seq<char>>,
    pub name: Seq<char>,
}

impl View for Artist {
    type V = ArtistView;

    open spec fn view(&self) -> ArtistView {
        ArtistView { id: text_view(self.id), name: self.name@ }
    }
}

/// The views of a sequence of artists.
pub open spec fn artists_view(artists: Seq<Artist>) -> Seq<ArtistView> {
    artists.map_values(|artist: Artist| artist@)
}

impl View for Track {
    type V = Seq<ArtistView>;

    open spec fn view(&self) -> Seq<ArtistView> {
        artists_view(self.artists@)
    }
}

/// The views of a sequence of tracks: the artists of each.
pub open spec fn tracks_view(tracks: Seq<Track>) -> Seq<Seq<ArtistView>> {
    tracks.map_values(|track: Track| track@)
}

/// A `Release` with its texts as sequences of characters and its date as
/// year, month and day.
pub struct ReleaseView {
    pub url: Seq<char>,
    pub kind: ReleaseTypeView,
    pub title: Seq<char>,
    pub date: (int, int, int),
    pub main_artists: Seq<ArtistView>,
    pub tracks: Seq<Seq<ArtistView>>,
    pub record_label: Option<Seq<char>>,
}

impl View for Release {
    type V = ReleaseView;

    open spec fn view(&self) -> ReleaseView {
        ReleaseView {
            url: self.url@,
            kind: self.kind@,
            title: self.title@,
            date: (
                self.date.year_spec() as int,
                self.date.month_spec() as int,
                self.date.day_spec() as int,
            ),
            main_artists: artists_view(self.main_artists@),
            tracks: tracks_view(self.tracks@),
            record_label: text_view(self.record_label),
        }
    }
}

/// The ids seen once the artists have been gone through in order, starting
/// from the ids in `seen`.
pub open spec fn seen_after(artists: Seq<ArtistView>, seen: Set<Seq<char>>) -> Set<Seq<char>>
    decreases artists.len(),
{
    if artists.len() == 0 {
        seen
    } else {
        let before = seen_after(artists.drop_last(), seen);
        match artists.last().id {
            Some(id) => before.insert(id),
            None => before,
        }
    }
}

/// The names of the artists that are new as the artists are gone through in
/// order: those that have an id which neither is in `seen` nor belongs to an
/// artist before them.
pub open spec fn new_names(artists: Seq<ArtistView>, seen: Set<Seq<char>>) -> Seq<Seq<char>>
    decreases artists.len(),
{
    if artists.len() == 0 {
        Seq::<Seq<char>>::empty()
    } else {
        let names = new_names(artists.drop_last(), seen);
        match artists.last().id {
            Some(id) => if seen_after(artists.drop_last(), seen).contains(id) {
                names
            } else {
                names.push(artists.last().name)
            },
            None => names,
        }
    }
}

/// The ids seen once the artists of the tracks have been gone through, track
/// by track.
pub open spec fn seen_after_tracks(tracks: Seq<Seq<ArtistView>>, seen: Set<Seq<char>>) -> Set<
    Seq<char>,
>
    decreases tracks.len(),
{
    if tracks.len() == 0 {
        seen
    } else {
        seen_after(tracks.last(), seen_after_tracks(tracks.drop_last(), seen))
    }
}

/// The names of the artists that are new as the artists of the tracks are
/// gone through, track by track.
pub open spec fn new_names_of_tracks(tracks: Seq<Seq<ArtistView>>, seen: Set<Seq<char>>) -> Seq<
    Seq<char>,
>
    decreases tracks.len(),
{
    if tracks.len() == 0 {
        Seq::<Seq<char>>::empty()
    } else {
        new_names_of_tracks(tracks.drop_last(), seen) + new_names(
            tracks.last(),
            seen_after_tracks(tracks.drop_last(), seen),
        )
    }
}

/// The title and kind of a release once a kind that the title ends with has
/// been taken off the title. The endings are tried in a fixed order, and the
/// first that fits is the one taken off.
pub open spec fn title_and_kind(title: Seq<char>, kind: ReleaseTypeView) -> (
    Seq<char>,
    ReleaseTypeView,
) {
    if ends_with(title, " - EP"@) {
        (without_suffix(title, " - EP"@), ReleaseTypeView::EP)
    } else if ends_with(title, " (EP)"@) {
        (without_suffix(title, " (EP)"@), ReleaseTypeView::EP)
    } else if ends_with(title, " EP"@) {
        (without_suffix(title, " EP"@), ReleaseTypeView::EP)
    } else if ends_with(title, " - Remixes"@) {
        (without_suffix(title, " - Remixes"@), ReleaseTypeView::Remixes)
    } else if ends_with(title, " (Remixes)"@) {
        (without_suffix(title, " (Remixes)"@), ReleaseTypeView::Remixes)
    } else if ends_with(title, " Remixes"@) {
        (without_suffix(title, " Remixes"@), ReleaseTypeView::Remixes)
    } else if ends_with(title, " - The Remixes"@) {
        (without_suffix(title, " - The Remixes"@), ReleaseTypeView::Remixes)
    } else if ends_with(title, " (The Remixes)"@) {
        (without_suffix(title, " (The Remixes)"@), ReleaseTypeView::Remixes)
    } else if ends_with(title, " The Remixes"@) {
        (without_suffix(title, " The Remixes"@), ReleaseTypeView::Remixes)
    } else {
        (title, kind)
    }
}

/// Takes a kind that the title ends with off the title, and makes it the
/// release's kind.
pub fn split_title_and_kind(title: String, kind: ReleaseType) -> (split: (String, ReleaseType))
    ensures
        split.0@ == title_and_kind(title@, kind@).0,
        split.1@ == title_and_kind(title@, kind@).1,
{
    if let Some(rest) = strip_suffix(title.as_str(), " - EP") {
        (String::from_str(rest), ReleaseType::EP)
    } else if let Some(rest) = strip_suffix(title.as_str(), " (EP)") {
        (String::from_str(rest), ReleaseType::EP)
    } else if let Some(rest) = strip_suffix(title.as_str(), " EP") {
        (String::from_str(rest), ReleaseType::EP)
    } else if let Some(rest) = strip_suffix(title.as_str(), " - Remixes") {
        (String::from_str(rest), ReleaseType::Remixes)
    } else if let Some(rest) = strip_suffix(title.as_str(), " (Remixes)") {
        (String::from_str(rest), ReleaseType::Remixes)
    } else if let Some(rest) = strip_suffix(title.as_str(), " Remixes") {
        (String::from_str(rest), ReleaseType::Remixes)
    } else if let Some(rest) = strip_suffix(title.as_str(), " - The Remixes") {
        (String::from_str(rest), ReleaseType::Remixes)
    } else if let Some(rest) = strip_suffix(title.as_str(), " (The Remixes)") {
        (String::from_str(rest), ReleaseType::Remixes)
    } else if let Some(rest) = strip_suffix(title.as_str(), " The Remixes") {
        (String::from_str(rest), ReleaseType::Remixes)
    } else {
        (title, kind)
    }
}

/// How the kind of a release is written in its announcement; a single is not
/// marked as such.
pub open spec fn kind_label(kind: ReleaseTypeView) -> Option<Seq<char>> {
    match kind {
        ReleaseTypeView::Single => None,
        ReleaseTypeView::EP => Some("EP"@),
        ReleaseTypeView::LP => Some("LP"@),
        ReleaseTypeView::Compilation => Some("Compilation"@),
        ReleaseTypeView::Remixes => Some("Remixes"@),
        ReleaseTypeView::Other(label) => Some(label),
    }
}

/// Writes the kind of a release as its announcement shows it.
pub fn label_of_kind(kind: ReleaseType) -> (label: Option<String>)
    ensures
        text_view(label) == kind_label(kind@),
{
    match kind {
        ReleaseType::Single => None,
        ReleaseType::EP => Some(String::from_str("EP")),
        ReleaseType::LP => Some(String::from_str("LP")),
        ReleaseType::Compilation => Some(String::from_str("Compilation")),
        ReleaseType::Remixes => Some(String::from_str("Remixes")),
        ReleaseType::Other(label) => Some(label),
    }
}

/// `ahash::RandomState`, the hasher that an `AHashSet` is made with; nothing
/// is said of it.
#[verifier::external_type_specification]
#[verifier::external_body]
pub struct ExRandomState(ahash::RandomState);

/// `ahash::AHashSet`, the set in which an announcement keeps the artist ids
/// it has met; what is said of it is said of what it holds.
#[verifier::external_type_specification]
#[verifier::external_body]
#[verifier::reject_recursive_types(T)]
#[verifier::reject_recursive_types(S)]
pub struct ExAHashSet<T, S>(AHashSet<T, S>);

/// The ids that a set of artist ids holds.
pub uninterp spec fn held_ids(ids: AHashSet<String>) -> Set<Seq<char>>;

/// The set that holds no id.
pub open spec fn no_ids() -> Set<Seq<char>> {
    Set::empty()
}

/// `AHashSet::new`: a set that holds nothing.
#[verifier::external_body]
fn ids_new() -> (ids: AHashSet<String>)
    ensures
        held_ids(ids) == no_ids(),
{
    AHashSet::new()
}

/// `HashSet::insert`, reached through the `AHashSet`: the id is in the set
/// afterwards, and the result says whether it was new to the set.
#[verifier::external_body]
fn ids_insert(ids: &mut AHashSet<String>, id: String) -> (new: bool)
    ensures
        held_ids(*final(ids)) == held_ids(*old(ids)).insert(id@),
        new == !held_ids(*old(ids)).contains(id@),
{
    ids.insert(id)
}

/// Goes through the artists in order and adds to `names` the name of each
/// artist whose id has not been seen before.
fn collect_new_names(artists: &Vec<Artist>, seen: &mut AHashSet<String>, names: &mut Vec<String>)
    ensures
        held_ids(*final(seen)) == seen_after(artists_view(artists@), held_ids(*old(seen))),
        texts(final(names)@) == texts(old(names)@) + new_names(
            artists_view(artists@),
            held_ids(*old(seen)),
        ),
{
    let ghost seen_before = held_ids(*seen);
    let ghost names_before = texts(names@);
    let mut i: usize = 0;
    while i < artists.len()
        invariant
            i <= artists@.len(),
            held_ids(*seen) == seen_after(artists_view(artists@).take(i as int), seen_before),
            texts(names@) == names_before + new_names(
                artists_view(artists@).take(i as int),
                seen_before,
            ),
        decreases artists@.len() - i,
    {
        assert(artists_view(artists@).take(i + 1).drop_last() == artists_view(artists@).take(
            i as int,
        ));
        assert(artists_view(artists@).take(i + 1).last() == artists@[i as int]@);
        let artist = &artists[i];
        if let Some(id) = &artist.id {
            if ids_insert(seen, id.clone()) {
                let ghost names_then = names@;
                names.push(artist.name.clone());
                assert(texts(names@) =~= texts(names_then).push(artist.name@));
            }
        }
        i += 1;
    }
    assert(artists_view(artists@).take(i as int) == artists_view(artists@));
}

/// Goes through the artists of the tracks, track by track, and adds to
/// `names` the name of each artist whose id has not been seen before.
fn collect_new_names_of_tracks(tracks: &Vec<Track>, seen: &mut AHashSet<String>, names: &mut Vec<String>)
    ensures
        held_ids(*final(seen)) == seen_after_tracks(tracks_view(tracks@), held_ids(*old(seen))),
        texts(final(names)@) == texts(old(names)@) + new_names_of_tracks(
            tracks_view(tracks@),
            held_ids(*old(seen)),
        ),
{
    let ghost seen_before = held_ids(*seen);
    let ghost names_before = texts(names@);
    let mut i: usize = 0;
    while i < tracks.len()
        invariant
            i <= tracks@.len(),
            held_ids(*seen) == seen_after_tracks(tracks_view(tracks@).take(i as int), seen_before),
            texts(names@) == names_before + new_names_of_tracks(
                tracks_view(tracks@).take(i as int),
                seen_before,
            ),
        decreases tracks@.len() - i,
    {
        assert(tracks_view(tracks@).take(i + 1).drop_last() == tracks_view(tracks@).take(i as int));
        assert(tracks_view(tracks@).take(i + 1).last() == tracks@[i as int]@);
        collect_new_names(&tracks[i].artists, seen, names);
        i += 1;
    }
    assert(tracks_view(tracks@).take(i as int) == tracks_view(tracks@));
}

/// The names that are left once every name that is among `excluded` has been
/// taken out.
pub open spec fn names_without(names: Seq<Seq<char>>, excluded: Seq<Seq<char>>) -> Seq<Seq<char>>
    decreases names.len(),
{
    if names.len() == 0 {
        Seq::<Seq<char>>::empty()
    } else {
        let kept = names_without(names.drop_last(), excluded);
        if excluded.contains(names.last()) {
            kept
        } else {
            kept.push(names.last())
        }
    }
}

/// Whether `name` is among the strings of `list`.
fn contains_name(list: &Vec<String>, name: &String) -> (found: bool)
    ensures
        found == texts(list@).contains(name@),
{
    let mut i: usize = 0;
    while i < list.len()
        invariant
            i <= list@.len(),
            forall|j: int| 0 <= j < i ==> texts(list@)[j] != name@,
        decreases list@.len() - i,
    {
        if list[i] == *name {
            assert(texts(list@)[i as int] == name@);
            return true;
        }
        i += 1;
    }
    false
}

/// Takes out of `names` every name that is among `excluded`.
fn retain_names(names: Vec<String>, excluded: &Vec<String>) -> (kept: Vec<String>)
    ensures
        texts(kept@) == names_without(texts(names@), texts(excluded@)),
{
    let mut kept: Vec<String> = Vec::new();
    let mut i: usize = 0;
    while i < names.len()
        invariant
            i <= names@.len(),
            texts(kept@) == names_without(texts(names@).take(i as int), texts(excluded@)),
        decreases names@.len() - i,
    {
        assert(texts(names@).take(i + 1).drop_last() == texts(names@).take(i as int));
        if !contains_name(excluded, &names[i]) {
            let ghost kept_then = kept@;
            kept.push(names[i].clone());
            assert(texts(kept@) =~= texts(kept_then).push(names@[i as int]@));
        }
        i += 1;
    }
    assert(texts(names@).take(i as int) == texts(names@));
    kept
}

/// Each name as an announcement writes it.
pub open spec fn written_names(names: Seq<Seq<char>>, roles: Seq<Role>) -> Seq<Seq<char>> {
    names.map_values(|name: Seq<char>| name_or_role(name, roles))
}

/// The names as an announcement writes them, with the separator between each
/// two of them.
pub open spec fn names_joined(names: Seq<Seq<char>>, roles: Seq<Role>, separator: Seq<char>) -> Seq<
    char,
> {
    joined(written_names(names, roles), separator)
}

/// Writes the names as an announcement shows them, with the separator between
/// each two of them.
fn join_names(names: &Vec<String>, roles: &Vec<Role>, separator: &str) -> (text: String)
    ensures
        text@ == names_joined(texts(names@), roles@, separator@),
{
    let mut written: Vec<String> = Vec::new();
    let mut i: usize = 0;
    while i < names.len()
        invariant
            i <= names@.len(),
            texts(written@) == written_names(texts(names@).take(i as int), roles@),
        decreases names@.len() - i,
    {
        let ghost written_then = written@;
        let name = format_or_role(names[i].as_str(), roles);
        written.push(name);
        proof {
            let before = texts(names@).take(i as int);
            assert(texts(written@) =~= texts(written_then).push(name@));
            assert(texts(names@).take(i + 1) =~= before.push(names@[i as int]@));
            assert(written_names(before.push(names@[i as int]@), roles@) =~= written_names(
                before,
                roles@,
            ).push(name@));
        }
        i += 1;
    }
    assert(texts(names@).take(i as int) == texts(names@));
    join(&written, separator)
}

/// An optional list of strings as an optional sequence of texts.
pub open spec fn list_view(list: Option<Vec<String>>) -> Option<Seq<Seq<char>>> {
    match list {
        Some(list) => Some(texts(list@)),
        None => None,
    }
}

/// The names of an optional list, none where there is no list.
pub open spec fn listed(list: Option<Seq<Seq<char>>>) -> Seq<Seq<char>> {
    match list {
        Some(list) => list,
        None => Seq::<Seq<char>>::empty(),
    }
}

/// A title parted from the guests that it names at its end, between `middle`
/// and `end`; a title that names none stays whole.
pub open spec fn title_and_guests(middle: Seq<char>, end: Seq<char>, title: Seq<char>) -> (
    Seq<char>,
    Option<Seq<Seq<char>>>,
) {
    match read_two(middle, end, title) {
        Some((title, guests)) => (title, Some(listed_artists(guests))),
        None => (title, None),
    }
}

/// Parts a title from the guests that it names at its end.
fn split_guests(middle: &str, end: &str, title: String) -> (split: (String, Option<Vec<String>>))
    requires
        !contains_text(middle@, "{}"@),
        !contains_text(end@, "{}"@),
    ensures
        split.0@ == title_and_guests(middle@, end@, title@).0,
        list_view(split.1) == title_and_guests(middle@, end@, title@).1,
{
    match read_format_two(middle, end, title.as_str()) {
        Some((title, guests)) => (title, Some(parse_list_of_artists(guests))),
        None => (title, None),
    }
}

/// The names of both lists in one, the first list's names first.
fn both_lists(first: &Option<Vec<String>>, second: &Option<Vec<String>>) -> (both: Vec<String>)
    ensures
        texts(both@) == listed(list_view(*first)) + listed(list_view(*second)),
{
    let mut both: Vec<String> = Vec::new();
    if let Some(list) = first {
        let mut i: usize = 0;
        while i < list.len()
            invariant
                i <= list@.len(),
                texts(both@) == texts(list@).take(i as int),
            decreases list@.len() - i,
        {
            let ghost both_then = both@;
            both.push(list[i].clone());
            assert(texts(both@) =~= texts(both_then).push(list@[i as int]@));
            assert(texts(list@).take(i + 1) =~= texts(list@).take(i as int).push(list@[i as int]@));
            i += 1;
        }
        assert(texts(list@).take(i as int) == texts(list@));
    }
    let ghost first_names = texts(both@);
    if let Some(list) = second {
        let mut i: usize = 0;
        while i < list.len()
            invariant
                i <= list@.len(),
                texts(both@) == first_names + texts(list@).take(i as int),
            decreases list@.len() - i,
        {
            let ghost both_then = both@;
            both.push(list[i].clone());
            assert(texts(both@) =~= texts(both_then).push(list@[i as int]@));
            assert(texts(list@).take(i + 1) =~= texts(list@).take(i as int).push(list@[i as int]@));
            i += 1;
        }
        assert(texts(list@).take(i as int) == texts(list@));
    }
    both
}

/// Whether a release is recent on a given day: whether, at the end of that
/// day, less than 52 weeks have passed since the day of the release began.
/// The days are given by their Julian day numbers.
pub open spec fn released_recently(release_day: i32, today: i32) -> bool {
    today - release_day <= 363
}

/// Whether a release is recent on a given day.
pub fn is_recent(release_day: i32, today: i32) -> (recent: bool)
    ensures
        recent == released_recently(release_day, today),
{
    today as i64 - release_day as i64 <= 363
}

/// How an announcement writes the date of a release: month and day, with the
/// year before them unless the release is recent.
pub open spec fn date_text(year: int, month: int, day: int, recent: bool) -> Seq<char> {
    if recent {
        decimal_text(month) + "/"@ + decimal_text(day)
    } else {
        decimal_text(year) + "/"@ + decimal_text(month) + "/"@ + decimal_text(day)
    }
}

/// Writes the date of a release as its announcement shows it.
fn write_date(date: &CalendarDate, recent: bool) -> (text: String)
    ensures
        text@ == date_text(
            date.year_spec() as int,
            date.month_spec() as int,
            date.day_spec() as int,
            recent,
        ),
{
    let month = decimal(date.month() as i128);
    let day = decimal(date.day() as i128);
    if recent {
        month.concat("/").concat(day.as_str())
    } else {
        let year = decimal(date.year() as i128);
        year.concat("/").concat(month.as_str()).concat("/").concat(day.as_str())
    }
}

/// The part of an announcement that names the release itself: its title as a
/// link, then the remixers if the title named any, then the kind and number
/// of tracks unless the release is a single.
pub open spec fn title_part(
    title: Seq<char>,
    url: Seq<char>,
    remixers: Option<Seq<Seq<char>>>,
    label: Option<Seq<char>>,
    n_tracks: int,
    roles: Seq<Role>,
) -> Seq<char> {
    let link = "["@ + title + "](<"@ + url + ">)"@;
    let remixed = match remixers {
        Some(remixers) => link + " ("@ + names_joined(remixers, roles, " & "@) + " Remix)"@,
        None => link,
    };
    match label {
        Some(label) => remixed + " ("@ + label + ", "@ + decimal_text(n_tracks) + " tracks)"@,
        None => remixed,
    }
}

/// Writes the part of an announcement that names the release itself.
fn write_title_part(
    title: &String,
    url: &String,
    remixers: &Option<Vec<String>>,
    label: &Option<String>,
    n_tracks: usize,
    roles: &Vec<Role>,
) -> (text: String)
    ensures
        text@ == title_part(
            title@,
            url@,
            list_view(*remixers),
            text_view(*label),
            n_tracks as int,
            roles@,
        ),
{
    let mut text = String::from_str("[").concat(title.as_str()).concat("](<").concat(
        url.as_str(),
    ).concat(">)");
    if let Some(remixers) = remixers {
        let names = join_names(remixers, roles, " & ");
        text = text.concat(" (").concat(names.as_str()).concat(" Remix)");
    }
    if let Some(label) = label {
        let count = decimal(n_tracks as i128);
        text = text.concat(" (").concat(label.as_str()).concat(", ").concat(count.as_str()).concat(
            " tracks)",
        );
    }
    text
}

/// The first line of an announcement up to the date: the main artists, and
/// the featured artists after them, before the title part. A release by
/// nobody, or by "Various Artists" alone, names the featured artists only.
pub open spec fn credited(
    main_names: Seq<Seq<char>>,
    features: Option<Seq<Seq<char>>>,
    title_part: Seq<char>,
    roles: Seq<Role>,
) -> Seq<char> {
    if main_names.len() > 0 && main_names != seq!["Various Artists"@] {
        let main = names_joined(main_names, roles, " & "@);
        let artists = match features {
            Some(features) => main + " (feat. "@ + names_joined(features, roles, " & "@) + ")"@,
            None => main,
        };
        artists + " - "@ + title_part
    } else {
        match features {
            Some(features) => names_joined(features, roles, " & "@) + " - "@ + title_part,
            None => title_part,
        }
    }
}

/// Whether the names are "Various Artists" and nothing else.
fn is_various_artists(names: &Vec<String>) -> (various: bool)
    ensures
        various == (texts(names@) == seq!["Various Artists"@]),
{
    if names.len() == 1 {
        let various = String::from_str("Various Artists");
        assert(texts(names@)[0] == names@[0]@);
        if names[0] == various {
            assert(texts(names@) =~= seq!["Various Artists"@]);
            true
        } else {
            assert(seq!["Various Artists"@][0] == "Various Artists"@);
            false
        }
    } else {
        assert(seq!["Various Artists"@].len() == 1);
        false
    }
}

/// Writes the first line of an announcement up to the date.
fn write_credited(
    main_names: &Vec<String>,
    features: &Option<Vec<String>>,
    title_part: String,
    roles: &Vec<Role>,
) -> (text: String)
    ensures
        text@ == credited(texts(main_names@), list_view(*features), title_part@, roles@),
{
    if main_names.len() > 0 && !is_various_artists(main_names) {
        let mut artists = join_names(main_names, roles, " & ");
        if let Some(features) = features {
            let featured = join_names(features, roles, " & ");
            artists = artists.concat(" (feat. ").concat(featured.as_str()).concat(")");
        }
        artists.concat(" - ").concat(title_part.as_str())
    } else {
        match features {
            Some(features) => {
                let featured = join_names(features, roles, " & ");
                featured.concat(" - ").concat(title_part.as_str())
            },
            None => title_part,
        }
    }
}

/// What stands in the brackets at the end of the first line: the date, and
/// the record label after it where a role answers to the label's name.
pub open spec fn bracketed(date: Seq<char>, record_label: Option<Seq<char>>, roles: Seq<Role>) -> Seq<
    char,
> {
    match record_label {
        Some(label) => if role_named(roles, label) is Some {
            date + " on "@ + name_or_role(label, roles)
        } else {
            date
        },
        None => date,
    }
}

/// Writes what stands in the brackets at the end of the first line.
fn write_bracketed(date: String, record_label: &Option<String>, roles: &Vec<Role>) -> (text: String)
    ensures
        text@ == bracketed(date@, text_view(*record_label), roles@),
{
    match record_label {
        Some(label) => {
            if find_role(roles, label.as_str()).is_some() {
                let label = format_or_role(label.as_str(), roles);
                date.concat(" on ").concat(label.as_str())
            } else {
                date
            }
        },
        None => date,
    }
}

/// The announcement of a release. Its first line credits the main artists,
/// names the release and ends with the date in brackets; a second line names
/// the artists that only some tracks have. An artist counts once, under the
/// first name that its id comes with, and not at all where the title names
/// it as featured or as remixer.
pub open spec fn announcement(release: ReleaseView, roles: Seq<Role>, recent: bool) -> Seq<char> {
    let seen = seen_after(release.main_artists, no_ids());
    let titled = title_and_kind(release.title, release.kind);
    let featuring = title_and_guests(" (feat. "@, ")"@, titled.0);
    let remixing = title_and_guests(" ("@, " Remix)"@, featuring.0);
    let guests = listed(featuring.1) + listed(remixing.1);
    let main_names = names_without(new_names(release.main_artists, no_ids()), guests);
    let additional_names = names_without(new_names_of_tracks(release.tracks, seen), guests);
    let title_part = title_part(
        remixing.0,
        release.url,
        remixing.1,
        kind_label(titled.1),
        release.tracks.len() as int,
        roles,
    );
    let date = date_text(release.date.0, release.date.1, release.date.2, recent);
    let first_line = credited(main_names, featuring.1, title_part, roles) + " ["@ + bracketed(
        date,
        release.record_label,
        roles,
    ) + "]"@;
    if additional_names.len() > 0 {
        first_line + "\n"@ + "with "@ + names_joined(additional_names, roles, ", "@)
    } else {
        first_line
    }
}

/// No brace pair stands in the texts that part a title from its guests.
proof fn lemma_guest_marks_hold_no_hole()
    ensures
        !contains_text(" (feat. "@, "{}"@),
        !contains_text(")"@, "{}"@),
        !contains_text(" ("@, "{}"@),
        !contains_text(" Remix)"@, "{}"@),
{
    reveal_strlit(" (feat. ");
    reveal_strlit(")");
    reveal_strlit(" (");
    reveal_strlit(" Remix)");
    reveal_strlit("{}");
    assert forall|at: int| !occurs_at(" (feat. "@, "{}"@, at) by {
        if occurs_at(" (feat. "@, "{}"@, at) {
            assert(" (feat. "@.subrange(at, at + 2)[0] == '{');
        }
    }
    assert forall|at: int| !occurs_at(")"@, "{}"@, at) by {}
    assert forall|at: int| !occurs_at(" ("@, "{}"@, at) by {
        if occurs_at(" ("@, "{}"@, at) {
            assert(" ("@.subrange(at, at + 2)[0] == '{');
        }
    }
    assert forall|at: int| !occurs_at(" Remix)"@, "{}"@, at) by {
        if occurs_at(" Remix)"@, "{}"@, at) {
            assert(" Remix)"@.subrange(at, at + 2)[0] == '{');
        }
    }
}

/// Writes the announcement of a release, given whether the release is recent.
pub fn announce(release: Release, roles_map: &Vec<Role>, recent: bool) -> (text: String)
    ensures
        text@ == announcement(release@, roles_map@, recent),
{
    let Release { url, kind, title, date, main_artists, tracks, record_label } = release;
    let mut seen = ids_new();
    let mut main_names: Vec<String> = Vec::new();
    collect_new_names(&main_artists, &mut seen, &mut main_names);
    let mut additional_names: Vec<String> = Vec::new();
    collect_new_names_of_tracks(&tracks, &mut seen, &mut additional_names);
    assert(texts(main_names@) =~= new_names(artists_view(main_artists@), no_ids()));
    assert(texts(additional_names@) =~= new_names_of_tracks(
        tracks_view(tracks@),
        seen_after(artists_view(main_artists@), no_ids()),
    ));
    let n_tracks = tracks.len();

    let (title, kind) = split_title_and_kind(title, kind);
    let label = label_of_kind(kind);
    proof {
        lemma_guest_marks_hold_no_hole();
    }
    let (title, features) = split_guests(" (feat. ", ")", title);
    let (title, remixers) = split_guests(" (", " Remix)", title);
    let guests = both_lists(&features, &remixers);
    let main_names = retain_names(main_names, &guests);
    let additional_names = retain_names(additional_names, &guests);

    let title_part = write_title_part(&title, &url, &remixers, &label, n_tracks, roles_map);
    let date = write_date(&date, recent);
    let first_line = write_credited(&main_names, &features, title_part, roles_map).concat(
        " [",
    ).concat(write_bracketed(date, &record_label, roles_map).as_str()).concat("]");
    if additional_names.len() > 0 {
        let names = join_names(&additional_names, roles_map, ", ");
        first_line.concat("\n").concat("with ").concat(names.as_str())
    } else {
        first_line
    }
}

/// Writes the announcement of a release as it reads on the day `today`.
pub fn format_release(release: Release, roles_map: &Vec<Role>, today: &CalendarDate) -> (text: String)
    ensures
        text@ == announcement(
            release@,
            roles_map@,
            released_recently(
                julian_day(release@.date.0, release@.date.1, release@.date.2),
                julian_day(
                    today.year_spec() as int,
                    today.month_spec() as int,
                    today.day_spec() as int,
                ),
            ),
        ),
{
    let recent = is_recent(release.date.to_julian_day(), today.to_julian_day());
    announce(release, roles_map, recent)
}

} // verus!
