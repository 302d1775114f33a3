//! The part of the schema.org vocabulary that pages use to describe a music
//! release, as plain values.

use vstd::prelude::*;
use vstd::std_specs::convert::FromSpecImpl;
use vstd::string::StringExecFns;

verus! {

/// A text value.
pub type Text = String;

/// A link.
pub type URL = String;

/// A whole number.
pub type Integer = i64;

/// The most generic type of item.
#[derive(Debug, Clone, PartialEq, Eq)]
pub struct Thing {
    /// The item's identifier, a link.
    pub id: Option<URL>,
    pub name: Option<Text>,
}

/// A calendar date.
#[derive(Debug, Clone, Copy, PartialEq, Eq, Structural)]
pub struct Date {
    pub year: i16,
    pub month: i8,
    pub day: i8,
}

/// The calendar date of a point in time, in universal time.
#[derive(Debug, Clone, Copy, PartialEq, Eq, Structural)]
pub struct DateTime {
    pub year: i32,
    pub month: u32,
    pub day: u32,
}

/// Why a text is no point in time.
#[derive(Debug, Clone, PartialEq, Eq)]
pub enum DateTimeParseError {
    /// The text does not match any expected date format.
    Unmatched { original: String },
}

impl DateTimeParseError {
    /// The error in words.
    pub open spec fn message_spec(&self) -> Seq<char> {
        match self {
            DateTimeParseError::Unmatched { original } => original@
                + " does not match any expected date formats"@,
        }
    }

    /// The error in words.
    pub fn message(&self) -> (text: String)
        ensures
            text@ == self.message_spec(),
    {
        match self {
            DateTimeParseError::Unmatched { original } => original.clone().concat(
                " does not match any expected date formats",
            ),
        }
    }
}

impl DateTime {
    /// What reading `original` as a point in time comes to, given what the
    /// date formats made of it: the point in time they found, or the error
    /// that holds the text that matched none of them.
    pub fn from_parsed(parsed: Option<DateTime>, original: &str) -> (outcome: Result<
        DateTime,
        DateTimeParseError,
    >)
        ensures
            match parsed {
                Some(datetime) => outcome == Ok::<DateTime, DateTimeParseError>(datetime),
                None => outcome matches Err(DateTimeParseError::Unmatched { original: kept })
                    && kept@ == original@,
            },
    {
        match parsed {
            Some(datetime) => Ok(datetime),
            None => Err(DateTimeParseError::Unmatched { original: original.to_owned() }),
        }
    }
}

/// A date, with or without a time of day.
#[derive(Debug, Clone, Copy, PartialEq, Eq, Structural)]
pub enum DateOrDateTime {
    Date(Date),
    DateTime(DateTime),
}

/// A place.
#[derive(Debug, Clone, PartialEq, Eq)]
pub struct Place {
    pub thing: Thing,
}

/// A person.
#[derive(Debug, Clone, PartialEq, Eq)]
pub struct Person {
    pub birth_date: Option<Date>,
    pub birth_place: Option<Place>,
    pub thing: Thing,
}

/// An organization.
#[derive(Debug, Clone, PartialEq, Eq)]
pub struct Organization {
    pub founding_location: Option<Place>,
    pub thing: Thing,
}

/// A performance group, such as a band.
#[derive(Debug, Clone, PartialEq, Eq)]
pub struct PerformingGroup {
    pub organization: Organization,
}

/// A text or a link.
#[derive(Debug, Clone, PartialEq, Eq)]
pub enum TextOrURL {
    Text(Text),
    URL(URL),
}

/// A musical group, or a solo musician.
#[derive(Debug, PartialEq, Eq)]
pub struct MusicGroup {
    pub album: Option<Vec<MusicAlbum>>,
    pub genre: Option<TextOrURL>,
    pub performing_group: PerformingGroup,
}

/// The more specific kinds of performing group.
#[derive(Debug, PartialEq, Eq)]
pub enum SubOfPerformingGroup {
    MusicGroup(MusicGroup),
}

/// A performing group, or one of a more specific kind.
#[derive(Debug, PartialEq, Eq)]
pub enum PerformingGroupOrSub {
    Sub(SubOfPerformingGroup),
    PerformingGroup(PerformingGroup),
}

/// The more specific kinds of organization.
#[derive(Debug, PartialEq, Eq)]
pub enum SubOfOrganization {
    PerformingGroupOrSub(PerformingGroupOrSub),
}

/// An organization, or one of a more specific kind.
#[derive(Debug, PartialEq, Eq)]
pub enum OrganizationOrSub {
    Sub(SubOfOrganization),
    Organization(Organization),
}

/// Who can publish a creative work.
#[derive(Debug, PartialEq, Eq)]
pub enum PersonOrSubOrOrganizationOrSub {
    SubOfOrganization(SubOfOrganization),
}

/// A creative work.
#[derive(Debug, PartialEq, Eq)]
pub struct CreativeWork {
    pub date_created: Option<DateOrDateTime>,
    pub date_modified: Option<DateOrDateTime>,
    pub date_published: Option<DateOrDateTime>,
    pub publisher: Option<PersonOrSubOrOrganizationOrSub>,
    pub thing: Thing,
}

/// A music recording: a track, usually a single song.
#[derive(Debug, PartialEq, Eq)]
pub struct MusicRecording {
    pub by_artist: Option<MusicGroup>,
    pub creative_work: CreativeWork,
}

/// Something that is not a physical thing.
#[derive(Debug, Clone, PartialEq, Eq)]
pub struct Intangible {
    pub thing: Thing,
}

/// One entry of a list.
#[derive(Debug, Clone, PartialEq, Eq)]
pub struct ListItem<T> {
    pub item: T,
    pub position: Option<Integer>,
    pub intangible: Intangible,
}

/// A list of items.
#[derive(Debug, Clone, PartialEq, Eq)]
pub struct ItemList<T> {
    pub item_list_element: Vec<ListItem<T>>,
    pub intangible: Intangible,
}

/// A collection of music tracks in playlist form.
#[derive(Debug, PartialEq, Eq)]
pub struct MusicPlaylist {
    pub num_tracks: Option<Integer>,
    pub track: Option<ItemList<MusicRecording>>,
    pub creative_work: CreativeWork,
}

/// A specific release of a music album.
#[derive(Debug, PartialEq, Eq)]
pub struct MusicRelease {
    pub catalog_number: Option<Text>,
    pub music_playlist: MusicPlaylist,
}

/// How an album was produced.
#[derive(Debug, Clone, Copy, PartialEq, Eq, Structural)]
pub enum MusicAlbumProductionType {
    CompilationAlbum,
    DJMixAlbum,
    DemoAlbum,
    LiveAlbum,
    MixtapeAlbum,
    RemixAlbum,
    SoundtrackAlbum,
    SpokenWordAlbum,
    StudioAlbum,
}

/// The kind of release which an album is.
#[derive(Debug, Clone, Copy, PartialEq, Eq, Structural)]
pub enum MusicAlbumReleaseType {
    AlbumRelease,
    BroadcastRelease,
    EPRelease,
    SingleRelease,
}

/// A collection of music tracks.
#[derive(Debug, PartialEq, Eq)]
pub struct MusicAlbum {
    pub album_production_type: Option<MusicAlbumProductionType>,
    pub album_release: Vec<MusicRelease>,
    /// The kind of release which this album is: single, EP or album.
    pub album_release_type: Option<MusicAlbumReleaseType>,
    pub by_artist: Option<MusicGroup>,
    pub music_playlist: MusicPlaylist,
}

/// What is known of a performing group as a thing.
pub open spec fn thing_of_group(group: PerformingGroupOrSub) -> Thing {
    match group {
        PerformingGroupOrSub::Sub(SubOfPerformingGroup::MusicGroup(music_group)) => {
            music_group.performing_group.organization.thing
        },
        PerformingGroupOrSub::PerformingGroup(performing_group) => {
            performing_group.organization.thing
        },
    }
}

/// What is known of whoever published a work as a thing.
pub open spec fn publisher_thing(publisher: PersonOrSubOrOrganizationOrSub) -> Thing {
    match publisher {
        PersonOrSubOrOrganizationOrSub::SubOfOrganization(
            SubOfOrganization::PerformingGroupOrSub(group),
        ) => thing_of_group(group),
    }
}

/// What is known of whoever published a work as a thing.
pub fn thing_of_publisher(publisher: PersonOrSubOrOrganizationOrSub) -> (thing: Thing)
    ensures
        thing == publisher_thing(publisher),
{
    match publisher {
        PersonOrSubOrOrganizationOrSub::SubOfOrganization(
            SubOfOrganization::PerformingGroupOrSub(group),
        ) => match group {
            PerformingGroupOrSub::Sub(SubOfPerformingGroup::MusicGroup(music_group)) => {
                music_group.performing_group.organization.thing
            },
            PerformingGroupOrSub::PerformingGroup(performing_group) => {
                performing_group.organization.thing
            },
        },
    }
}

impl From<Organization> for Thing {
    fn from(value: Organization) -> (thing: Self) {
        value.thing
    }
}

impl FromSpecImpl<Organization> for Thing {
    open spec fn obeys_from_spec() -> bool {
        true
    }

    open spec fn from_spec(value: Organization) -> Self {
        value.thing
    }
}

impl From<PerformingGroup> for Thing {
    fn from(value: PerformingGroup) -> (thing: Self) {
        Self::from(value.organization)
    }
}

impl FromSpecImpl<PerformingGroup> for Thing {
    open spec fn obeys_from_spec() -> bool {
        true
    }

    open spec fn from_spec(value: PerformingGroup) -> Self {
        value.organization.thing
    }
}

impl From<MusicGroup> for Thing {
    fn from(value: MusicGroup) -> (thing: Self) {
        Self::from(value.performing_group)
    }
}

impl FromSpecImpl<MusicGroup> for Thing {
    open spec fn obeys_from_spec() -> bool {
        true
    }

    open spec fn from_spec(value: MusicGroup) -> Self {
        value.performing_group.organization.thing
    }
}

impl From<SubOfPerformingGroup> for Thing {
    fn from(value: SubOfPerformingGroup) -> (thing: Self) {
        match value {
            SubOfPerformingGroup::MusicGroup(music_group) => {
                music_group.performing_group.organization.thing
            },
        }
    }
}

impl FromSpecImpl<SubOfPerformingGroup> for Thing {
    open spec fn obeys_from_spec() -> bool {
        true
    }

    open spec fn from_spec(value: SubOfPerformingGroup) -> Self {
        match value {
            SubOfPerformingGroup::MusicGroup(music_group) => {
                music_group.performing_group.organization.thing
            },
        }
    }
}

impl From<PerformingGroupOrSub> for Thing {
    fn from(value: PerformingGroupOrSub) -> (thing: Self) {
        match value {
            PerformingGroupOrSub::Sub(sub_of_performing_group) => Self::from(sub_of_performing_group),
            PerformingGroupOrSub::PerformingGroup(performing_group) => Self::from(performing_group),
        }
    }
}

impl FromSpecImpl<PerformingGroupOrSub> for Thing {
    open spec fn obeys_from_spec() -> bool {
        true
    }

    open spec fn from_spec(value: PerformingGroupOrSub) -> Self {
        thing_of_group(value)
    }
}

impl From<SubOfOrganization> for Thing {
    fn from(value: SubOfOrganization) -> (thing: Self) {
        match value {
            SubOfOrganization::PerformingGroupOrSub(performing_group_or_sub) => Self::from(
                performing_group_or_sub,
            ),
        }
    }
}

impl FromSpecImpl<SubOfOrganization> for Thing {
    open spec fn obeys_from_spec() -> bool {
        true
    }

    open spec fn from_spec(value: SubOfOrganization) -> Self {
        match value {
            SubOfOrganization::PerformingGroupOrSub(group) => thing_of_group(group),
        }
    }
}

impl From<PersonOrSubOrOrganizationOrSub> for Thing {
    fn from(value: PersonOrSubOrOrganizationOrSub) -> (thing: Self) {
        match value {
            PersonOrSubOrOrganizationOrSub::SubOfOrganization(sub_of_organization) => Self::from(
                sub_of_organization,
            ),
        }
    }
}

impl FromSpecImpl<PersonOrSubOrOrganizationOrSub> for Thing {
    open spec fn obeys_from_spec() -> bool {
        true
    }

    open spec fn from_spec(value: PersonOrSubOrOrganizationOrSub) -> Self {
        publisher_thing(value)
    }
}

} // verus!
