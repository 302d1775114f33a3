//! The `new-release` command: from a link to a music release to the
//! announcement that is posted for it.

use crate::calendar::CalendarDate;
use crate::calendar::ComponentRange;
use crate::calendar::is_calendar_date;
use crate::calendar::julian_day;
use crate::calendar::out_of_range;
use crate::interaction::COLOR_SUCCESS;
use crate::interaction::CommandDataOption;
use crate::interaction::CommandOptionValue;
use crate::interaction::Embed;
use crate::interaction::EmbedView;
use crate::interaction::EPHEMERAL;
use crate::interaction::Interaction;
use crate::interaction::InteractionData;
use crate::interaction::InteractionResponse;
use crate::interaction::InteractionResponseData;
use crate::interaction::InteractionResponseDataView;
use crate::interaction::InteractionResponseType;
use crate::interaction::InteractionResponseView;
use crate::interaction::text_view;
use crate::iri::InvalidIriRef;
use crate::iri::IriRefBuf;
use crate::iri::is_iri_reference;
use crate::release::announcement;
use crate::release::Artist;
use crate::release::artists_view;
use crate::release::ArtistView;
use crate::release::format_release;
use crate::release::Release;
use crate::release::released_recently;
use crate::release::ReleaseType;
use crate::release::ReleaseTypeView;
use crate::release::ReleaseView;
use crate::release::Track;
use crate::release::tracks_view;
use crate::schema_org::CreativeWork;
use crate::schema_org::DateOrDateTime;
use crate::schema_org::ListItem;
use crate::schema_org::MusicAlbum;
use crate::schema_org::MusicAlbumReleaseType;
use crate::schema_org::MusicGroup;
use crate::schema_org::MusicPlaylist;
use crate::schema_org::MusicRecording;
use crate::schema_org::PersonOrSubOrOrganizationOrSub;
use crate::schema_org::publisher_thing;
use crate::schema_org::Thing;
use crate::schema_org::thing_of_publisher;
use crate::spotify::GetSpotifyReleaseError;
use crate::text::caused;
use crate::text::decimal;
use crate::text::decimal_text;
use crate::text::eq_uncased;
use crate::text::IntErrorKind;
use crate::text::join;
use crate::text::joined;
use crate::text::parse_ranged_u8;
use crate::text::parse_u16;
use crate::text::parsed_ranged_u8;
use crate::text::parsed_u16;
use crate::text::split;
use crate::text::split_once;
use crate::text::split_once_spec;
use crate::text::split_spec;
use crate::text::texts;
use crate::text::uncased_eq;
use crate::text::with_cause;
use vstd::prelude::*;
use vstd::string::StringExecFns;

verus! {

/// `string` split on the first occurrence of `delimiter`, or left whole where
/// the delimiter does not occur.
pub open spec fn try_split_once_spec(string: Seq<char>, delimiter: Seq<char>) -> (
    Seq<char>,
    Option<Seq<char>>,
) {
    match split_once_spec(string, delimiter) {
        Some((before, after)) => (before, Some(after)),
        None => (string, None),
    }
}

/// Splits `string` on the first occurrence of `delimiter`: what stands before
/// it, and what stands after it. Where the delimiter does not occur, the whole
/// string comes first and nothing follows.
pub fn try_split_once<'a>(string: &'a str, delimiter: &'a str) -> (parts: (&'a str, Option<&'a str>))
    ensures
        parts.0@ == try_split_once_spec(string@, delimiter@).0,
        match parts.1 {
            Some(after) => try_split_once_spec(string@, delimiter@).1 == Some(after@),
            None => try_split_once_spec(string@, delimiter@).1 is None,
        },
{
    match split_once(string, delimiter) {
        Some((before, after)) => (before, Some(after)),
        None => (string, None),
    }
}

/// A year as a release date writes it.
pub type Year = u16;

/// What reading a day of the month yielded.
pub type DayResult = Result<u8, IntErrorKind>;

/// What reading a month, and the day after it if there is one, yielded.
pub type MonthResult = Result<(u8, Option<DayResult>), IntErrorKind>;

/// What reading a year, and the month after it if there is one, yielded.
pub type YearResult = Result<(Year, Option<MonthResult>), IntErrorKind>;

/// What the part of a release date after the year reads as: a month from 1 to
/// 12 and, after a hyphen, whatever the rest reads as for a day from 1 to 32.
pub open spec fn parsed_month_and_day(month_and_day: Seq<char>) -> MonthResult {
    let parts = try_split_once_spec(month_and_day, "-"@);
    match parsed_ranged_u8(1, 12, parts.0) {
        Ok(month) => Ok(
            (
                month,
                match parts.1 {
                    Some(day) => Some(parsed_ranged_u8(1, 32, day)),
                    None => None,
                },
            ),
        ),
        Err(fault) => Err(fault),
    }
}

/// What a release date reads as. Its parts stand between hyphens: a year and,
/// if the date goes on, a month and possibly a day. A part that does not read
/// as a number of its kind ends the reading with its fault.
pub open spec fn parsed_date(date: Seq<char>) -> YearResult {
    let parts = try_split_once_spec(date, "-"@);
    match parsed_u16(parts.0) {
        Ok(year) => Ok(
            (
                year,
                match parts.1 {
                    Some(month_and_day) => Some(parsed_month_and_day(month_and_day)),
                    None => None,
                },
            ),
        ),
        Err(fault) => Err(fault),
    }
}

fn parse_month_and_day(month_and_day: &str) -> (parsed: MonthResult)
    ensures
        parsed == parsed_month_and_day(month_and_day@),
{
    let (month, day) = try_split_once(month_and_day, "-");
    match parse_ranged_u8::<1, 12>(month) {
        Ok(month) => Ok(
            (
                month,
                match day {
                    Some(day) => Some(parse_ranged_u8::<1, 32>(day)),
                    None => None,
                },
            ),
        ),
        Err(fault) => Err(fault),
    }
}

/// Reads a release date of the form `year`, `year-month` or `year-month-day`.
pub fn parse_date(date: &str) -> (parsed: YearResult)
    ensures
        parsed == parsed_date(date@),
{
    let (year, month_and_day) = try_split_once(date, "-");
    match parse_u16(year) {
        Ok(year) => Ok(
            (
                year,
                match month_and_day {
                    Some(month_and_day) => Some(parse_month_and_day(month_and_day)),
                    None => None,
                },
            ),
        ),
        Err(fault) => Err(fault),
    }
}

/// Why what was read of a release date does not make a date.
#[derive(Debug, Clone, PartialEq, Eq)]
pub enum AssembleDateError {
    /// The year could not be read.
    ParseYearError { source: IntErrorKind },
    /// The month is missing.
    MonthMissing,
    /// The month could not be read.
    ParseMonthError { source: IntErrorKind },
    /// The day is missing.
    DayMissing,
    /// The day could not be read.
    ParseDayError { source: IntErrorKind },
    /// Some component of the date is out of its range.
    OutOfRange { source: ComponentRange },
}

impl AssembleDateError {
    /// The error and what caused it, in words.
    pub open spec fn report_spec(&self) -> Seq<char> {
        match self {
            AssembleDateError::ParseYearError { source } => caused(
                "couldn't parse the year"@,
                source.message_spec(),
            ),
            AssembleDateError::MonthMissing => "month is missing"@,
            AssembleDateError::ParseMonthError { source } => caused(
                "couldn't parse the month"@,
                source.message_spec(),
            ),
            AssembleDateError::DayMissing => "day is missing"@,
            AssembleDateError::ParseDayError { source } => caused(
                "couldn't parse the day"@,
                source.message_spec(),
            ),
            AssembleDateError::OutOfRange { source } => caused(
                "some date component was out of valid range (somehow)"@,
                source.message_spec(),
            ),
        }
    }

    /// The error and what caused it, in words.
    pub fn report(&self) -> (text: String)
        ensures
            text@ == self.report_spec(),
    {
        match self {
            AssembleDateError::ParseYearError { source } => with_cause(
                "couldn't parse the year",
                source.message(),
            ),
            AssembleDateError::MonthMissing => String::from_str("month is missing"),
            AssembleDateError::ParseMonthError { source } => with_cause(
                "couldn't parse the month",
                source.message(),
            ),
            AssembleDateError::DayMissing => String::from_str("day is missing"),
            AssembleDateError::ParseDayError { source } => with_cause(
                "couldn't parse the day",
                source.message(),
            ),
            AssembleDateError::OutOfRange { source } => with_cause(
                "some date component was out of valid range (somehow)",
                source.message(),
            ),
        }
    }
}

/// An `AssembleDateError` with its text as a sequence of characters.
pub enum AssembleDateFault {
    ParseYearError(IntErrorKind),
    MonthMissing,
    ParseMonthError(IntErrorKind),
    DayMissing,
    ParseDayError(IntErrorKind),
    OutOfRange(Seq<char>),
}

impl View for AssembleDateError {
    type V = AssembleDateFault;

    open spec fn view(&self) -> AssembleDateFault {
        match self {
            AssembleDateError::ParseYearError { source } => AssembleDateFault::ParseYearError(
                *source,
            ),
            AssembleDateError::MonthMissing => AssembleDateFault::MonthMissing,
            AssembleDateError::ParseMonthError { source } => AssembleDateFault::ParseMonthError(
                *source,
            ),
            AssembleDateError::DayMissing => AssembleDateFault::DayMissing,
            AssembleDateError::ParseDayError { source } => AssembleDateFault::ParseDayError(*source),
            AssembleDateError::OutOfRange { source } => AssembleDateFault::OutOfRange(source.name@),
        }
    }
}

/// The date that a reading amounts to, as year, month and day: all three must
/// have been read, and together they must name a day of the calendar.
pub open spec fn assembled_date(year_result: YearResult) -> Result<(int, int, int), AssembleDateFault> {
    match year_result {
        Err(fault) => Err(AssembleDateFault::ParseYearError(fault)),
        Ok((_, None)) => Err(AssembleDateFault::MonthMissing),
        Ok((_, Some(Err(fault)))) => Err(AssembleDateFault::ParseMonthError(fault)),
        Ok((_, Some(Ok((_, None))))) => Err(AssembleDateFault::DayMissing),
        Ok((_, Some(Ok((_, Some(Err(fault))))))) => Err(AssembleDateFault::ParseDayError(fault)),
        Ok((year, Some(Ok((month, Some(Ok(day))))))) => if is_calendar_date(
            year as int,
            month as int,
            day as int,
        ) {
            Ok((year as int, month as int, day as int))
        } else {
            Err(AssembleDateFault::OutOfRange(out_of_range(year as int, month as int)))
        },
    }
}

/// Makes a date of what was read of a release date, or says what is missing
/// or wrong.
pub fn assemble_parsed_date(year_result: YearResult) -> (outcome: Result<
    CalendarDate,
    AssembleDateError,
>)
    ensures
        match assembled_date(year_result) {
            Ok((year, month, day)) => {
                &&& outcome matches Ok(date)
                &&& date.year_spec() == year
                &&& date.month_spec() == month
                &&& date.day_spec() == day
            },
            Err(fault) => outcome matches Err(error) && error@ == fault,
        },
{
    let (year, month_and_day) = match year_result {
        Ok(read) => read,
        Err(source) => {
            return Err(AssembleDateError::ParseYearError { source });
        },
    };
    let (month, day) = match month_and_day {
        None => {
            return Err(AssembleDateError::MonthMissing);
        },
        Some(Err(source)) => {
            return Err(AssembleDateError::ParseMonthError { source });
        },
        Some(Ok(read)) => read,
    };
    let day = match day {
        None => {
            return Err(AssembleDateError::DayMissing);
        },
        Some(Err(source)) => {
            return Err(AssembleDateError::ParseDayError { source });
        },
        Some(Ok(day)) => day,
    };
    match CalendarDate::from_calendar_date(year as i32, month, day) {
        Ok(date) => Ok(date),
        Err(source) => Err(AssembleDateError::OutOfRange { source }),
    }
}

/// The artists that a joined list names. The list's parts stand between
/// commas, and the last of them may name several artists joined by
/// ampersands: `A, B & C` names `A`, `B` and `C`.
pub open spec fn listed_artists(artists_joined: Seq<char>) -> Seq<Seq<char>> {
    let parts = split_spec(artists_joined, ", "@);
    parts.drop_last() + split_spec(parts.last(), " & "@)
}

/// The artists that a joined list names, in the order in which it names them.
/// There is always at least one, which may be empty.
pub fn parse_list_of_artists(artists_joined: String) -> (artists: Vec<String>)
    ensures
        texts(artists@) == listed_artists(artists_joined@),
        artists@.len() > 0,
{
    proof {
        reveal_strlit(", ");
        reveal_strlit(" & ");
    }
    let mut artists = split(artists_joined.as_str(), ", ");
    let last = artists.pop().unwrap();
    let ghost front = artists@;
    assert(texts(front) =~= split_spec(artists_joined@, ", "@).drop_last());
    assert(last@ == split_spec(artists_joined@, ", "@).last()) by {
        assert(texts(front.push(last)).last() == last@);
    }
    let mut last_ampersand = split(last.as_str(), " & ");
    let ghost tail = last_ampersand@;
    artists.append(&mut last_ampersand);
    assert(texts(artists@) =~= texts(front) + texts(tail));
    artists
}

/// A role of the server that can be mentioned.
#[derive(Debug, Clone, PartialEq, Eq)]
pub struct Role {
    pub name: String,
    pub id: u64,
}

/// The id of the role that answers to `name`: the last of the roles whose
/// name is `name` but for the case of its ASCII letters.
pub open spec fn role_named(roles: Seq<Role>, name: Seq<char>) -> Option<u64>
    decreases roles.len(),
{
    if roles.len() == 0 {
        None
    } else if eq_uncased(roles.last().name@, name) {
        Some(roles.last().id)
    } else {
        role_named(roles.drop_last(), name)
    }
}

/// The id of the role that answers to `name`, if there is one.
pub fn find_role(roles: &Vec<Role>, name: &str) -> (id: Option<u64>)
    ensures
        id == role_named(roles@, name@),
{
    let mut id: Option<u64> = None;
    let mut i: usize = 0;
    while i < roles.len()
        invariant
            i <= roles@.len(),
            id == role_named(roles@.take(i as int), name@),
        decreases roles@.len() - i,
    {
        assert(roles@.take(i + 1).drop_last() == roles@.take(i as int));
        if uncased_eq(roles[i].name.as_str(), name) {
            id = Some(roles[i].id);
        }
        i += 1;
    }
    assert(roles@.take(i as int) == roles@);
    id
}

/// How a name is written in an announcement: as a mention of the role that
/// answers to it, or else in bold.
pub open spec fn name_or_role(name: Seq<char>, roles: Seq<Role>) -> Seq<char> {
    match role_named(roles, name) {
        Some(id) => "<@&"@ + decimal_text(id as int) + ">"@,
        None => "**"@ + name + "**"@,
    }
}

/// Writes a name as a mention of the role that answers to it, or else in
/// bold.
pub fn format_or_role(name: &str, roles_map: &Vec<Role>) -> (written: String)
    ensures
        written@ == name_or_role(name@, roles_map@),
{
    match find_role(roles_map, name) {
        Some(id) => {
            let number = decimal(id as i128);
            String::from_str("<@&").concat(number.as_str()).concat(">")
        },
        None => String::from_str("**").concat(name).concat("**"),
    }
}

/// Whether a text is a selector of elements.
pub uninterp spec fn is_selector(selector: Seq<char>) -> bool;

/// The text within each element of a page that a selector selects, in the
/// order of the page.
pub uninterp spec fn selected_texts(page: Seq<char>, selector: Seq<char>) -> Seq<Seq<char>>;

/// `scraper::Selector::parse`: whether the text is read as a selector.
#[verifier::external_body]
fn selector_is_valid(selector: &str) -> (valid: bool)
    ensures
        valid == is_selector(selector@),
{
    scraper::Selector::parse(selector).is_ok()
}

/// `scraper::Html::select`, on a page read by `scraper::Html::parse_document`:
/// the text within each element that the selector selects.
#[verifier::external_body]
fn select_texts(page: &str, selector: &str) -> (found: Vec<String>)
    requires
        is_selector(selector@),
    ensures
        texts(found@) == selected_texts(page@, selector@),
{
    let selector = scraper::Selector::parse(selector).expect("a selector");
    scraper::Html::parse_document(page).select(&selector).map(
        |element| element.text().collect::<String>(),
    ).collect()
}

/// The selector of the elements that hold a page's semantic data.
pub const LD_JSON_SELECTOR: &'static str = "script[type='application/ld+json']";

/// The pieces of semantic data that a page holds, in the order of the page.
pub open spec fn ld_json_of(page: Seq<char>) -> Seq<Seq<char>> {
    if is_selector(LD_JSON_SELECTOR@) {
        selected_texts(page, LD_JSON_SELECTOR@)
    } else {
        Seq::<Seq<char>>::empty()
    }
}

/// Takes the pieces of semantic data out of a page.
pub fn ld_json_texts(page: &str) -> (found: Vec<String>)
    ensures
        texts(found@) == ld_json_of(page@),
{
    if selector_is_valid(LD_JSON_SELECTOR) {
        select_texts(page, LD_JSON_SELECTOR)
    } else {
        let found: Vec<String> = Vec::new();
        assert(texts(found@) =~= Seq::<Seq<char>>::empty());
        found
    }
}

/// Why a page's semantic data does not describe a release.
#[derive(Debug, Clone, PartialEq, Eq)]
pub enum GetReleaseFromLdJsonError {
    /// There is no semantic release data in the page.
    NoSemanticDataInPage,
    /// None of the semantic data in the page could be read; the reasons are
    /// kept in the order of the page.
    UnsupportedSemanticDataInPage { errors: Vec<String> },
    /// The semantic data does not include a link to the release.
    NoUrl,
    /// The semantic data does not include the kind of the release.
    NoReleaseType,
    /// The semantic data does not include the title of the release.
    NoTitle,
    /// The semantic data does not include the date of the release.
    NoDate,
    /// The date that the semantic data gives is no day of the calendar.
    DateOutOfRange,
    /// The semantic data does not include the artists of the release.
    NoArtists,
    /// The semantic data does not include the tracks of the release.
    NoTracks,
}

impl GetReleaseFromLdJsonError {
    /// The error in words.
    pub open spec fn report_spec(&self) -> Seq<char> {
        match self {
            GetReleaseFromLdJsonError::NoSemanticDataInPage => {
                "there is no semantic (JSON-LD) release data in the web page (this is likely to mean the service is unsupported)"@
            },
            GetReleaseFromLdJsonError::UnsupportedSemanticDataInPage { errors } => caused(
                "any semantic (JSON-LD) data in the page wasn't able to be parsed (this is likely to mean the service is unsupported)"@,
                joined(texts(errors@), "\n"@),
            ),
            GetReleaseFromLdJsonError::NoUrl => {
                "the semantic data doesn't include a canonical URL to the music release"@
            },
            GetReleaseFromLdJsonError::NoReleaseType => {
                "the semantic data doesn't include the type (e.g. EP or LP) of the music release"@
            },
            GetReleaseFromLdJsonError::NoTitle => {
                "the semantic data doesn't include the title of the music release"@
            },
            GetReleaseFromLdJsonError::NoDate => {
                "the semantic data doesn't include the date of the release"@
            },
            GetReleaseFromLdJsonError::DateOutOfRange => {
                "the date that the semantic data gives is no day of the calendar"@
            },
            GetReleaseFromLdJsonError::NoArtists => {
                "the semantic data doesn't include the artists of the release"@
            },
            GetReleaseFromLdJsonError::NoTracks => {
                "the semantic data doesn't include the tracks of the release"@
            },
        }
    }

    /// The error in words.
    pub fn report(&self) -> (text: String)
        ensures
            text@ == self.report_spec(),
    {
        match self {
            GetReleaseFromLdJsonError::NoSemanticDataInPage => String::from_str(
                "there is no semantic (JSON-LD) release data in the web page (this is likely to mean the service is unsupported)",
            ),
            GetReleaseFromLdJsonError::UnsupportedSemanticDataInPage { errors } => with_cause(
                "any semantic (JSON-LD) data in the page wasn't able to be parsed (this is likely to mean the service is unsupported)",
                join(errors, "\n"),
            ),
            GetReleaseFromLdJsonError::NoUrl => String::from_str(
                "the semantic data doesn't include a canonical URL to the music release",
            ),
            GetReleaseFromLdJsonError::NoReleaseType => String::from_str(
                "the semantic data doesn't include the type (e.g. EP or LP) of the music release",
            ),
            GetReleaseFromLdJsonError::NoTitle => String::from_str(
                "the semantic data doesn't include the title of the music release",
            ),
            GetReleaseFromLdJsonError::NoDate => String::from_str(
                "the semantic data doesn't include the date of the release",
            ),
            GetReleaseFromLdJsonError::DateOutOfRange => String::from_str(
                "the date that the semantic data gives is no day of the calendar",
            ),
            GetReleaseFromLdJsonError::NoArtists => String::from_str(
                "the semantic data doesn't include the artists of the release",
            ),
            GetReleaseFromLdJsonError::NoTracks => String::from_str(
                "the semantic data doesn't include the tracks of the release",
            ),
        }
    }
}

/// A `GetReleaseFromLdJsonError` with its texts as sequences of characters.
pub enum LdJsonFault {
    NoSemanticDataInPage,
    UnsupportedSemanticDataInPage(Seq<Seq<char>>),
    NoUrl,
    NoReleaseType,
    NoTitle,
    NoDate,
    DateOutOfRange,
    NoArtists,
    NoTracks,
}

impl View for GetReleaseFromLdJsonError {
    type V = LdJsonFault;

    open spec fn view(&self) -> LdJsonFault {
        match self {
            GetReleaseFromLdJsonError::NoSemanticDataInPage => LdJsonFault::NoSemanticDataInPage,
            GetReleaseFromLdJsonError::UnsupportedSemanticDataInPage {
                errors,
            } => LdJsonFault::UnsupportedSemanticDataInPage(texts(errors@)),
            GetReleaseFromLdJsonError::NoUrl => LdJsonFault::NoUrl,
            GetReleaseFromLdJsonError::NoReleaseType => LdJsonFault::NoReleaseType,
            GetReleaseFromLdJsonError::NoTitle => LdJsonFault::NoTitle,
            GetReleaseFromLdJsonError::NoDate => LdJsonFault::NoDate,
            GetReleaseFromLdJsonError::DateOutOfRange => LdJsonFault::DateOutOfRange,
            GetReleaseFromLdJsonError::NoArtists => LdJsonFault::NoArtists,
            GetReleaseFromLdJsonError::NoTracks => LdJsonFault::NoTracks,
        }
    }
}

/// The first album among what was read of a page's semantic data.
pub open spec fn first_album(parsed: Seq<Result<MusicAlbum, String>>) -> Option<MusicAlbum>
    decreases parsed.len(),
{
    if parsed.len() == 0 {
        None
    } else {
        match parsed.first() {
            Ok(album) => Some(album),
            Err(_) => first_album(parsed.drop_first()),
        }
    }
}

/// The reasons, in order, for which pieces of a page's semantic data could
/// not be read.
pub open spec fn page_errors(parsed: Seq<Result<MusicAlbum, String>>) -> Seq<Seq<char>>
    decreases parsed.len(),
{
    if parsed.len() == 0 {
        Seq::<Seq<char>>::empty()
    } else {
        match parsed.first() {
            Ok(_) => page_errors(parsed.drop_first()),
            Err(error) => seq![error@] + page_errors(parsed.drop_first()),
        }
    }
}

/// The artists that a joined list names, each known by its name.
pub open spec fn named_artists(artists_joined: Seq<char>) -> Seq<ArtistView> {
    listed_artists(artists_joined).map_values(
        |name: Seq<char>| ArtistView { id: Some(name), name },
    )
}

/// The name under which a music group goes.
pub open spec fn group_name(group: MusicGroup) -> Option<String> {
    group.performing_group.organization.thing.name
}

/// The artists of a track: those that the track names, or else the main
/// artists of the release.
pub open spec fn track_artists(recording: MusicRecording, main_artists: Seq<ArtistView>) -> Seq<
    ArtistView,
> {
    match recording.by_artist {
        Some(group) => match group_name(group) {
            Some(name) => named_artists(name@),
            None => main_artists,
        },
        None => main_artists,
    }
}

/// The tracks of a release as its list of recordings describes them.
pub open spec fn listed_tracks(
    items: Seq<ListItem<MusicRecording>>,
    main_artists: Seq<ArtistView>,
) -> Seq<Seq<ArtistView>> {
    items.map_values(|item: ListItem<MusicRecording>| track_artists(item.item, main_artists))
}

/// The kind of a release that a page describes. A page's "album" is told
/// apart by its number of tracks: fewer than three make a single, fewer than
/// seven an EP.
pub open spec fn album_kind(release_type: MusicAlbumReleaseType, n_tracks: int) -> ReleaseTypeView {
    match release_type {
        MusicAlbumReleaseType::AlbumRelease => if n_tracks < 3 {
            ReleaseTypeView::Single
        } else if n_tracks < 7 {
            ReleaseTypeView::EP
        } else {
            ReleaseTypeView::LP
        },
        MusicAlbumReleaseType::BroadcastRelease => ReleaseTypeView::Other(
            "Broadcast (I don't know what this means)"@,
        ),
        MusicAlbumReleaseType::EPRelease => ReleaseTypeView::EP,
        MusicAlbumReleaseType::SingleRelease => ReleaseTypeView::Single,
    }
}

/// The year, month and day that a date of a page gives.
pub open spec fn date_numbers(date: DateOrDateTime) -> (int, int, int) {
    match date {
        DateOrDateTime::Date(date) => (date.year as int, date.month as int, date.day as int),
        DateOrDateTime::DateTime(datetime) => (
            datetime.year as int,
            datetime.month as int,
            datetime.day as int,
        ),
    }
}

/// The name of whoever published a work.
pub open spec fn publisher_name(publisher: Option<PersonOrSubOrOrganizationOrSub>) -> Option<String> {
    match publisher {
        Some(publisher) => publisher_thing(publisher).name,
        None => None,
    }
}

/// The release that an album of a page describes, or what the description
/// lacks. The link, the kind, the title, the date, the artists and the tracks
/// are looked for in this order, and the first that is missing is reported.
pub open spec fn release_of_album(album: MusicAlbum) -> Result<ReleaseView, LdJsonFault> {
    let work = album.music_playlist.creative_work;
    if work.thing.id is None {
        Err(LdJsonFault::NoUrl)
    } else if album.album_release_type is None {
        Err(LdJsonFault::NoReleaseType)
    } else if work.thing.name is None {
        Err(LdJsonFault::NoTitle)
    } else if work.date_published is None && work.date_created is None {
        Err(LdJsonFault::NoDate)
    } else {
        let date = date_numbers(
            if work.date_published is Some {
                work.date_published->0
            } else {
                work.date_created->0
            },
        );
        if !is_calendar_date(date.0, date.1, date.2) {
            Err(LdJsonFault::DateOutOfRange)
        } else if album.by_artist is None || group_name(album.by_artist->0) is None {
            Err(LdJsonFault::NoArtists)
        } else if album.music_playlist.track is None {
            Err(LdJsonFault::NoTracks)
        } else {
            let main_artists = named_artists(group_name(album.by_artist->0)->0@);
            let tracks = listed_tracks(album.music_playlist.track->0.item_list_element@, main_artists);
            Ok(
                ReleaseView {
                    url: work.thing.id->0@,
                    kind: album_kind(album.album_release_type->0, tracks.len() as int),
                    title: work.thing.name->0@,
                    date,
                    main_artists,
                    tracks,
                    record_label: text_view(publisher_name(work.publisher)),
                },
            )
        }
    }
}

/// The release that a page's semantic data describes: that of the first
/// album that could be read. Where none could, the reasons are reported, if
/// there are any.
pub open spec fn release_of_page(parsed: Seq<Result<MusicAlbum, String>>) -> Result<
    ReleaseView,
    LdJsonFault,
> {
    match first_album(parsed) {
        Some(album) => release_of_album(album),
        None => if page_errors(parsed).len() > 0 {
            Err(LdJsonFault::UnsupportedSemanticDataInPage(page_errors(parsed)))
        } else {
            Err(LdJsonFault::NoSemanticDataInPage)
        },
    }
}

/// The artists that a joined list names, each known by its name.
fn artists_named(artists_joined: String) -> (artists: Vec<Artist>)
    ensures
        artists_view(artists@) == named_artists(artists_joined@),
{
    let names = parse_list_of_artists(artists_joined);
    let mut artists: Vec<Artist> = Vec::new();
    let mut i: usize = 0;
    while i < names.len()
        invariant
            i <= names@.len(),
            artists@.len() == i,
            forall|j: int|
                0 <= j < i ==> (#[trigger] artists@[j])@ == (ArtistView {
                    id: Some(names@[j]@),
                    name: names@[j]@,
                }),
        decreases names@.len() - i,
    {
        artists.push(Artist { id: Some(names[i].clone()), name: names[i].clone() });
        i += 1;
    }
    assert(artists_view(artists@) =~= texts(names@).map_values(
        |name: Seq<char>| ArtistView { id: Some(name), name },
    ));
    artists
}

/// A copy of the artists.
fn clone_artists(artists: &Vec<Artist>) -> (copy: Vec<Artist>)
    ensures
        artists_view(copy@) == artists_view(artists@),
{
    let mut copy: Vec<Artist> = Vec::new();
    let mut i: usize = 0;
    while i < artists.len()
        invariant
            i <= artists@.len(),
            copy@.len() == i,
            forall|j: int| 0 <= j < i ==> (#[trigger] copy@[j])@ == artists@[j]@,
        decreases artists@.len() - i,
    {
        let id = match &artists[i].id {
            Some(id) => Some(id.clone()),
            None => None,
        };
        copy.push(Artist { id, name: artists[i].name.clone() });
        i += 1;
    }
    assert(artists_view(copy@) =~= artists_view(artists@));
    copy
}

/// The tracks of a release as its list of recordings describes them.
fn tracks_listed(items: &Vec<ListItem<MusicRecording>>, main_artists: &Vec<Artist>) -> (tracks: Vec<
    Track,
>)
    ensures
        tracks_view(tracks@) == listed_tracks(items@, artists_view(main_artists@)),
{
    let mut tracks: Vec<Track> = Vec::new();
    let mut i: usize = 0;
    while i < items.len()
        invariant
            i <= items@.len(),
            tracks@.len() == i,
            forall|j: int|
                0 <= j < i ==> (#[trigger] tracks@[j])@ == track_artists(
                    items@[j].item,
                    artists_view(main_artists@),
                ),
        decreases items@.len() - i,
    {
        let named = match &items[i].item.by_artist {
            Some(group) => match &group.performing_group.organization.thing.name {
                Some(name) => Some(artists_named(name.clone())),
                None => None,
            },
            None => None,
        };
        let artists = match named {
            Some(artists) => artists,
            None => clone_artists(main_artists),
        };
        tracks.push(Track { artists });
        i += 1;
    }
    assert(tracks_view(tracks@) =~= listed_tracks(items@, artists_view(main_artists@)));
    tracks
}

/// The release that an album of a page describes, or what the description
/// lacks.
fn release_from_album(album: MusicAlbum) -> (outcome: Result<Release, GetReleaseFromLdJsonError>)
    ensures
        match release_of_album(album) {
            Ok(release) => outcome matches Ok(made) && made@ == release,
            Err(fault) => outcome matches Err(error) && error@ == fault,
        },
{
    let MusicAlbum { album_release_type, by_artist, music_playlist, .. } = album;
    let MusicPlaylist { track, creative_work, .. } = music_playlist;
    let CreativeWork { date_created, date_published, publisher, thing, .. } =
        creative_work;
    let Thing { id, name } = thing;

    let url = match id {
        Some(url) => url,
        None => {
            return Err(GetReleaseFromLdJsonError::NoUrl);
        },
    };
    let release_type = match album_release_type {
        Some(release_type) => release_type,
        None => {
            return Err(GetReleaseFromLdJsonError::NoReleaseType);
        },
    };
    let title = match name {
        Some(title) => title,
        None => {
            return Err(GetReleaseFromLdJsonError::NoTitle);
        },
    };
    let date = match date_published {
        Some(date) => date,
        None => match date_created {
            Some(date) => date,
            None => {
                return Err(GetReleaseFromLdJsonError::NoDate);
            },
        },
    };
    let date = match calendar_date_of(date) {
        Some(date) => date,
        None => {
            return Err(GetReleaseFromLdJsonError::DateOutOfRange);
        },
    };
    let main_artists_joined = match by_artist {
        Some(group) => match group.performing_group.organization.thing.name {
            Some(name) => name,
            None => {
                return Err(GetReleaseFromLdJsonError::NoArtists);
            },
        },
        None => {
            return Err(GetReleaseFromLdJsonError::NoArtists);
        },
    };
    let main_artists = artists_named(main_artists_joined);
    let tracks = match track {
        Some(list) => tracks_listed(&list.item_list_element, &main_artists),
        None => {
            return Err(GetReleaseFromLdJsonError::NoTracks);
        },
    };
    let kind = match release_type {
        MusicAlbumReleaseType::AlbumRelease => if tracks.len() < 3 {
            ReleaseType::Single
        } else if tracks.len() < 7 {
            ReleaseType::EP
        } else {
            ReleaseType::LP
        },
        MusicAlbumReleaseType::BroadcastRelease => ReleaseType::Other(
            String::from_str("Broadcast (I don't know what this means)"),
        ),
        MusicAlbumReleaseType::EPRelease => ReleaseType::EP,
        MusicAlbumReleaseType::SingleRelease => ReleaseType::Single,
    };
    let record_label = match publisher {
        Some(publisher) => thing_of_publisher(publisher).name,
        None => None,
    };
    Ok(Release { url, kind, title, date, main_artists, tracks, record_label })
}

/// The day of the calendar that a date of a page gives, if it gives one.
fn calendar_date_of(date: DateOrDateTime) -> (outcome: Option<CalendarDate>)
    ensures
        match outcome {
            Some(made) => {
                &&& is_calendar_date(date_numbers(date).0, date_numbers(date).1, date_numbers(date).2)
                &&& made.year_spec() == date_numbers(date).0
                &&& made.month_spec() == date_numbers(date).1
                &&& made.day_spec() == date_numbers(date).2
            },
            None => !is_calendar_date(date_numbers(date).0, date_numbers(date).1, date_numbers(date).2),
        },
{
    let (year, month, day): (i32, i64, i64) = match date {
        DateOrDateTime::Date(date) => (date.year as i32, date.month as i64, date.day as i64),
        DateOrDateTime::DateTime(datetime) => (
            datetime.year,
            datetime.month as i64,
            datetime.day as i64,
        ),
    };
    if month < 0 || month > 255 || day < 0 || day > 255 {
        return None;
    }
    match CalendarDate::from_calendar_date(year, month as u8, day as u8) {
        Ok(date) => Some(date),
        Err(_) => None,
    }
}

/// The release that a page's semantic data describes.
///
/// `parsed` holds, in the order of the page, what each piece of semantic data
/// in it read as: an album, or the reason why it could not be read as one.
pub fn get_release_from_ld_json(parsed: Vec<Result<MusicAlbum, String>>) -> (outcome: Result<
    Release,
    GetReleaseFromLdJsonError,
>)
    ensures
        match release_of_page(parsed@) {
            Ok(release) => outcome matches Ok(made) && made@ == release,
            Err(fault) => outcome matches Err(error) && error@ == fault,
        },
{
    let ghost all = parsed@;
    let mut parsed = parsed;
    let mut first: Option<MusicAlbum> = None;
    let mut errors: Vec<String> = Vec::new();
    while parsed.len() > 0
        invariant
            parsed@ == all.take(parsed@.len() as int),
            parsed@.len() <= all.len(),
            first == first_album(all.skip(parsed@.len() as int)),
            texts(errors@) == page_errors(all.skip(parsed@.len() as int)),
        decreases parsed@.len(),
    {
        let ghost n = parsed@.len() as int;
        let item = parsed.pop().unwrap();
        proof {
            assert(item == all[n - 1]);
            assert(all.skip(n - 1).drop_first() == all.skip(n));
            assert(all.skip(n - 1).first() == all[n - 1]);
            assert(parsed@ == all.take(n - 1));
        }
        match item {
            Ok(album) => {
                first = Some(album);
            },
            Err(error) => {
                let ghost errors_then = errors@;
                errors.insert(0, error);
                assert(texts(errors@) =~= seq![error@] + texts(errors_then));
            },
        }
    }
    assert(all.skip(0) == all);
    match first {
        Some(album) => release_from_album(album),
        None => if errors.len() > 0 {
            Err(GetReleaseFromLdJsonError::UnsupportedSemanticDataInPage { errors })
        } else {
            Err(GetReleaseFromLdJsonError::NoSemanticDataInPage)
        },
    }
}

/// Why the roles of a server are not known.
#[derive(Debug, Clone, PartialEq, Eq)]
pub enum GetRolesMapError {
    /// The roles could not be fetched.
    FetchRolesError { source: String },
    /// The roles were fetched but could not be read.
    DeserializeRolesError { source: String },
}

impl GetRolesMapError {
    /// The error and what caused it, in words.
    pub open spec fn report_spec(&self) -> Seq<char> {
        match self {
            GetRolesMapError::FetchRolesError { source } => caused(
                "could not fetch the roles in this Discord server"@,
                source@,
            ),
            GetRolesMapError::DeserializeRolesError { source } => caused(
                "could not deserialize roles in this Discord server after fetching them"@,
                source@,
            ),
        }
    }

    /// The error and what caused it, in words.
    pub fn report(&self) -> (text: String)
        ensures
            text@ == self.report_spec(),
    {
        match self {
            GetRolesMapError::FetchRolesError { source } => with_cause(
                "could not fetch the roles in this Discord server",
                source.clone(),
            ),
            GetRolesMapError::DeserializeRolesError { source } => with_cause(
                "could not deserialize roles in this Discord server after fetching them",
                source.clone(),
            ),
        }
    }
}

/// Why the page under a link gave no release.
#[derive(Debug, Clone, PartialEq, Eq)]
pub enum GetSemanticDataError {
    /// The page could not be fetched.
    FetchError { source: String, url: String },
    /// The content of the page could not be had.
    ResponseTextError { source: String },
    /// The semantic data of the page describes no release.
    ReleaseFromLdJsonError { source: GetReleaseFromLdJsonError },
}

impl GetSemanticDataError {
    /// The error and what caused it, in words.
    pub open spec fn report_spec(&self) -> Seq<char> {
        match self {
            GetSemanticDataError::FetchError { source, url } => caused(
                "couldn't fetch "@ + url@,
                source@,
            ),
            GetSemanticDataError::ResponseTextError { source } => caused(
                "couldn't get the content of the webpage"@,
                source@,
            ),
            GetSemanticDataError::ReleaseFromLdJsonError { source } => caused(
                "could not surface a release from JSON-LD in the page (this is likely to mean the service is unsupported)"@,
                source.report_spec(),
            ),
        }
    }

    /// The error and what caused it, in words.
    pub fn report(&self) -> (text: String)
        ensures
            text@ == self.report_spec(),
    {
        match self {
            GetSemanticDataError::FetchError { source, url } => {
                let message = String::from_str("couldn't fetch ").concat(url.as_str());
                with_cause(message.as_str(), source.clone())
            },
            GetSemanticDataError::ResponseTextError { source } => with_cause(
                "couldn't get the content of the webpage",
                source.clone(),
            ),
            GetSemanticDataError::ReleaseFromLdJsonError { source } => with_cause(
                "could not surface a release from JSON-LD in the page (this is likely to mean the service is unsupported)",
                source.report(),
            ),
        }
    }
}

/// Why no release is known for a link.
#[derive(Debug, Clone, PartialEq, Eq)]
pub enum GetReleaseError {
    /// The Spotify catalogue gave none.
    SpotifyError { source: GetSpotifyReleaseError },
    /// The page under the link gave none.
    SemanticDataError { source: GetSemanticDataError },
}

impl GetReleaseError {
    /// The error and what caused it, in words.
    pub open spec fn report_spec(&self) -> Seq<char> {
        match self {
            GetReleaseError::SpotifyError { source } => caused(
                "could not get release data from Spotify"@,
                source.report_spec(),
            ),
            GetReleaseError::SemanticDataError { source } => caused(
                "could not get release data from the web page"@,
                source.report_spec(),
            ),
        }
    }

    /// The error and what caused it, in words.
    pub fn report(&self) -> (text: String)
        ensures
            text@ == self.report_spec(),
    {
        match self {
            GetReleaseError::SpotifyError { source } => with_cause(
                "could not get release data from Spotify",
                source.report(),
            ),
            GetReleaseError::SemanticDataError { source } => with_cause(
                "could not get release data from the web page",
                source.report(),
            ),
        }
    }
}

/// Why the command gave no announcement.
#[derive(Debug, Clone, PartialEq, Eq)]
pub enum HandleError {
    /// The command was run outside of a server.
    NotUsedInGuild,
    /// The `url` argument was not given.
    UrlMissing,
    /// The `url` argument is no string.
    UrlNotString { actual: CommandOptionValue },
    /// The `url` argument is no link.
    UrlParseError { source: InvalidIriRef },
    /// The roles of the server are not known.
    RolesMapError { source: GetRolesMapError },
    /// The release is not known.
    ReleaseError { source: GetReleaseError },
}

impl HandleError {
    /// The error and what caused it, in words.
    pub open spec fn report_spec(&self) -> Seq<char> {
        match self {
            HandleError::NotUsedInGuild => "the command was run outside of a Discord server"@,
            HandleError::UrlMissing => "the `url` argument wasn't provided"@,
            HandleError::UrlNotString { actual } => {
                "the `url` argument wasn't a string like it's supposed to be, it was actually "@
                    + actual.described()
            },
            HandleError::UrlParseError { source } => caused(
                "the `url` argument couldn't be parsed as a URL"@,
                source.message_spec(),
            ),
            HandleError::RolesMapError { source } => caused(
                "couldn't get the roles in this server from Discord for pinging purposes"@,
                source.report_spec(),
            ),
            HandleError::ReleaseError { source } => caused(
                "couldn't get the release data"@,
                source.report_spec(),
            ),
        }
    }

    /// The error and what caused it, in words.
    pub fn report(&self) -> (text: String)
        ensures
            text@ == self.report_spec(),
    {
        match self {
            HandleError::NotUsedInGuild => String::from_str(
                "the command was run outside of a Discord server",
            ),
            HandleError::UrlMissing => String::from_str("the `url` argument wasn't provided"),
            HandleError::UrlNotString { actual } => {
                let described = actual.describe();
                String::from_str(
                    "the `url` argument wasn't a string like it's supposed to be, it was actually ",
                ).concat(described.as_str())
            },
            HandleError::UrlParseError { source } => with_cause(
                "the `url` argument couldn't be parsed as a URL",
                source.message(),
            ),
            HandleError::RolesMapError { source } => with_cause(
                "couldn't get the roles in this server from Discord for pinging purposes",
                source.report(),
            ),
            HandleError::ReleaseError { source } => with_cause(
                "couldn't get the release data",
                source.report(),
            ),
        }
    }
}

/// The name under which the command is registered.
pub const NAME: &'static str = "new-release";

/// What the command does, as the platform shows it.
pub const DESCRIPTION: &'static str = "Post a new music release in this channel";

/// The name of the command's one argument.
pub const URL_NAME: &'static str = "url";

/// What the command's argument is, as the platform shows it.
pub const URL_DESCRIPTION: &'static str =
    "The URL to the release on Spotify or Bandcamp (only (known) services supported so far)";

/// The arguments that an interaction carries: those of its command, none
/// where it carries no command.
pub open spec fn options_of(interaction: Interaction) -> Seq<CommandDataOption> {
    match interaction.data {
        Some(InteractionData::ApplicationCommand(command_data)) => command_data.options@,
        _ => Seq::<CommandDataOption>::empty(),
    }
}

/// The value given for the `url` argument: that of the last argument of this
/// name.
pub open spec fn url_option(options: Seq<CommandDataOption>) -> Option<CommandOptionValue>
    decreases options.len(),
{
    if options.len() == 0 {
        None
    } else if options.last().name@ == "url"@ {
        Some(options.last().value)
    } else {
        url_option(options.drop_last())
    }
}

/// The value given for the `url` argument, if one was given.
fn find_url_option(options: &Vec<CommandDataOption>) -> (value: Option<&CommandOptionValue>)
    ensures
        match value {
            Some(value) => url_option(options@) == Some(*value),
            None => url_option(options@) is None,
        },
{
    let url_name = String::from_str("url");
    let mut found: Option<&CommandOptionValue> = None;
    let mut i: usize = 0;
    while i < options.len()
        invariant
            i <= options@.len(),
            url_name@ == "url"@,
            match found {
                Some(value) => url_option(options@.take(i as int)) == Some(*value),
                None => url_option(options@.take(i as int)) is None,
            },
        decreases options@.len() - i,
    {
        assert(options@.take(i + 1).drop_last() == options@.take(i as int));
        if options[i].name == url_name {
            found = Some(&options[i].value);
        }
        i += 1;
    }
    assert(options@.take(i as int) == options@);
    found
}

/// What the command was asked for: the server it was run in, and the link to
/// the release.
#[derive(Debug, Clone, PartialEq, Eq)]
pub struct NewReleaseRequest {
    pub guild_id: u64,
    pub url: IriRefBuf,
}

/// Reads what the command was asked for off the interaction. The interaction
/// must come from a server, and its `url` argument must be a string that is
/// a link.
pub fn requested(interaction: &Interaction) -> (outcome: Result<NewReleaseRequest, HandleError>)
    ensures
        match interaction.guild_id {
            None => outcome == Err::<NewReleaseRequest, HandleError>(HandleError::NotUsedInGuild),
            Some(guild_id) => match url_option(options_of(*interaction)) {
                None => outcome == Err::<NewReleaseRequest, HandleError>(HandleError::UrlMissing),
                Some(CommandOptionValue::String(text)) => if is_iri_reference(text@) {
                    outcome matches Ok(request) && request.guild_id == guild_id && request.url@
                        == text@
                } else {
                    outcome == Err::<NewReleaseRequest, HandleError>(
                        HandleError::UrlParseError { source: InvalidIriRef(text) },
                    )
                },
                Some(other) => outcome == Err::<NewReleaseRequest, HandleError>(
                    HandleError::UrlNotString { actual: other },
                ),
            },
        },
{
    let guild_id = match interaction.guild_id {
        Some(guild_id) => guild_id,
        None => {
            return Err(HandleError::NotUsedInGuild);
        },
    };
    let value = match &interaction.data {
        Some(InteractionData::ApplicationCommand(command_data)) => find_url_option(
            &command_data.options,
        ),
        _ => None,
    };
    let value = match value {
        Some(value) => value,
        None => {
            return Err(HandleError::UrlMissing);
        },
    };
    let url = match value {
        CommandOptionValue::String(url) => url.clone(),
        CommandOptionValue::Integer(number) => {
            return Err(HandleError::UrlNotString { actual: CommandOptionValue::Integer(*number) });
        },
        CommandOptionValue::Boolean(truth) => {
            return Err(HandleError::UrlNotString { actual: CommandOptionValue::Boolean(*truth) });
        },
        CommandOptionValue::Other(printed) => {
            return Err(
                HandleError::UrlNotString { actual: CommandOptionValue::Other(printed.clone()) },
            );
        },
    };
    match IriRefBuf::new(url) {
        Ok(url) => Ok(NewReleaseRequest { guild_id, url }),
        Err(source) => Err(HandleError::UrlParseError { source }),
    }
}

/// The response that shows an announcement to whoever asked for it: once to
/// copy, once as it will look.
pub open spec fn answer_spec(message: Seq<char>) -> InteractionResponseView {
    InteractionResponseView {
        kind: InteractionResponseType::ChannelMessageWithSource,
        data: Some(
            InteractionResponseDataView {
                content: Some("Copy the `Content`, edit it to fix any mistakes, then post it."@),
                embeds: Some(
                    seq![
                        EmbedView {
                            title: Some("Content"@),
                            description: Some("```\n"@ + message + "\n```"@),
                            color: Some(COLOR_SUCCESS),
                            footer: None,
                        },
                        EmbedView {
                            title: Some("Preview"@),
                            description: Some(message),
                            color: None,
                            footer: None,
                        },
                    ],
                ),
                flags: Some(EPHEMERAL),
            },
        ),
    }
}

/// Makes the response that shows an announcement to whoever asked for it.
pub fn answer(message: String) -> (response: InteractionResponse)
    ensures
        response@ == answer_spec(message@),
{
    let copyable = String::from_str("```\n").concat(message.as_str()).concat("\n```");
    let content = Embed {
        title: Some(String::from_str("Content")),
        description: Some(copyable),
        color: Some(COLOR_SUCCESS),
        footer: None,
    };
    let preview = Embed {
        title: Some(String::from_str("Preview")),
        description: Some(message),
        color: None,
        footer: None,
    };
    let mut embeds: Vec<Embed> = Vec::new();
    embeds.push(content);
    embeds.push(preview);
    assert(embeds@.map_values(|embed: Embed| embed@) =~= seq![content@, preview@]);
    InteractionResponse {
        kind: InteractionResponseType::ChannelMessageWithSource,
        data: Some(
            InteractionResponseData {
                content: Some(
                    String::from_str("Copy the `Content`, edit it to fix any mistakes, then post it."),
                ),
                embeds: Some(embeds),
                flags: Some(EPHEMERAL),
            },
        ),
    }
}

/// The response that the command ends in: the answer it came to, or the
/// report of what went wrong as an error message.
pub open spec fn handled(outcome: Result<InteractionResponse, HandleError>) -> InteractionResponseView {
    match outcome {
        Ok(response) => response@,
        Err(error) => InteractionResponse::error_spec(error.report_spec()),
    }
}

/// Turns what the command came to into the response for its user. The
/// command never fails towards the dispatcher: an error becomes an error
/// message.
pub fn handle(outcome: Result<InteractionResponse, HandleError>) -> (response: InteractionResponse)
    ensures
        response@ == handled(outcome),
{
    match outcome {
        Ok(response) => response,
        Err(error) => InteractionResponse::error(error.report()),
    }
}

/// The response that announces a release as it reads on the day `today`.
pub fn handle_impl(release: Release, roles_map: &Vec<Role>, today: &CalendarDate) -> (response:
    InteractionResponse)
    ensures
        response@ == answer_spec(
            announcement(
                release@,
                roles_map@,
                released_recently(
                    julian_day(release@.date.0, release@.date.1, release@.date.2),
                    julian_day(
                        today.year_spec() as int,
                        today.month_spec() as int,
                        today.day_spec() as int,
                    ),
                ),
            ),
        ),
{
    answer(format_release(release, roles_map, today))
}

} // verus!
