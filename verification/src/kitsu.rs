//! Wire-level data of the content API, the query parameters of its calls,
//! and the mapping of its tagged response document into typed results.
//!
//! Identifiers travel on this API as decimal text; this model holds them as
//! integers, and the transport layer renders them when it builds a request.

use vstd::prelude::*;

use crate::decimal::dec_str;
use crate::decimal::i64_to_string;
use crate::error::{Error, KitsuError};

verus! {

/// A tagged response document: a page of entries with included animes, a
/// single entry, or a list of reported errors.
#[derive(Clone, Debug, PartialEq)]
pub enum Json {
    AnimeEntry { data: Vec<Entry>, links: Links, included: Vec<Anime> },
    Entry { data: Entry },
    Error { errors: Vec<ApiError> },
}

/// One error reported by the content API.
#[derive(Clone, Debug, PartialEq)]
pub struct ApiError {
    pub title: String,
    pub detail: String,
}

/// Resource kind tag.
#[derive(Clone, Copy, Debug, PartialEq, Eq)]
pub enum Type {
    Anime,
    Users,
    Manga,
    LibraryEntries,
}

/// An anime resource.
#[derive(Clone, Debug, PartialEq)]
pub struct Anime {
    pub id: i64,
    pub attributes: Option<AnimeAttributes>,
}

/// Displayed attributes of an anime.
#[derive(Clone, Debug, PartialEq)]
pub struct AnimeAttributes {
    pub canonical_title: String,
    pub episode_count: Option<u32>,
    pub status: Option<AnimeStatus>,
    pub subtype: Option<AnimeSubtype>,
    pub titles: AnimeTitles,
}

/// Format of an anime.
#[derive(Clone, Copy, Debug, PartialEq, Eq)]
pub enum AnimeSubtype {
    ONA,
    OVA,
    TV,
    Unknown,
    Movie,
    Music,
    Special,
}

impl AnimeSubtype {
    /// Display name of the variant.
    pub open spec fn spec_name(&self) -> Seq<char> {
        match self {
            AnimeSubtype::ONA => "ONA"@,
            AnimeSubtype::OVA => "OVA"@,
            AnimeSubtype::TV => "TV"@,
            AnimeSubtype::Unknown => "Unknown"@,
            AnimeSubtype::Movie => "Movie"@,
            AnimeSubtype::Music => "Music"@,
            AnimeSubtype::Special => "Special"@,
        }
    }

    /// Display name of the variant.
    pub fn name(&self) -> (r: &'static str)
        ensures
            r@ == self.spec_name(),
    {
        match self {
            AnimeSubtype::ONA => "ONA",
            AnimeSubtype::OVA => "OVA",
            AnimeSubtype::TV => "TV",
            AnimeSubtype::Unknown => "Unknown",
            AnimeSubtype::Movie => "Movie",
            AnimeSubtype::Music => "Music",
            AnimeSubtype::Special => "Special",
        }
    }
}

/// Airing status of an anime.
#[derive(Clone, Copy, Debug, PartialEq, Eq)]
pub enum AnimeStatus {
    Current,
    Finished,
    Tba,
    Unreleased,
    Upcoming,
    Unknown,
}

impl AnimeStatus {
    /// Display name of the variant.
    pub open spec fn spec_name(&self) -> Seq<char> {
        match self {
            AnimeStatus::Current => "Current"@,
            AnimeStatus::Finished => "Finished"@,
            AnimeStatus::Tba => "Tba"@,
            AnimeStatus::Unreleased => "Unreleased"@,
            AnimeStatus::Upcoming => "Upcoming"@,
            AnimeStatus::Unknown => "Unknown"@,
        }
    }

    /// Display name of the variant.
    pub fn name(&self) -> (r: &'static str)
        ensures
            r@ == self.spec_name(),
    {
        match self {
            AnimeStatus::Current => "Current",
            AnimeStatus::Finished => "Finished",
            AnimeStatus::Tba => "Tba",
            AnimeStatus::Unreleased => "Unreleased",
            AnimeStatus::Upcoming => "Upcoming",
            AnimeStatus::Unknown => "Unknown",
        }
    }
}

/// Alternative titles of an anime.
#[derive(Clone, Debug, PartialEq)]
pub struct AnimeTitles {
    pub ja_jp: Option<String>,
}

/// A user resource of the content API.
#[derive(Clone, Debug, PartialEq)]
pub struct User {
    pub id: i64,
    pub attributes: UserAttributes,
}

/// Displayed attributes of a content-API user.
#[derive(Clone, Debug, PartialEq)]
pub struct UserAttributes {
    pub name: String,
    pub life_spent_on_anime: i32,
    pub title_language_preference: String,
}

/// A library entry: one user's progress through one anime.
#[derive(Clone, Debug, PartialEq)]
pub struct Entry {
    pub id: i64,
    pub kind: Type,
    pub attributes: Option<EntryAttributes>,
    pub relationships: Option<Relationships>,
}

/// Mutable attributes of a library entry.
#[derive(Clone, Copy, Debug, PartialEq)]
pub struct EntryAttributes {
    pub progress: Option<i64>,
    pub status: Option<EntryStatus>,
}

/// Watch status of a library entry.
#[derive(Clone, Copy, Debug, PartialEq, Eq)]
pub enum EntryStatus {
    OnHold,
    Current,
    Dropped,
    Planned,
    Completed,
    Unknown,
}

impl EntryStatus {
    /// Display name of the variant.
    pub open spec fn spec_name(&self) -> Seq<char> {
        match self {
            EntryStatus::OnHold => "OnHold"@,
            EntryStatus::Current => "Current"@,
            EntryStatus::Dropped => "Dropped"@,
            EntryStatus::Planned => "Planned"@,
            EntryStatus::Completed => "Completed"@,
            EntryStatus::Unknown => "Unknown"@,
        }
    }

    /// Display name of the variant.
    pub fn name(&self) -> (r: &'static str)
        ensures
            r@ == self.spec_name(),
    {
        match self {
            EntryStatus::OnHold => "OnHold",
            EntryStatus::Current => "Current",
            EntryStatus::Dropped => "Dropped",
            EntryStatus::Planned => "Planned",
            EntryStatus::Completed => "Completed",
            EntryStatus::Unknown => "Unknown",
        }
    }
}

/// Aggregate counters of a page of entries.
#[derive(Clone, Copy, Debug, PartialEq)]
pub struct Meta {
    pub count: i32,
    pub status_counts: MetaStatusCounts,
}

/// Per-status counters of a page of entries.
#[derive(Clone, Copy, Debug, PartialEq)]
pub struct MetaStatusCounts {
    pub current: Option<i32>,
    pub dropped: Option<i32>,
    pub on_hold: Option<i32>,
    pub planned: Option<i32>,
    pub completed: Option<i32>,
}

/// Continuation links of a page: absent on an edge of the list.
#[derive(Clone, Debug, PartialEq)]
pub struct Links {
    pub prev: Option<String>,
    pub next: Option<String>,
}

/// Related resources of a library entry.
#[derive(Clone, Debug, PartialEq)]
pub struct Relationships {
    pub anime: Option<Anime>,
}

/// Query parameters of a fetch of one page of a user's entries, paired with
/// the animes they point to, five to a page, starting at `offset`.
pub fn fetch_anime_params(user_id: i64, offset: i64) -> (r: Vec<(String, String)>)
    ensures
        r@.len() == 7,
        r@[0].0@ == "include"@ && r@[0].1@ == "anime"@,
        r@[1].0@ == "page[limit]"@ && r@[1].1@ == "5"@,
        r@[2].0@ == "page[offset]"@ && r@[2].1@ == dec_str(offset as int),
        r@[3].0@ == "filter[user_id]"@ && r@[3].1@ == dec_str(user_id as int),
        r@[4].0@ == "filter[status]"@ && r@[4].1@ == "current,planned"@,
        r@[5].0@ == "fields[libraryEntries]"@ && r@[5].1@
            == "progress,status,updatedAt,anime"@,
        r@[6].0@ == "fields[anime]"@ && r@[6].1@
            == "canonicalTitle,titles,episodeCount,slug,subtype"@,
{
    let mut r: Vec<(String, String)> = Vec::new();
    r.push((String::from_str("include"), String::from_str("anime")));
    r.push((String::from_str("page[limit]"), String::from_str("5")));
    r.push((String::from_str("page[offset]"), i64_to_string(offset)));
    r.push((String::from_str("filter[user_id]"), i64_to_string(user_id)));
    r.push((String::from_str("filter[status]"), String::from_str("current,planned")));
    r.push((
        String::from_str("fields[libraryEntries]"),
        String::from_str("progress,status,updatedAt,anime"),
    ));
    r.push((
        String::from_str("fields[anime]"),
        String::from_str("canonicalTitle,titles,episodeCount,slug,subtype"),
    ));
    r
}

/// Query parameters of a fetch of the single entry pairing one user with
/// one anime.
pub fn get_anime_params(user_id: i64, anime_id: i64) -> (r: Vec<(String, String)>)
    ensures
        r@.len() == 3,
        r@[0].0@ == "include"@ && r@[0].1@ == "anime"@,
        r@[1].0@ == "filter[user_id]"@ && r@[1].1@ == dec_str(user_id as int),
        r@[2].0@ == "filter[anime_id]"@ && r@[2].1@ == dec_str(anime_id as int),
{
    let mut r: Vec<(String, String)> = Vec::new();
    r.push((String::from_str("include"), String::from_str("anime")));
    r.push((String::from_str("filter[user_id]"), i64_to_string(user_id)));
    r.push((String::from_str("filter[anime_id]"), i64_to_string(anime_id)));
    r
}

/// Document sent to set an entry's progress: idempotent, as it names the
/// entry and the target value rather than an increment.
pub fn update_entry_payload(entry_id: i64, progress: i64, anime_id: i64) -> (r: Json)
    ensures
        r matches Json::Entry { data } && data == (Entry {
            id: entry_id,
            kind: Type::LibraryEntries,
            attributes: Some(EntryAttributes { status: None, progress: Some(progress) }),
            relationships: Some(
                Relationships { anime: Some(Anime { id: anime_id, attributes: None }) },
            ),
        }),
{
    Json::Entry {
        data: Entry {
            id: entry_id,
            kind: Type::LibraryEntries,
            attributes: Some(EntryAttributes { status: None, progress: Some(progress) }),
            relationships: Some(
                Relationships { anime: Some(Anime { id: anime_id, attributes: None }) },
            ),
        },
    }
}

/// Concatenation of reported errors, each as `title: detail`.
pub open spec fn spec_errors_text(errors: Seq<ApiError>) -> Seq<char>
    decreases errors.len(),
{
    if errors.len() == 0 {
        Seq::<char>::empty()
    } else {
        spec_errors_text(errors.drop_last()) + errors.last().title@ + ": "@
            + errors.last().detail@
    }
}

/// Maps a reported-error document into a typed error carrying all reported
/// messages; any other document passes through.
pub fn check_kitsu_json(json: Json) -> (r: Result<Json, Error>)
    ensures
        match json {
            Json::Error { errors } => r matches Err(Error::Kitsu(k)) && k.description@
                == spec_errors_text(errors@),
            _ => r == Ok::<Json, Error>(json),
        },
{
    match json {
        Json::Error { errors } => {
            let mut description = String::new();
            let mut i: usize = 0;
            while i < errors.len()
                invariant
                    i <= errors.len(),
                    description@ == spec_errors_text(errors@.subrange(0, i as int)),
                decreases errors.len() - i,
            {
                description.append(errors[i].title.as_str());
                description.append(": ");
                description.append(errors[i].detail.as_str());
                i = i + 1;
                proof {
                    let pre = errors@.subrange(0, i as int);
                    assert(pre.drop_last() =~= errors@.subrange(0, i - 1));
                    assert(pre.last() == errors@[i - 1]);
                }
            }
            proof {
                assert(errors@.subrange(0, errors@.len() as int) =~= errors@);
            }
            Err(Error::Kitsu(KitsuError { description }))
        },
        other => Ok(other),
    }
}

/// Splits a checked page document into its continuation cursors, entries and
/// included animes; any other shape is a protocol mismatch.
pub fn anime_list_from_json(json: Json) -> (r: Result<
    (Option<String>, Option<String>, Vec<Entry>, Vec<Anime>),
    Error,
>)
    ensures
        match json {
            Json::AnimeEntry { data, links, included } => r == Ok::<
                (Option<String>, Option<String>, Vec<Entry>, Vec<Anime>),
                Error,
            >((links.prev, links.next, data, included)),
            _ => r matches Err(Error::Kitsu(k)) && k.description@ == "Invalid JSON"@,
        },
{
    match json {
        Json::AnimeEntry { data, links, included } => Ok((links.prev, links.next, data, included)),
        _ => Err(Error::Kitsu(KitsuError { description: String::from_str("Invalid JSON") })),
    }
}

/// Extracts the last (entry, anime) pair of a checked single-match document;
/// an empty match on either side is `None`.
pub fn anime_pair_from_json(json: Json) -> (r: Result<Option<(Entry, Anime)>, Error>)
    ensures
        match json {
            Json::AnimeEntry { data, included, .. } => r matches Ok(p) && (
            if data@.len() > 0 && included@.len() > 0 {
                p matches Some(pair) && pair.0 == data@.last() && pair.1 == included@.last()
            } else {
                p is None
            }),
            _ => r matches Err(Error::Kitsu(k)) && k.description@ == "Invalid JSON"@,
        },
{
    match json {
        Json::AnimeEntry { mut data, mut included, .. } => {
            let entry = data.pop();
            let anime = included.pop();
            match (entry, anime) {
                (Some(entry), Some(anime)) => Ok(Some((entry, anime))),
                _ => Ok(None),
            }
        },
        _ => Err(Error::Kitsu(KitsuError { description: String::from_str("Invalid JSON") })),
    }
}

/// Extracts the updated entry from a checked single-entry document.
pub fn entry_from_json(json: Json) -> (r: Result<Entry, Error>)
    ensures
        match json {
            Json::Entry { data } => r == Ok::<Entry, Error>(data),
            _ => r matches Err(Error::Kitsu(k)) && k.description@ == "Invalid JSON"@,
        },
{
    match json {
        Json::Entry { data } => Ok(data),
        _ => Err(Error::Kitsu(KitsuError { description: String::from_str("Invalid JSON") })),
    }
}

} // verus!
