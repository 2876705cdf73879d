use sagiri::error::Error;
use sagiri::kitsu::{
    anime_list_from_json, anime_pair_from_json, check_kitsu_json, entry_from_json,
    fetch_anime_params, get_anime_params, update_entry_payload, Anime, ApiError, Entry,
    EntryAttributes, Json, Links, Relationships, Type,
};

fn entry(id: i64) -> Entry {
    Entry { id, kind: Type::LibraryEntries, attributes: None, relationships: None }
}

fn anime(id: i64) -> Anime {
    Anime { id, attributes: None }
}

#[test]
fn fetch_params_name_the_page_and_user() {
    let params = fetch_anime_params(42, -3);
    assert_eq!(
        params,
        vec![
            (String::from("include"), String::from("anime")),
            (String::from("page[limit]"), String::from("5")),
            (String::from("page[offset]"), String::from("-3")),
            (String::from("filter[user_id]"), String::from("42")),
            (String::from("filter[status]"), String::from("current,planned")),
            (
                String::from("fields[libraryEntries]"),
                String::from("progress,status,updatedAt,anime"),
            ),
            (
                String::from("fields[anime]"),
                String::from("canonicalTitle,titles,episodeCount,slug,subtype"),
            ),
        ]
    );
}

#[test]
fn single_match_params_name_both_ids() {
    let params = get_anime_params(42, 7);
    assert_eq!(
        params,
        vec![
            (String::from("include"), String::from("anime")),
            (String::from("filter[user_id]"), String::from("42")),
            (String::from("filter[anime_id]"), String::from("7")),
        ]
    );
}

#[test]
fn update_payload_names_entry_target_and_anime() {
    let payload = update_entry_payload(9, 4, 7);
    match payload {
        Json::Entry { data } => {
            assert_eq!(data.id, 9);
            assert!(matches!(data.kind, Type::LibraryEntries));
            assert_eq!(
                data.attributes,
                Some(EntryAttributes { status: None, progress: Some(4) })
            );
            assert_eq!(
                data.relationships,
                Some(Relationships { anime: Some(Anime { id: 7, attributes: None }) })
            );
        },
        other => panic!("expected an entry document, got {:?}", other),
    }
}

#[test]
fn reported_errors_are_concatenated() {
    let json = Json::Error {
        errors: vec![
            ApiError { title: String::from("t1"), detail: String::from("d1") },
            ApiError { title: String::from("t2"), detail: String::from("d2") },
        ],
    };
    match check_kitsu_json(json) {
        Err(Error::Kitsu(k)) => assert_eq!(k.description, "t1: d1t2: d2"),
        other => panic!("expected a content-API error, got {:?}", other),
    }
}

#[test]
fn non_error_documents_pass_through() {
    let json = Json::Entry { data: entry(9) };
    assert!(matches!(check_kitsu_json(json), Ok(Json::Entry { .. })));
}

#[test]
fn page_document_splits_into_its_parts() {
    let json = Json::AnimeEntry {
        data: vec![entry(1), entry(2)],
        links: Links { prev: Some(String::from("p")), next: None },
        included: vec![anime(7)],
    };
    let (prev, next, entries, animes) = anime_list_from_json(json).unwrap();
    assert_eq!(prev, Some(String::from("p")));
    assert_eq!(next, None);
    assert_eq!(entries.len(), 2);
    assert_eq!(animes.len(), 1);
}

#[test]
fn page_document_is_required_for_a_list() {
    let r = anime_list_from_json(Json::Entry { data: entry(1) });
    match r {
        Err(Error::Kitsu(k)) => assert_eq!(k.description, "Invalid JSON"),
        other => panic!("expected a protocol mismatch, got {:?}", other),
    }
}

#[test]
fn single_match_takes_the_last_pair() {
    let json = Json::AnimeEntry {
        data: vec![entry(1), entry(2)],
        links: Links { prev: None, next: None },
        included: vec![anime(7), anime(8)],
    };
    let pair = anime_pair_from_json(json).unwrap().unwrap();
    assert_eq!(pair.0.id, 2);
    assert_eq!(pair.1.id, 8);
}

#[test]
fn empty_match_yields_no_pair() {
    let json = Json::AnimeEntry {
        data: vec![],
        links: Links { prev: None, next: None },
        included: vec![anime(7)],
    };
    assert_eq!(anime_pair_from_json(json), Ok(None));
}

#[test]
fn entry_document_yields_the_entry() {
    let data = entry(9);
    assert_eq!(entry_from_json(Json::Entry { data: data.clone() }), Ok(data));
}
