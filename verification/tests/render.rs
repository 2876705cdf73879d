use sagiri::kitsu::{
    Anime, AnimeAttributes, AnimeStatus, AnimeSubtype, AnimeTitles, Entry, EntryAttributes,
    EntryStatus, Type,
};
use sagiri::parser::{parse_query, QueryCommand};
use sagiri::render::{get_offset, parse_anime_detail, parse_anime_list};

fn sample_anime(id: i64) -> Anime {
    Anime {
        id,
        attributes: Some(AnimeAttributes {
            canonical_title: String::from("Fullmetal Alchemist"),
            episode_count: Some(64),
            status: Some(AnimeStatus::Finished),
            subtype: Some(AnimeSubtype::TV),
            titles: AnimeTitles { ja_jp: Some(String::from("Hagane")) },
        }),
    }
}

fn sample_entry(id: i64, progress: i64) -> Entry {
    Entry {
        id,
        kind: Type::LibraryEntries,
        attributes: Some(EntryAttributes {
            progress: Some(progress),
            status: Some(EntryStatus::Current),
        }),
        relationships: None,
    }
}

#[test]
fn absent_link_has_no_offset() {
    assert_eq!(get_offset(None), None);
}

#[test]
fn offset_is_extracted_from_the_link() {
    let url = String::from(
        "https://kitsu.io/api/edge/library-entries?page%5Blimit%5D=5&page%5Boffset%5D=10",
    );
    assert_eq!(get_offset(Some(url)), Some(String::from("10")));
    let plain = String::from("https://kitsu.io/api/edge/library-entries?page[offset]=5");
    assert_eq!(get_offset(Some(plain)), Some(String::from("5")));
}

#[test]
fn link_without_offset_parameter_has_none() {
    let url = String::from("https://kitsu.io/api/edge/library-entries?page%5Blimit%5D=5");
    assert_eq!(get_offset(Some(url)), None);
}

#[test]
fn unparseable_link_has_no_offset() {
    assert_eq!(get_offset(Some(String::from("not a url"))), None);
}

#[test]
fn list_page_renders_text_and_buttons() {
    let next = String::from("https://kitsu.io/api/edge/library-entries?page%5Boffset%5D=5");
    let (text, buttons) = parse_anime_list(
        42,
        None,
        Some(next),
        vec![sample_entry(9, 3)],
        vec![sample_anime(7)],
    );
    assert_eq!(
        text,
        "<b>0| Fullmetal Alchemist</b> <i>Hagane</i>\nCurrent [3/64]\n\
         <i>Choose an anime from the list above.</i>"
    );
    assert_eq!(buttons.len(), 2);
    assert_eq!(buttons[0].len(), 1);
    assert_eq!(buttons[0][0].text, "0 Fullmetal Alchemist");
    assert_eq!(buttons[0][0].callback_data, Some(String::from("/42/detail/7/")));
    assert_eq!(buttons[1].len(), 1);
    assert_eq!(buttons[1][0].text, "Next");
    assert_eq!(buttons[1][0].callback_data, Some(String::from("/42/offset/5/")));
}

#[test]
fn next_link_without_offset_omits_the_button() {
    let next = String::from("https://kitsu.io/api/edge/library-entries?page%5Blimit%5D=5");
    let (_, buttons) = parse_anime_list(
        42,
        None,
        Some(next),
        vec![sample_entry(9, 3)],
        vec![sample_anime(7)],
    );
    assert_eq!(buttons[1].len(), 0);
}

#[test]
fn both_links_render_prev_then_next() {
    let prev = String::from("https://kitsu.io/x?page[offset]=0");
    let next = String::from("https://kitsu.io/x?page[offset]=10");
    let (_, buttons) = parse_anime_list(1, Some(prev), Some(next), vec![], vec![]);
    assert_eq!(buttons[0].len(), 0);
    assert_eq!(buttons[1].len(), 2);
    assert_eq!(buttons[1][0].text, "Prev");
    assert_eq!(buttons[1][0].callback_data, Some(String::from("/1/offset/0/")));
    assert_eq!(buttons[1][1].text, "Next");
    assert_eq!(buttons[1][1].callback_data, Some(String::from("/1/offset/10/")));
}

#[test]
fn missing_attributes_render_the_fallback_line() {
    let entry = Entry { id: 9, kind: Type::LibraryEntries, attributes: None, relationships: None };
    let (text, buttons) = parse_anime_list(42, None, None, vec![entry], vec![sample_anime(7)]);
    assert_eq!(
        text,
        "<b>0|</b> can't get attributes :(\n<i>Choose an anime from the list above.</i>"
    );
    assert_eq!(buttons[0][0].text, "0 can't get title :(");
    assert_eq!(buttons[0][0].callback_data, Some(String::from("/42/detail/7/")));
}

#[test]
fn detail_buttons_reparse_to_their_ids() {
    let (_, buttons) = parse_anime_list(
        42,
        None,
        None,
        vec![sample_entry(9, 3), sample_entry(10, 0)],
        vec![sample_anime(7), sample_anime(8)],
    );
    for (i, expected) in [(0usize, 7i64), (1usize, 8i64)] {
        let data = buttons[0][i].callback_data.clone().unwrap();
        assert_eq!(
            parse_query(&data),
            Ok(QueryCommand::Detail { kitsu_id: 42, anime_id: expected })
        );
    }
}

#[test]
fn detail_view_renders_text_and_buttons() {
    let (text, buttons) = parse_anime_detail(42, Some((sample_entry(9, 3), sample_anime(7))));
    assert_eq!(
        text,
        "<b>Title</b>: Fullmetal Alchemist\n<b>JapaneseTitle</b>: Hagane\n\
         <b>Subtype</b>: TV\n<b>Status</b>: Finished\n<b>Progress</b>: Current [3/64]"
    );
    assert_eq!(buttons.len(), 2);
    assert_eq!(buttons[0][0].text, "Make 4 Complete");
    assert_eq!(buttons[0][0].callback_data, Some(String::from("/42/progress/7/9/4/")));
    assert_eq!(buttons[1][0].text, "Back to List");
    assert_eq!(buttons[1][0].callback_data, Some(String::from("/42/offset/0/")));
}

#[test]
fn detail_view_defaults_absent_fields() {
    let anime = Anime {
        id: 7,
        attributes: Some(AnimeAttributes {
            canonical_title: String::from("X"),
            episode_count: None,
            status: None,
            subtype: None,
            titles: AnimeTitles { ja_jp: None },
        }),
    };
    let entry = Entry {
        id: 9,
        kind: Type::LibraryEntries,
        attributes: Some(EntryAttributes { progress: None, status: None }),
        relationships: None,
    };
    let (text, buttons) = parse_anime_detail(42, Some((entry, anime)));
    assert_eq!(
        text,
        "<b>Title</b>: X\n<b>JapaneseTitle</b>: null\n<b>Subtype</b>: Unknown\n\
         <b>Status</b>: Unknown\n<b>Progress</b>: Unknown [0/99]"
    );
    assert_eq!(buttons[0][0].text, "Make 1 Complete");
    assert_eq!(buttons[0][0].callback_data, Some(String::from("/42/progress/7/9/1/")));
}

#[test]
fn missing_pair_renders_the_error_view() {
    let (text, buttons) = parse_anime_detail(42, None);
    assert_eq!(text, "Error: No Anime Found :(");
    assert_eq!(buttons.len(), 1);
    assert_eq!(buttons[0][0].text, "Back to List");
    assert_eq!(buttons[0][0].callback_data, Some(String::from("/42/offset/0/")));
}

#[test]
fn progress_button_reparses_to_its_ids() {
    let (_, buttons) = parse_anime_detail(42, Some((sample_entry(9, 3), sample_anime(7))));
    let data = buttons[0][0].callback_data.clone().unwrap();
    assert_eq!(
        parse_query(&data),
        Ok(QueryCommand::Progress { kitsu_id: 42, anime_id: 7, entry_id: 9, progress: 4 })
    );
}
