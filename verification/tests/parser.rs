use sagiri::parser::{parse_message, parse_query, MsgCommand, ParseFailure, QueryCommand};

#[test]
fn list_command_parses() {
    assert_eq!(parse_message("/list"), Ok(MsgCommand::List));
}

#[test]
fn update_command_parses() {
    assert_eq!(parse_message("/update"), Ok(MsgCommand::Update));
}

#[test]
fn bogus_command_fails() {
    assert_eq!(parse_message("/bogus"), Err(ParseFailure));
}

#[test]
fn message_trailing_text_is_ignored() {
    assert_eq!(parse_message("/list@bot extra"), Ok(MsgCommand::List));
    assert_eq!(parse_message("/updater"), Ok(MsgCommand::Update));
}

#[test]
fn message_without_slash_fails() {
    assert_eq!(parse_message("list"), Err(ParseFailure));
    assert_eq!(parse_message(""), Err(ParseFailure));
}

#[test]
fn offset_query_parses() {
    assert_eq!(
        parse_query("/42/offset/5/"),
        Ok(QueryCommand::Offset { kitsu_id: 42, offset: 5 })
    );
}

#[test]
fn detail_query_parses() {
    assert_eq!(
        parse_query("/42/detail/7/"),
        Ok(QueryCommand::Detail { kitsu_id: 42, anime_id: 7 })
    );
}

#[test]
fn progress_query_parses() {
    assert_eq!(
        parse_query("/1/progress/2/3/4/"),
        Ok(QueryCommand::Progress { kitsu_id: 1, anime_id: 2, entry_id: 3, progress: 4 })
    );
}

#[test]
fn negative_and_signed_ids_parse() {
    assert_eq!(
        parse_query("/-5/detail/7/"),
        Ok(QueryCommand::Detail { kitsu_id: -5, anime_id: 7 })
    );
    assert_eq!(
        parse_query("/+42/detail/7/"),
        Ok(QueryCommand::Detail { kitsu_id: 42, anime_id: 7 })
    );
}

#[test]
fn query_without_terminator_fails() {
    assert_eq!(parse_query("/42/offset/5"), Err(ParseFailure));
    assert_eq!(parse_query("/42/detail/"), Err(ParseFailure));
}

#[test]
fn query_with_bad_id_fails() {
    assert_eq!(parse_query("/abc/offset/5/"), Err(ParseFailure));
    assert_eq!(parse_query("//offset/5/"), Err(ParseFailure));
    assert_eq!(parse_query("/42/offset/x/"), Err(ParseFailure));
}

#[test]
fn query_with_unknown_keyword_fails() {
    assert_eq!(parse_query("/42/bogus/5/"), Err(ParseFailure));
    assert_eq!(parse_query("/42/"), Err(ParseFailure));
    assert_eq!(parse_query(""), Err(ParseFailure));
}

#[test]
fn query_id_bounds_are_enforced() {
    assert_eq!(
        parse_query("/9223372036854775807/detail/7/"),
        Ok(QueryCommand::Detail { kitsu_id: i64::MAX, anime_id: 7 })
    );
    assert_eq!(parse_query("/9223372036854775808/detail/7/"), Err(ParseFailure));
    assert_eq!(
        parse_query("/-9223372036854775808/detail/1/"),
        Ok(QueryCommand::Detail { kitsu_id: i64::MIN, anime_id: 1 })
    );
    assert_eq!(parse_query("/-9223372036854775809/detail/1/"), Err(ParseFailure));
}

#[test]
fn query_trailing_text_is_ignored() {
    assert_eq!(
        parse_query("/42/detail/7/garbage"),
        Ok(QueryCommand::Detail { kitsu_id: 42, anime_id: 7 })
    );
}

#[test]
fn query_with_leading_zeros_parses() {
    assert_eq!(
        parse_query("/007/offset/010/"),
        Ok(QueryCommand::Offset { kitsu_id: 7, offset: 10 })
    );
}
