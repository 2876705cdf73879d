//! The page renderer: message text and inline-button layouts built from
//! fetched (entry, anime) pairs, and the extraction of continuation offsets
//! from a page's previous/next links.
//!
//! Every button's callback data is produced here by the same grammar that
//! [`crate::parser`] reads back, and re-parsing a detail button's data
//! recovers exactly the ids that rendered it.

use vstd::prelude::*;

use crate::decimal::{dec_nat_val, dec_str, dec_str_nat, is_digit};
use crate::decimal::{i64_to_string, u64_to_string, usize_to_string};
use crate::decimal::{lemma_dec_str_nat_digits, lemma_dec_str_nat_roundtrip};
use crate::kitsu::{Anime, AnimeAttributes, AnimeStatus, AnimeSubtype, AnimeTitles, Entry, EntryAttributes, EntryStatus};
use crate::parser::{first_slash, int_seg_val, is_i64_seg, is_int_seg, spec_i64_then_slash, spec_parse_query, spec_parse_query_tail, spec_starts_with, split_slash, QueryCommand};
use crate::parser::{lemma_first_slash};
use crate::telegram::InlineKeyboardButton;

verus! {

/// The percent-decoded query key/value pairs of an absolute URL, in order;
/// a string that is no absolute URL has none.
pub uninterp spec fn query_pairs_of(s: Seq<char>) -> Option<Seq<(Seq<char>, Seq<char>)>>;

/// Relies on `url::Url::parse` and `Url::query_pairs` of the `url` crate:
/// parsing either fails or yields the URL's percent-decoded query key/value
/// pairs in order, a function of the string alone.
#[verifier::external_body]
fn url_query_pairs(u: &str) -> (r: Option<Vec<(String, String)>>)
    ensures
        match query_pairs_of(u@) {
            Some(ps) => r matches Some(v) && v@.len() == ps.len() && (forall|i: int|
                0 <= i < ps.len() ==> v@[i].0@ == ps[i].0 && v@[i].1@ == ps[i].1),
            None => r is None,
        },
{
    match url::Url::parse(u) {
        Ok(parsed) => Some(
            parsed.query_pairs().map(|(k, v)| (k.to_string(), v.to_string())).collect(),
        ),
        Err(_) => None,
    }
}

/// The value of the first pair carrying `key`, if any.
pub open spec fn spec_find_pair(pairs: Seq<(Seq<char>, Seq<char>)>, key: Seq<char>) -> Option<
    Seq<char>,
>
    decreases pairs.len(),
{
    if pairs.len() == 0 {
        None
    } else if pairs[0].0 == key {
        Some(pairs[0].1)
    } else {
        spec_find_pair(pairs.drop_first(), key)
    }
}

/// The continuation offset a link carries: the value of its `page[offset]`
/// query parameter.
pub open spec fn spec_offset_of_link(link: Seq<char>) -> Option<Seq<char>> {
    match query_pairs_of(link) {
        None => None,
        Some(pairs) => spec_find_pair(pairs, "page[offset]"@),
    }
}

/// The continuation offset of an optional link.
pub open spec fn spec_link_offset(link: Option<String>) -> Option<Seq<char>> {
    match link {
        None => None,
        Some(u) => spec_offset_of_link(u@),
    }
}

/// A query whose pairs carry no `page[offset]` key carries no continuation
/// offset.
pub proof fn lemma_find_pair_absent(pairs: Seq<(Seq<char>, Seq<char>)>, key: Seq<char>)
    requires
        forall|i: int| 0 <= i < pairs.len() ==> (#[trigger] pairs[i]).0 != key,
    ensures
        spec_find_pair(pairs, key) is None,
    decreases pairs.len(),
{
    if pairs.len() > 0 {
        assert(pairs[0].0 != key);
        assert(forall|i: int|
            0 <= i < pairs.drop_first().len() ==> #[trigger] pairs.drop_first()[i]
                == pairs[i + 1]);
        lemma_find_pair_absent(pairs.drop_first(), key);
    }
}

/// The two views are equal as character sequences.
fn str_eq(a: &str, b: &str) -> (r: bool)
    ensures
        r == (a@ == b@),
{
    let n = a.unicode_len();
    let m = b.unicode_len();
    if n != m {
        return false;
    }
    let mut i: usize = 0;
    while i < n
        invariant
            0 <= i <= n,
            n == a@.len() && n == b@.len(),
            forall|j: int| 0 <= j < i ==> a@[j] == b@[j],
        decreases n - i,
    {
        if a.get_char(i) != b.get_char(i) {
            return false;
        }
        i = i + 1;
    }
    proof {
        assert(a@ =~= b@);
    }
    true
}

/// Extracts the continuation offset from an optional previous/next link:
/// absence of the link, an unparseable link, or a query without the
/// `page[offset]` parameter all yield nothing.
pub fn get_offset(url: Option<String>) -> (r: Option<String>)
    ensures
        match spec_link_offset(url) {
            Some(o) => r matches Some(s) && s@ == o,
            None => r is None,
        },
{
    let u = match url {
        None => {
            return None;
        },
        Some(u) => u,
    };
    let pairs = match url_query_pairs(u.as_str()) {
        None => {
            return None;
        },
        Some(pairs) => pairs,
    };
    let ghost ps = query_pairs_of(u@)->0;
    let ghost key = "page[offset]"@;
    let mut i: usize = 0;
    proof {
        assert(ps.skip(0) =~= ps);
    }
    while i < pairs.len()
        invariant
            0 <= i <= pairs.len(),
            pairs@.len() == ps.len(),
            forall|j: int|
                0 <= j < ps.len() ==> pairs@[j].0@ == (#[trigger] ps[j]).0 && pairs@[j].1@
                    == ps[j].1,
            key == "page[offset]"@,
            spec_link_offset(url) == spec_find_pair(ps, key),
            spec_find_pair(ps, key) == spec_find_pair(ps.skip(i as int), key),
        decreases pairs.len() - i,
    {
        proof {
            assert(ps.skip(i as int)[0] == ps[i as int]);
            assert(ps.skip(i as int).drop_first() =~= ps.skip(i + 1));
        }
        if str_eq(pairs[i].0.as_str(), "page[offset]") {
            return Some(pairs[i].1.clone());
        }
        i = i + 1;
    }
    proof {
        assert(ps.skip(i as int) =~= Seq::<(Seq<char>, Seq<char>)>::empty());
    }
    None
}

/// Callback data of a page-navigation button: `/<id>/offset/<cursor>/`.
pub open spec fn spec_offset_data(kitsu_id: i64, offset: Seq<char>) -> Seq<char> {
    "/"@ + dec_str(kitsu_id as int) + "/offset/"@ + offset + "/"@
}

/// Callback data of a detail button: `/<id>/detail/<anime>/`.
pub open spec fn spec_detail_data(kitsu_id: i64, anime_id: i64) -> Seq<char> {
    "/"@ + dec_str(kitsu_id as int) + "/detail/"@ + dec_str(anime_id as int) + "/"@
}

/// Callback data of a progress button:
/// `/<id>/progress/<anime>/<entry>/<target>/`.
pub open spec fn spec_progress_data(
    kitsu_id: i64,
    anime_id: i64,
    entry_id: i64,
    progress: i64,
) -> Seq<char> {
    "/"@ + dec_str(kitsu_id as int) + "/progress/"@ + dec_str(anime_id as int) + "/"@ + dec_str(
        entry_id as int,
    ) + "/"@ + dec_str(progress as int) + "/"@
}

/// Builds `/<id>/offset/<cursor>/`.
fn offset_data(kitsu_id: i64, offset: &str) -> (r: String)
    ensures
        r@ == spec_offset_data(kitsu_id, offset@),
{
    let mut s = String::from_str("/");
    s.append(i64_to_string(kitsu_id).as_str());
    s.append("/offset/");
    s.append(offset);
    s.append("/");
    proof {
        assert(s@ =~= spec_offset_data(kitsu_id, offset@));
    }
    s
}

/// Builds `/<id>/detail/<anime>/`.
fn detail_data(kitsu_id: i64, anime_id: i64) -> (r: String)
    ensures
        r@ == spec_detail_data(kitsu_id, anime_id),
{
    let mut s = String::from_str("/");
    s.append(i64_to_string(kitsu_id).as_str());
    s.append("/detail/");
    s.append(i64_to_string(anime_id).as_str());
    s.append("/");
    proof {
        assert(s@ =~= spec_detail_data(kitsu_id, anime_id));
    }
    s
}

/// Builds `/<id>/progress/<anime>/<entry>/<target>/`.
fn progress_data(kitsu_id: i64, anime_id: i64, entry_id: i64, progress: i64) -> (r: String)
    ensures
        r@ == spec_progress_data(kitsu_id, anime_id, entry_id, progress),
{
    let mut s = String::from_str("/");
    s.append(i64_to_string(kitsu_id).as_str());
    s.append("/progress/");
    s.append(i64_to_string(anime_id).as_str());
    s.append("/");
    s.append(i64_to_string(entry_id).as_str());
    s.append("/");
    s.append(i64_to_string(progress).as_str());
    s.append("/");
    proof {
        assert(s@ =~= spec_progress_data(kitsu_id, anime_id, entry_id, progress));
    }
    s
}

/// The rendering of any 64-bit integer is a parseable integer segment free
/// of `/`, and reading it back recovers the value.
proof fn lemma_dec_str_seg(n: int)
    requires
        i64::MIN <= n <= i64::MAX,
    ensures
        dec_str(n).len() >= 1,
        is_i64_seg(dec_str(n)),
        int_seg_val(dec_str(n)) == n,
        forall|j: int| 0 <= j < dec_str(n).len() ==> dec_str(n)[j] != '/',
{
    let s = dec_str(n);
    if n < 0 {
        lemma_dec_str_nat_digits(-n);
        lemma_dec_str_nat_roundtrip(-n);
        assert(s == seq!['-'] + dec_str_nat(-n));
        assert(s[0] == '-');
        assert(s.drop_first() =~= dec_str_nat(-n));
        assert(is_int_seg(s));
        assert(int_seg_val(s) == -dec_nat_val(dec_str_nat(-n)));
        assert forall|j: int| 0 <= j < s.len() implies s[j] != '/' by {
            if j >= 1 {
                assert(is_digit(dec_str_nat(-n)[j - 1]));
                assert(s[j] == dec_str_nat(-n)[j - 1]);
            }
        }
    } else {
        lemma_dec_str_nat_digits(n);
        lemma_dec_str_nat_roundtrip(n);
        assert(s == dec_str_nat(n));
        assert(is_digit(s[0]));
        assert(s[0] != '-' && s[0] != '+');
        assert(is_int_seg(s));
        assert forall|j: int| 0 <= j < s.len() implies s[j] != '/' by {
            assert(is_digit(s[j]));
        }
    }
}

/// Index facts pin `split_slash` to a concatenation's seam.
proof fn lemma_pin_split_at(t: Seq<char>, seg: Seq<char>, rest: Seq<char>)
    requires
        t == seg + rest,
        forall|j: int| 0 <= j < seg.len() ==> seg[j] != '/',
        rest.len() > 0,
        rest[0] == '/',
    ensures
        split_slash(t) == Some((seg, rest)),
{
    assert(t[seg.len() as int] == rest[0]);
    assert forall|j: int| 0 <= j < seg.len() implies t[j] != '/' by {
        assert(t[j] == seg[j]);
    }
    lemma_first_slash(t);
    match first_slash(t) {
        None => {
            assert(t[seg.len() as int] == '/');
            assert(false);
        },
        Some(i0) => {
            if i0 < seg.len() {
                assert(t[i0] != '/');
            } else if i0 > seg.len() {
                assert(t[seg.len() as int] != '/');
            }
            assert(i0 == seg.len());
            assert(t.subrange(0, i0) =~= seg);
            assert(t.subrange(i0, t.len() as int) =~= rest);
        },
    }
}

/// The button carries this label and callback data and no URL.
pub open spec fn is_button(b: InlineKeyboardButton, text: Seq<char>, data: Seq<char>) -> bool {
    &&& b.text@ == text
    &&& b.url is None
    &&& b.callback_data matches Some(d) && d@ == data
}

/// The smaller of two lengths.
pub open spec fn spec_min(a: int, b: int) -> int {
    if a < b {
        a
    } else {
        b
    }
}

/// The displayed alternative title, `null` when absent.
pub open spec fn spec_ja_title(t: AnimeTitles) -> Seq<char> {
    match t.ja_jp {
        Some(s) => s@,
        None => "null"@,
    }
}

/// The displayed episode count, `99` when unknown.
pub open spec fn spec_episodes(aa: AnimeAttributes) -> int {
    match aa.episode_count {
        Some(n) => n as int,
        None => 99,
    }
}

/// The recorded progress, zero when absent.
pub open spec fn spec_progress_val(ea: EntryAttributes) -> int {
    match ea.progress {
        Some(p) => p as int,
        None => 0,
    }
}

/// The displayed format name, `Unknown` when absent.
pub open spec fn spec_subtype_name(aa: AnimeAttributes) -> Seq<char> {
    match aa.subtype {
        Some(s) => s.spec_name(),
        None => AnimeSubtype::Unknown.spec_name(),
    }
}

/// The displayed airing status, `Unknown` when absent.
pub open spec fn spec_anime_status_name(aa: AnimeAttributes) -> Seq<char> {
    match aa.status {
        Some(s) => s.spec_name(),
        None => AnimeStatus::Unknown.spec_name(),
    }
}

/// The displayed watch status, `Unknown` when absent.
pub open spec fn spec_entry_status_name(ea: EntryAttributes) -> Seq<char> {
    match ea.status {
        Some(s) => s.spec_name(),
        None => EntryStatus::Unknown.spec_name(),
    }
}

/// The detail view's text, for a pair whose attributes are present.
pub open spec fn spec_detail_text(entry: Entry, anime: Anime) -> Seq<char>
    recommends
        entry.attributes is Some,
        anime.attributes is Some,
{
    let aa = anime.attributes->0;
    let ea = entry.attributes->0;
    "<b>Title</b>: "@ + aa.canonical_title@ + "\n<b>JapaneseTitle</b>: "@ + spec_ja_title(
        aa.titles,
    ) + "\n<b>Subtype</b>: "@ + spec_subtype_name(aa) + "\n<b>Status</b>: "@
        + spec_anime_status_name(aa) + "\n<b>Progress</b>: "@ + spec_entry_status_name(ea)
        + " ["@ + dec_str(spec_progress_val(ea)) + "/"@ + dec_str_nat(spec_episodes(aa)) + "]"@
}

/// One line of the list view.
pub open spec fn spec_list_line(i: int, e: Entry, a: Anime) -> Seq<char> {
    match (e.attributes, a.attributes) {
        (Some(ea), Some(aa)) => "<b>"@ + dec_str_nat(i) + "| "@ + aa.canonical_title@ + "</b>"@
            + " <i>"@ + spec_ja_title(aa.titles) + "</i>"@ + "\n"@ + spec_entry_status_name(ea)
            + " ["@ + dec_str(spec_progress_val(ea)) + "/"@ + dec_str_nat(spec_episodes(aa))
            + "]\n"@,
        _ => "<b>"@ + dec_str_nat(i) + "|</b> can't get attributes :(\n"@,
    }
}

/// The first `n` lines of the list view.
pub open spec fn spec_list_body(entries: Seq<Entry>, animes: Seq<Anime>, n: int) -> Seq<char>
    decreases n,
{
    if n <= 0 {
        Seq::<char>::empty()
    } else {
        spec_list_body(entries, animes, n - 1) + spec_list_line(
            n - 1,
            entries[n - 1],
            animes[n - 1],
        )
    }
}

/// The list view's text: one line per (entry, anime) pair, then the closing
/// hint.
pub open spec fn spec_list_text(entries: Seq<Entry>, animes: Seq<Anime>) -> Seq<char> {
    spec_list_body(entries, animes, spec_min(entries.len() as int, animes.len() as int))
        + "<i>Choose an anime from the list above.</i>"@
}

/// Label of one index button.
pub open spec fn spec_index_button_text(i: int, e: Entry, a: Anime) -> Seq<char> {
    match (e.attributes, a.attributes) {
        (Some(_), Some(aa)) => dec_str_nat(i) + " "@ + aa.canonical_title@,
        _ => dec_str_nat(i) + " can't get title :("@,
    }
}

/// The navigation row's (label, callback data) entries: a `Prev` button
/// where the previous link carried an offset, then a `Next` button where the
/// next link did; a side without an offset gets no button.
pub open spec fn spec_nav_entries(
    kitsu_id: i64,
    prev_off: Option<Seq<char>>,
    next_off: Option<Seq<char>>,
) -> Seq<(Seq<char>, Seq<char>)> {
    (match prev_off {
        Some(o) => seq![("Prev"@, spec_offset_data(kitsu_id, o))],
        None => Seq::<(Seq<char>, Seq<char>)>::empty(),
    }) + (match next_off {
        Some(o) => seq![("Next"@, spec_offset_data(kitsu_id, o))],
        None => Seq::<(Seq<char>, Seq<char>)>::empty(),
    })
}

/// A next link carrying no `page[offset]` query parameter — or no parseable
/// URL at all — contributes no button: the navigation row is exactly what
/// the previous link alone contributes, and no entry of it is labelled
/// `Next`.
pub proof fn lemma_missing_offset_omits_next_button(
    kitsu_id: i64,
    prev_off: Option<Seq<char>>,
    link: Seq<char>,
)
    requires
        match query_pairs_of(link) {
            Some(pairs) => forall|i: int|
                0 <= i < pairs.len() ==> (#[trigger] pairs[i]).0 != "page[offset]"@,
            None => true,
        },
    ensures
        spec_offset_of_link(link) is None,
        spec_nav_entries(kitsu_id, prev_off, spec_offset_of_link(link)) == spec_nav_entries(
            kitsu_id,
            prev_off,
            None,
        ),
        forall|i: int|
            0 <= i < spec_nav_entries(kitsu_id, prev_off, None).len() ==> spec_nav_entries(
                kitsu_id,
                prev_off,
                None,
            )[i].0 != "Next"@,
{
    match query_pairs_of(link) {
        Some(pairs) => {
            lemma_find_pair_absent(pairs, "page[offset]"@);
        },
        None => {},
    }
    reveal_strlit("Prev");
    reveal_strlit("Next");
    let nav = spec_nav_entries(kitsu_id, prev_off, None);
    match prev_off {
        Some(o) => {
            assert(nav =~= seq![("Prev"@, spec_offset_data(kitsu_id, o))]);
            assert(nav[0].0 == "Prev"@);
            assert("Prev"@ != "Next"@) by {
                assert("Prev"@[0] == 'P' && "Next"@[0] == 'N');
            }
        },
        None => {
            assert(nav =~= Seq::<(Seq<char>, Seq<char>)>::empty());
        },
    }
}

/// Appends one list line for the pair at position `i`.
fn append_list_line(text: &mut String, i: usize, e: &Entry, a: &Anime)
    ensures
        final(text)@ == old(text)@ + spec_list_line(i as int, *e, *a),
{
    match (&e.attributes, &a.attributes) {
        (Some(ea), Some(aa)) => {
            text.append("<b>");
            text.append(usize_to_string(i).as_str());
            text.append("| ");
            text.append(aa.canonical_title.as_str());
            text.append("</b>");
            text.append(" <i>");
            match &aa.titles.ja_jp {
                Some(s) => text.append(s.as_str()),
                None => text.append("null"),
            }
            text.append("</i>");
            text.append("\n");
            let ename = match ea.status {
                Some(st) => st.name(),
                None => EntryStatus::Unknown.name(),
            };
            text.append(ename);
            text.append(" [");
            let prog: i64 = match ea.progress {
                Some(p) => p,
                None => 0,
            };
            text.append(i64_to_string(prog).as_str());
            text.append("/");
            let eps: u32 = match aa.episode_count {
                Some(n) => n,
                None => 99,
            };
            text.append(u64_to_string(eps as u64).as_str());
            text.append("]\n");
            proof {
                assert(final(text)@ =~= old(text)@ + spec_list_line(i as int, *e, *a));
            }
        },
        _ => {
            text.append("<b>");
            text.append(usize_to_string(i).as_str());
            text.append("|</b> can't get attributes :(\n");
            proof {
                assert(final(text)@ =~= old(text)@ + spec_list_line(i as int, *e, *a));
            }
        },
    }
}

/// Builds the index button for the pair at position `i`.
fn index_button(kitsu_id: i64, i: usize, e: &Entry, a: &Anime) -> (b: InlineKeyboardButton)
    ensures
        is_button(
            b,
            spec_index_button_text(i as int, *e, *a),
            spec_detail_data(kitsu_id, a.id),
        ),
{
    let mut label = usize_to_string(i);
    match (&e.attributes, &a.attributes) {
        (Some(_), Some(aa)) => {
            label.append(" ");
            label.append(aa.canonical_title.as_str());
        },
        _ => {
            label.append(" can't get title :(");
        },
    }
    proof {
        assert(label@ =~= spec_index_button_text(i as int, *e, *a));
    }
    InlineKeyboardButton::with_callback_data(label, detail_data(kitsu_id, a.id))
}

/// Renders one page of (entry, anime) pairs: the list text, an index row
/// with one detail button per pair, and a navigation row with a button for
/// each side whose link carried a continuation offset.
pub fn parse_anime_list(
    kitsu_id: i64,
    prev: Option<String>,
    next: Option<String>,
    entries: Vec<Entry>,
    animes: Vec<Anime>,
) -> (r: (String, Vec<Vec<InlineKeyboardButton>>))
    ensures
        ({
            let n = spec_min(entries@.len() as int, animes@.len() as int);
            let nav = spec_nav_entries(kitsu_id, spec_link_offset(prev), spec_link_offset(next));
            &&& r.0@ == spec_list_text(entries@, animes@)
            &&& r.1@.len() == 2
            &&& r.1@[0]@.len() == n
            &&& forall|i: int|
                0 <= i < n ==> is_button(
                    #[trigger] r.1@[0]@[i],
                    spec_index_button_text(i, entries@[i], animes@[i]),
                    spec_detail_data(kitsu_id, animes@[i].id),
                )
            &&& r.1@[1]@.len() == nav.len()
            &&& forall|i: int|
                0 <= i < nav.len() ==> is_button(
                    #[trigger] r.1@[1]@[i],
                    nav[i].0,
                    nav[i].1,
                )
        }),
{
    let mut navigate: Vec<InlineKeyboardButton> = Vec::new();
    match get_offset(prev) {
        Some(o) => {
            navigate.push(
                InlineKeyboardButton::with_callback_data(
                    String::from_str("Prev"),
                    offset_data(kitsu_id, o.as_str()),
                ),
            );
        },
        None => {},
    }
    match get_offset(next) {
        Some(o) => {
            navigate.push(
                InlineKeyboardButton::with_callback_data(
                    String::from_str("Next"),
                    offset_data(kitsu_id, o.as_str()),
                ),
            );
        },
        None => {},
    }
    let ghost nav = spec_nav_entries(kitsu_id, spec_link_offset(prev), spec_link_offset(next));
    proof {
        assert(navigate@.len() == nav.len());
        assert(forall|i: int|
            0 <= i < nav.len() ==> is_button(#[trigger] navigate@[i], nav[i].0, nav[i].1));
    }
    let n = if entries.len() < animes.len() {
        entries.len()
    } else {
        animes.len()
    };
    let mut text = String::new();
    let mut index: Vec<InlineKeyboardButton> = Vec::new();
    let mut i: usize = 0;
    while i < n
        invariant
            0 <= i <= n,
            n == spec_min(entries@.len() as int, animes@.len() as int),
            n <= entries@.len() && n <= animes@.len(),
            text@ == spec_list_body(entries@, animes@, i as int),
            index@.len() == i,
            forall|j: int|
                0 <= j < i ==> is_button(
                    #[trigger] index@[j],
                    spec_index_button_text(j, entries@[j], animes@[j]),
                    spec_detail_data(kitsu_id, animes@[j].id),
                ),
        decreases n - i,
    {
        append_list_line(&mut text, i, &entries[i], &animes[i]);
        index.push(index_button(kitsu_id, i, &entries[i], &animes[i]));
        i = i + 1;
    }
    text.append("<i>Choose an anime from the list above.</i>");
    let mut buttons: Vec<Vec<InlineKeyboardButton>> = Vec::new();
    buttons.push(index);
    buttons.push(navigate);
    (text, buttons)
}

/// Renders the detail view of one (entry, anime) pair: the attribute text
/// with a progress button targeting the next episode and a button back to
/// the list's first page, or an error text with the back button alone when
/// no pair matched.
pub fn parse_anime_detail(kitsu_id: i64, pair: Option<(Entry, Anime)>) -> (r: (
    String,
    Vec<Vec<InlineKeyboardButton>>,
))
    requires
        pair matches Some(p) ==> p.0.attributes is Some && p.1.attributes is Some && (
        p.0.attributes->0.progress matches Some(pr) ==> pr < i64::MAX),
    ensures
        match pair {
            None => {
                &&& r.0@ == "Error: No Anime Found :("@
                &&& r.1@.len() == 1
                &&& r.1@[0]@.len() == 1
                &&& is_button(r.1@[0]@[0], "Back to List"@, spec_offset_data(kitsu_id, "0"@))
            },
            Some(p) => {
                let target = spec_progress_val(p.0.attributes->0) + 1;
                &&& r.0@ == spec_detail_text(p.0, p.1)
                &&& r.1@.len() == 2
                &&& r.1@[0]@.len() == 1
                &&& is_button(
                    r.1@[0]@[0],
                    "Make "@ + dec_str(target) + " Complete"@,
                    spec_progress_data(kitsu_id, p.1.id, p.0.id, target as i64),
                )
                &&& r.1@[1]@.len() == 1
                &&& is_button(r.1@[1]@[0], "Back to List"@, spec_offset_data(kitsu_id, "0"@))
            },
        },
{
    let mut buttons: Vec<Vec<InlineKeyboardButton>> = Vec::new();
    let text = match pair {
        None => String::from_str("Error: No Anime Found :("),
        Some((entry, anime)) => {
            let anime_id = anime.id;
            let entry_id = entry.id;
            let anime_attr = match anime.attributes {
                Some(aa) => aa,
                None => {
                    proof {
                        assert(false);
                    }
                    unreached()
                },
            };
            let entry_attr = match entry.attributes {
                Some(ea) => ea,
                None => {
                    proof {
                        assert(false);
                    }
                    unreached()
                },
            };
            let prog: i64 = match entry_attr.progress {
                Some(p) => p,
                None => 0,
            };
            let target = prog + 1;
            let mut ptext = String::from_str("Make ");
            ptext.append(i64_to_string(target).as_str());
            ptext.append(" Complete");
            proof {
                assert(ptext@ =~= "Make "@ + dec_str(target as int) + " Complete"@);
            }
            let mut row: Vec<InlineKeyboardButton> = Vec::new();
            row.push(
                InlineKeyboardButton::with_callback_data(
                    ptext,
                    progress_data(kitsu_id, anime_id, entry_id, target),
                ),
            );
            buttons.push(row);
            let mut t = String::from_str("<b>Title</b>: ");
            t.append(anime_attr.canonical_title.as_str());
            t.append("\n<b>JapaneseTitle</b>: ");
            match &anime_attr.titles.ja_jp {
                Some(s) => t.append(s.as_str()),
                None => t.append("null"),
            }
            t.append("\n<b>Subtype</b>: ");
            let sname = match anime_attr.subtype {
                Some(st) => st.name(),
                None => AnimeSubtype::Unknown.name(),
            };
            t.append(sname);
            t.append("\n<b>Status</b>: ");
            let aname = match anime_attr.status {
                Some(st) => st.name(),
                None => AnimeStatus::Unknown.name(),
            };
            t.append(aname);
            t.append("\n<b>Progress</b>: ");
            let ename = match entry_attr.status {
                Some(st) => st.name(),
                None => EntryStatus::Unknown.name(),
            };
            t.append(ename);
            t.append(" [");
            t.append(i64_to_string(prog).as_str());
            t.append("/");
            let eps: u32 = match anime_attr.episode_count {
                Some(n) => n,
                None => 99,
            };
            t.append(u64_to_string(eps as u64).as_str());
            t.append("]");
            proof {
                let p = pair->0;
                assert(t@ =~= spec_detail_text(p.0, p.1));
            }
            t
        },
    };
    let mut back_row: Vec<InlineKeyboardButton> = Vec::new();
    back_row.push(
        InlineKeyboardButton::with_callback_data(
            String::from_str("Back to List"),
            offset_data(kitsu_id, "0"),
        ),
    );
    buttons.push(back_row);
    (text, buttons)
}

/// Re-parsing the callback data of a detail button recovers exactly the
/// entity id and sub-item id that rendered it.
pub proof fn lemma_detail_data_roundtrip(kitsu_id: i64, anime_id: i64)
    ensures
        spec_parse_query(spec_detail_data(kitsu_id, anime_id)) == Some(
            QueryCommand::Detail { kitsu_id, anime_id },
        ),
{
    reveal_strlit("/");
    reveal_strlit("/offset/");
    reveal_strlit("/detail/");
    reveal_strlit("/progress/");
    let k = dec_str(kitsu_id as int);
    let a = dec_str(anime_id as int);
    lemma_dec_str_seg(kitsu_id as int);
    lemma_dec_str_seg(anime_id as int);
    let d = spec_detail_data(kitsu_id, anime_id);
    assert(d == "/"@ + k + "/detail/"@ + a + "/"@);
    assert(d[0] == '/');
    assert(d.len() > 0);
    let t = d.drop_first();
    let rest = "/detail/"@ + a + "/"@;
    assert(t =~= k + rest);
    assert(rest[0] == '/');
    lemma_pin_split_at(t, k, rest);
    assert(is_i64_seg(k) && int_seg_val(k) == kitsu_id as int);
    // The keyword is `/detail/`, not `/offset/` or `/progress/`.
    assert(rest.subrange(0, 8) =~= "/detail/"@);
    assert(spec_starts_with(rest, "/detail/"@));
    assert(!spec_starts_with(rest, "/offset/"@)) by {
        if spec_starts_with(rest, "/offset/"@) {
            assert(rest.subrange(0, 8)[1] == "/offset/"@[1]);
            assert(rest[1] == 'o');
            assert(rest[1] == 'd');
        }
    }
    // The anime id is the `/`-terminated segment after the keyword.
    let after = rest.skip(8);
    assert(after =~= a + "/"@);
    assert(("/"@)[0] == '/');
    lemma_pin_split_at(after, a, "/"@);
    assert(spec_i64_then_slash(after) == Some(anime_id as int));
    assert(spec_parse_query_tail(kitsu_id as int, rest) == Some(
        QueryCommand::Detail { kitsu_id, anime_id },
    ));
}

/// Re-parsing the callback data of a progress button recovers exactly the
/// ids and the target value that rendered it.
pub proof fn lemma_progress_data_roundtrip(
    kitsu_id: i64,
    anime_id: i64,
    entry_id: i64,
    progress: i64,
)
    ensures
        spec_parse_query(spec_progress_data(kitsu_id, anime_id, entry_id, progress)) == Some(
            QueryCommand::Progress { kitsu_id, anime_id, entry_id, progress },
        ),
{
    reveal_strlit("/");
    reveal_strlit("/offset/");
    reveal_strlit("/detail/");
    reveal_strlit("/progress/");
    let k = dec_str(kitsu_id as int);
    let a = dec_str(anime_id as int);
    let e = dec_str(entry_id as int);
    let p = dec_str(progress as int);
    lemma_dec_str_seg(kitsu_id as int);
    lemma_dec_str_seg(anime_id as int);
    lemma_dec_str_seg(entry_id as int);
    lemma_dec_str_seg(progress as int);
    let d = spec_progress_data(kitsu_id, anime_id, entry_id, progress);
    let rest = "/progress/"@ + a + "/"@ + e + "/"@ + p + "/"@;
    assert(d =~= seq!['/'] + (k + rest));
    assert(d[0] == '/');
    let t = d.drop_first();
    assert(t =~= k + rest);
    assert(rest[0] == '/');
    lemma_pin_split_at(t, k, rest);
    assert(is_i64_seg(k) && int_seg_val(k) == kitsu_id as int);
    // The keyword is `/progress/`, not `/offset/` or `/detail/`.
    assert(rest.subrange(0, 10) =~= "/progress/"@);
    assert(spec_starts_with(rest, "/progress/"@));
    assert(!spec_starts_with(rest, "/offset/"@)) by {
        if spec_starts_with(rest, "/offset/"@) {
            assert(rest.subrange(0, 8)[1] == "/offset/"@[1]);
            assert(rest[1] == 'o');
            assert(rest[1] == 'p');
        }
    }
    assert(!spec_starts_with(rest, "/detail/"@)) by {
        if spec_starts_with(rest, "/detail/"@) {
            assert(rest.subrange(0, 8)[1] == "/detail/"@[1]);
            assert(rest[1] == 'd');
            assert(rest[1] == 'p');
        }
    }
    // The three `/`-terminated segments after the keyword.
    let after = rest.skip(10);
    let r1 = "/"@ + e + "/"@ + p + "/"@;
    assert(after =~= a + r1);
    assert(r1[0] == '/');
    lemma_pin_split_at(after, a, r1);
    let after2 = r1.drop_first();
    let r2 = "/"@ + p + "/"@;
    assert(after2 =~= e + r2);
    assert(r2[0] == '/');
    lemma_pin_split_at(after2, e, r2);
    let after3 = r2.drop_first();
    assert(after3 =~= p + "/"@);
    assert(("/"@)[0] == '/');
    lemma_pin_split_at(after3, p, "/"@);
    assert(spec_i64_then_slash(after3) == Some(progress as int));
    assert(spec_parse_query_tail(kitsu_id as int, rest) == Some(
        QueryCommand::Progress { kitsu_id, anime_id, entry_id, progress },
    ));
}

} // verus!
