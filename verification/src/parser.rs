//! The command grammar: raw message text and callback-data strings parsed
//! into typed commands.
//!
//! Message commands are a leading `/` followed by a fixed keyword; query
//! commands are `/` `<id>` `/` `<keyword>` `/` followed by further
//! `/`-terminated decimal integers. Parsing is total and deterministic: the
//! first alternative whose keyword matches wins, keywords are mutually
//! prefix-free, trailing text after a parsed command is ignored, and
//! unparseable input yields `ParseFailure`, never a partial command.

use vstd::prelude::*;

use crate::decimal::{all_digits, dec_nat_val, digit_val, is_digit};
use crate::decimal::{lemma_dec_nat_val_nonneg, lemma_dec_nat_val_prefix_le};

verus! {

/// The input matches no command of the grammar.
#[derive(Clone, Copy, Debug, PartialEq, Eq)]
pub struct ParseFailure;

/// A command issued as message text.
#[derive(Clone, Copy, Debug, PartialEq, Eq)]
pub enum MsgCommand {
    /// List the caller's current entries.
    List,
    /// Refresh the registered-user directory.
    Update,
}

/// A command issued through inline-button callback data.
#[derive(Clone, Copy, Debug, PartialEq, Eq)]
pub enum QueryCommand {
    /// Show the page of entries starting at `offset`.
    Offset { kitsu_id: i64, offset: i64 },
    /// Show one anime's detail view.
    Detail { kitsu_id: i64, anime_id: i64 },
    /// Set one entry's progress to a target value.
    Progress { kitsu_id: i64, anime_id: i64, entry_id: i64, progress: i64 },
}

/// `p` is a prefix of `s`.
pub open spec fn spec_starts_with(s: Seq<char>, p: Seq<char>) -> bool {
    p.len() <= s.len() && s.subrange(0, p.len() as int) == p
}

/// Position of the first `/` in `s`, if any.
pub open spec fn first_slash(s: Seq<char>) -> Option<int>
    decreases s.len(),
{
    if s.len() == 0 {
        None
    } else if s[0] == '/' {
        Some(0)
    } else {
        match first_slash(s.drop_first()) {
            None => None,
            Some(i) => Some(i + 1),
        }
    }
}

/// `first_slash` names the least position holding `/`.
pub proof fn lemma_first_slash(s: Seq<char>)
    ensures
        match first_slash(s) {
            None => forall|j: int| 0 <= j < s.len() ==> s[j] != '/',
            Some(i) => 0 <= i < s.len() && s[i] == '/' && (forall|j: int|
                0 <= j < i ==> s[j] != '/'),
        },
    decreases s.len(),
{
    if s.len() == 0 {
    } else if s[0] == '/' {
    } else {
        let d = s.drop_first();
        lemma_first_slash(d);
        match first_slash(d) {
            None => {
                assert forall|j: int| 0 <= j < s.len() implies s[j] != '/' by {
                    if j >= 1 {
                        assert(s[j] == d[j - 1]);
                    }
                }
            },
            Some(i0) => {
                assert(s[i0 + 1] == d[i0]);
                assert forall|j: int| 0 <= j < i0 + 1 implies s[j] != '/' by {
                    if j >= 1 {
                        assert(s[j] == d[j - 1]);
                    }
                }
            },
        }
    }
}

/// The segment before the first `/`, and the rest from that `/` on.
pub open spec fn split_slash(s: Seq<char>) -> Option<(Seq<char>, Seq<char>)> {
    match first_slash(s) {
        None => None,
        Some(i) => Some((s.subrange(0, i), s.subrange(i, s.len() as int))),
    }
}

/// The segment is a decimal integer: an optional sign, then digits only.
pub open spec fn is_int_seg(s: Seq<char>) -> bool {
    if s.len() == 0 {
        false
    } else if s[0] == '-' || s[0] == '+' {
        s.len() >= 2 && all_digits(s.drop_first())
    } else {
        all_digits(s)
    }
}

/// Value of a decimal integer segment.
pub open spec fn int_seg_val(s: Seq<char>) -> int {
    if s.len() > 0 && s[0] == '-' {
        -dec_nat_val(s.drop_first())
    } else if s.len() > 0 && s[0] == '+' {
        dec_nat_val(s.drop_first())
    } else {
        dec_nat_val(s)
    }
}

/// The segment is a decimal integer whose value a 64-bit signed integer can
/// hold; an out-of-range value is a parse failure, as the grammar's numbers
/// are machine identifiers.
pub open spec fn is_i64_seg(s: Seq<char>) -> bool {
    is_int_seg(s) && i64::MIN <= int_seg_val(s) <= i64::MAX
}

/// The integer value of the segment ending at the first `/`, if the segment
/// is one.
pub open spec fn spec_i64_then_slash(s: Seq<char>) -> Option<int> {
    match split_slash(s) {
        None => None,
        Some((seg, _)) => if is_i64_seg(seg) {
            Some(int_seg_val(seg))
        } else {
            None
        },
    }
}

/// The message-command grammar: a leading `/` and a fixed keyword; trailing
/// text is ignored.
pub open spec fn spec_parse_message(s: Seq<char>) -> Option<MsgCommand> {
    if spec_starts_with(s, "/list"@) {
        Some(MsgCommand::List)
    } else if spec_starts_with(s, "/update"@) {
        Some(MsgCommand::Update)
    } else {
        None
    }
}

/// The query-command grammar tail, after the entity id: one keyword, then
/// that keyword's `/`-terminated integer arguments.
pub open spec fn spec_parse_query_tail(kitsu_id: int, rest: Seq<char>) -> Option<QueryCommand> {
    if spec_starts_with(rest, "/offset/"@) {
        match spec_i64_then_slash(rest.skip(8)) {
            None => None,
            Some(v) => Some(
                QueryCommand::Offset { kitsu_id: kitsu_id as i64, offset: v as i64 },
            ),
        }
    } else if spec_starts_with(rest, "/detail/"@) {
        match spec_i64_then_slash(rest.skip(8)) {
            None => None,
            Some(v) => Some(
                QueryCommand::Detail { kitsu_id: kitsu_id as i64, anime_id: v as i64 },
            ),
        }
    } else if spec_starts_with(rest, "/progress/"@) {
        match split_slash(rest.skip(10)) {
            None => None,
            Some((aseg, r1)) => if !is_i64_seg(aseg) {
                None
            } else {
                match split_slash(r1.drop_first()) {
                    None => None,
                    Some((eseg, r2)) => if !is_i64_seg(eseg) {
                        None
                    } else {
                        match spec_i64_then_slash(r2.drop_first()) {
                            None => None,
                            Some(p) => Some(
                                QueryCommand::Progress {
                                    kitsu_id: kitsu_id as i64,
                                    anime_id: int_seg_val(aseg) as i64,
                                    entry_id: int_seg_val(eseg) as i64,
                                    progress: p as i64,
                                },
                            ),
                        }
                    },
                }
            },
        }
    } else {
        None
    }
}

/// The query-command grammar: `/`, the entity id up to the next `/`, then
/// the keyword tail.
pub open spec fn spec_parse_query(s: Seq<char>) -> Option<QueryCommand> {
    if s.len() == 0 || s[0] != '/' {
        None
    } else {
        match split_slash(s.drop_first()) {
            None => None,
            Some((kseg, rest)) => if !is_i64_seg(kseg) {
                None
            } else {
                spec_parse_query_tail(int_seg_val(kseg), rest)
            },
        }
    }
}

/// `p` is a prefix of `s` from position `from` on.
fn str_starts_with_at(s: &str, from: usize, p: &str) -> (r: bool)
    requires
        from <= s@.len(),
    ensures
        r == spec_starts_with(s@.skip(from as int), p@),
{
    let n = s.unicode_len();
    let m = p.unicode_len();
    if n - from < m {
        assert(!spec_starts_with(s@.skip(from as int), p@));
        return false;
    }
    let mut j: usize = 0;
    while j < m
        invariant
            0 <= j <= m,
            m <= n - from,
            from + m <= n == s@.len(),
            m == p@.len(),
            forall|jj: int| 0 <= jj < j ==> s@[from + jj] == p@[jj],
        decreases m - j,
    {
        if s.get_char(from + j) != p.get_char(j) {
            assert(s@.skip(from as int)[j as int] != p@[j as int]);
            assert(!spec_starts_with(s@.skip(from as int), p@)) by {
                if spec_starts_with(s@.skip(from as int), p@) {
                    assert(s@.skip(from as int).subrange(0, p@.len() as int)[j as int]
                        == p@[j as int]);
                }
            }
            return false;
        }
        j = j + 1;
    }
    proof {
        assert(s@.skip(from as int).subrange(0, p@.len() as int) =~= p@);
    }
    true
}

/// Index facts pin `first_slash` to the found position.
proof fn lemma_pin_first_slash(t: Seq<char>, i: int)
    requires
        0 <= i < t.len(),
        t[i] == '/',
        forall|j: int| 0 <= j < i ==> t[j] != '/',
    ensures
        first_slash(t) == Some(i),
{
    lemma_first_slash(t);
    match first_slash(t) {
        None => {
            assert(false);
        },
        Some(i0) => {
            if i0 < i {
                assert(t[i0] != '/');
            } else if i0 > i {
                assert(t[i] != '/');
            }
        },
    }
}

/// Absence of `/` pins `first_slash` to `None`.
proof fn lemma_pin_no_slash(t: Seq<char>)
    requires
        forall|j: int| 0 <= j < t.len() ==> t[j] != '/',
    ensures
        first_slash(t) is None,
{
    lemma_first_slash(t);
    match first_slash(t) {
        None => {},
        Some(i0) => {
            assert(t[i0] != '/');
        },
    }
}

/// Position of the first `/` at or after `from`.
fn find_slash(s: &str, from: usize) -> (r: Option<usize>)
    requires
        from <= s@.len(),
    ensures
        match r {
            Some(i) => from <= i < s@.len() && s@[i as int] == '/' && (forall|j: int|
                from <= j < i ==> s@[j] != '/'),
            None => forall|j: int| from <= j < s@.len() ==> s@[j] != '/',
        },
{
    let n = s.unicode_len();
    let mut i = from;
    while i < n
        invariant
            from <= i <= n == s@.len(),
            forall|j: int| from <= j < i ==> s@[j] != '/',
        decreases n - i,
    {
        if s.get_char(i) == '/' {
            return Some(i);
        }
        i = i + 1;
    }
    None
}

/// Parses `s[from..to]` as a decimal integer fitting a 64-bit signed value.
fn parse_i64_seg(s: &str, from: usize, to: usize) -> (r: Option<i64>)
    requires
        from <= to <= s@.len(),
    ensures
        ({
            let seg = s@.subrange(from as int, to as int);
            match r {
                Some(v) => is_i64_seg(seg) && v as int == int_seg_val(seg),
                None => !is_i64_seg(seg),
            }
        }),
{
    if from == to {
        return None;
    }
    let c0 = s.get_char(from);
    let neg = c0 == '-';
    let signed = neg || c0 == '+';
    let digit_start = if signed { from + 1 } else { from };
    if digit_start == to {
        // A bare sign is not an integer.
        proof {
            let seg = s@.subrange(from as int, to as int);
            assert(seg[0] == s@[from as int]);
            assert(seg.len() == 1);
        }
        return None;
    }
    let threshold: u64 = 922337203685477580;
    let last_max: u64 = if neg { 8 } else { 7 };
    let limit: u64 = if neg { 9223372036854775808 } else { 9223372036854775807 };
    let mut acc: u64 = 0;
    let mut i = digit_start;
    proof {
        assert(s@.subrange(digit_start as int, digit_start as int)
            =~= Seq::<char>::empty());
    }
    while i < to
        invariant
            from < to <= s@.len(),
            digit_start <= i <= to,
            digit_start < to,
            signed ==> digit_start == from + 1,
            !signed ==> digit_start == from,
            signed == (s@[from as int] == '-' || s@[from as int] == '+'),
            neg == (s@[from as int] == '-'),
            threshold == 922337203685477580u64,
            last_max == if neg { 8u64 } else { 7u64 },
            limit == if neg { 9223372036854775808u64 } else { 9223372036854775807u64 },
            all_digits(s@.subrange(digit_start as int, i as int)),
            acc as int == dec_nat_val(s@.subrange(digit_start as int, i as int)),
            acc <= limit,
        decreases to - i,
    {
        let ghost seg = s@.subrange(from as int, to as int);
        let ghost digits = s@.subrange(digit_start as int, to as int);
        proof {
            assert(seg[0] == s@[from as int]);
            if signed {
                assert(seg.drop_first() =~= digits);
            } else {
                assert(seg =~= digits);
            }
        }
        let c = s.get_char(i);
        let cv = c as u32;
        if cv < 48 || cv > 57 {
            proof {
                assert(!is_digit(c));
                assert(digits[i - digit_start] == s@[i as int]);
                assert(!all_digits(digits));
                assert(!is_int_seg(seg));
            }
            return None;
        }
        let d = (cv - 48) as u64;
        proof {
            assert(is_digit(c));
            assert(d as int == digit_val(c));
        }
        if acc > threshold || (acc == threshold && d > last_max) {
            proof {
                let pre1 = s@.subrange(digit_start as int, i + 1);
                assert(pre1.drop_last() =~= s@.subrange(digit_start as int, i as int));
                assert(pre1.last() == s@[i as int]);
                assert(dec_nat_val(pre1) == acc * 10 + d);
                assert(dec_nat_val(pre1) > limit);
                if is_i64_seg(seg) {
                    assert(all_digits(digits));
                    assert(pre1 =~= digits.subrange(0, i + 1 - digit_start));
                    lemma_dec_nat_val_prefix_le(digits, i + 1 - digit_start);
                    assert(dec_nat_val(digits) > limit);
                    if neg {
                        assert(int_seg_val(seg) == -dec_nat_val(digits));
                        assert(int_seg_val(seg) < i64::MIN);
                    } else {
                        assert(int_seg_val(seg) == dec_nat_val(digits));
                        assert(int_seg_val(seg) > i64::MAX);
                    }
                }
            }
            return None;
        }
        acc = acc * 10 + d;
        i = i + 1;
        proof {
            let pre = s@.subrange(digit_start as int, i as int);
            assert(pre.drop_last() =~= s@.subrange(digit_start as int, i - 1));
            assert(pre.last() == s@[i - 1]);
            assert(all_digits(pre)) by {
                assert(forall|j: int|
                    0 <= j < pre.len() ==> pre[j] == #[trigger] s@[digit_start + j]);
            }
        }
    }
    proof {
        let seg = s@.subrange(from as int, to as int);
        let digits = s@.subrange(digit_start as int, to as int);
        assert(seg[0] == s@[from as int]);
        if signed {
            assert(seg.drop_first() =~= digits);
        } else {
            assert(seg =~= digits);
        }
        assert(is_int_seg(seg));
        assert(int_seg_val(seg) == if neg {
            -dec_nat_val(digits)
        } else {
            dec_nat_val(digits)
        });
        lemma_dec_nat_val_nonneg(digits);
    }
    if neg {
        if acc == 9223372036854775808 {
            Some(i64::MIN)
        } else {
            Some(-(acc as i64))
        }
    } else {
        Some(acc as i64)
    }
}

/// Parses the `/`-terminated integer segment starting at `from`.
fn parse_i64_then_slash(s: &str, from: usize) -> (r: Option<i64>)
    requires
        from <= s@.len(),
    ensures
        match spec_i64_then_slash(s@.skip(from as int)) {
            Some(v) => r matches Some(x) && x as int == v,
            None => r is None,
        },
{
    let ghost t = s@.skip(from as int);
    match find_slash(s, from) {
        None => {
            proof {
                assert forall|j: int| 0 <= j < t.len() implies t[j] != '/' by {
                    assert(t[j] == s@[from + j]);
                }
                lemma_pin_no_slash(t);
            }
            None
        },
        Some(iend) => {
            proof {
                assert(t[iend - from] == s@[iend as int]);
                assert forall|j: int| 0 <= j < iend - from implies t[j] != '/' by {
                    assert(t[j] == s@[from + j]);
                }
                lemma_pin_first_slash(t, iend - from);
                assert(t.subrange(0, iend - from)
                    =~= s@.subrange(from as int, iend as int));
            }
            parse_i64_seg(s, from, iend)
        },
    }
}

/// Parses callback data as a command.
#[verifier::rlimit(60)]
pub fn parse_query(data: &str) -> (r: Result<QueryCommand, ParseFailure>)
    ensures
        match spec_parse_query(data@) {
            Some(c) => r == Ok::<QueryCommand, ParseFailure>(c),
            None => r == Err::<QueryCommand, ParseFailure>(ParseFailure),
        },
{
    let n = data.unicode_len();
    if n == 0 {
        return Err(ParseFailure);
    }
    if data.get_char(0) != '/' {
        return Err(ParseFailure);
    }
    let ghost t = data@.drop_first();
    let kend = match find_slash(data, 1) {
        None => {
            proof {
                assert forall|j: int| 0 <= j < t.len() implies t[j] != '/' by {
                    assert(t[j] == data@[j + 1]);
                }
                lemma_pin_no_slash(t);
            }
            return Err(ParseFailure);
        },
        Some(i) => i,
    };
    proof {
        assert(t[kend - 1] == data@[kend as int]);
        assert forall|j: int| 0 <= j < kend - 1 implies t[j] != '/' by {
            assert(t[j] == data@[j + 1]);
        }
        lemma_pin_first_slash(t, kend - 1);
        assert(t.subrange(0, kend - 1) =~= data@.subrange(1, kend as int));
        assert(t.subrange(kend - 1, t.len() as int) =~= data@.skip(kend as int));
    }
    let ghost rest = data@.skip(kend as int);
    let kitsu_id = match parse_i64_seg(data, 1, kend) {
        None => {
            return Err(ParseFailure);
        },
        Some(v) => v,
    };
    if str_starts_with_at(data, kend, "/offset/") {
        proof {
            reveal_strlit("/offset/");
            assert(rest.skip(8) =~= data@.skip(kend + 8));
        }
        match parse_i64_then_slash(data, kend + 8) {
            None => Err(ParseFailure),
            Some(v) => Ok(QueryCommand::Offset { kitsu_id, offset: v }),
        }
    } else if str_starts_with_at(data, kend, "/detail/") {
        proof {
            reveal_strlit("/detail/");
            assert(rest.skip(8) =~= data@.skip(kend + 8));
        }
        match parse_i64_then_slash(data, kend + 8) {
            None => Err(ParseFailure),
            Some(v) => Ok(QueryCommand::Detail { kitsu_id, anime_id: v }),
        }
    } else if str_starts_with_at(data, kend, "/progress/") {
        proof {
            reveal_strlit("/progress/");
            assert(rest.skip(10) =~= data@.skip(kend + 10));
        }
        let a_from = kend + 10;
        let ghost ta = data@.skip(a_from as int);
        let a_end = match find_slash(data, a_from) {
            None => {
                proof {
                    assert forall|j: int| 0 <= j < ta.len() implies ta[j] != '/' by {
                        assert(ta[j] == data@[a_from + j]);
                    }
                    lemma_pin_no_slash(ta);
                }
                return Err(ParseFailure);
            },
            Some(i) => i,
        };
        proof {
            assert(ta[a_end - a_from] == data@[a_end as int]);
            assert forall|j: int| 0 <= j < a_end - a_from implies ta[j] != '/' by {
                assert(ta[j] == data@[a_from + j]);
            }
            lemma_pin_first_slash(ta, a_end - a_from);
            assert(ta.subrange(0, a_end - a_from)
                =~= data@.subrange(a_from as int, a_end as int));
            assert(ta.subrange(a_end - a_from, ta.len() as int)
                =~= data@.skip(a_end as int));
            assert(data@.skip(a_end as int).drop_first()
                =~= data@.skip(a_end + 1));
        }
        let anime_id = match parse_i64_seg(data, a_from, a_end) {
            None => {
                return Err(ParseFailure);
            },
            Some(v) => v,
        };
        let e_from = a_end + 1;
        let ghost te = data@.skip(e_from as int);
        let e_end = match find_slash(data, e_from) {
            None => {
                proof {
                    assert forall|j: int| 0 <= j < te.len() implies te[j] != '/' by {
                        assert(te[j] == data@[e_from + j]);
                    }
                    lemma_pin_no_slash(te);
                }
                return Err(ParseFailure);
            },
            Some(i) => i,
        };
        proof {
            assert(te[e_end - e_from] == data@[e_end as int]);
            assert forall|j: int| 0 <= j < e_end - e_from implies te[j] != '/' by {
                assert(te[j] == data@[e_from + j]);
            }
            lemma_pin_first_slash(te, e_end - e_from);
            assert(te.subrange(0, e_end - e_from)
                =~= data@.subrange(e_from as int, e_end as int));
            assert(te.subrange(e_end - e_from, te.len() as int)
                =~= data@.skip(e_end as int));
            assert(data@.skip(e_end as int).drop_first()
                =~= data@.skip(e_end + 1));
        }
        let entry_id = match parse_i64_seg(data, e_from, e_end) {
            None => {
                return Err(ParseFailure);
            },
            Some(v) => v,
        };
        match parse_i64_then_slash(data, e_end + 1) {
            None => Err(ParseFailure),
            Some(progress) => Ok(
                QueryCommand::Progress { kitsu_id, anime_id, entry_id, progress },
            ),
        }
    } else {
        Err(ParseFailure)
    }
}

/// Parses message text as a command.
pub fn parse_message(text: &str) -> (r: Result<MsgCommand, ParseFailure>)
    ensures
        match spec_parse_message(text@) {
            Some(c) => r == Ok::<MsgCommand, ParseFailure>(c),
            None => r == Err::<MsgCommand, ParseFailure>(ParseFailure),
        },
{
    proof {
        assert(text@.skip(0) =~= text@);
    }
    if str_starts_with_at(text, 0, "/list") {
        Ok(MsgCommand::List)
    } else if str_starts_with_at(text, 0, "/update") {
        Ok(MsgCommand::Update)
    } else {
        Err(ParseFailure)
    }
}

} // verus!
