//! The regular accounts listed in the system's account database.

use std::collections::HashMap;
use vstd::prelude::*;

use crate::text::{chars_of, str_equal};

verus! {

broadcast use vstd::std_specs::hash::group_hash_axioms;

/// The pieces of `s` between occurrences of `sep`, as `str::split` yields them: one
/// more piece than there are separators, empty pieces included.
pub open spec fn split_on(s: Seq<char>, sep: char) -> Seq<Seq<char>>
    decreases s.len(),
{
    if s.len() == 0 {
        seq![Seq::empty()]
    } else {
        let prev = split_on(s.drop_last(), sep);
        if s.last() == sep {
            prev.push(Seq::empty())
        } else {
            prev.update(prev.len() - 1, prev.last().push(s.last()))
        }
    }
}

/// `split_on` yields at least one piece.
pub proof fn lemma_split_on_nonempty(s: Seq<char>, sep: char)
    ensures
        split_on(s, sep).len() >= 1,
    decreases s.len(),
{
    if s.len() > 0 {
        lemma_split_on_nonempty(s.drop_last(), sep);
    }
}

/// A line without the carriage return that ends a `\r\n` line ending.
pub open spec fn strip_cr(line: Seq<char>) -> Seq<char> {
    if line.len() > 0 && line.last() == '\r' {
        line.drop_last()
    } else {
        line
    }
}

/// The lines of `s`, as `str::lines` yields them: split at `\n`, each line that a
/// `\n` ends without a `\r` before it, and the last line only when it is not empty.
pub open spec fn text_lines(s: Seq<char>) -> Seq<Seq<char>> {
    let pieces = split_on(s, '\n');
    let ended = pieces.drop_last().map_values(|l: Seq<char>| strip_cr(l));
    if pieces.last().len() == 0 {
        ended
    } else {
        ended.push(pieces.last())
    }
}

/// A decimal digit character.
pub open spec fn is_digit(c: char) -> bool {
    '0' <= c && c <= '9'
}

/// The value of a string of decimal digits.
pub open spec fn digits_value(s: Seq<char>) -> int
    decreases s.len(),
{
    if s.len() == 0 {
        0
    } else {
        digits_value(s.drop_last()) * 10 + ((s.last() as int) - ('0' as int))
    }
}

/// The text after the optional leading `+`.
pub open spec fn unsigned_digits(s: Seq<char>) -> Seq<char> {
    if s.len() > 0 && s[0] == '+' {
        s.subrange(1, s.len() as int)
    } else {
        s
    }
}

/// Every character is a decimal digit.
pub open spec fn all_digits(d: Seq<char>) -> bool {
    forall|i: int| 0 <= i < d.len() ==> is_digit(#[trigger] d[i])
}

/// What `str::parse::<u32>` gives: an optional `+` followed by one or more decimal
/// digits whose value fits in 32 bits.
pub open spec fn parse_u32_text(s: Seq<char>) -> Option<u32> {
    let d = unsigned_digits(s);
    if d.len() > 0 && all_digits(d) && digits_value(d) <= u32::MAX {
        Some(digits_value(d) as u32)
    } else {
        None
    }
}

proof fn lemma_digits_value_grows(d: Seq<char>, k: int)
    requires
        0 <= k <= d.len(),
        forall|i: int| 0 <= i < d.len() ==> is_digit(#[trigger] d[i]),
    ensures
        0 <= digits_value(d.subrange(0, k)) <= digits_value(d),
    decreases d.len() - k,
{
    if k < d.len() {
        lemma_digits_value_grows(d, k + 1);
        assert(d.subrange(0, k + 1).drop_last() =~= d.subrange(0, k));
        assert(is_digit(d[k]));
    } else {
        assert(d.subrange(0, k) =~= d);
        lemma_digits_value_nonneg(d);
    }
}

proof fn lemma_digits_value_nonneg(d: Seq<char>)
    requires
        forall|i: int| 0 <= i < d.len() ==> is_digit(#[trigger] d[i]),
    ensures
        0 <= digits_value(d),
    decreases d.len(),
{
    if d.len() > 0 {
        assert(is_digit(d[d.len() - 1]));
        lemma_digits_value_nonneg(d.drop_last());
    }
}

/// Parses the characters `v[lo..hi]` as `str::parse::<u32>` does.
fn parse_u32_range(v: &Vec<char>, lo: usize, hi: usize) -> (r: Option<u32>)
    requires
        lo <= hi <= v@.len(),
    ensures
        r == parse_u32_text(v@.subrange(lo as int, hi as int)),
{
    let ghost s = v@.subrange(lo as int, hi as int);
    let mut start: usize = lo;
    if lo < hi && v[lo] == '+' {
        start = lo + 1;
    }
    let ghost d = v@.subrange(start as int, hi as int);
    assert(d =~= unsigned_digits(s));
    if start == hi {
        return None;
    }
    let mut acc: u64 = 0;
    let mut j: usize = start;
    while j < hi
        invariant
            lo <= start <= j <= hi <= v@.len(),
            d == v@.subrange(start as int, hi as int),
            d.len() > 0,
            s == v@.subrange(lo as int, hi as int),
            d == unsigned_digits(s),
            forall|i: int| 0 <= i < j - start ==> is_digit(#[trigger] d[i]),
            acc == digits_value(d.subrange(0, j - start)),
            acc <= u32::MAX,
        decreases hi - j,
    {
        let c: char = v[j];
        if !('0' <= c && c <= '9') {
            assert(!is_digit(d[j - start]));
            return None;
        }
        let ghost pre = d.subrange(0, j - start);
        assert(d.subrange(0, j - start + 1).drop_last() =~= pre);
        assert(d.subrange(0, j - start + 1).last() == c);
        acc = acc * 10 + ((c as u32) - ('0' as u32)) as u64;
        if acc > u32::MAX as u64 {
            proof {
                if all_digits(d) {
                    lemma_digits_value_grows(d, j - start + 1);
                }
            }
            return None;
        }
        j = j + 1;
    }
    assert(d.subrange(0, j - start) =~= d);
    Some(acc as u32)
}

/// The characters of `v` between each pair of bounds.
pub open spec fn range_texts(v: Seq<char>, ranges: Seq<(usize, usize)>) -> Seq<Seq<char>> {
    ranges.map_values(|p: (usize, usize)| v.subrange(p.0 as int, p.1 as int))
}

/// Splits `v[lo..hi]` at `sep`, handing back each piece as the bounds of its characters in `v`.
fn split_ranges(v: &Vec<char>, lo: usize, hi: usize, sep: char) -> (r: Vec<(usize, usize)>)
    requires
        lo <= hi <= v@.len(),
    ensures
        range_texts(v@, r@) == split_on(v@.subrange(lo as int, hi as int), sep),
        forall|k: int| 0 <= k < r@.len() ==> lo <= (#[trigger] r@[k]).0 <= r@[k].1 <= hi,
{
    let mut done: Vec<(usize, usize)> = Vec::new();
    let mut cur: usize = lo;
    let mut i: usize = lo;
    assert(v@.subrange(lo as int, lo as int) =~= Seq::<char>::empty());
    assert(range_texts(v@, done@).push(v@.subrange(cur as int, i as int)) =~= seq![
        Seq::<char>::empty(),
    ]);
    while i < hi
        invariant
            lo <= cur <= i <= hi <= v@.len(),
            range_texts(v@, done@).push(v@.subrange(cur as int, i as int)) == split_on(
                v@.subrange(lo as int, i as int),
                sep,
            ),
            forall|k: int| 0 <= k < done@.len() ==> lo <= (#[trigger] done@[k]).0 <= done@[k].1 <= cur,
        decreases hi - i,
    {
        let ghost prev = v@.subrange(lo as int, i as int);
        assert(v@.subrange(lo as int, i as int + 1).drop_last() =~= prev);
        assert(v@.subrange(lo as int, i as int + 1).last() == v@[i as int]);
        if v[i] == sep {
            done.push((cur, i));
            cur = i + 1;
            assert(v@.subrange(cur as int, cur as int) =~= Seq::<char>::empty());
            assert(range_texts(v@, done@) =~= range_texts(v@, done@.drop_last()).push(
                v@.subrange(done@.last().0 as int, i as int),
            ));
        } else {
            assert(v@.subrange(cur as int, i as int + 1) =~= v@.subrange(cur as int, i as int).push(
                v@[i as int],
            ));
        }
        i = i + 1;
        assert(range_texts(v@, done@).push(v@.subrange(cur as int, i as int)) =~= split_on(
            v@.subrange(lo as int, i as int),
            sep,
        ));
    }
    done.push((cur, i));
    assert(range_texts(v@, done@) =~= range_texts(v@, done@.drop_last()).push(
        v@.subrange(cur as int, i as int),
    ));
    done
}

/// The account that a line of the account database describes, when it is a regular
/// account: at least three `:`-separated fields, a numeric id from 1000 to 59999
/// in the third, and a name other than `nobody` in the first.
pub open spec fn passwd_entry(line: Seq<char>) -> Option<(u32, Seq<char>)> {
    let fields = split_on(line, ':');
    if fields.len() >= 3 {
        match parse_u32_text(fields[2]) {
            Some(uid) => if 1000 <= uid < 60000 && fields[0] != "nobody"@ {
                Some((uid, fields[0]))
            } else {
                None
            },
            None => None,
        }
    } else {
        None
    }
}

/// The regular accounts of a list of lines, by id; a later line for the same id
/// replaces an earlier one.
pub open spec fn users_of_lines(lines: Seq<Seq<char>>) -> Map<u32, Seq<char>>
    decreases lines.len(),
{
    if lines.len() == 0 {
        Map::empty()
    } else {
        let m = users_of_lines(lines.drop_last());
        match passwd_entry(lines.last()) {
            Some((uid, name)) => m.insert(uid, name),
            None => m,
        }
    }
}

/// The regular accounts that the text of an account database lists, by id.
pub open spec fn system_users_of(content: Seq<char>) -> Map<u32, Seq<char>> {
    users_of_lines(text_lines(content))
}

/// The names of a map of accounts.
pub open spec fn user_names(m: Map<u32, String>) -> Map<u32, Seq<char>> {
    m.map_values(|s: String| s@)
}

fn add_line_account(
    content: &str,
    v: &Vec<char>,
    lo: usize,
    hi: usize,
    map: &mut HashMap<u32, String>,
)
    requires
        v@ == content@,
        lo <= hi <= v@.len(),
    ensures
        user_names(final(map)@) == match passwd_entry(v@.subrange(lo as int, hi as int)) {
            Some((uid, name)) => user_names(old(map)@).insert(uid, name),
            None => user_names(old(map)@),
        },
{
    let fields = split_ranges(v, lo, hi, ':');
    proof { lemma_split_on_nonempty(v@.subrange(lo as int, hi as int), ':'); }
    if fields.len() < 3 {
        return;
    }
    let f0 = fields[0];
    let f2 = fields[2];
    assert(range_texts(v@, fields@)[2] == v@.subrange(f2.0 as int, f2.1 as int));
    assert(range_texts(v@, fields@)[0] == v@.subrange(f0.0 as int, f0.1 as int));
    match parse_u32_range(v, f2.0, f2.1) {
        Some(uid) => {
            if 1000 <= uid && uid < 60000 {
                let name = content.substring_char(f0.0, f0.1).to_owned();
                if !str_equal(name.as_str(), "nobody") {
                    map.insert(uid, name);
                    assert(user_names(map@) =~= user_names(old(map)@).insert(uid, name@));
                }
            }
        },
        None => {},
    }
}

/// The regular accounts that the text of the account database lists: for every line
/// with at least three `:`-separated fields whose third is an id from 1000 to 59999
/// and whose first is not `nobody`, the id mapped to that name.
pub fn parse_system_users(content: &str) -> (m: HashMap<u32, String>)
    ensures
        user_names(m@) == system_users_of(content@),
{
    let v = chars_of(content);
    let n: usize = v.len();
    let pieces = split_ranges(&v, 0, n, '\n');
    let ghost texts = range_texts(v@, pieces@);
    proof {
        assert(v@.subrange(0, n as int) =~= v@);
        lemma_split_on_nonempty(v@, '\n');
    }
    let ghost lines = text_lines(content@);
    let ghost ended = texts.drop_last().map_values(|l: Seq<char>| strip_cr(l));
    let mut map: HashMap<u32, String> = HashMap::new();
    assert(user_names(map@) =~= Map::<u32, Seq<char>>::empty());
    let mut k: usize = 0;
    let last: usize = pieces.len() - 1;
    while k < last
        invariant
            v@ == content@,
            n == v@.len(),
            texts == range_texts(v@, pieces@),
            texts == split_on(v@, '\n'),
            texts.len() >= 1,
            pieces@.len() == texts.len(),
            forall|j: int| 0 <= j < pieces@.len() ==> 0 <= (#[trigger] pieces@[j]).0 <= pieces@[j].1 <= n,
            ended == texts.drop_last().map_values(|l: Seq<char>| strip_cr(l)),
            last == pieces@.len() - 1,
            k <= last,
            user_names(map@) == users_of_lines(ended.take(k as int)),
        decreases pieces.len() - k,
    {
        let (a, b) = pieces[k];
        assert(texts[k as int] == v@.subrange(a as int, b as int));
        let mut end: usize = b;
        if a < b && v[b - 1] == '\r' {
            end = b - 1;
        }
        assert(v@.subrange(a as int, end as int) =~= strip_cr(texts[k as int]));
        add_line_account(content, &v, a, end, &mut map);
        assert(ended.take(k as int + 1).drop_last() =~= ended.take(k as int));
        assert(ended.take(k as int + 1).last() == strip_cr(texts[k as int]));
        k = k + 1;
    }
    assert(ended.take(k as int) =~= ended);
    let (a, b) = pieces[k];
    assert(texts.last() == v@.subrange(a as int, b as int));
    if a < b {
        add_line_account(content, &v, a, b, &mut map);
        assert(lines == ended.push(texts.last()));
        assert(lines.drop_last() =~= ended);
    } else {
        assert(lines == ended);
    }
    map
}


/// Every account listed is a regular one: its id is from 1000 to 59999 and its name is
/// not `nobody`; and the name is the first field of a line of the database.
pub proof fn law_only_regular_accounts(lines: Seq<Seq<char>>)
    ensures
        forall|uid: u32| #[trigger] users_of_lines(lines).contains_key(uid) ==> {
            &&& 1000 <= uid < 60000
            &&& users_of_lines(lines)[uid] != "nobody"@
            &&& exists|i: int| 0 <= i < lines.len() && passwd_entry(#[trigger] lines[i]) == Some(
                (uid, users_of_lines(lines)[uid]),
            )
        },
    decreases lines.len(),
{
    if lines.len() > 0 {
        let prev = lines.drop_last();
        law_only_regular_accounts(prev);
        assert forall|uid: u32| #[trigger] users_of_lines(lines).contains_key(uid) implies {
            &&& 1000 <= uid < 60000
            &&& users_of_lines(lines)[uid] != "nobody"@
            &&& exists|i: int| 0 <= i < lines.len() && passwd_entry(#[trigger] lines[i]) == Some(
                (uid, users_of_lines(lines)[uid]),
            )
        } by {
            let m = users_of_lines(prev);
            match passwd_entry(lines.last()) {
                Some((u, name)) => {
                    if uid == u {
                        assert(passwd_entry(lines[lines.len() - 1]) == Some((uid, name)));
                    } else {
                        let i = choose|i: int| 0 <= i < prev.len() && passwd_entry(#[trigger] prev[i]) == Some((uid, m[uid]));
                        assert(lines[i] == prev[i]);
                    }
                },
                None => {
                    let i = choose|i: int| 0 <= i < prev.len() && passwd_entry(#[trigger] prev[i]) == Some((uid, m[uid]));
                    assert(lines[i] == prev[i]);
                },
            }
        }
    }
}


/// The account a line of `/etc/passwd` lists, read as the original reads it: split at
/// `:`, at least three fields, the third parsing as a `u32` from 1000 to 59999 and the
/// first not `nobody`; the account is that id with the first field as its name.
pub open spec fn listed_account(line: Seq<char>) -> Option<(u32, Seq<char>)> {
    let fields = split_on(line, ':');
    if fields.len() >= 3 && parse_u32_text(fields[2]) is Some {
        let uid = parse_u32_text(fields[2])->Some_0;
        if 1000 <= uid && uid < 60000 && fields[0] != "nobody"@ {
            Some((uid, fields[0]))
        } else {
            None
        }
    } else {
        None
    }
}

/// No regular account is left out: the id of every line that lists one is in the
/// result, and its name there is that of the last line listing that id.
pub proof fn law_every_regular_account_listed(lines: Seq<Seq<char>>)
    ensures
        forall|i: int| 0 <= i < lines.len() && (#[trigger] listed_account(lines[i])) is Some ==> {
            let (uid, name) = listed_account(lines[i])->Some_0;
            &&& users_of_lines(lines).contains_key(uid)
            &&& (forall|j: int| i < j < lines.len() ==> !(#[trigger] listed_account(lines[j]) matches Some((u, _)) && u == uid))
                ==> users_of_lines(lines)[uid] == name
        },
    decreases lines.len(),
{
    if lines.len() > 0 {
        let prev = lines.drop_last();
        law_every_regular_account_listed(prev);
        let n = lines.len() - 1;
        assert(listed_account(lines[n]) == passwd_entry(lines.last()));
        assert forall|i: int| 0 <= i < lines.len() && (#[trigger] listed_account(lines[i])) is Some implies {
            let (uid, name) = listed_account(lines[i])->Some_0;
            &&& users_of_lines(lines).contains_key(uid)
            &&& (forall|j: int| i < j < lines.len() ==> !(#[trigger] listed_account(lines[j]) matches Some((u, _)) && u == uid))
                ==> users_of_lines(lines)[uid] == name
        } by {
            if i < n {
                assert(prev[i] == lines[i]);
                let (uid, name) = listed_account(lines[i])->Some_0;
                if forall|j: int| i < j < lines.len() ==> !(#[trigger] listed_account(lines[j]) matches Some((u, _)) && u == uid) {
                    assert forall|j: int| i < j < prev.len() implies !(#[trigger] listed_account(prev[j]) matches Some((u, _)) && u == uid) by {
                        assert(prev[j] == lines[j]);
                    }
                    assert(!(listed_account(lines[n]) matches Some((u, _)) && u == uid));
                }
            }
        }
    }
}

} // verus!
