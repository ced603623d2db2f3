//! What the operations on texts, numbers and JSON values come to.
use crate::decimal::{self, parse_signed, parse_unsigned, signed_to_text, unsigned_to_text};
use crate::json::{self, integer, Json, JsonView};
use crate::text::{
    self, contains, contains_char, find_char, join, joined, replace_all, same, same_ignoring_case,
    split_char, split_on, starts_with, strip_prefix, strip_suffix, to_ascii_uppercase, trim,
};
use crate::types::{saturating_add, Timestamp};
use vstd::prelude::*;

verus! {

/// A text is trimmed by taking white space off both of its ends, and all of it.
pub proof fn law_trimmed_texts(s: &str, r: String)
    requires
        call_ensures(trim, (s,), r),
    ensures
        exists|a: int, b: int|
            0 <= a <= b <= s@.len() && #[trigger] s@.subrange(a, b) == r@ && (forall|k: int|
                0 <= k < a ==> text::is_white(#[trigger] s@[k])) && (forall|k: int|
                b <= k < s@.len() ==> text::is_white(#[trigger] s@[k])),
        r@.len() > 0 ==> !text::is_white(r@[0]) && !text::is_white(r@.last()),
{
    let a = lemma_trim_start(s@);
    let t = text::trim_start(s@);
    let b = lemma_trim_end(t);
    assert(s@.subrange(a, a + b) =~= r@);
    assert forall|k: int| a + b <= k < s@.len() implies text::is_white(#[trigger] s@[k]) by {
        assert(t[k - a] == s@[k]);
    }
    if r@.len() > 0 {
        assert(r@[0] == t[0]);
    }
}

proof fn lemma_trim_start(s: Seq<char>) -> (a: int)
    ensures
        0 <= a <= s.len(),
        text::trim_start(s) == s.skip(a),
        forall|k: int| 0 <= k < a ==> text::is_white(#[trigger] s[k]),
        a < s.len() ==> !text::is_white(s[a]),
    decreases s.len(),
{
    if s.len() > 0 && text::is_white(s[0]) {
        let b = lemma_trim_start(s.drop_first());
        assert(s.drop_first().skip(b) =~= s.skip(b + 1));
        assert forall|k: int| 0 <= k < b + 1 implies text::is_white(#[trigger] s[k]) by {
            if k > 0 {
                assert(s.drop_first()[k - 1] == s[k]);
            }
        }
        b + 1
    } else {
        assert(s.skip(0) =~= s);
        0
    }
}

proof fn lemma_trim_end(s: Seq<char>) -> (b: int)
    ensures
        0 <= b <= s.len(),
        text::trim_end(s) == s.take(b),
        forall|k: int| b <= k < s.len() ==> text::is_white(#[trigger] s[k]),
        b > 0 ==> !text::is_white(s[b - 1]),
    decreases s.len(),
{
    if s.len() > 0 && text::is_white(s.last()) {
        let b = lemma_trim_end(s.drop_last());
        assert(s.drop_last().take(b) =~= s.take(b));
        assert forall|k: int| b <= k < s.len() implies text::is_white(#[trigger] s[k]) by {
            if k < s.len() - 1 {
                assert(s.drop_last()[k] == s[k]);
            }
        }
        b
    } else {
        assert(s.take(s.len() as int) =~= s);
        s.len() as int
    }
}

/// A text that is split at a character and joined with it is the text again, and no piece holds the
/// character.
pub proof fn law_split_and_join(
    s: &str,
    c: char,
    parts: Vec<String>,
    sep: &str,
    r: String,
    i: int,
)
    requires
        call_ensures(split_char, (s, c), parts),
        sep@ == seq![c],
        call_ensures(join, (&parts, sep), r),
    ensures
        r@ == s@,
        parts@.len() >= 1,
        0 <= i < parts@.len() ==> !parts@[i]@.contains(c),
{
    lemma_split_and_join(s@, c);
    if 0 <= i < parts@.len() {
        assert(parts.deep_view()[i] == parts@[i]@);
    }
}

proof fn lemma_split_and_join(s: Seq<char>, c: char)
    ensures
        joined(split_on(s, c), seq![c]) == s,
        split_on(s, c).len() >= 1,
        forall|i: int| 0 <= i < split_on(s, c).len() ==> !(#[trigger] split_on(s, c)[i]).contains(c),
    decreases s.len(),
{
    let n = text::before_char(s, c);
    text::lemma_before_char_bounds(s, c);
    if n < 0 || n >= s.len() {
        let one = seq![s];
        assert(one[0] == s);
        if s.contains(c) {
            let k = choose|k: int| 0 <= k < s.len() && s[k] == c;
            assert(s[k] != c);
        }
    } else {
        let head = s.take(n);
        let rest = split_on(s.skip(n + 1), c);
        lemma_split_and_join(s.skip(n + 1), c);
        lemma_join_head(head, rest, seq![c]);
        assert(s =~= head + seq![c] + s.skip(n + 1));
        let all = split_on(s, c);
        assert forall|i: int| 0 <= i < all.len() implies !(#[trigger] all[i]).contains(c) by {
            if i == 0 {
                assert(all[0] == head);
                if head.contains(c) {
                    let k = choose|k: int| 0 <= k < head.len() && head[k] == c;
                    assert(s[k] == c);
                }
            } else {
                assert(all[i] == rest[i - 1]);
            }
        }
    }
}

proof fn lemma_join_head(head: Seq<char>, rest: Seq<Seq<char>>, sep: Seq<char>)
    requires
        rest.len() >= 1,
    ensures
        joined(seq![head] + rest, sep) == head + sep + joined(rest, sep),
    decreases rest.len(),
{
    let all = seq![head] + rest;
    if rest.len() == 1 {
        assert(all.drop_last() =~= seq![head]);
        assert(all.last() == rest[0]);
        reveal_with_fuel(joined, 2);
        assert(joined(all, sep) == joined(seq![head], sep) + sep + rest[0]);
    } else {
        assert(all.drop_last() =~= seq![head] + rest.drop_last());
        assert(all.last() == rest.last());
        lemma_join_head(head, rest.drop_last(), sep);
        assert(joined(all, sep) =~= head + sep + joined(rest, sep));
    }
}

/// The first occurrence of a text is replaced, what stands before it stays, and what comes after it is
/// replaced in turn; a text in which nothing begins as the other does stays as it is.
pub proof fn law_replaced_texts(s: Seq<char>, p: Seq<char>, w: Seq<char>, t: Seq<char>)
    requires
        p.len() > 0,
        forall|k: int| 0 <= k < s.len() ==> s[k] != p[0],
    ensures
        replace_all(s + p + t, p, w) == s + w + replace_all(t, p, w),
        replace_all(s, p, w) == s,
    decreases s.len(),
{
    let all = s + p + t;
    if s.len() == 0 {
        assert(all =~= p + t);
        assert(p.is_prefix_of(all));
        assert(all.skip(p.len() as int) =~= t);
        assert(s + w + replace_all(t, p, w) =~= w + replace_all(t, p, w));
    } else {
        let u = s.drop_first();
        assert(all[0] == s[0]);
        if p.is_prefix_of(all) {
            assert(all[0] == p[0]);
        }
        if p.is_prefix_of(s) {
            assert(s[0] == p[0]);
        }
        assert(all.skip(1) =~= u + p + t);
        assert(s.skip(1) =~= u);
        assert forall|k: int| 0 <= k < u.len() implies u[k] != p[0] by {
            assert(u[k] == s[k + 1]);
        }
        law_replaced_texts(u, p, w, t);
        assert(seq![s[0]] + (u + w + replace_all(t, p, w)) =~= s + w + replace_all(t, p, w));
        assert(seq![s[0]] + u =~= s);
    }
}

/// How texts are compared and taken apart.
pub proof fn law_parts_of_texts(
    s: &str,
    p: &str,
    c: char,
    eq: bool,
    begins: bool,
    tail: Option<&str>,
    head: Option<String>,
    found: bool,
    part: bool,
    at: Option<usize>,
)
    requires
        call_ensures(same, (s, p), eq),
        call_ensures(starts_with, (s, p), begins),
        call_ensures(strip_prefix, (s, p), tail),
        call_ensures(strip_suffix, (s, p), head),
        call_ensures(contains_char, (s, c), found),
        call_ensures(contains, (s, p), part),
        call_ensures(find_char, (s, c), at),
    ensures
        eq <==> s@ == p@,
        begins <==> tail is Some,
        tail is Some ==> s@ == p@ + tail->0@,
        (exists|t: Seq<char>| s@ == #[trigger] (p@ + t)) ==> tail is Some,
        head is Some ==> s@ == head->0@ + p@,
        (exists|t: Seq<char>| s@ == #[trigger] (t + p@)) ==> head is Some,
        found <==> exists|k: int| 0 <= k < s@.len() && s@[k] == c,
        begins ==> part,
        at is Some ==> at->0 < s@.len() && s@[at->0 as int] == c && forall|k: int|
            0 <= k < at->0 ==> s@[k] != c,
        at is None ==> !found,
{
    assert(tail.deep_view() is Some <==> tail is Some);
    assert(head.deep_view() is Some <==> head is Some);
    if tail is Some {
        assert(s@ =~= p@ + tail->0@);
    }
    if head is Some {
        assert(s@ =~= head->0@ + p@);
    }
    if exists|t: Seq<char>| s@ == #[trigger] (p@ + t) {
        let t = choose|t: Seq<char>| s@ == #[trigger] (p@ + t);
        assert(p@.is_prefix_of(s@));
        assert(s@.take(p@.len() as int) =~= p@);
    }
    if exists|t: Seq<char>| s@ == #[trigger] (t + p@) {
        let t = choose|t: Seq<char>| s@ == #[trigger] (t + p@);
        assert(s@.skip(s@.len() - p@.len()) =~= p@);
    }
    if begins {
        assert(s@.subrange(0, p@.len() as int) =~= p@);
        assert(text::occurs_at(s@, p@, 0));
    }
    text::lemma_before_char_bounds(s@, c);
}

/// To write a text in upper case changes its small letters only, and texts are the same but for case where
/// that makes them equal.
pub proof fn law_upper_case(a: &str, b: &str, r: String, alike: bool, i: int)
    requires
        call_ensures(to_ascii_uppercase, (a,), r),
        call_ensures(same_ignoring_case, (a, b), alike),
    ensures
        r@.len() == a@.len(),
        0 <= i < a@.len() && !('a' <= a@[i] <= 'z') ==> r@[i] == a@[i],
        0 <= i < a@.len() && 'a' <= a@[i] <= 'z' ==> r@[i] as u32 == a@[i] as u32 - 32,
        a@ == b@ ==> alike,
        alike ==> a@.len() == b@.len(),
{
    if alike {
        assert(text::ascii_upper_all(a@).len() == text::ascii_upper_all(b@).len());
    }
}

/// A number that is written is read back, signed or not, where it is within the bound.
pub proof fn law_numbers_are_read_back(
    n: u64,
    i: i64,
    max: u64,
    nt: String,
    it: String,
    ns: &str,
    is_: &str,
    nr: Option<u64>,
    ir: Option<i64>,
)
    requires
        call_ensures(unsigned_to_text, (n,), nt),
        call_ensures(signed_to_text, (i,), it),
        ns@ == nt@,
        is_@ == it@,
        call_ensures(parse_unsigned, (ns, max), nr),
        call_ensures(parse_signed, (is_,), ir),
    ensures
        n <= max ==> nr == Some(n),
        n > max ==> nr is None,
        ir == Some(i),
{
    if n <= max {
        decimal::law_decimal_reads_back(n as nat, max as int);
    } else {
        decimal::law_decimal_reads_back(n as nat, u64::MAX as int);
    }
    decimal::law_integer_text_reads_back(i);
}

/// A JSON integer tells its number, a copy tells the same, and of several members of a name the last one
/// counts.
pub proof fn law_json_values(
    n: i64,
    j: Json,
    v: &Json,
    copy: Json,
    members: Seq<(Seq<char>, JsonView)>,
    name: Seq<char>,
    x: JsonView,
    other: Seq<char>,
)
    requires
        call_ensures(integer, (n,), j),
        call_ensures(Json::duplicate, (v,), copy),
        name != other,
    ensures
        j@.signed() == Some(n),
        copy@ == v@,
        JsonView::Object(members.push((name, x))).member(name) == Some(x),
        JsonView::Object(members.push((other, x))).member(name) == JsonView::Object(members).member(
            name,
        ),
        JsonView::Object(Seq::empty()).member(name) is None,
{
    assert(members.push((name, x)).drop_last() =~= members);
    assert(members.push((other, x)).drop_last() =~= members);
    reveal_with_fuel(json::last_named, 2);
}

/// Sums are exact where they fit, and held at the ends of the range where they do not.
pub proof fn law_sums_are_held(a: i64, b: i64, r: i64, t: Timestamp, later: Timestamp)
    requires
        call_ensures(saturating_add, (a, b), r),
        call_ensures(Timestamp::add_seconds, (t, b), later),
        t.0 == a,
    ensures
        i64::MIN <= a + b <= i64::MAX ==> r == a + b,
        a + b > i64::MAX ==> r == i64::MAX,
        a + b < i64::MIN ==> r == i64::MIN,
        later.0 == r,
{
}

} // verus!
