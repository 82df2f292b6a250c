//! Small operations on text, stated over its characters.

use vstd::prelude::*;
use vstd::string::*;

verus! {

/// Whether two pieces of text are the same.
pub fn same(a: &str, b: &str) -> (r: bool)
    ensures
        r == (a@ == b@),
{
    a.to_owned() == b.to_owned()
}

/// The characters of a text that may be missing.
pub open spec fn opt_text(t: Option<String>) -> Option<Seq<char>> {
    match t {
        Some(s) => Some(s@),
        None => None,
    }
}

/// A copy of a text that may be missing.
pub fn copy_opt(t: &Option<String>) -> (r: Option<String>)
    ensures
        opt_text(r) == opt_text(*t),
{
    match t {
        Some(s) => Some(s.clone()),
        None => None,
    }
}

/// The characters of a borrowed text that may be missing.
pub open spec fn opt_str(t: Option<&str>) -> Option<Seq<char>> {
    match t {
        Some(s) => Some(s@),
        None => None,
    }
}

/// A copy of a borrowed text that may be missing.
pub fn own_opt(t: Option<&str>) -> (r: Option<String>)
    ensures
        opt_text(r) == opt_str(t),
{
    match t {
        Some(s) => Some(s.to_owned()),
        None => None,
    }
}

/// The characters of each text of a list.
pub open spec fn texts(v: Seq<String>) -> Seq<Seq<char>> {
    v.map_values(|s: String| s@)
}

/// A copy of a list of texts.
pub fn copy_texts(v: &Vec<String>) -> (r: Vec<String>)
    ensures
        texts(r@) == texts(v@),
{
    let mut r: Vec<String> = Vec::new();
    let mut i: usize = 0;
    while i < v.len()
        invariant
            i <= v@.len(),
            r@.len() == i,
            forall|j: int| 0 <= j < i ==> (#[trigger] r@[j])@ == v@[j]@,
        decreases v@.len() - i,
    {
        r.push(v[i].clone());
        i += 1;
    }
    assert(texts(r@) =~= texts(v@));
    r
}

/// `part` stands in `s` at position `i`.
pub open spec fn occurs_at(s: Seq<char>, part: Seq<char>, i: int) -> bool {
    0 <= i && i + part.len() <= s.len() && s.subrange(i, i + part.len()) == part
}

/// `part` stands somewhere in `s`.
pub open spec fn occurs_in(s: Seq<char>, part: Seq<char>) -> bool {
    exists|i: int| occurs_at(s, part, i)
}

/// Whether `s` starts with `prefix`.
pub fn starts_with(s: &str, prefix: &str) -> (r: bool)
    ensures
        r == occurs_at(s@, prefix@, 0),
{
    let n = prefix.unicode_len();
    if n <= s.unicode_len() {
        same(s.substring_char(0, n), prefix)
    } else {
        false
    }
}

/// What follows `prefix` in `s`, if `s` starts with it.
pub open spec fn after_prefix(s: Seq<char>, prefix: Seq<char>) -> Option<Seq<char>> {
    if occurs_at(s, prefix, 0) {
        Some(s.skip(prefix.len() as int))
    } else {
        None
    }
}

/// What follows `prefix` in `s`, if `s` starts with it.
pub fn strip_prefix(s: &str, prefix: &str) -> (r: Option<String>)
    ensures
        match r {
            Some(t) => after_prefix(s@, prefix@) == Some(t@),
            None => after_prefix(s@, prefix@) is None,
        },
{
    if starts_with(s, prefix) {
        let t = s.substring_char(prefix.unicode_len(), s.unicode_len());
        assert(t@ == s@.skip(prefix@.len() as int));
        Some(t.to_owned())
    } else {
        None
    }
}

/// The last position at which `part` stands in `s`.
pub fn find_last(s: &str, part: &str) -> (r: Option<usize>)
    ensures
        match r {
            Some(i) => occurs_at(s@, part@, i as int) && forall|j: int|
                occurs_at(s@, part@, j) ==> j <= i,
            None => !occurs_in(s@, part@),
        },
{
    let n = s.unicode_len();
    let m = part.unicode_len();
    if m > n {
        return None;
    }
    let mut i: usize = n - m;
    loop
        invariant
            n == s@.len(),
            m == part@.len(),
            i + m <= n,
            forall|j: int| occurs_at(s@, part@, j) ==> j <= i,
        decreases i,
    {
        if same(s.substring_char(i, i + m), part) {
            return Some(i);
        }
        if i == 0 {
            return None;
        }
        i -= 1;
    }
}

/// Whether `part` stands somewhere in `s`.
pub fn contains(s: &str, part: &str) -> (r: bool)
    ensures
        r == occurs_in(s@, part@),
{
    find_last(s, part).is_some()
}

/// The characters with Unicode's `White_Space` property.
pub open spec fn white_space(c: char) -> bool {
    let n = c as u32;
    9 <= n <= 13 || n == 0x20 || n == 0x85 || n == 0xa0 || n == 0x1680 || 0x2000 <= n <= 0x200a
        || n == 0x2028 || n == 0x2029 || n == 0x202f || n == 0x205f || n == 0x3000
}

/// Whether a character is white space.
pub fn is_white_space(c: char) -> (r: bool)
    ensures
        r == white_space(c),
{
    let n: u32 = c as u32;
    (9 <= n && n <= 13) || n == 0x20 || n == 0x85 || n == 0xa0 || n == 0x1680 || (0x2000 <= n && n
        <= 0x200a) || n == 0x2028 || n == 0x2029 || n == 0x202f || n == 0x205f || n == 0x3000
}

/// `s` from the first character that `skip` does not pick.
pub open spec fn strip_front(s: Seq<char>, skip: spec_fn(char) -> bool) -> Seq<char>
    decreases s.len(),
{
    if s.len() > 0 && skip(s.first()) {
        strip_front(s.skip(1), skip)
    } else {
        s
    }
}

/// `s` up to the last character that `skip` does not pick.
pub open spec fn strip_back(s: Seq<char>, skip: spec_fn(char) -> bool) -> Seq<char>
    decreases s.len(),
{
    if s.len() > 0 && skip(s.last()) {
        strip_back(s.drop_last(), skip)
    } else {
        s
    }
}

/// `s` without the white space at either end.
pub open spec fn trimmed(s: Seq<char>) -> Seq<char> {
    let skip = |c: char| white_space(c);
    strip_back(strip_front(s, skip), skip)
}

/// Picks the one character `mark`.
pub open spec fn only(mark: char) -> spec_fn(char) -> bool {
    |c: char| c == mark
}

/// `s` without the `mark`s at either end.
pub open spec fn trimmed_of(s: Seq<char>, mark: char) -> Seq<char> {
    strip_back(strip_front(s, only(mark)), only(mark))
}

proof fn lemma_strip_front(s: Seq<char>, skip: spec_fn(char) -> bool, i: int)
    requires
        0 <= i <= s.len(),
        forall|k: int| 0 <= k < i ==> skip(#[trigger] s[k]),
        i < s.len() ==> !skip(s[i]),
    ensures
        strip_front(s, skip) == s.skip(i),
    decreases i,
{
    if i > 0 {
        let rest = s.skip(1);
        assert(s.first() == s[0]);
        assert forall|k: int| 0 <= k < i - 1 implies skip(#[trigger] rest[k]) by {
            assert(rest[k] == s[k + 1]);
        }
        lemma_strip_front(rest, skip, i - 1);
        assert(rest.skip(i - 1) =~= s.skip(i));
    } else {
        assert(s.skip(0) =~= s);
    }
}

proof fn lemma_strip_back(s: Seq<char>, skip: spec_fn(char) -> bool, j: int)
    requires
        0 <= j <= s.len(),
        forall|k: int| j <= k < s.len() ==> skip(#[trigger] s[k]),
        j > 0 ==> !skip(s[j - 1]),
    ensures
        strip_back(s, skip) == s.take(j),
    decreases s.len(),
{
    if j < s.len() {
        assert(s.last() == s[s.len() - 1]);
        lemma_strip_back(s.drop_last(), skip, j);
        assert(s.drop_last().take(j) =~= s.take(j));
    } else {
        assert(s.take(j) =~= s);
    }
}

proof fn lemma_strip_both(s: Seq<char>, skip: spec_fn(char) -> bool, i: int, j: int)
    requires
        0 <= i <= j <= s.len(),
        forall|k: int| 0 <= k < i ==> skip(#[trigger] s[k]),
        i < s.len() ==> !skip(s[i]),
        forall|k: int| j <= k < s.len() ==> skip(#[trigger] s[k]),
        j > i ==> !skip(s[j - 1]),
    ensures
        strip_back(strip_front(s, skip), skip) == s.subrange(i, j),
{
    lemma_strip_front(s, skip, i);
    let rest = s.skip(i);
    assert forall|k: int| j - i <= k < rest.len() implies skip(#[trigger] rest[k]) by {
        assert(rest[k] == s[k + i]);
    }
    lemma_strip_back(rest, skip, j - i);
    assert(rest.take(j - i) =~= s.subrange(i, j));
}

/// `s` without the white space at either end.
pub fn trim(s: &str) -> (r: String)
    ensures
        r@ == trimmed(s@),
{
    let n = s.unicode_len();
    let mut i: usize = 0;
    while i < n && is_white_space(s.get_char(i))
        invariant
            n == s@.len(),
            i <= n,
            forall|k: int| 0 <= k < i ==> white_space(#[trigger] s@[k]),
        decreases n - i,
    {
        i += 1;
    }
    let mut j: usize = n;
    while j > i && is_white_space(s.get_char(j - 1))
        invariant
            n == s@.len(),
            i <= j <= n,
            forall|k: int| j <= k < n ==> white_space(#[trigger] s@[k]),
        decreases j,
    {
        j -= 1;
    }
    proof {
        lemma_strip_both(s@, |c: char| white_space(c), i as int, j as int);
    }
    s.substring_char(i, j).to_owned()
}

/// `s` without the `mark`s at either end.
pub fn trim_of(s: &str, mark: char) -> (r: String)
    ensures
        r@ == trimmed_of(s@, mark),
{
    let n = s.unicode_len();
    let mut i: usize = 0;
    while i < n && s.get_char(i) == mark
        invariant
            n == s@.len(),
            i <= n,
            forall|k: int| 0 <= k < i ==> #[trigger] s@[k] == mark,
        decreases n - i,
    {
        i += 1;
    }
    let mut j: usize = n;
    while j > i && s.get_char(j - 1) == mark
        invariant
            n == s@.len(),
            i <= j <= n,
            forall|k: int| j <= k < n ==> #[trigger] s@[k] == mark,
        decreases j,
    {
        j -= 1;
    }
    proof {
        lemma_strip_both(s@, only(mark), i as int, j as int);
    }
    s.substring_char(i, j).to_owned()
}

/// The pieces of `s` between the `mark`s, one more than there are marks.
pub open spec fn pieces(s: Seq<char>, mark: char) -> Seq<Seq<char>>
    decreases s.len(),
{
    if s.len() == 0 {
        seq![s]
    } else {
        let rest = pieces(s.drop_last(), mark);
        if s.last() == mark {
            rest.push(Seq::empty())
        } else {
            rest.drop_last().push(rest.last().push(s.last()))
        }
    }
}

/// The pieces of `s` between the `mark`s.
pub fn split(s: &str, mark: char) -> (r: Vec<String>)
    ensures
        texts(r@) == pieces(s@, mark),
{
    let n = s.unicode_len();
    let mut r: Vec<String> = Vec::new();
    let mut start: usize = 0;
    let mut i: usize = 0;
    assert(s@.take(0) =~= Seq::empty());
    assert(texts(r@).push(s@.subrange(0, 0)) =~= pieces(s@.take(0), mark));
    while i < n
        invariant
            n == s@.len(),
            start <= i <= n,
            texts(r@).push(s@.subrange(start as int, i as int)) == pieces(
                s@.take(i as int),
                mark,
            ),
        decreases n - i,
    {
        let ghost now = s@.take(i as int);
        let ghost next = s@.take(i + 1);
        let ghost before = texts(r@);
        let ghost piece = s@.subrange(start as int, i as int);
        proof {
            assert(next.drop_last() =~= now);
            assert(next.last() == s@[i as int]);
            assert(before.push(piece).drop_last() =~= before);
        }
        if s.get_char(i) == mark {
            r.push(s.substring_char(start, i).to_owned());
            start = i + 1;
            proof {
                assert(texts(r@) =~= before.push(piece));
                assert(s@.subrange(start as int, i + 1) =~= Seq::empty());
            }
        } else {
            assert(s@.subrange(start as int, i + 1) =~= piece.push(s@[i as int]));
        }
        i += 1;
    }
    let ghost before = texts(r@);
    r.push(s.substring_char(start, n).to_owned());
    assert(s@.take(n as int) =~= s@);
    assert(texts(r@) =~= before.push(s@.subrange(start as int, n as int)));
    r
}

/// `s` without one carriage return at its end.
pub open spec fn without_return(s: Seq<char>) -> Seq<char> {
    if s.len() > 0 && s.last() == '\r' {
        s.drop_last()
    } else {
        s
    }
}

/// The lines of `s`: what stands before each line feed, without a carriage
/// return at its end, and what follows the last one unless that is nothing.
pub open spec fn line_texts(s: Seq<char>) -> Seq<Seq<char>> {
    let p = pieces(s, '\n');
    let ended = p.drop_last().map_values(|l: Seq<char>| without_return(l));
    if p.last().len() == 0 {
        ended
    } else {
        ended.push(p.last())
    }
}

proof fn lemma_pieces_nonempty(s: Seq<char>, mark: char)
    ensures
        pieces(s, mark).len() > 0,
    decreases s.len(),
{
    if s.len() > 0 {
        lemma_pieces_nonempty(s.drop_last(), mark);
    }
}

fn cut_return(s: &String) -> (r: String)
    ensures
        r@ == without_return(s@),
{
    let n = s.as_str().unicode_len();
    if n > 0 && s.as_str().get_char(n - 1) == '\r' {
        let t = s.as_str().substring_char(0, n - 1).to_owned();
        assert(t@ =~= s@.drop_last());
        t
    } else {
        s.clone()
    }
}

/// The lines of `s`.
pub fn lines(s: &str) -> (r: Vec<String>)
    ensures
        texts(r@) == line_texts(s@),
{
    let parts = split(s, '\n');
    proof {
        lemma_pieces_nonempty(s@, '\n');
        assert(texts(parts@).len() == parts@.len());
    }
    let ghost p = pieces(s@, '\n');
    let ghost ended = p.drop_last().map_values(|l: Seq<char>| without_return(l));
    let last: usize = parts.len() - 1;
    let mut r: Vec<String> = Vec::new();
    let mut i: usize = 0;
    assert(texts(r@) =~= ended.take(0));
    while i < last
        invariant
            i <= last,
            last + 1 == parts@.len(),
            texts(parts@) == p,
            ended == p.drop_last().map_values(|l: Seq<char>| without_return(l)),
            texts(r@) == ended.take(i as int),
        decreases last - i,
    {
        let ghost before = texts(r@);
        let line = cut_return(&parts[i]);
        let ghost l = line@;
        r.push(line);
        proof {
            assert(p[i as int] == parts@[i as int]@);
            assert(ended[i as int] == l);
            assert(texts(r@) =~= before.push(l));
            assert(ended.take(i + 1) =~= ended.take(i as int).push(ended[i as int]));
        }
        i += 1;
    }
    assert(ended.take(i as int) =~= ended);
    assert(p.last() == parts@[last as int]@);
    if parts[last].as_str().unicode_len() > 0 {
        let ghost before = texts(r@);
        r.push(parts[last].clone());
        assert(texts(r@) =~= before.push(p.last()));
    }
    r
}

/// The value of a non-empty run of decimal digits.
pub open spec fn digits_value(s: Seq<char>) -> Option<nat>
    decreases s.len(),
{
    if s.len() == 0 || !('0' <= s.last() <= '9') {
        None
    } else {
        let d = (s.last() as u32 - '0' as u32) as nat;
        if s.len() == 1 {
            Some(d)
        } else {
            match digits_value(s.drop_last()) {
                Some(v) => Some(10 * v + d),
                None => None,
            }
        }
    }
}

/// The number that a sign and decimal digits write, if it fits an `i32`.
pub open spec fn int_value(s: Seq<char>) -> Option<int> {
    let negative = s.len() > 0 && s.first() == '-';
    let signed = negative || (s.len() > 0 && s.first() == '+');
    match digits_value(if signed { s.skip(1) } else { s }) {
        Some(v) => {
            let n = if negative { -(v as int) } else { v as int };
            if i32::MIN <= n <= i32::MAX { Some(n) } else { None }
        },
        None => None,
    }
}

proof fn lemma_digits_prefix(s: Seq<char>, i: int)
    requires
        0 < i <= s.len(),
        digits_value(s) is Some,
    ensures
        digits_value(s.take(i)) is Some,
        digits_value(s.take(i))->0 <= digits_value(s)->0,
    decreases s.len() - i,
{
    if i < s.len() {
        assert(s.drop_last().take(i) =~= s.take(i));
        lemma_digits_prefix(s.drop_last(), i);
    } else {
        assert(s.take(i) =~= s);
    }
}

proof fn lemma_digits_step(s: Seq<char>, i: int)
    requires
        0 <= i < s.len(),
        i > 0 ==> digits_value(s.take(i)) is Some,
    ensures
        ('0' <= s[i] <= '9') ==> digits_value(s.take(i + 1)) == Some(
            (10 * (if i > 0 { digits_value(s.take(i))->0 as int } else { 0 }) + (s[i] as u32
                - '0' as u32)) as nat,
        ),
        !('0' <= s[i] <= '9') ==> digits_value(s) is None,
{
    assert(s.take(i + 1).drop_last() =~= s.take(i));
    assert(s.take(i + 1).last() == s[i]);
    if !('0' <= s[i] <= '9') && digits_value(s) is Some {
        lemma_digits_prefix(s, i + 1);
    }
}

/// The value of a run of decimal digits, if it is at most two to the power
/// of 31.
fn parse_digits(s: &str, start: usize) -> (r: Option<i64>)
    requires
        start <= s@.len(),
    ensures
        match r {
            Some(v) => 0 <= v <= 0x8000_0000 && digits_value(s@.skip(start as int)) == Some(
                v as nat,
            ),
            None => match digits_value(s@.skip(start as int)) {
                Some(v) => v > 0x8000_0000,
                None => true,
            },
        },
{
    let n = s.unicode_len();
    let ghost body = s@.skip(start as int);
    if start == n {
        return None;
    }
    let mut i: usize = start;
    let mut value: i64 = 0;
    while i < n
        invariant
            n == s@.len(),
            start <= i <= n,
            start < n,
            body == s@.skip(start as int),
            i == start ==> value == 0,
            i > start ==> digits_value(body.take(i - start)) == Some(value as nat),
            0 <= value <= 0x8000_0000,
        decreases n - i,
    {
        let c = s.get_char(i);
        proof {
            lemma_digits_step(body, i - start);
        }
        if !('0' <= c && c <= '9') {
            return None;
        }
        let d: i64 = (c as u32 - '0' as u32) as i64;
        value = value * 10 + d;
        if value > 0x8000_0000 {
            proof {
                if digits_value(body) is Some {
                    lemma_digits_prefix(body, i + 1 - start);
                }
            }
            return None;
        }
        i += 1;
    }
    assert(body.take(n - start) =~= body);
    Some(value)
}

/// Reads a signed decimal number that fits an `i32`.
pub fn parse_i32(s: &str) -> (r: Option<i32>)
    ensures
        match r {
            Some(n) => int_value(s@) == Some(n as int),
            None => int_value(s@) is None,
        },
{
    let n = s.unicode_len();
    let negative = n > 0 && s.get_char(0) == '-';
    let signed = negative || (n > 0 && s.get_char(0) == '+');
    let start: usize = if signed { 1 } else { 0 };
    assert(s@.skip(0) =~= s@);
    match parse_digits(s, start) {
        Some(value) => {
            if negative {
                Some((-value) as i32)
            } else if value <= 0x7fff_ffff {
                Some(value as i32)
            } else {
                None
            }
        },
        None => None,
    }
}

} // verus!
