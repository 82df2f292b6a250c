//! What the operations on text come to, character by character.

use crate::text;
use vstd::prelude::*;

verus! {

/// A text that may be missing shows as its characters where it is there, and a
/// list of texts shows each of them, in order.
pub proof fn texts_show_their_characters(a: Option<String>, b: Option<&str>, v: Seq<String>)
    ensures
        match a {
            Some(s) => text::opt_text(a) == Some(s@),
            None => text::opt_text(a) is None,
        },
        match b {
            Some(s) => text::opt_str(b) == Some(s@),
            None => text::opt_str(b) is None,
        },
        text::texts(v).len() == v.len(),
        forall|i: int| 0 <= i < v.len() ==> #[trigger] text::texts(v)[i] == v[i]@,
{
}

/// A part stands at a position exactly if the text has the characters of the part
/// from there on; it stands somewhere exactly if there is such a position.
pub proof fn a_part_stands_where_its_characters_do(s: Seq<char>, part: Seq<char>, i: int)
    ensures
        text::occurs_at(s, part, i) <==> 0 <= i && i + part.len() <= s.len() && (forall|k: int|
            0 <= k < part.len() ==> s[i + k] == #[trigger] part[k]),
        text::occurs_at(s, part, i) ==> text::occurs_in(s, part),
        text::occurs_in(s, part) ==> exists|a: Seq<char>, b: Seq<char>|
            s == #[trigger] (a + part + b),
{
    if 0 <= i && i + part.len() <= s.len() {
        let cut = s.subrange(i, i + part.len());
        if forall|k: int| 0 <= k < part.len() ==> s[i + k] == #[trigger] part[k] {
            assert(cut =~= part);
        }
        if cut == part {
            assert forall|k: int| 0 <= k < part.len() implies s[i + k] == #[trigger] part[k] by {
                assert(cut[k] == s[i + k]);
            }
        }
    }
    if text::occurs_in(s, part) {
        let j = choose|j: int| text::occurs_at(s, part, j);
        let a = s.take(j);
        let b = s.skip(j + part.len());
        assert(s =~= a + part + b);
    }
}

/// What follows a prefix is what the prefix was put in front of, and a text
/// without the prefix has nothing that follows it.
pub proof fn what_follows_a_prefix_is_the_rest(s: Seq<char>, prefix: Seq<char>, rest: Seq<char>)
    ensures
        text::after_prefix(s, prefix) == Some(rest) <==> s == prefix + rest,
{
    let n = prefix.len() as int;
    if s == prefix + rest {
        assert(s.subrange(0, n) =~= prefix);
        assert(s.skip(n) =~= rest);
    }
    if text::after_prefix(s, prefix) == Some(rest) {
        assert(s =~= s.subrange(0, n) + s.skip(n));
    }
}

/// The white space of Unicode: the controls from tab to carriage return, the space
/// and the next line, and the spaces and separators of other scripts.
pub proof fn white_space_is_that_of_unicode(c: char)
    ensures
        text::white_space(c) <==> {
            ||| c == '\t' || c == '\n' || c == '\u{b}' || c == '\u{c}' || c == '\r'
            ||| c == ' ' || c == '\u{85}' || c == '\u{a0}' || c == '\u{1680}'
            ||| c == '\u{2000}' || c == '\u{2001}' || c == '\u{2002}' || c == '\u{2003}'
            ||| c == '\u{2004}' || c == '\u{2005}' || c == '\u{2006}' || c == '\u{2007}'
            ||| c == '\u{2008}' || c == '\u{2009}' || c == '\u{200a}'
            ||| c == '\u{2028}' || c == '\u{2029}' || c == '\u{202f}' || c == '\u{205f}'
            ||| c == '\u{3000}'
        },
{
}

/// A trimmed text is what stands between the white space at its front and that at
/// its back: every character before it and after it is white space, and neither
/// its first nor its last is.
pub proof fn trimming_cuts_the_white_space_off(s: Seq<char>, i: int, j: int)
    requires
        0 <= i <= j <= s.len(),
        forall|k: int| 0 <= k < i ==> text::white_space(#[trigger] s[k]),
        forall|k: int| j <= k < s.len() ==> text::white_space(#[trigger] s[k]),
        i < j ==> !text::white_space(s[i]) && !text::white_space(s[j - 1]),
    ensures
        text::trimmed(s) == s.subrange(i, j),
{
    let skip = |c: char| text::white_space(c);
    lemma_cut(s, skip, i, j);
}

/// A text trimmed of a mark is what stands between the marks at its front and those
/// at its back.
pub proof fn trimming_cuts_the_marks_off(s: Seq<char>, mark: char, i: int, j: int)
    requires
        0 <= i <= j <= s.len(),
        forall|k: int| 0 <= k < i ==> #[trigger] s[k] == mark,
        forall|k: int| j <= k < s.len() ==> #[trigger] s[k] == mark,
        i < j ==> s[i] != mark && s[j - 1] != mark,
    ensures
        text::trimmed_of(s, mark) == s.subrange(i, j),
{
    lemma_cut(s, text::only(mark), i, j);
}

proof fn lemma_cut(s: Seq<char>, skip: spec_fn(char) -> bool, i: int, j: int)
    requires
        0 <= i <= j <= s.len(),
        forall|k: int| 0 <= k < i ==> skip(#[trigger] s[k]),
        forall|k: int| j <= k < s.len() ==> skip(#[trigger] s[k]),
        i < j ==> !skip(s[i]) && !skip(s[j - 1]),
    ensures
        text::strip_back(text::strip_front(s, skip), skip) == s.subrange(i, j),
{
    if i == j {
        lemma_front(s, skip, s.len() as int);
        assert(s.skip(s.len() as int) =~= Seq::empty());
        assert(s.subrange(i, j) =~= Seq::empty());
    } else {
        lemma_front(s, skip, i);
        let rest = s.skip(i);
        assert forall|k: int| j - i <= k < rest.len() implies skip(#[trigger] rest[k]) by {
            assert(rest[k] == s[k + i]);
        }
        lemma_back(rest, skip, j - i);
        assert(rest.take(j - i) =~= s.subrange(i, j));
    }
}

proof fn lemma_front(s: Seq<char>, skip: spec_fn(char) -> bool, i: int)
    requires
        0 <= i <= s.len(),
        forall|k: int| 0 <= k < i ==> skip(#[trigger] s[k]),
        i < s.len() ==> !skip(s[i]),
    ensures
        text::strip_front(s, skip) == s.skip(i),
    decreases i,
{
    if i > 0 {
        let rest = s.skip(1);
        assert(s.first() == s[0]);
        assert forall|k: int| 0 <= k < i - 1 implies skip(#[trigger] rest[k]) by {
            assert(rest[k] == s[k + 1]);
        }
        lemma_front(rest, skip, i - 1);
        assert(rest.skip(i - 1) =~= s.skip(i));
    } else {
        assert(s.skip(0) =~= s);
    }
}

proof fn lemma_back(s: Seq<char>, skip: spec_fn(char) -> bool, j: int)
    requires
        0 <= j <= s.len(),
        forall|k: int| j <= k < s.len() ==> skip(#[trigger] s[k]),
        j > 0 ==> !skip(s[j - 1]),
    ensures
        text::strip_back(s, skip) == s.take(j),
    decreases s.len(),
{
    if j < s.len() {
        assert(s.last() == s[s.len() - 1]);
        lemma_back(s.drop_last(), skip, j);
        assert(s.drop_last().take(j) =~= s.take(j));
    } else {
        assert(s.take(j) =~= s);
    }
}

/// A text without a mark is one piece; a mark and a text without one, put behind a
/// text, add that as a piece.
pub proof fn a_mark_begins_a_piece(s: Seq<char>, mark: char, piece: Seq<char>)
    requires
        forall|k: int| 0 <= k < piece.len() ==> #[trigger] piece[k] != mark,
    ensures
        text::pieces(piece, mark) == seq![piece],
        text::pieces(s.push(mark) + piece, mark) == text::pieces(s, mark).push(piece),
    decreases piece.len(),
{
    if piece.len() == 0 {
        assert(piece =~= Seq::empty());
        assert(s.push(mark) + piece =~= s.push(mark));
        assert(s.push(mark).drop_last() =~= s);
    } else {
        let less = piece.drop_last();
        a_mark_begins_a_piece(s, mark, less);
        assert(less.push(piece.last()) =~= piece);
        assert(seq![less].drop_last().push(piece) =~= seq![piece]);
        let all = s.push(mark) + piece;
        assert(all.drop_last() =~= s.push(mark) + less);
        assert(all.last() == piece.last());
        let before = text::pieces(s, mark);
        assert(before.push(less).drop_last().push(piece) =~= before.push(piece));
    }
}

/// A line that is ended adds itself to the lines of a text that ends with a line, or
/// is empty, without a carriage return at its end; one that is not ended adds itself
/// as it is, unless it is empty.
pub proof fn each_line_is_read(s: Seq<char>, line: Seq<char>)
    requires
        s.len() == 0 || s.last() == '\n',
        forall|k: int| 0 <= k < line.len() ==> #[trigger] line[k] != '\n',
    ensures
        text::line_texts(s + line.push('\n')) == text::line_texts(s).push(
            if line.len() > 0 && line.last() == '\r' {
                line.drop_last()
            } else {
                line
            },
        ),
        line.len() > 0 ==> text::line_texts(s + line) == text::line_texts(s).push(line),
        text::line_texts(Seq::empty()).len() == 0,
{
    let none = Seq::<char>::empty();
    a_mark_begins_a_piece(s, '\n', none);
    assert(text::pieces(none, '\n') == seq![none]);
    let cut = if line.len() > 0 && line.last() == '\r' {
        line.drop_last()
    } else {
        line
    };
    // The pieces of `s` with the line behind it.
    let p = text::pieces(s, '\n');
    if s.len() == 0 {
        assert(s =~= none);
        assert(s + line =~= line);
        a_mark_begins_a_piece(none, '\n', line);
        assert(text::pieces(s + line, '\n') =~= seq![line]);
        assert(p =~= seq![none]);
        assert(text::pieces(s + line, '\n') =~= p.drop_last().push(line));
    } else {
        let head = s.drop_last();
        assert(head.push('\n') =~= s);
        a_mark_begins_a_piece(head, '\n', line);
        a_mark_begins_a_piece(head, '\n', none);
        assert(head.push('\n') + line =~= s + line);
        assert(head.push('\n') + none =~= s);
        assert(text::pieces(s + line, '\n') =~= p.drop_last().push(line));
    }
    let q = text::pieces(s + line, '\n');
    assert(p.last().len() == 0);
    assert(q.drop_last() =~= p.drop_last());
    let ended = p.drop_last().map_values(|l: Seq<char>| text::without_return(l));
    assert(text::line_texts(s) == ended);
    if line.len() > 0 {
        assert(text::line_texts(s + line) =~= ended.push(line));
    }
    // The pieces of the whole, with the line ended.
    let all = s + line.push('\n');
    assert(all =~= (s + line).push('\n'));
    assert(all + none =~= all);
    a_mark_begins_a_piece(s + line, '\n', none);
    let w = text::pieces(all, '\n');
    assert(w == q.push(none));
    assert(w.drop_last() =~= q);
    assert(q =~= p.drop_last().push(line));
    assert(q.map_values(|l: Seq<char>| text::without_return(l)) =~= ended.push(cut));
    assert(text::line_texts(none) =~= seq![none].drop_last().map_values(
        |l: Seq<char>| text::without_return(l),
    ));
}

/// A digit behind digits counts as one more place; a run is a number only where it
/// is digits throughout, and no run is none.
pub proof fn digits_count_by_tens(s: Seq<char>, c: char)
    ensures
        text::digits_value(Seq::empty()) is None,
        text::digits_value(seq![c]) == if '0' <= c <= '9' {
            Some((c as u32 - 48) as nat)
        } else {
            None
        },
        s.len() > 0 ==> text::digits_value(s.push(c)) == match text::digits_value(s) {
            Some(v) => if '0' <= c <= '9' {
                Some((10 * v + (c as u32 - 48)) as nat)
            } else {
                None
            },
            None => None,
        },
{
    assert(s.push(c).drop_last() =~= s);
    assert(seq![c].drop_last() =~= Seq::empty());
}

/// A number is its digits, with a sign in front or without; it is none where it
/// takes more than 32 bits, or is no digits.
pub proof fn a_sign_makes_a_number_negative(ds: Seq<char>)
    ensures
        match text::digits_value(ds) {
            Some(v) => {
                &&& text::int_value(ds) == if v <= 0x7fff_ffff {
                    Some(v as int)
                } else {
                    None
                }
                &&& text::int_value(seq!['+'] + ds) == if v <= 0x7fff_ffff {
                    Some(v as int)
                } else {
                    None
                }
                &&& text::int_value(seq!['-'] + ds) == if v <= 0x8000_0000 {
                    Some(-(v as int))
                } else {
                    None
                }
            },
            None => {
                &&& text::int_value(seq!['+'] + ds) is None
                &&& text::int_value(seq!['-'] + ds) is None
                &&& (ds.len() == 0 || (ds[0] != '-' && ds[0] != '+')) ==> text::int_value(
                    ds,
                ) is None
            },
        },
{
    assert((seq!['+'] + ds).skip(1) =~= ds);
    assert((seq!['-'] + ds).skip(1) =~= ds);
    if text::digits_value(ds) is Some {
        lemma_first_digit(ds);
    }
}

proof fn lemma_first_digit(ds: Seq<char>)
    requires
        text::digits_value(ds) is Some,
    ensures
        ds.len() > 0,
        '0' <= ds.first() <= '9',
    decreases ds.len(),
{
    if ds.len() > 1 {
        lemma_first_digit(ds.drop_last());
    }
}

} // verus!
