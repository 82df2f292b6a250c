//! What the machine's files and commands say of its time zone.

use crate::agent::host;
use crate::text;
use crate::text_laws;
use vstd::prelude::*;

verus! {

/// A link names what follows the last `zoneinfo/` in it, without the slashes at
/// either end; a link without that names nothing.
pub proof fn a_link_names_what_follows_its_tree(link: Seq<char>, at: int, i: int, j: int)
    ensures
        (forall|k: int| !#[trigger] text::occurs_at(link, "zoneinfo/"@, k))
            ==> host::linked_zone(link) is None,
        text::occurs_at(link, "zoneinfo/"@, at) && (forall|k: int|
            k > at ==> !#[trigger] text::occurs_at(link, "zoneinfo/"@, k)) && at + 9 <= i <= j
            <= link.len() && (forall|k: int| at + 9 <= k < i ==> #[trigger] link[k] == '/') && (
        forall|k: int| j <= k < link.len() ==> #[trigger] link[k] == '/') && (i < j ==> link[i]
            != '/' && link[j - 1] != '/') ==> host::linked_zone(link) == Some(link.subrange(i, j)),
{
    let mark = "zoneinfo/"@;
    assert(mark.len() == 9) by {
        reveal_strlit("zoneinfo/");
    }
    if text::occurs_at(link, mark, at) && (forall|k: int|
        k > at ==> !#[trigger] text::occurs_at(link, mark, k)) && at + 9 <= i <= j <= link.len()
        && (forall|k: int| at + 9 <= k < i ==> #[trigger] link[k] == '/') && (forall|k: int|
        j <= k < link.len() ==> #[trigger] link[k] == '/') && (i < j ==> link[i] != '/' && link[j
        - 1] != '/') {
        assert forall|k: int| text::occurs_at(link, mark, k) implies k <= at by {}
        let last = choose|k: int|
            text::occurs_at(link, mark, k) && forall|l: int|
                text::occurs_at(link, mark, l) ==> l <= k;
        assert(last == at);
        let rest = link.skip(at + 9);
        assert forall|k: int| 0 <= k < i - (at + 9) implies #[trigger] rest[k] == '/' by {
            assert(rest[k] == link[k + at + 9]);
        }
        assert forall|k: int| j - (at + 9) <= k < rest.len() implies #[trigger] rest[k] == '/' by {
            assert(rest[k] == link[k + at + 9]);
        }
        text_laws::trimming_cuts_the_marks_off(rest, '/', i - (at + 9), j - (at + 9));
        assert(rest.subrange(i - (at + 9), j - (at + 9)) =~= link.subrange(i, j));
    }
}

/// A source names a zone where something is left of it: of a file and of what was
/// printed without the white space round it, and of a link what it names. What was
/// printed for a zone that is not known names none.
pub proof fn a_source_names_what_is_left_of_it(s: &str)
    ensures
        host::file_zone(Some(s)) == if text::trimmed(s@).len() > 0 {
            Some(text::trimmed(s@))
        } else {
            None
        },
        host::link_zone(Some(s)) == match host::linked_zone(s@) {
            Some(z) => if z.len() > 0 {
                Some(z)
            } else {
                None
            },
            None => None,
        },
        host::command_zone(Some(s)) == if text::trimmed(s@).len() > 0 && text::trimmed(s@)
            != "n/a"@ {
            Some(text::trimmed(s@))
        } else {
            None
        },
        host::file_zone(None) is None,
        host::link_zone(None) is None,
        host::command_zone(None) is None,
{
}

} // verus!
