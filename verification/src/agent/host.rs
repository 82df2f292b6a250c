//! What the agent finds out about its machine, from the files and commands that
//! were read. `None` stands for a read that failed.

use crate::ids;
use crate::ids::{new_uuid, uuid_text, Uuid};
use crate::text;
use crate::text::{find_last, lines, same, trim, trim_of};
use vstd::prelude::*;
use vstd::string::*;

verus! {

/// The name of the machine, from the kernel's file.
pub fn gethostname(file: Option<&str>) -> (r: String)
    ensures
        r@ == match file {
            Some(s) => text::trimmed(s@),
            None => "unknown"@,
        },
{
    match file {
        Some(s) => trim(s),
        None => "unknown".to_owned(),
    }
}

/// The id of the machine, from the first of two files that can be read; a random
/// one where neither can.
pub fn read_machine_id(etc: Option<&str>, dbus: Option<&str>) -> (r: String)
    ensures
        match (etc, dbus) {
            (Some(s), _) => r@ == text::trimmed(s@),
            (None, Some(s)) => r@ == text::trimmed(s@),
            (None, None) => exists|id: Uuid| #[trigger]
                ids::is_random_uuid(id) && r@ == ids::hyphenated(id),
        },
{
    let drawn: Uuid = new_uuid();
    machine_id_with(etc, dbus, drawn)
}

/// The machine's identifier, with `drawn` for a machine that has none.
pub fn machine_id_with(etc: Option<&str>, dbus: Option<&str>, drawn: Uuid) -> (r: String)
    ensures
        r@ == match (etc, dbus) {
            (Some(s), _) => text::trimmed(s@),
            (None, Some(s)) => text::trimmed(s@),
            (None, None) => ids::hyphenated(drawn),
        },
{
    match etc {
        Some(s) => trim(s),
        None => match dbus {
            Some(s) => trim(s),
            None => uuid_text(drawn),
        },
    }
}

/// The zone that a link into a zoneinfo tree names: what follows the last
/// `zoneinfo/`, without slashes at either end.
pub open spec fn linked_zone(link: Seq<char>) -> Option<Seq<char>> {
    if text::occurs_in(link, "zoneinfo/"@) {
        let at = choose|i: int|
            text::occurs_at(link, "zoneinfo/"@, i) && forall|j: int|
                text::occurs_at(link, "zoneinfo/"@, j) ==> j <= i;
        Some(text::trimmed_of(link.skip(at + "zoneinfo/"@.len()), '/'))
    } else {
        None
    }
}

fn read_link_zone(link: &str) -> (r: Option<String>)
    ensures
        match r {
            Some(z) => linked_zone(link@) == Some(z@),
            None => linked_zone(link@) is None,
        },
{
    match find_last(link, "zoneinfo/") {
        Some(i) => {
            let n = "zoneinfo/".unicode_len();
            let end = link.unicode_len();
            let ghost mark = "zoneinfo/"@;
            assert(text::occurs_at(link@, mark, i as int));
            let rest = link.substring_char(i + n, end);
            proof {
                let at = choose|k: int|
                    text::occurs_at(link@, mark, k) && forall|j: int|
                        text::occurs_at(link@, mark, j) ==> j <= k;
                assert(at == i);
                assert(rest@ =~= link@.skip(i + n));
            }
            Some(trim_of(rest, '/'))
        },
        None => None,
    }
}

/// The zone that each source names, if it names one: the text of a zone file,
/// the link that stands for the local time, and what `timedatectl` printed where
/// it succeeded.
pub open spec fn file_zone(file: Option<&str>) -> Option<Seq<char>> {
    match file {
        Some(s) if text::trimmed(s@).len() > 0 => Some(text::trimmed(s@)),
        _ => None,
    }
}

pub open spec fn link_zone(link: Option<&str>) -> Option<Seq<char>> {
    match link {
        Some(s) => match linked_zone(s@) {
            Some(z) if z.len() > 0 => Some(z),
            _ => None,
        },
        None => None,
    }
}

pub open spec fn command_zone(output: Option<&str>) -> Option<Seq<char>> {
    match output {
        Some(s) if text::trimmed(s@).len() > 0 && text::trimmed(s@) != "n/a"@ => Some(
            text::trimmed(s@),
        ),
        _ => None,
    }
}

/// The machine's time zone: the one that the first source names that names any,
/// or UTC.
pub fn local_timezone(file: Option<&str>, link: Option<&str>, output: Option<&str>) -> (r: String)
    ensures
        r@ == match file_zone(file) {
            Some(z) => z,
            None => match link_zone(link) {
                Some(z) => z,
                None => match command_zone(output) {
                    Some(z) => z,
                    None => "UTC"@,
                },
            },
        },
{
    if let Some(s) = file {
        let zone = trim(s);
        if zone.as_str().unicode_len() > 0 {
            return zone;
        }
    }
    if let Some(s) = link {
        if let Some(zone) = read_link_zone(s) {
            if zone.as_str().unicode_len() > 0 {
                return zone;
            }
        }
    }
    if let Some(s) = output {
        let zone = trim(s);
        if zone.as_str().unicode_len() > 0 && !same(zone.as_str(), "n/a") {
            return zone;
        }
    }
    "UTC".to_owned()
}

/// The recent log lines: those that the journal printed, or one that says why it
/// could not be read.
pub fn collect_recent_logs(output: Result<&str, &str>) -> (r: Vec<String>)
    ensures
        text::texts(r@) == match output {
            Ok(s) => text::line_texts(s@),
            Err(e) => seq!["Failed to read journal: "@ + e@],
        },
{
    match output {
        Ok(s) => lines(s),
        Err(e) => {
            let mut line = "Failed to read journal: ".to_owned();
            line.append(e);
            let mut r: Vec<String> = Vec::new();
            r.push(line);
            assert(text::texts(r@) =~= seq!["Failed to read journal: "@ + e@]);
            r
        },
    }
}

} // verus!
