//! What to do with each entry of a zip archive being unpacked: entries are
//! written only below the target directory.
use vstd::prelude::*;

use crate::platform::Platform;

verus! {

/// What to do with one archive entry, relative to the target directory.
#[derive(Clone, Debug)]
pub enum EntryAction {
    /// The entry cannot be placed safely: pass over it.
    Skip,
    /// Create this directory (and its parents).
    CreateDir(String),
    /// Create the parents of this file, then copy the entry's bytes into it.
    WriteFile(String),
}

/// A separator of path components on `platform`: `/` everywhere, and `\`
/// on Windows as well.
pub open spec fn is_separator(c: char, platform: Platform) -> bool {
    c == '/' || (platform == Platform::Windows && c == '\\')
}

/// A drive prefix such as `C:`, which only Windows reads as one.
pub open spec fn has_drive_prefix(p: Seq<char>, platform: Platform) -> bool {
    &&& platform == Platform::Windows
    &&& p.len() >= 2
    &&& p[1] == ':'
    &&& (('a' <= p[0] && p[0] <= 'z') || ('A' <= p[0] && p[0] <= 'Z'))
}

/// The depth below the start after the component `seg`: one less for `..`,
/// unchanged for an empty component or `.`, one more for any other.
pub open spec fn depth_after(depth: int, seg: Seq<char>) -> int {
    if seg == seq!['.', '.'] {
        depth - 1
    } else if seg.len() == 0 || seg == seq!['.'] {
        depth
    } else {
        depth + 1
    }
}

/// Reading `p` on from `depth` components below the start, with `seg` read
/// so far of the current component, no `..` climbs above the start.
pub open spec fn stays_within(p: Seq<char>, platform: Platform, depth: int, seg: Seq<char>) -> bool
    decreases p.len(),
{
    if p.len() == 0 {
        depth_after(depth, seg) >= 0
    } else if is_separator(p[0], platform) {
        depth_after(depth, seg) >= 0 && stays_within(
            p.drop_first(),
            platform,
            depth_after(depth, seg),
            seq![],
        )
    } else {
        stays_within(p.drop_first(), platform, depth, seg.push(p[0]))
    }
}

/// `p` names a place inside a directory on `platform`: it is not empty, not
/// rooted, has no drive prefix, and no `..` climbs above where it starts
/// (`a/../b` stays inside, `a/../../b` does not).
pub open spec fn is_enclosed(p: Seq<char>, platform: Platform) -> bool {
    &&& p.len() > 0
    &&& !is_separator(p[0], platform)
    &&& !has_drive_prefix(p, platform)
    &&& stays_within(p, platform, 0, seq![])
}

/// The action for an entry named `raw_name` in the archive, whose enclosed
/// path (as the archive reader computes it) is `enclosed`: whether it is a
/// directory, and its path; none if it is skipped.
pub open spec fn spec_entry_action(
    raw_name: Seq<char>,
    enclosed: Option<Seq<char>>,
    platform: Platform,
) -> Option<(bool, Seq<char>)> {
    match enclosed {
        Some(e) => if is_enclosed(e, platform) {
            Some((raw_name.len() > 0 && raw_name.last() == '/', e))
        } else {
            None
        },
        None => None,
    }
}

/// `a` is the action `spec_entry_action` gives.
pub open spec fn action_matches(
    a: EntryAction,
    raw_name: Seq<char>,
    enclosed: Option<Seq<char>>,
    platform: Platform,
) -> bool {
    match spec_entry_action(raw_name, enclosed, platform) {
        None => a is Skip,
        Some((true, p)) => a matches EntryAction::CreateDir(d) && d@ == p,
        Some((false, p)) => a matches EntryAction::WriteFile(f) && f@ == p,
    }
}

fn is_sep(c: char, platform: Platform) -> (r: bool)
    ensures
        r == is_separator(c, platform),
{
    c == '/' || (platform == Platform::Windows && c == '\\')
}

/// The depth after the component `p[a..b]`, or none if it would climb
/// above the start.
fn segment_step(p: &str, a: usize, b: usize, depth: usize) -> (r: Option<usize>)
    requires
        a <= b <= p@.len(),
        depth <= a,
    ensures
        r matches Some(d) ==> d as int == depth_after(depth as int, p@.subrange(a as int, b as int))
            && d <= b,
        r is None ==> depth_after(depth as int, p@.subrange(a as int, b as int)) < 0,
{
    let ghost seg = p@.subrange(a as int, b as int);
    let len = b - a;
    let two_dots = len == 2 && p.get_char(a) == '.' && p.get_char(a + 1) == '.';
    let one_dot = len == 1 && p.get_char(a) == '.';
    assert(seg.len() == len);
    if two_dots {
        assert(seg =~= seq!['.', '.']);
        if depth == 0 {
            None
        } else {
            Some(depth - 1)
        }
    } else if len == 0 || one_dot {
        if len == 1 {
            assert(seg =~= seq!['.']);
        } else {
            assert(seg =~= Seq::<char>::empty());
        }
        Some(depth)
    } else {
        if len == 2 {
            assert(seg[0] == p@[a as int] && seg[1] == p@[a + 1]);
            assert(seq!['.', '.'][0] == '.' && seq!['.', '.'][1] == '.');
        }
        if len == 1 {
            assert(seg[0] == p@[a as int]);
            assert(seq!['.'][0] == '.');
        }
        assert(seg != seq!['.', '.']);
        assert(seg != seq!['.']);
        Some(depth + 1)
    }
}

/// Whether `p` names a place inside a directory on `platform`.
pub fn check_enclosed(p: &str, platform: Platform) -> (r: bool)
    ensures
        r == is_enclosed(p@, platform),
{
    let n = p.unicode_len();
    if n == 0 {
        return false;
    }
    if is_sep(p.get_char(0), platform) {
        return false;
    }
    if platform == Platform::Windows && n >= 2 && p.get_char(1) == ':' {
        let c = p.get_char(0);
        if ('a' <= c && c <= 'z') || ('A' <= c && c <= 'Z') {
            return false;
        }
    }
    let mut i: usize = 0;
    let mut start: usize = 0;
    let mut depth: usize = 0;
    assert(p@.subrange(0, n as int) == p@);
    assert(p@.subrange(0, 0) =~= Seq::<char>::empty());
    while i < n
        invariant
            n == p@.len(),
            start <= i <= n,
            depth <= start,
            stays_within(p@, platform, 0, seq![]) == stays_within(
                p@.subrange(i as int, n as int),
                platform,
                depth as int,
                p@.subrange(start as int, i as int),
            ),
        decreases n - i,
    {
        let ghost rest = p@.subrange(i as int, n as int);
        let ghost seg = p@.subrange(start as int, i as int);
        assert(rest[0] == p@[i as int]);
        assert(rest.drop_first() =~= p@.subrange(i + 1, n as int));
        let c = p.get_char(i);
        if is_sep(c, platform) {
            match segment_step(p, start, i, depth) {
                Some(d) => {
                    depth = d;
                    start = i + 1;
                    assert(p@.subrange(start as int, start as int) =~= Seq::<char>::empty());
                },
                None => {
                    return false;
                },
            }
        } else {
            assert(p@.subrange(start as int, i + 1) =~= seg.push(c));
        }
        i = i + 1;
    }
    assert(p@.subrange(n as int, n as int) =~= Seq::<char>::empty());
    match segment_step(p, start, n, depth) {
        Some(_) => true,
        None => false,
    }
}

/// Decides what becomes of the entry named `raw_name`, whose enclosed path
/// (as the archive reader gives it) is `enclosed`, when unpacking on
/// `platform`: an entry with no such path, or one that could leave the
/// target directory, is skipped; a name ending in `/` is a directory;
/// anything else is a file.
pub fn entry_action(raw_name: &str, enclosed: Option<String>, platform: Platform) -> (r:
    EntryAction)
    ensures
        action_matches(
            r,
            raw_name@,
            match enclosed {
                Some(e) => Some(e@),
                None => None,
            },
            platform,
        ),
{
    match enclosed {
        Some(e) => {
            if !check_enclosed(e.as_str(), platform) {
                return EntryAction::Skip;
            }
            let n = raw_name.unicode_len();
            if n > 0 && raw_name.get_char(n - 1) == '/' {
                EntryAction::CreateDir(e)
            } else {
                EntryAction::WriteFile(e)
            }
        },
        None => EntryAction::Skip,
    }
}

/// Whatever the archive holds, no entry is placed outside the target
/// directory: each path acted on is relative, and none of its `..`
/// components climbs above the target.
pub proof fn entries_stay_inside(raw_name: Seq<char>, enclosed: Option<Seq<char>>, platform: Platform)
    ensures
        spec_entry_action(raw_name, enclosed, platform) matches Some((_, p)) ==> is_enclosed(
            p,
            platform,
        ),
        enclosed matches Some(e) && !is_enclosed(e, platform) ==> spec_entry_action(
            raw_name,
            enclosed,
            platform,
        ) is None,
{
}

/// An entry named `../evil` is never acted on, on any platform.
pub proof fn parent_entry_is_skipped(raw_name: Seq<char>, platform: Platform)
    ensures
        spec_entry_action(raw_name, Some("../evil"@), platform) is None,
{
    reveal_strlit("../evil");
    let p = "../evil"@;
    assert(p.drop_first() =~= seq!['.', '/', 'e', 'v', 'i', 'l']);
    assert(p.drop_first().drop_first() =~= seq!['/', 'e', 'v', 'i', 'l']);
    assert(seq![].push('.').push('.') =~= seq!['.', '.']);
    assert(!stays_within(p.drop_first().drop_first(), platform, 0, seq!['.', '.']));
    assert(!stays_within(p.drop_first(), platform, 0, seq!['.']));
    assert(seq![].push('.') =~= seq!['.']);
}

} // verus!
