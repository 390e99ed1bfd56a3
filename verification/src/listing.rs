//! Turning filesystem facts, handed in as plain values, into the exact
//! text a listing prints.

use vstd::prelude::*;

use crate::config::Config;
use crate::config::views_of;
use crate::num::{dec_str, pad_left, pad_right, pad_left_str, pad_right_str, u64_string};
use crate::perms::{format_permissions, perm_chars};

verus! {

/// Per-entry metadata, as plain values read from the filesystem.
#[derive(Clone, Copy)]
pub struct Meta {
    /// Permission bits, as in the POSIX `st_mode` word.
    pub mode: u32,
    /// Length in bytes.
    pub size: u64,
    /// Owner's user id.
    pub uid: u32,
    /// Owning group's id.
    pub gid: u32,
}

/// A directory child: its name and its metadata.
pub struct EntryInfo {
    pub name: String,
    pub meta: Meta,
}

/// What the filesystem showed of one path.
pub enum PathInfo {
    /// The path does not exist.
    NotFound,
    /// A plain file, with its metadata.
    File(Meta),
    /// A directory, with its immediate children in the order they were
    /// read.
    Directory(Vec<EntryInfo>),
}

/// An entry together with the looked-up owner and group names; either
/// is absent when the system databases do not hold the id.
pub struct ResolvedEntry {
    pub name: String,
    pub meta: Meta,
    pub user: Option<String>,
    pub group: Option<String>,
}

/// The one-line notice for a path that does not exist.
pub open spec fn not_found_line(path: Seq<char>) -> Seq<char> {
    path + ": file not found\n"@
}

/// One long-mode row: the symbolic permissions, the owner and group
/// names, the size right-aligned in a 9-character column with a `B`
/// suffix, and the name left-aligned in a 20-character column.
pub open spec fn long_row(name: Seq<char>, m: Meta, user: Seq<char>, group: Seq<char>) -> Seq<char> {
    perm_chars(m.mode) + " "@ + user + " "@ + group + "  "@
        + pad_left(dec_str(m.size as nat), 9) + "B "@ + pad_right(name, 20) + "\n"@
}

/// The row for a resolved entry, present exactly when both names were
/// found.
pub open spec fn row_of(e: ResolvedEntry) -> Option<Seq<char>> {
    match (e.user, e.group) {
        (Some(u), Some(g)) => Some(long_row(e.name@, e.meta, u@, g@)),
        _ => None,
    }
}

/// Whether every resolved entry has both its names.
pub open spec fn rows_ok(es: Seq<ResolvedEntry>) -> bool {
    forall|i: int| 0 <= i < es.len() ==> (#[trigger] row_of(es[i])) is Some
}

/// The long-mode rows of a directory, in order.
pub open spec fn long_rows(es: Seq<ResolvedEntry>) -> Seq<char>
    decreases es.len(),
{
    if es.len() == 0 {
        Seq::empty()
    } else {
        long_rows(es.drop_last()) + row_of(es.last()).unwrap()
    }
}

/// The names of a directory's entries, in order.
pub open spec fn entry_names(es: Seq<EntryInfo>) -> Seq<Seq<char>> {
    es.map_values(|e: EntryInfo| e.name@)
}

/// Short-mode directory entries: each name followed by one space.
pub open spec fn joined_names(names: Seq<Seq<char>>) -> Seq<char>
    decreases names.len(),
{
    if names.len() == 0 {
        Seq::empty()
    } else {
        joined_names(names.drop_last()) + names.last() + " "@
    }
}

/// The heading line a directory's listing starts with.
pub open spec fn dir_header(path: Seq<char>) -> Seq<char> {
    path + ":\n"@
}

/// A directory's short-mode output: the heading, the space-separated
/// names, and a final newline.
pub open spec fn short_dir_output(path: Seq<char>, names: Seq<Seq<char>>) -> Seq<char> {
    dir_header(path) + joined_names(names) + "\n"@
}

/// A plain file's short-mode output: its path on a line of its own.
pub open spec fn short_file_output(path: Seq<char>) -> Seq<char> {
    path + "\n"@
}

/// Whether `rs` holds the same names and metadata as `es`, entry for
/// entry.
pub open spec fn resolves(es: Seq<EntryInfo>, rs: Seq<ResolvedEntry>) -> bool {
    &&& rs.len() == es.len()
    &&& forall|i: int| 0 <= i < es.len()
        ==> (#[trigger] rs[i]).name@ == es[i].name@ && rs[i].meta == es[i].meta
}

/// What one path's output chunk is, given what the filesystem showed of
/// it. Long-mode rows carry whatever owner and group names the system
/// databases gave.
pub open spec fn path_out(path: Seq<char>, info: PathInfo, long: bool, out: Seq<char>) -> bool {
    match info {
        PathInfo::NotFound => out == not_found_line(path),
        PathInfo::File(m) => if long {
            exists|u: Seq<char>, g: Seq<char>| out == long_row(path, m, u, g)
        } else {
            out == short_file_output(path)
        },
        PathInfo::Directory(es) => if long {
            exists|rs: Seq<ResolvedEntry>|
                #![auto]
                resolves(es@, rs) && rows_ok(rs) && out == dir_header(path) + long_rows(rs) + "\n"@
        } else {
            out == short_dir_output(path, entry_names(es@))
        },
    }
}

/// Whether a path's output needs no owner or group lookup: the lookups
/// run only for long-mode rows, so short mode, a missing path, and a
/// long-mode directory without entries are owed their output
/// unconditionally.
pub open spec fn no_lookup_needed(info: PathInfo, long: bool) -> bool {
    !long || match info {
        PathInfo::NotFound => true,
        PathInfo::File(_) => false,
        PathInfo::Directory(es) => es@.len() == 0,
    }
}

/// The whole listing: one output chunk per path, each as `path_out`
/// demands.
pub open spec fn listing_out(
    paths: Seq<Seq<char>>,
    infos: Seq<PathInfo>,
    long: bool,
    outs: Seq<String>,
) -> bool {
    &&& outs.len() == infos.len()
    &&& forall|i: int| 0 <= i < infos.len()
        ==> #[trigger] path_out(paths[i], infos[i], long, outs[i]@)
}

/// Long-mode rows use fixed column widths: for a size of at most nine
/// digits and a name of at most twenty characters, the size column is
/// exactly nine characters and the name column exactly twenty, so the
/// row's length is determined by the owner and group names alone.
pub proof fn lemma_long_row_widths(name: Seq<char>, m: Meta, user: Seq<char>, group: Seq<char>)
    requires
        m.size < 1000000000,
        name.len() <= 20,
    ensures
        perm_chars(m.mode).len() == 10,
        pad_left(dec_str(m.size as nat), 9).len() == 9,
        pad_right(name, 20).len() == 20,
        long_row(name, m, user, group).len() == 10 + 1 + user.len() + 1 + group.len() + 2 + 9 + 2
            + 20 + 1,
{
    assert(crate::num::pow10(9) == 1000000000) by {
        reveal_with_fuel(crate::num::pow10, 10);
    }
    crate::num::lemma_dec_str_len_le(m.size as nat, 9);
    reveal_strlit(" ");
    reveal_strlit("  ");
    reveal_strlit("B ");
    reveal_strlit("\n");
}

/// In any listing, a missing path's output chunk is exactly the
/// not-found notice for that path.
pub proof fn lemma_missing_path_notice(
    paths: Seq<Seq<char>>,
    infos: Seq<PathInfo>,
    long: bool,
    outs: Seq<String>,
    i: int,
)
    requires
        listing_out(paths, infos, long, outs),
        0 <= i < infos.len(),
        infos[i] is NotFound,
    ensures
        outs[i]@ == not_found_line(paths[i]),
{
    assert(path_out(paths[i], infos[i], long, outs[i]@));
}

/// Relies on users::get_user_by_uid: searches the system's user
/// database for the id; the user's name when one is found.
#[verifier::external_body]
fn user_name_of(uid: u32) -> (r: Option<String>) {
    match users::get_user_by_uid(uid) {
        Some(u) => Some(u.name().to_string_lossy().into_owned()),
        None => None,
    }
}

/// Relies on users::get_group_by_gid: searches the system's group
/// database for the id; the group's name when one is found.
#[verifier::external_body]
fn group_name_of(gid: u32) -> (r: Option<String>) {
    match users::get_group_by_gid(gid) {
        Some(g) => Some(g.name().to_string_lossy().into_owned()),
        None => None,
    }
}

/// Looks up the owner and group names for an entry's metadata.
pub fn resolve_entry(name: String, meta: Meta) -> (r: ResolvedEntry)
    ensures
        r.name == name,
        r.meta == meta,
{
    let user = user_name_of(meta.uid);
    let group = group_name_of(meta.gid);
    ResolvedEntry { name, meta, user, group }
}

/// Renders one long-mode row from already-resolved names.
pub fn render_long_row(name: &str, meta: Meta, user: &str, group: &str) -> (r: String)
    ensures
        r@ == long_row(name@, meta, user@, group@),
{
    let mut r = format_permissions(meta.mode);
    r.append(" ");
    r.append(user);
    r.append(" ");
    r.append(group);
    r.append("  ");
    let size = u64_string(meta.size);
    let padded_size = pad_left_str(size.as_str(), 9);
    r.append(padded_size.as_str());
    r.append("B ");
    let padded_name = pad_right_str(name, 20);
    r.append(padded_name.as_str());
    r.append("\n");
    proof {
        assert(r@ =~= long_row(name@, meta, user@, group@));
    }
    r
}

/// The long-mode row for a resolved entry: present exactly when both
/// the owner and the group name were found.
pub fn render_entry_long(e: &ResolvedEntry) -> (r: Option<String>)
    ensures
        match row_of(*e) {
            Some(row) => r matches Some(s) && s@ == row,
            None => r is None,
        },
{
    match (&e.user, &e.group) {
        (Some(u), Some(g)) => Some(render_long_row(e.name.as_str(), e.meta, u.as_str(), g.as_str())),
        _ => None,
    }
}

/// Builds the long-mode row for a name and its metadata, looking the
/// owner and group up in the system databases; `None` when either id is
/// not found there.
pub fn print_long_listing(name: &String, meta: Meta) -> (r: Option<String>)
    ensures
        r matches Some(s) ==> exists|u: Seq<char>, g: Seq<char>| s@ == long_row(name@, meta, u, g),
{
    let e = resolve_entry(name.clone(), meta);
    let r = render_entry_long(&e);
    proof {
        if r is Some {
            let u = e.user.unwrap()@;
            let g = e.group.unwrap()@;
            assert(r.unwrap()@ == long_row(name@, meta, u, g));
        }
    }
    r
}

fn list_directory_short(path: &String, entries: &Vec<EntryInfo>) -> (r: String)
    ensures
        r@ == short_dir_output(path@, entry_names(entries@)),
{
    let ghost names = entry_names(entries@);
    let mut s = path.clone();
    s.append(":\n");
    proof {
        assert(names.take(0) =~= Seq::<Seq<char>>::empty());
        assert(s@ =~= dir_header(path@) + joined_names(names.take(0)));
    }
    let mut i: usize = 0;
    while i < entries.len()
        invariant
            names == entry_names(entries@),
            i <= entries@.len(),
            s@ == dir_header(path@) + joined_names(names.take(i as int)),
        decreases entries@.len() - i,
    {
        s.append(entries[i].name.as_str());
        s.append(" ");
        proof {
            assert(names.take(i + 1int).drop_last() =~= names.take(i as int));
            assert(names.take(i + 1int).last() == entries@[i as int].name@);
            assert(s@ =~= dir_header(path@) + joined_names(names.take(i + 1int)));
        }
        i += 1;
    }
    s.append("\n");
    proof {
        assert(names.take(entries@.len() as int) =~= names);
        assert(s@ =~= short_dir_output(path@, names));
    }
    s
}

/// Renders a directory's long-mode listing from resolved entries: the
/// heading, one fixed-width row per entry, and a closing newline.
/// `None` exactly when some entry's owner or group name is missing.
pub fn render_resolved_dir(path: &String, entries: &Vec<ResolvedEntry>) -> (r: Option<String>)
    ensures
        rows_ok(entries@) ==> (r matches Some(s) && s@ == dir_header(path@) + long_rows(entries@) + "\n"@),
        !rows_ok(entries@) ==> r is None,
{
    let mut s = path.clone();
    s.append(":\n");
    proof {
        assert(entries@.take(0) =~= Seq::<ResolvedEntry>::empty());
        assert(s@ =~= dir_header(path@) + long_rows(entries@.take(0)));
    }
    let mut i: usize = 0;
    while i < entries.len()
        invariant
            i <= entries@.len(),
            rows_ok(entries@.take(i as int)),
            s@ == dir_header(path@) + long_rows(entries@.take(i as int)),
        decreases entries@.len() - i,
    {
        match render_entry_long(&entries[i]) {
            Some(row) => {
                s.append(row.as_str());
                proof {
                    assert(entries@.take(i + 1int).drop_last() =~= entries@.take(i as int));
                    assert(entries@.take(i + 1int).last() == entries@[i as int]);
                    assert(rows_ok(entries@.take(i + 1int))) by {
                        let t = entries@.take(i + 1int);
                        assert forall|j: int| 0 <= j < t.len() implies (#[trigger] row_of(t[j])) is Some by {
                            if j < i {
                                assert(row_of(entries@.take(i as int)[j]) is Some);
                            }
                        }
                    }
                    assert(s@ =~= dir_header(path@) + long_rows(entries@.take(i + 1int)));
                }
            },
            None => {
                proof {
                    assert(row_of(entries@[i as int]) is None);
                    assert(!rows_ok(entries@));
                }
                return None;
            },
        }
        i += 1;
    }
    s.append("\n");
    proof {
        assert(entries@.take(entries@.len() as int) =~= entries@);
    }
    Some(s)
}

fn list_directory_long(path: &String, entries: &Vec<EntryInfo>) -> (r: Option<String>)
    ensures
        r matches Some(s) ==> exists|rs: Seq<ResolvedEntry>|
            #![auto]
            resolves(entries@, rs) && rows_ok(rs) && s@ == dir_header(path@) + long_rows(rs) + "\n"@,
        entries@.len() == 0 ==> r is Some,
{
    let mut resolved: Vec<ResolvedEntry> = Vec::new();
    let mut i: usize = 0;
    while i < entries.len()
        invariant
            i <= entries@.len(),
            resolves(entries@.take(i as int), resolved@),
        decreases entries@.len() - i,
    {
        let e = &entries[i];
        let re = resolve_entry(e.name.clone(), e.meta);
        resolved.push(re);
        proof {
            assert(resolves(entries@.take(i + 1int), resolved@));
        }
        i += 1;
    }
    proof {
        assert(entries@.take(entries@.len() as int) =~= entries@);
    }
    proof {
        if entries@.len() == 0 {
            assert(rows_ok(resolved@));
        }
    }
    let r = render_resolved_dir(path, &resolved);
    proof {
        if r is Some {
            assert(rows_ok(resolved@));
            assert(resolves(entries@, resolved@));
        }
    }
    r
}

/// The output for one path, given what the filesystem showed of it.
/// Always present when no lookup is needed — in short mode, for a
/// missing path, and for an empty long-mode directory; `None` only
/// when long mode needed an owner or group name that the system
/// databases do not hold.
pub fn list_path(path: &String, info: &PathInfo, long: bool) -> (r: Option<String>)
    ensures
        r matches Some(s) ==> path_out(path@, *info, long, s@),
        no_lookup_needed(*info, long) ==> r is Some,
{
    match info {
        PathInfo::NotFound => {
            let mut s = path.clone();
            s.append(": file not found\n");
            Some(s)
        },
        PathInfo::File(m) => {
            if long {
                print_long_listing(path, *m)
            } else {
                let mut s = path.clone();
                s.append("\n");
                Some(s)
            }
        },
        PathInfo::Directory(entries) => {
            if long {
                list_directory_long(path, entries)
            } else {
                Some(list_directory_short(path, entries))
            }
        },
    }
}

/// The output for every configured path, one chunk per path, in order.
/// Always present when no path needs a lookup — in short mode, and in
/// long mode when every path is missing or an empty directory; `None`
/// only when long mode needed an owner or group name that the system
/// databases do not hold.
pub fn list_files(config: &Config, infos: &Vec<PathInfo>) -> (r: Option<Vec<String>>)
    requires
        infos@.len() == config.paths_view().len(),
    ensures
        r matches Some(outs) ==> listing_out(config.paths_view(), infos@, config.long_view(), outs@),
        (forall|i: int| 0 <= i < infos@.len()
            ==> #[trigger] no_lookup_needed(infos@[i], config.long_view())) ==> r is Some,
{
    let paths = config.paths();
    let long = config.long_listing();
    let mut outs: Vec<String> = Vec::new();
    let mut i: usize = 0;
    while i < paths.len()
        invariant
            infos@.len() == config.paths_view().len(),
            views_of(paths@) == config.paths_view(),
            long == config.long_view(),
            i <= paths@.len(),
            outs@.len() == i,
            forall|j: int| 0 <= j < i
                ==> #[trigger] path_out(config.paths_view()[j], infos@[j], long, outs@[j]@),
        decreases paths@.len() - i,
    {
        match list_path(&paths[i], &infos[i], long) {
            Some(s) => {
                outs.push(s);
                proof {
                    assert(config.paths_view()[i as int] == paths@[i as int]@);
                }
            },
            None => {
                proof {
                    assert(!no_lookup_needed(infos@[i as int], config.long_view()));
                }
                return None;
            },
        }
        i += 1;
    }
    Some(outs)
}

/// Lists every configured path: the library's whole pipeline on what
/// the filesystem showed.
pub fn run(config: &Config, infos: &Vec<PathInfo>) -> (r: Option<Vec<String>>)
    requires
        infos@.len() == config.paths_view().len(),
    ensures
        r matches Some(outs) ==> listing_out(config.paths_view(), infos@, config.long_view(), outs@),
        (forall|i: int| 0 <= i < infos@.len()
            ==> #[trigger] no_lookup_needed(infos@[i], config.long_view())) ==> r is Some,
{
    list_files(config, infos)
}

} // verus!
