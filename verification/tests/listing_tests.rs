use minils::listing::{
    render_entry_long, render_long_row, render_resolved_dir, resolve_entry, EntryInfo, Meta,
    PathInfo, ResolvedEntry,
};
use minils::{list_path, print_long_listing, run, Config};

fn file_meta(size: u64) -> Meta {
    Meta { mode: 0o100644, size, uid: 1000, gid: 1000 }
}

#[test]
fn missing_path_notice_short_mode() {
    let path = "missing".to_string();
    let out = list_path(&path, &PathInfo::NotFound, false).unwrap();
    assert_eq!(out, "missing: file not found\n");
}

#[test]
fn missing_path_notice_long_mode() {
    let path = "gone/away".to_string();
    let out = list_path(&path, &PathInfo::NotFound, true).unwrap();
    assert_eq!(out, "gone/away: file not found\n");
}

#[test]
fn short_mode_file_is_its_path() {
    let path = "notes.txt".to_string();
    let out = list_path(&path, &PathInfo::File(file_meta(10)), false).unwrap();
    assert_eq!(out, "notes.txt\n");
}

#[test]
fn short_mode_directory_joins_names() {
    let path = "d".to_string();
    let entries = vec![
        EntryInfo { name: "a".to_string(), meta: file_meta(1) },
        EntryInfo { name: "b".to_string(), meta: file_meta(2) },
    ];
    let out = list_path(&path, &PathInfo::Directory(entries), false).unwrap();
    assert_eq!(out, "d:\na b \n");
}

#[test]
fn short_mode_empty_directory() {
    let path = "d".to_string();
    let out = list_path(&path, &PathInfo::Directory(Vec::new()), false).unwrap();
    assert_eq!(out, "d:\n\n");
}

#[test]
fn long_row_has_fixed_columns() {
    let row = render_long_row("notes.txt", file_meta(1234), "alice", "staff");
    assert_eq!(row, "-rw-r--r-- alice staff       1234B notes.txt           \n");
    assert_eq!(row.chars().count(), 10 + 1 + 5 + 1 + 5 + 2 + 9 + 2 + 20 + 1);
}

#[test]
fn long_row_keeps_wide_fields_whole() {
    let meta = Meta { mode: 0o100644, size: 12345678901, uid: 0, gid: 0 };
    let row = render_long_row("a_name_of_more_than_twenty_chars", meta, "u", "g");
    assert_eq!(row, "-rw-r--r-- u g  12345678901B a_name_of_more_than_twenty_chars\n");
}

#[test]
fn resolved_entry_without_names_has_no_row() {
    let e = ResolvedEntry {
        name: "a".to_string(),
        meta: file_meta(1),
        user: None,
        group: Some("g".to_string()),
    };
    assert_eq!(render_entry_long(&e), None);
}

#[test]
fn resolved_directory_lists_each_row() {
    let path = "d".to_string();
    let entries = vec![
        ResolvedEntry {
            name: "a".to_string(),
            meta: file_meta(1),
            user: Some("u".to_string()),
            group: Some("g".to_string()),
        },
        ResolvedEntry {
            name: "b".to_string(),
            meta: file_meta(22),
            user: Some("u".to_string()),
            group: Some("g".to_string()),
        },
    ];
    let row_a = render_long_row("a", file_meta(1), "u", "g");
    let row_b = render_long_row("b", file_meta(22), "u", "g");
    let out = render_resolved_dir(&path, &entries).unwrap();
    assert_eq!(out, format!("d:\n{}{}\n", row_a, row_b));
}

#[test]
fn resolved_directory_with_missing_name_fails() {
    let path = "d".to_string();
    let entries = vec![ResolvedEntry {
        name: "a".to_string(),
        meta: file_meta(1),
        user: Some("u".to_string()),
        group: None,
    }];
    assert_eq!(render_resolved_dir(&path, &entries), None);
}

#[test]
fn root_ids_resolve_through_the_system_database() {
    let meta = Meta { mode: 0o100644, size: 5, uid: 0, gid: 0 };
    let e = resolve_entry("f".to_string(), meta);
    assert_eq!(e.user.as_deref(), Some("root"));
    let row = print_long_listing(&"f".to_string(), meta).unwrap();
    assert!(row.starts_with("-rw-r--r-- root "));
    assert!(row.ends_with("        5B f                   \n"));
}

#[test]
fn run_reports_each_missing_path() {
    let mut args = vec!["prog".to_string(), "x".to_string(), "y".to_string()];
    let config = Config::new(&mut args).unwrap();
    let infos = vec![PathInfo::NotFound, PathInfo::NotFound];
    let outs = run(&config, &infos).unwrap();
    assert_eq!(outs, vec!["x: file not found\n".to_string(), "y: file not found\n".to_string()]);
}

#[test]
fn run_with_no_arguments_lists_current_dir() {
    let mut args = vec!["prog".to_string()];
    let config = Config::new(&mut args).unwrap();
    assert_eq!(config.paths(), &vec![".".to_string()]);
    let entries = vec![
        EntryInfo { name: "a".to_string(), meta: file_meta(1) },
        EntryInfo { name: "b".to_string(), meta: file_meta(2) },
    ];
    let infos = vec![PathInfo::Directory(entries)];
    let outs = run(&config, &infos).unwrap();
    assert_eq!(outs, vec![".:\na b \n".to_string()]);
}

#[test]
fn long_mode_empty_directory_succeeds() {
    let mut args = vec!["prog".to_string(), "-l".to_string(), "d".to_string()];
    let config = Config::new(&mut args).unwrap();
    let infos = vec![PathInfo::Directory(Vec::new())];
    let outs = run(&config, &infos).unwrap();
    assert_eq!(outs, vec!["d:\n\n".to_string()]);
}

#[test]
fn run_long_mode_directory_resolves_rows() {
    let meta_a = Meta { mode: 0o100644, size: 1, uid: 0, gid: 0 };
    let meta_b = Meta { mode: 0o100755, size: 22, uid: 0, gid: 0 };
    let mut args = vec!["prog".to_string(), "-l".to_string(), "d".to_string()];
    let config = Config::new(&mut args).unwrap();
    let entries = vec![
        EntryInfo { name: "a".to_string(), meta: meta_a },
        EntryInfo { name: "b".to_string(), meta: meta_b },
    ];
    let infos = vec![PathInfo::Directory(entries)];
    let outs = run(&config, &infos).unwrap();
    let ra = resolve_entry("a".to_string(), meta_a);
    let row_a =
        render_long_row("a", meta_a, ra.user.as_deref().unwrap(), ra.group.as_deref().unwrap());
    let rb = resolve_entry("b".to_string(), meta_b);
    let row_b =
        render_long_row("b", meta_b, rb.user.as_deref().unwrap(), rb.group.as_deref().unwrap());
    assert_eq!(outs, vec![format!("d:\n{}{}\n", row_a, row_b)]);
    assert!(outs[0].contains(" root "));
}

#[test]
fn run_mixes_files_and_directories() {
    let mut args = vec!["prog".to_string(), "f".to_string(), "d".to_string()];
    let config = Config::new(&mut args).unwrap();
    let entries = vec![EntryInfo { name: "a".to_string(), meta: file_meta(1) }];
    let infos = vec![PathInfo::File(file_meta(3)), PathInfo::Directory(entries)];
    let outs = run(&config, &infos).unwrap();
    assert_eq!(outs, vec!["f\n".to_string(), "d:\na \n".to_string()]);
}
