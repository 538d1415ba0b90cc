use ssh_assistant::client::client_type;
use ssh_assistant::client::get_os_info;
use ssh_assistant::client::greet;
use ssh_assistant::client::key_to_look_up;
use ssh_assistant::client::os_info;
use ssh_assistant::client::populate_key;
use ssh_assistant::client::ClientType;
use ssh_assistant::client::KeyLookup;
use ssh_assistant::listing::default_owner;
use ssh_assistant::listing::list_entries;
use ssh_assistant::listing::owner_command;
use ssh_assistant::listing::owner_from_output;
use ssh_assistant::listing::sort_entries;
use ssh_assistant::listing::unresolved_owners;
use ssh_assistant::listing::OwnerCache;
use ssh_assistant::listing::RawEntry;
use ssh_assistant::models::get_sftp_buffer_size;
use ssh_assistant::models::pool_capacity;
use ssh_assistant::models::Connection;
use ssh_assistant::models::FileEntry;
use ssh_assistant::models::FileManagerSettings;
use ssh_assistant::models::SshKey;
use ssh_assistant::models::SshPoolSettings;
use ssh_assistant::records::authorized_keys_entry;
use ssh_assistant::records::cancel_transfer;
use ssh_assistant::records::create_guidance;
use ssh_assistant::records::file_name;
use ssh_assistant::records::mark_completed;
use ssh_assistant::records::mark_failed;
use ssh_assistant::records::mark_running;
use ssh_assistant::records::new_transfer;
use ssh_assistant::records::session_failure;
use ssh_assistant::records::set_total;
use ssh_assistant::records::set_transferred;
use ssh_assistant::records::shell_data_event;
use ssh_assistant::records::shell_exit_event;
use ssh_assistant::records::sort_newest_first;
use ssh_assistant::records::Created;
use ssh_assistant::records::Direction;
use ssh_assistant::remote::classify_uname;
use ssh_assistant::remote::classify_ver;
use ssh_assistant::remote::search_command;
use ssh_assistant::remote::search_entries;
use ssh_assistant::remote::working_directory;
use ssh_assistant::system::first_word_or;
use ssh_assistant::system::parse_cpu_stats;
use ssh_assistant::system::parse_ip;
use ssh_assistant::system::parse_memory;
use ssh_assistant::system::parse_mounts;
use ssh_assistant::system::parse_processes;
use ssh_assistant::system::parse_table;
use ssh_assistant::system::parse_uptime;
use ssh_assistant::system::root_disk;
use ssh_assistant::system::table_rows;
use ssh_assistant::tree::delete_plan;
use ssh_assistant::tree::get_dir_size;
use ssh_assistant::tree::join_path;
use ssh_assistant::tree::upload_plan;
use ssh_assistant::tree::TreeEntry;
use ssh_assistant::tree::TreeOp;
use ssh_assistant::wsl::to_wsl_path;

fn file(name: &str, size: u64) -> TreeEntry {
    TreeEntry { name: name.to_string(), is_dir: false, size, children: Vec::new() }
}

fn dir(name: &str, children: Vec<TreeEntry>) -> TreeEntry {
    TreeEntry { name: name.to_string(), is_dir: true, size: 4096, children }
}

fn paths(ops: &[TreeOp]) -> Vec<String> {
    ops.iter()
        .map(|op| match op {
            TreeOp::Unlink { path } => format!("unlink {}", path),
            TreeOp::Rmdir { path } => format!("rmdir {}", path),
            TreeOp::Mkdir { path } => format!("mkdir {}", path),
            TreeOp::Put { local, remote, size } => format!("put {} {} {}", local, remote, size),
        })
        .collect()
}

fn sample_tree() -> TreeEntry {
    dir(
        "top",
        vec![
            dir(".", vec![]),
            dir("..", vec![]),
            file("a.txt", 3),
            dir("sub", vec![file("b.txt", 5), dir("deep", vec![file("c", 7)]), dir("empty", vec![])]),
            file("z", 11),
        ],
    )
}

#[test]
fn recursive_delete_removes_children_first() {
    let ops = delete_plan("/data/top", &sample_tree());
    assert_eq!(
        paths(&ops),
        vec![
            "unlink /data/top/a.txt",
            "unlink /data/top/sub/b.txt",
            "unlink /data/top/sub/deep/c",
            "rmdir /data/top/sub/deep",
            "rmdir /data/top/sub/empty",
            "rmdir /data/top/sub",
            "unlink /data/top/z",
            "rmdir /data/top",
        ]
    );
    let unlinks = ops.iter().filter(|op| matches!(op, TreeOp::Unlink { .. })).count();
    let rmdirs = ops.iter().filter(|op| matches!(op, TreeOp::Rmdir { .. })).count();
    assert_eq!(unlinks, 4);
    assert_eq!(rmdirs, 4);
}

#[test]
fn deleting_a_file_or_an_empty_directory() {
    assert_eq!(paths(&delete_plan("/f", &file("f", 1))), vec!["unlink /f"]);
    assert_eq!(paths(&delete_plan("/d/", &dir("d", vec![]))), vec!["rmdir /d/"]);
    assert_eq!(
        paths(&delete_plan("/d/", &dir("d", vec![file("x", 1)]))),
        vec!["unlink /d/x", "rmdir /d/"]
    );
}

#[test]
fn recursive_upload_creates_directories_first() {
    let tree = dir("top", vec![file("a.txt", 3), dir("sub", vec![file("b.txt", 5)])]);
    let ops = upload_plan("C:/src/top", "/dst/top", &tree);
    assert_eq!(
        paths(&ops),
        vec![
            "mkdir /dst/top",
            "put C:/src/top/a.txt /dst/top/a.txt 3",
            "mkdir /dst/top/sub",
            "put C:/src/top/sub/b.txt /dst/top/sub/b.txt 5",
        ]
    );
    assert_eq!(paths(&upload_plan("l", "r", &file("l", 9))), vec!["put l r 9"]);
}

#[test]
fn directory_sizes_add_up() {
    assert_eq!(get_dir_size(&sample_tree()), Some(26));
    assert_eq!(get_dir_size(&file("x", 9)), Some(9));
    assert_eq!(get_dir_size(&dir("d", vec![])), Some(0));
    let huge = dir("d", vec![file("a", u64::MAX), file("b", 1)]);
    assert_eq!(get_dir_size(&huge), None);
    assert_eq!(join_path("/a", "b"), "/a/b");
    assert_eq!(join_path("/a/", "b"), "/a/b");
    assert_eq!(join_path("", "b"), "/b");
}

fn raw(name: Option<&str>, is_dir: bool, uid: Option<u32>) -> RawEntry {
    RawEntry {
        name: name.map(|n| n.to_string()),
        is_dir,
        size: Some(10),
        mtime: Some(1700000000),
        perm: Some(0o644),
        uid,
    }
}

#[test]
fn listing_is_filtered_resolved_and_sorted() {
    let entries = vec![
        raw(Some("."), true, Some(0)),
        raw(Some(".."), true, Some(0)),
        raw(Some("zeta"), false, Some(1000)),
        raw(None, false, Some(5)),
        raw(Some("beta"), true, Some(0)),
        raw(Some("alpha"), false, None),
        raw(Some("Alpha"), true, Some(1001)),
    ];
    let mut cache = OwnerCache::new();
    assert_eq!(unresolved_owners(&entries, &cache), vec![1000, 0, 1001]);
    cache.record(1000, owner_from_output(1000, Some(" alice\n")));
    cache.record(1000, "ignored".to_string());
    cache.record(1001, owner_from_output(1001, Some("   ")));
    assert_eq!(unresolved_owners(&entries, &cache), vec![0]);
    assert!(cache.contains(1000));
    assert!(!cache.contains(0));
    let listing = list_entries(&entries, &cache);
    let names: Vec<(&str, bool, &str)> =
        listing.iter().map(|e| (e.name.as_str(), e.is_dir, e.owner.as_str())).collect();
    assert_eq!(
        names,
        vec![
            ("Alpha", true, "-"),
            ("beta", true, "root"),
            ("alpha", false, "root"),
            ("zeta", false, "alice"),
        ]
    );
    assert_eq!(listing[3].size, 10);
    assert_eq!(listing[3].mtime, 1700000000);
    assert_eq!(listing[3].permissions, 0o644);
    assert_eq!(listing[3].uid, 1000);
    assert_eq!(listing[2].uid, 0);
}

#[test]
fn owners() {
    assert_eq!(default_owner(0), "root");
    assert_eq!(default_owner(12), "-");
    assert_eq!(owner_command(1000), "id -nu 1000");
    assert_eq!(owner_command(0), "id -nu 0");
    assert_eq!(owner_from_output(5, None), "-");
    assert_eq!(owner_from_output(0, Some("")), "root");
    assert_eq!(owner_from_output(5, Some("bob\n")), "bob");
}

fn entry(name: &str, is_dir: bool) -> FileEntry {
    FileEntry {
        name: name.to_string(),
        is_dir,
        size: 0,
        mtime: 0,
        permissions: 0,
        uid: 0,
        owner: String::new(),
    }
}

#[test]
fn sorting_puts_directories_first() {
    let sorted = sort_entries(vec![
        entry("b", false),
        entry("a", false),
        entry("d", true),
        entry("c", true),
        entry("ab", false),
        entry("", false),
    ]);
    let names: Vec<&str> = sorted.iter().map(|e| e.name.as_str()).collect();
    assert_eq!(names, vec!["c", "d", "", "a", "ab", "b"]);
    assert!(sort_entries(Vec::new()).is_empty());
}

#[test]
fn transfer_records() {
    let mut t = new_transfer(
        "id1".to_string(),
        "s1".to_string(),
        "/home/u/file.bin".to_string(),
        "/srv/data/".to_string(),
        Direction::Upload,
        42,
    );
    assert_eq!(t.name, "file.bin");
    assert_eq!(t.transfer_type, "upload");
    assert_eq!(t.status, "pending");
    assert_eq!((t.total_size, t.transferred, t.created_at), (0, 0, 42));
    mark_running(&mut t);
    assert_eq!(t.status, "running");
    set_total(&mut t, 100);
    set_transferred(&mut t, 40);
    assert_eq!((t.total_size, t.transferred), (100, 40));
    mark_completed(&mut t);
    assert_eq!(t.status, "completed");
    assert_eq!(t.transferred, 100);
    assert!(!cancel_transfer(&mut t));
    assert_eq!(t.status, "completed");

    let mut d = new_transfer(
        "id2".to_string(),
        "s1".to_string(),
        "/home/u/x".to_string(),
        "/srv/data/report.pdf".to_string(),
        Direction::Download,
        43,
    );
    assert_eq!(d.name, "report.pdf");
    assert_eq!(d.transfer_type, "download");
    assert!(cancel_transfer(&mut d));
    assert_eq!(d.status, "cancelled");
    assert!(!mark_failed(&mut d, "Download cancelled".to_string()));
    assert_eq!(d.status, "cancelled");
    assert_eq!(d.error, None);

    let mut e = new_transfer(
        "id3".to_string(),
        "s".to_string(),
        "l".to_string(),
        "r".to_string(),
        Direction::Download,
        44,
    );
    mark_running(&mut e);
    assert!(mark_failed(&mut e, "disk full".to_string()));
    assert_eq!(e.status, "error");
    assert_eq!(e.error, Some("disk full".to_string()));

    let sorted = sort_newest_first(vec![t, e, d]);
    let order: Vec<i64> = sorted.iter().map(|r| r.created_at).collect();
    assert_eq!(order, vec![44, 43, 42]);
}

#[test]
fn file_names() {
    assert_eq!(file_name("/a/b/c.txt"), "c.txt");
    assert_eq!(file_name("c.txt"), "c.txt");
    assert_eq!(file_name("/a/b/"), "b");
    assert_eq!(file_name("/"), "");
    assert_eq!(file_name(""), "");
    assert_eq!(file_name("a/.."), "");
}

#[test]
fn guidance_for_failed_creation() {
    assert_eq!(
        create_guidance(Created::Directory, "/x/y", "SFTP: Permission denied (3)"),
        "Permission denied: Cannot create directory '/x/y'. Check if you have write permissions."
    );
    assert_eq!(
        create_guidance(Created::File, "/x/y", "No such file or directory"),
        "Parent directory does not exist: /x/y"
    );
    assert_eq!(
        create_guidance(Created::File, "/x/y", "quota exceeded"),
        "Failed to create file '/x/y': quota exceeded"
    );
    assert_eq!(
        create_guidance(Created::Directory, "/x", "failure"),
        "Failed to create directory '/x': failure"
    );
    assert_eq!(session_failure("down"), "Failed to get background session: down");
    assert_eq!(shell_data_event("abc"), "term-data:abc");
    assert_eq!(shell_exit_event("abc"), "term-exit:abc");
    assert_eq!(authorized_keys_entry("  ssh-ed25519 AAA me \n"), "\nssh-ed25519 AAA me\n");
}

#[test]
fn cpu_line() {
    assert_eq!(parse_cpu_stats("cpu  10 20 30 40 50 60 70 80 0 0"), Some((360, 270)));
    assert_eq!(parse_cpu_stats("cpu 1 2 3 4"), Some((10, 6)));
    assert_eq!(parse_cpu_stats("cpu 1 x 3 4 +5"), Some((13, 4)));
    assert_eq!(parse_cpu_stats("cpu 1 2 3"), None);
    assert_eq!(parse_cpu_stats("cpu0 1 2 3 4"), None);
    assert_eq!(parse_cpu_stats(""), None);
    assert_eq!(parse_cpu_stats("cpu 18446744073709551615 1 0 0"), None);
    assert_eq!(parse_cpu_stats("cpu 18446744073709551616 1 0 0"), Some((1, 1)));
}

#[test]
fn tables() {
    let raw = "a|b|c\n  d|e  \n\n f|g|h|i \r\n";
    assert_eq!(
        table_rows(raw, 3),
        vec![vec!["a", "b", "c"], vec!["f", "g", "h", "i"]]
    );
    assert_eq!(table_rows(raw, 0).len(), 3);
    assert!(table_rows("", 1).is_empty());
    let joined: Vec<String> = parse_table(
        raw,
        |row: Vec<String>| if row[0] == "d" { None } else { Some(row.join("+")) },
        2,
    );
    assert_eq!(joined, vec!["a+b+c", "f+g+h+i"]);
    let none: Vec<u8> = parse_table("", |_row: Vec<String>| Some(1u8), 1);
    assert!(none.is_empty());
}

#[test]
fn status_output() {
    let mounts = parse_mounts("/dev/sda1|50G|20G|30G|40%|/boot\n/dev/sda2|100G|1G|99G|1%|/\nbad|row\n");
    assert_eq!(mounts.len(), 2);
    assert_eq!(mounts[0].filesystem, "/dev/sda1");
    assert_eq!(mounts[0].size, "50G");
    assert_eq!(mounts[0].used, "20G");
    assert_eq!(mounts[0].avail, "30G");
    assert_eq!(mounts[0].percent, "40%");
    assert_eq!(mounts[0].mount, "/boot");
    assert_eq!(root_disk(&mounts), Some(1));
    assert_eq!(root_disk(&mounts[..1].to_vec()), Some(0));
    assert_eq!(root_disk(&Vec::new()), None);
    let procs = parse_processes("12|bash|1.0%|2.0%|3.5MB\n");
    assert_eq!(procs.len(), 1);
    assert_eq!(procs[0].pid, "12");
    assert_eq!(procs[0].command, "bash");
    assert_eq!(procs[0].cpu, "1.0%");
    assert_eq!(procs[0].memory, "2.0%");
    assert_eq!(procs[0].memory_percent, "3.5MB");
    let mem = parse_memory("12.5%|16.0GB|2.0GB|14.0GB").unwrap();
    assert_eq!(mem.usage, "12.5%");
    assert_eq!(mem.total, "16.0GB");
    assert_eq!(mem.used, "2.0GB");
    assert_eq!(mem.available, "14.0GB");
    assert!(parse_memory("0%|0|0").is_none());
    assert_eq!(parse_ip("10.0.0.5 192.168.1.2 \n"), "10.0.0.5");
    assert_eq!(parse_ip("  "), "N/A");
    assert_eq!(first_word_or("", "none"), "none");
    assert_eq!(parse_uptime(""), "N/A");
    assert_eq!(parse_uptime("up 3 days"), "up 3 days");
}

#[test]
fn wsl_paths() {
    assert_eq!(to_wsl_path("Ubuntu", "/home/me/a.txt"), "\\\\wsl$\\Ubuntu\\home\\me\\a.txt");
    assert_eq!(to_wsl_path("Ubuntu", "//x"), "\\\\wsl$\\Ubuntu\\x");
    assert_eq!(to_wsl_path("Debian", ""), "\\\\wsl$\\Debian\\");
    assert_eq!(to_wsl_path("Debian", "a/b\\c"), "\\\\wsl$\\Debian\\a\\b\\c");
}

fn config() -> Connection {
    Connection {
        id: None,
        name: "n".to_string(),
        host: "h".to_string(),
        port: 22,
        username: "u".to_string(),
        password: None,
        auth_type: Some("key".to_string()),
        ssh_key_id: Some(7),
        jump_host: None,
        jump_port: None,
        jump_username: None,
        jump_password: None,
        group_id: None,
        os_type: None,
        key_content: None,
        key_passphrase: None,
    }
}

#[test]
fn connecting() {
    assert!(matches!(client_type("example.org"), ClientType::Ssh));
    match client_type("wsl://Ubuntu") {
        ClientType::Wsl(d) => assert_eq!(d, "Ubuntu"),
        other => panic!("unexpected {:?}", other),
    }
    match client_type("wsl://wsl://X") {
        ClientType::Wsl(d) => assert_eq!(d, "X"),
        other => panic!("unexpected {:?}", other),
    }
    let mut c = config();
    assert_eq!(os_info(&c), "Linux");
    c.os_type = Some("Windows".to_string());
    assert_eq!(os_info(&c), "Windows");
    assert_eq!(get_os_info(&None), "Unknown");
    assert_eq!(get_os_info(&Some("Linux".to_string())), "Linux");
    assert_eq!(greet("Ann"), "Hello, Ann! You've been greeted from Rust!");
}

#[test]
fn filling_in_the_key() {
    let key = SshKey {
        id: Some(7),
        name: "k".to_string(),
        content: "PRIVATE".to_string(),
        passphrase: Some("pp".to_string()),
        created_at: 0,
    };
    let mut c = config();
    assert_eq!(key_to_look_up(&c), Some(7));
    assert!(populate_key(&mut c, KeyLookup::Found(key), false).is_ok());
    assert_eq!(c.key_content, Some("PRIVATE".to_string()));
    assert_eq!(c.key_passphrase, Some("pp".to_string()));

    let mut c = config();
    assert_eq!(
        populate_key(&mut c, KeyLookup::Missing, false),
        Err("SSH Key with ID 7 not found in database".to_string())
    );
    assert_eq!(
        populate_key(&mut c, KeyLookup::Missing, true),
        Err("SSH Key with ID 7 not found".to_string())
    );
    assert_eq!(
        populate_key(&mut c, KeyLookup::Failed("locked".to_string()), true),
        Err("Failed to fetch SSH Key: locked".to_string())
    );
    c.ssh_key_id = Some(-3);
    assert_eq!(
        populate_key(&mut c, KeyLookup::Missing, true),
        Err("SSH Key with ID -3 not found".to_string())
    );
    c.ssh_key_id = None;
    assert_eq!(key_to_look_up(&c), None);
    assert_eq!(
        populate_key(&mut c, KeyLookup::NotAsked, true),
        Err("SSH Key ID is missing needed for key authentication".to_string())
    );
    assert!(populate_key(&mut c, KeyLookup::NotAsked, false).is_ok());
    c.auth_type = None;
    c.ssh_key_id = Some(7);
    assert_eq!(key_to_look_up(&c), None);
    assert!(populate_key(&mut c, KeyLookup::NotAsked, true).is_ok());
    assert_eq!(c.key_content, None);
}

#[test]
fn remote_output() {
    assert_eq!(search_command("/var", "log"), "find '/var' -name '*log*'");
    let found = search_entries("/var/log/a.log\n\n  /var/log/b.log  \n");
    let names: Vec<&str> = found.iter().map(|e| e.name.as_str()).collect();
    assert_eq!(names, vec!["a.log", "b.log"]);
    assert!(!found[0].is_dir);
    assert_eq!(found[0].owner, "");
    assert_eq!(classify_uname("Linux\n"), Some("Linux".to_string()));
    assert_eq!(classify_uname("MINGW64_NT-10.0\n"), Some("Windows".to_string()));
    assert_eq!(classify_uname("cygwin_nt\n"), Some("Windows".to_string()));
    assert_eq!(classify_uname("sh: uname: Command not found\n"), None);
    assert_eq!(classify_uname("  \n"), None);
    assert_eq!(classify_ver("Microsoft Windows [Version 10.0]"), "Windows");
    assert_eq!(classify_ver("nope"), "Unknown");
    assert_eq!(working_directory(" /home/me \n"), "/home/me");
}

#[test]
fn settings() {
    let fm = FileManagerSettings { view_mode: "flat".to_string(), sftp_buffer_size: 256 };
    assert_eq!(get_sftp_buffer_size(Some(&fm)), 262144);
    assert_eq!(get_sftp_buffer_size(None), 524288);
    let pool = SshPoolSettings {
        max_background_sessions: 5,
        enable_auto_cleanup: true,
        cleanup_interval_minutes: 5,
    };
    assert_eq!(pool_capacity(Some(&pool)), 5);
    assert_eq!(pool_capacity(None), 3);
    let negative = SshPoolSettings {
        max_background_sessions: -1,
        enable_auto_cleanup: true,
        cleanup_interval_minutes: 5,
    };
    assert_eq!(pool_capacity(Some(&negative)), 3);
}
