use ssh_assistant::auth::wants_key;
use ssh_assistant::establish::text_or_empty;
use ssh_assistant::listing::is_listed;
use ssh_assistant::listing::show_entry;
use ssh_assistant::listing::OwnerCache;
use ssh_assistant::listing::RawEntry;
use ssh_assistant::models::Connection;
use ssh_assistant::records::is_cancelled;
use ssh_assistant::records::cancel_transfer;
use ssh_assistant::records::new_transfer;
use ssh_assistant::records::status_text;
use ssh_assistant::records::Direction;
use ssh_assistant::records::TransferStatus;
use ssh_assistant::retry::ErrorCode;
use ssh_assistant::retry::TransportError;
use ssh_assistant::session::ManagedSession;
use ssh_assistant::session::TeardownStep;
use ssh_assistant::text::char_is_space;
use ssh_assistant::text::chars_of;
use ssh_assistant::text::contains_char;
use ssh_assistant::text::contains_chars;
use ssh_assistant::text::decimal;
use ssh_assistant::text::decimal_signed;
use ssh_assistant::text::hex_colon;
use ssh_assistant::text::is_blank;
use ssh_assistant::text::join2;
use ssh_assistant::text::join3;
use ssh_assistant::text::parse_u64;
use ssh_assistant::text::same_chars;
use ssh_assistant::text::same_text;
use ssh_assistant::text::split;
use ssh_assistant::text::string_of;
use ssh_assistant::text::strip_prefixes;
use ssh_assistant::text::trim;
use ssh_assistant::text::trim_chars;
use ssh_assistant::text::words;
use ssh_assistant::tree::is_dot;

fn texts(parts: Vec<Vec<char>>) -> Vec<String> {
    parts.iter().map(|p| string_of(p)).collect()
}

#[test]
fn characters_and_back() {
    let chars = chars_of("päth/ş");
    assert_eq!(chars, vec!['p', 'ä', 't', 'h', '/', 'ş']);
    assert_eq!(string_of(&chars), "päth/ş");
    assert_eq!(chars_of(""), Vec::<char>::new());
    assert!(same_text("abc", "abc"));
    assert!(!same_text("abc", "abd"));
    assert!(!same_text("abc", "ab"));
    assert!(same_text("", ""));
    assert!(same_chars(&chars_of("xy"), &chars_of("xy")));
    assert!(!same_chars(&chars_of("xy"), &chars_of("xyz")));
    assert!(!same_chars(&chars_of("xy"), &chars_of("xz")));
}

#[test]
fn joining() {
    assert_eq!(join2("Connection failed: ", "timed out"), "Connection failed: timed out");
    assert_eq!(join2("", ""), "");
    assert_eq!(join3("a", "", "c"), "ac");
    assert_eq!(join3("wsl://", "Ubuntu", "/home"), "wsl://Ubuntu/home");
}

#[test]
fn white_space() {
    for c in [' ', '\t', '\n', '\r', '\u{b}', '\u{c}', '\u{85}', '\u{a0}', '\u{2003}', '\u{3000}'] {
        assert!(char_is_space(c), "{:?}", c);
        assert_eq!(char_is_space(c), c.is_whitespace());
    }
    for c in ['a', '0', '_', '\u{200b}', '\0'] {
        assert!(!char_is_space(c), "{:?}", c);
        assert_eq!(char_is_space(c), c.is_whitespace());
    }
    assert!(is_blank(""));
    assert!(is_blank(" \t\r\n"));
    assert!(!is_blank("  x "));
}

#[test]
fn trimming() {
    assert_eq!(trim("  bastion.example \n"), "bastion.example");
    assert_eq!(trim("no-space"), "no-space");
    assert_eq!(trim(" \t "), "");
    assert_eq!(trim(""), "");
    assert_eq!(trim(" a b "), "a b");
    assert_eq!(trim_chars(&chars_of("\n x y\t")), chars_of("x y"));
    assert_eq!(trim_chars(&chars_of("   ")), Vec::<char>::new());
}

#[test]
fn searching() {
    assert!(contains_chars(&chars_of("Permission denied (publickey)"), &chars_of("denied")));
    assert!(contains_chars(&chars_of("abc"), &chars_of("")));
    assert!(contains_chars(&chars_of(""), &chars_of("")));
    assert!(!contains_chars(&chars_of("ab"), &chars_of("abc")));
    assert!(!contains_chars(&chars_of("aab"), &chars_of("abb")));
    assert!(contains_chars(&chars_of("aab"), &chars_of("ab")));
    assert!(contains_char("host\0name", '\0'));
    assert!(!contains_char("hostname", '\0'));
    assert!(!contains_char("", 'a'));
}

#[test]
fn numbers_as_text() {
    assert_eq!(decimal(0), "0");
    assert_eq!(decimal(7), "7");
    assert_eq!(decimal(2222), "2222");
    assert_eq!(decimal(u64::MAX), "18446744073709551615");
    assert_eq!(decimal_signed(0), "0");
    assert_eq!(decimal_signed(42), "42");
    assert_eq!(decimal_signed(-5), "-5");
    assert_eq!(decimal_signed(i64::MAX), "9223372036854775807");
    assert_eq!(decimal_signed(i64::MIN), "-9223372036854775808");
    assert_eq!(hex_colon(&vec![]), "");
    assert_eq!(hex_colon(&vec![0xab]), "ab");
    assert_eq!(hex_colon(&vec![0x00, 0x0f, 0xa0, 0xff]), "00:0f:a0:ff");
}

#[test]
fn text_as_numbers() {
    assert_eq!(parse_u64(&chars_of("0")), Some(0));
    assert_eq!(parse_u64(&chars_of("007")), Some(7));
    assert_eq!(parse_u64(&chars_of("+12")), Some(12));
    assert_eq!(parse_u64(&chars_of("18446744073709551615")), Some(u64::MAX));
    assert_eq!(parse_u64(&chars_of("18446744073709551616")), None);
    assert_eq!(parse_u64(&chars_of("99999999999999999999999")), None);
    assert_eq!(parse_u64(&chars_of("")), None);
    assert_eq!(parse_u64(&chars_of("+")), None);
    assert_eq!(parse_u64(&chars_of("-1")), None);
    assert_eq!(parse_u64(&chars_of("12a")), None);
    assert_eq!(parse_u64(&chars_of(" 12")), None);
    assert_eq!(parse_u64(&chars_of("1 2")), None);
    for text in ["", "+", "++1", "+0", "0000000000000000000000001", "١٢"] {
        assert_eq!(parse_u64(&chars_of(text)), text.parse::<u64>().ok(), "{:?}", text);
    }
}

#[test]
fn splitting() {
    assert_eq!(texts(split(&chars_of("a|b||c"), '|')), vec!["a", "b", "", "c"]);
    assert_eq!(texts(split(&chars_of(""), '|')), vec![""]);
    assert_eq!(texts(split(&chars_of("|"), '|')), vec!["", ""]);
    assert_eq!(texts(split(&chars_of("one"), '\n')), vec!["one"]);
    assert_eq!(texts(split(&chars_of("x\ny\n"), '\n')), vec!["x", "y", ""]);
    for text in ["", "a", "a,b", ",a,,b,", ",,,"] {
        let expected: Vec<String> = text.split(',').map(|p| p.to_string()).collect();
        assert_eq!(texts(split(&chars_of(text), ',')), expected, "{:?}", text);
    }
    assert_eq!(texts(words(&chars_of("cpu  10 20\t30\n"))), vec!["cpu", "10", "20", "30"]);
    assert_eq!(words(&chars_of("")), Vec::<Vec<char>>::new());
    assert_eq!(words(&chars_of(" \t ")), Vec::<Vec<char>>::new());
    for text in ["a", " a", "a ", "  a  b   c ", "\u{a0}x\u{3000}y"] {
        let expected: Vec<String> = text.split_whitespace().map(|p| p.to_string()).collect();
        assert_eq!(texts(words(&chars_of(text))), expected, "{:?}", text);
    }
}

#[test]
fn stripping_prefixes() {
    assert_eq!(strip_prefixes("///home/user", "/"), "home/user");
    assert_eq!(strip_prefixes("home/user", "/"), "home/user");
    assert_eq!(strip_prefixes("ababx", "ab"), "x");
    assert_eq!(strip_prefixes("abab", "ab"), "");
    assert_eq!(strip_prefixes("abc", ""), "abc");
    assert_eq!(strip_prefixes("", "/"), "");
    for (text, prefix) in [("//a/", "/"), ("aaa", "aa"), ("xyxyx", "xy")] {
        assert_eq!(strip_prefixes(text, prefix), text.trim_start_matches(prefix));
    }
}

#[test]
fn dot_entries_are_not_listed() {
    assert!(is_dot("."));
    assert!(is_dot(".."));
    assert!(!is_dot("..."));
    assert!(!is_dot(".ssh"));
    assert!(!is_dot(""));
    let raw = |name: Option<&str>| RawEntry {
        name: name.map(|n| n.to_string()),
        is_dir: false,
        size: Some(12),
        mtime: Some(1_700_000_000),
        perm: Some(0o644),
        uid: Some(1000),
    };
    assert!(!is_listed(&raw(Some("."))));
    assert!(!is_listed(&raw(Some(".."))));
    assert!(!is_listed(&raw(None)));
    assert!(is_listed(&raw(Some("notes.txt"))));
}

#[test]
fn one_entry_as_it_is_shown() {
    let mut cache = OwnerCache::new();
    cache.record(1000, "alice".to_string());
    let shown = show_entry(
        &RawEntry {
            name: Some("notes.txt".to_string()),
            is_dir: false,
            size: Some(12),
            mtime: Some(1_700_000_000),
            perm: Some(0o644),
            uid: Some(1000),
        },
        &cache,
    );
    assert_eq!(shown.name, "notes.txt");
    assert!(!shown.is_dir);
    assert_eq!(shown.size, 12);
    assert_eq!(shown.mtime, 1_700_000_000);
    assert_eq!(shown.permissions, 0o644);
    assert_eq!(shown.uid, 1000);
    assert_eq!(shown.owner, "alice");

    let bare = show_entry(
        &RawEntry {
            name: Some("d".to_string()),
            is_dir: true,
            size: None,
            mtime: Some(u64::MAX),
            perm: None,
            uid: None,
        },
        &cache,
    );
    assert!(bare.is_dir);
    assert_eq!(bare.size, 0);
    assert_eq!(bare.mtime, i64::MAX);
    assert_eq!(bare.permissions, 0);
    assert_eq!(bare.uid, 0);
    assert_eq!(bare.owner, "root");
}

#[test]
fn status_words() {
    assert_eq!(status_text(TransferStatus::Pending), "pending");
    assert_eq!(status_text(TransferStatus::Running), "running");
    assert_eq!(status_text(TransferStatus::Completed), "completed");
    assert_eq!(status_text(TransferStatus::Error), "error");
    assert_eq!(status_text(TransferStatus::Cancelled), "cancelled");
}

#[test]
fn a_record_knows_when_it_was_cancelled() {
    let mut record = new_transfer(
        "t1".to_string(),
        "s1".to_string(),
        "/tmp/a.bin".to_string(),
        "/srv/a.bin".to_string(),
        Direction::Upload,
        1_700_000_000_000,
    );
    assert!(!is_cancelled(&record));
    assert!(cancel_transfer(&mut record));
    assert!(is_cancelled(&record));
    assert_eq!(record.status, "cancelled");
}

#[test]
fn only_the_session_code_for_blocking_is_transient() {
    let error = |code| TransportError { code, message: "m".to_string() };
    assert!(error(ErrorCode::Session(-37)).is_would_block());
    assert!(!error(ErrorCode::Session(-9)).is_would_block());
    assert!(!error(ErrorCode::Session(37)).is_would_block());
    assert!(!error(ErrorCode::Sftp(-37)).is_would_block());
    assert!(!error(ErrorCode::Sftp(2)).is_would_block());
}

#[test]
fn teardown_appends_to_the_steps_already_planned() {
    let mut steps = vec![TeardownStep::DisconnectSession { session: 9 }];
    let mut direct = ManagedSession::direct(4);
    direct.teardown_into(&mut steps);
    assert_eq!(
        steps,
        vec![
            TeardownStep::DisconnectSession { session: 9 },
            TeardownStep::DisconnectSession { session: 4 },
        ]
    );
    let mut tunnelled = ManagedSession::tunnelled(5, 77);
    tunnelled.teardown_into(&mut steps);
    assert_eq!(
        steps[2..].to_vec(),
        vec![
            TeardownStep::SignalShutdown { thread_handle: 77 },
            TeardownStep::JoinThread { thread_handle: 77 },
            TeardownStep::DisconnectBastion { session: 5 },
            TeardownStep::DisconnectSession { session: 5 },
            TeardownStep::UnblockListener { session: 5 },
        ]
    );
    assert_eq!(tunnelled.forwarding_handle, None);
    assert!(tunnelled.jump_session);
    assert!(tunnelled.forward_listener);
    let before = steps.len();
    tunnelled.teardown_into(&mut steps);
    assert_eq!(
        steps[before..].to_vec(),
        vec![
            TeardownStep::DisconnectBastion { session: 5 },
            TeardownStep::DisconnectSession { session: 5 },
            TeardownStep::UnblockListener { session: 5 },
        ]
    );
}

#[test]
fn key_authentication_is_asked_for_by_name() {
    let config = |auth: Option<&str>| Connection {
        id: None,
        name: "n".to_string(),
        host: "h".to_string(),
        port: 22,
        username: "u".to_string(),
        password: None,
        auth_type: auth.map(|a| a.to_string()),
        ssh_key_id: None,
        jump_host: None,
        jump_port: None,
        jump_username: None,
        jump_password: None,
        group_id: None,
        os_type: None,
        key_content: None,
        key_passphrase: None,
    };
    assert!(wants_key(&config(Some("key"))));
    assert!(!wants_key(&config(Some("password"))));
    assert!(!wants_key(&config(Some("Key"))));
    assert!(!wants_key(&config(None)));
    assert_eq!(text_or_empty(&Some("abc".to_string())), "abc");
    assert_eq!(text_or_empty(&None), "");
}

#[test]
fn updates_of_a_record_leave_the_rest_of_it() {
    let fresh = || {
        new_transfer(
            "t9".to_string(),
            "s9".to_string(),
            "/tmp/in.bin".to_string(),
            "/srv/out.bin".to_string(),
            Direction::Download,
            77,
        )
    };
    let same_identity = |t: &ssh_assistant::models::Transfer| {
        assert_eq!(t.id, "t9");
        assert_eq!(t.session_id, "s9");
        assert_eq!(t.name, "out.bin");
        assert_eq!(t.local_path, "/tmp/in.bin");
        assert_eq!(t.remote_path, "/srv/out.bin");
        assert_eq!(t.transfer_type, "download");
        assert_eq!(t.created_at, 77);
    };
    let mut t = fresh();
    ssh_assistant::records::set_total(&mut t, 9);
    ssh_assistant::records::set_transferred(&mut t, 4);
    same_identity(&t);
    assert_eq!((t.status.as_str(), t.total_size, t.transferred, &t.error), ("pending", 9, 4, &None));
    ssh_assistant::records::mark_running(&mut t);
    same_identity(&t);
    assert_eq!((t.status.as_str(), t.total_size, t.transferred, &t.error), ("running", 9, 4, &None));
    assert!(ssh_assistant::records::mark_failed(&mut t, "broken pipe".to_string()));
    same_identity(&t);
    assert_eq!(
        (t.status.as_str(), t.total_size, t.transferred, &t.error),
        ("error", 9, 4, &Some("broken pipe".to_string()))
    );
    let mut done = fresh();
    ssh_assistant::records::set_total(&mut done, 9);
    ssh_assistant::records::mark_completed(&mut done);
    same_identity(&done);
    assert_eq!(
        (done.status.as_str(), done.total_size, done.transferred, &done.error),
        ("completed", 9, 9, &None)
    );
    let mut stopped = fresh();
    assert!(cancel_transfer(&mut stopped));
    same_identity(&stopped);
    assert_eq!(
        (stopped.status.as_str(), stopped.total_size, stopped.transferred, &stopped.error),
        ("cancelled", 0, 0, &None)
    );
}

#[test]
fn a_cursor_is_usable_from_the_start() {
    let mut cursor = ssh_assistant::transfer::WriteCursor::new(3);
    assert_eq!(cursor.remaining(), 3);
    assert!(cursor.accepts(3));
    assert!(!cursor.accepts(4));
    assert_eq!(cursor.advance(3), ssh_assistant::transfer::WriteStep::Done);
}

#[test]
fn the_cache_keeps_the_first_name_of_each_user() {
    let mut cache = OwnerCache::new();
    assert!(!cache.contains(7));
    assert_eq!(cache.owner(7), "-");
    assert_eq!(cache.owner(0), "root");
    cache.record(7, "alice".to_string());
    cache.record(0, "admin".to_string());
    cache.record(7, "bob".to_string());
    assert!(cache.contains(7));
    assert!(!cache.contains(8));
    assert_eq!(cache.owner(7), "alice");
    assert_eq!(cache.owner(0), "admin");
    assert_eq!(cache.owner(8), "-");
}
