use ssh_assistant::resume::compute_local_file_hash;
use ssh_assistant::resume::digest_prefix;
use ssh_assistant::resume::hash_command;
use ssh_assistant::resume::hash_from_output;
use ssh_assistant::resume::kind_of;
use ssh_assistant::resume::prefix_hash_command;
use ssh_assistant::resume::resume_check;
use ssh_assistant::resume::resume_offset;
use ssh_assistant::resume::weaker_digest;
use ssh_assistant::resume::DigestKind;
use ssh_assistant::resume::PrefixHasher;
use ssh_assistant::resume::ResumeCheck;
use ssh_assistant::retry::ssh2_retry;
use ssh_assistant::retry::ErrorCode;
use ssh_assistant::retry::Retry;
use ssh_assistant::retry::TransportError;
use ssh_assistant::transfer::collect_chunk;
use ssh_assistant::transfer::read_is_full;
use ssh_assistant::transfer::ExecRun;
use ssh_assistant::transfer::Next;
use ssh_assistant::transfer::Outcome;
use ssh_assistant::transfer::ReadEvent;
use ssh_assistant::transfer::RunState;
use ssh_assistant::transfer::TransferRun;
use ssh_assistant::transfer::WriteCursor;
use ssh_assistant::transfer::WriteStep;

#[test]
fn would_block_asks_for_repetition() {
    let blocked: Result<u8, TransportError> =
        Err(TransportError { code: ErrorCode::Session(-37), message: "again".to_string() });
    assert!(matches!(ssh2_retry(blocked), Retry::Again { pause_millis: 10 }));
}

#[test]
fn success_and_real_errors_are_handed_on() {
    assert!(matches!(ssh2_retry::<u8>(Ok(7)), Retry::Finished(Ok(7))));
    let refused: Result<u8, TransportError> =
        Err(TransportError { code: ErrorCode::Session(-18), message: "auth".to_string() });
    match ssh2_retry(refused) {
        Retry::Finished(Err(e)) => {
            assert_eq!(e.code, ErrorCode::Session(-18));
            assert_eq!(e.message, "auth");
        }
        other => panic!("unexpected {:?}", other),
    }
    let sftp: Result<u8, TransportError> =
        Err(TransportError { code: ErrorCode::Sftp(-37), message: "x".to_string() });
    assert!(matches!(ssh2_retry(sftp), Retry::Finished(Err(_))));
}

#[test]
fn exec_collects_until_eof() {
    let mut run = ExecRun::new();
    assert!(run.begin_round(false));
    assert_eq!(run.absorb(ReadEvent::Data(b"hello ".to_vec())), Next::Again);
    assert!(run.begin_round(false));
    assert_eq!(run.absorb(ReadEvent::WouldBlock), Next::Pause { millis: 10 });
    assert!(run.begin_round(false));
    assert_eq!(run.absorb(ReadEvent::Data(b"world".to_vec())), Next::Again);
    assert!(run.begin_round(false));
    assert_eq!(run.absorb(ReadEvent::Eof), Next::Stop);
    assert_eq!(run.state(), RunState::Completed);
    match run.finish() {
        Outcome::Completed(bytes) => assert_eq!(bytes, b"hello world".to_vec()),
        other => panic!("unexpected {:?}", other),
    }
}

#[test]
fn exec_cancelled_before_first_read() {
    let mut run = ExecRun::new();
    assert!(!run.begin_round(true));
    assert_eq!(run.state(), RunState::Cancelled);
    assert_eq!(run.absorb(ReadEvent::Data(b"late".to_vec())), Next::Stop);
    assert!(matches!(run.finish(), Outcome::Cancelled));
}

#[test]
fn exec_cancelled_midway_reports_no_partial_output() {
    let mut run = ExecRun::new();
    assert!(run.begin_round(false));
    let _ = run.absorb(ReadEvent::Data(b"partial".to_vec()));
    assert!(!run.begin_round(true));
    assert!(matches!(run.finish(), Outcome::Cancelled));
}

#[test]
fn exec_failure_is_kept_apart() {
    let mut run = ExecRun::new();
    assert!(run.begin_round(false));
    assert_eq!(run.absorb(ReadEvent::Failed("broken pipe".to_string())), Next::Stop);
    match run.finish() {
        Outcome::Failed(text) => assert_eq!(text, "broken pipe"),
        other => panic!("unexpected {:?}", other),
    }
}

#[test]
fn transfer_counts_and_throttles_progress() {
    let mut run = TransferRun::new(1000, 5000);
    assert!(run.begin_round(false));
    assert_eq!(run.moved(100, 5050), None);
    assert_eq!(run.moved(100, 5100), None);
    assert_eq!(run.moved(100, 5101), Some((300, 1000)));
    assert_eq!(run.moved(100, 5201), None);
    assert_eq!(run.moved(100, 5202), Some((500, 1000)));
    assert_eq!(run.transferred(), 500);
    assert_eq!(run.finish(), Some((1000, 1000)));
    assert_eq!(run.state(), RunState::Completed);
    assert_eq!(run.transferred(), 1000);
    assert_eq!(run.finish(), None);
}

#[test]
fn transfer_cancelled_before_any_byte() {
    let mut run = TransferRun::new(10, 0);
    assert!(!run.begin_round(true));
    assert_eq!(run.state(), RunState::Cancelled);
    assert_eq!(run.transferred(), 0);
    assert_eq!(run.moved(5, 1000), None);
    assert_eq!(run.transferred(), 0);
    assert_eq!(run.finish(), None);
    assert_eq!(run.state(), RunState::Cancelled);
}

#[test]
fn transfer_stall_and_failure() {
    let mut run = TransferRun::new(10, 0);
    assert_eq!(run.stalled(), Next::Pause { millis: 10 });
    assert!(run.can_count(10));
    run.fail();
    assert_eq!(run.state(), RunState::Failed);
    assert_eq!(run.stalled(), Next::Stop);
    assert!(!run.begin_round(false));
}

#[test]
fn write_cursor_walks_through_partial_writes() {
    let mut cursor = WriteCursor::new(10);
    assert_eq!(cursor.remaining(), 10);
    assert!(cursor.accepts(10));
    assert!(!cursor.accepts(11));
    assert_eq!(cursor.advance(4), WriteStep::Continue { from: 4 });
    assert_eq!(cursor.advance(0), WriteStep::Stuck);
    assert_eq!(cursor.advance(6), WriteStep::Done);
    assert_eq!(cursor.remaining(), 0);
    let mut empty = WriteCursor::new(0);
    assert_eq!(empty.advance(0), WriteStep::Done);
}

#[test]
fn bounded_read_is_cut_at_the_limit() {
    let mut buf = Vec::new();
    assert!(!read_is_full(&buf, Some(5)));
    assert!(collect_chunk(&mut buf, &vec![1, 2, 3], Some(5)));
    assert!(!collect_chunk(&mut buf, &vec![4, 5, 6], Some(5)));
    assert_eq!(buf, vec![1, 2, 3, 4, 5]);
    assert!(read_is_full(&buf, Some(5)));
    assert!(!read_is_full(&buf, None));
    let mut all = Vec::new();
    assert!(collect_chunk(&mut all, &vec![9; 8], None));
    assert_eq!(all.len(), 8);
    let mut exact = Vec::new();
    assert!(collect_chunk(&mut exact, &vec![1, 2], Some(2)));
    assert_eq!(exact, vec![1, 2]);
}

#[test]
fn sha256_of_known_text() {
    assert_eq!(
        compute_local_file_hash(b"abc", 3),
        "ba7816bf8f01cfea414140de5dae2223b00361a396177a9cb410ff61f20015ad"
    );
    assert_eq!(
        compute_local_file_hash(b"abcdef", 3),
        "ba7816bf8f01cfea414140de5dae2223b00361a396177a9cb410ff61f20015ad"
    );
    assert_eq!(
        compute_local_file_hash(b"", 10),
        "e3b0c44298fc1c149afbf4c8996fb92427ae41e4649b934ca495991b7852b855"
    );
}

#[test]
fn md5_of_known_text() {
    assert_eq!(digest_prefix(DigestKind::Md5, b"abc", 100), "900150983cd24fb0d6963f7d28e17f72");
    assert_eq!(digest_prefix(DigestKind::Md5, b"abcxyz", 3), "900150983cd24fb0d6963f7d28e17f72");
}

#[test]
fn prefix_hasher_takes_chunks_up_to_the_limit() {
    let mut hasher = PrefixHasher::new(DigestKind::Sha256, 3);
    assert!(hasher.feed(b"a"));
    assert!(!hasher.feed(b"bcdef"));
    assert!(!hasher.feed(b"ghi"));
    assert_eq!(
        hasher.finish(),
        "ba7816bf8f01cfea414140de5dae2223b00361a396177a9cb410ff61f20015ad"
    );
}

#[test]
fn digest_kind_by_length() {
    assert_eq!(kind_of(&"a".repeat(64)), Some(DigestKind::Sha256));
    assert_eq!(kind_of(&"a".repeat(32)), Some(DigestKind::Md5));
    assert_eq!(kind_of("abc"), None);
    assert_eq!(weaker_digest(DigestKind::Sha256), Some(DigestKind::Md5));
    assert_eq!(weaker_digest(DigestKind::Md5), None);
}

#[test]
fn hash_commands_and_output() {
    assert_eq!(hash_command(DigestKind::Sha256, "/tmp/a b"), "sha256sum '/tmp/a b'");
    assert_eq!(hash_command(DigestKind::Md5, "/x"), "md5sum '/x'");
    assert_eq!(hash_from_output(0, "abc123  /tmp/file\n"), Some("abc123".to_string()));
    assert_eq!(hash_from_output(1, "abc123  /tmp/file\n"), None);
    assert_eq!(hash_from_output(0, "   \n"), None);
}

#[test]
fn resume_decisions() {
    assert_eq!(resume_check(false, Some(5), 10), ResumeCheck::Restart);
    assert_eq!(resume_check(true, None, 10), ResumeCheck::Restart);
    assert_eq!(resume_check(true, Some(10), 10), ResumeCheck::Verify { existing: 10 });
    assert_eq!(resume_check(true, Some(11), 10), ResumeCheck::Restart);
    assert_eq!(resume_check(true, Some(0), 10), ResumeCheck::Verify { existing: 0 });
    assert_eq!(resume_check(true, Some(0), 0), ResumeCheck::Verify { existing: 0 });
    assert_eq!(resume_check(false, Some(10), 10), ResumeCheck::Restart);
    assert_eq!(resume_check(true, Some(4), 10), ResumeCheck::Verify { existing: 4 });
    let sha = "ba7816bf8f01cfea414140de5dae2223b00361a396177a9cb410ff61f20015ad";
    let md5 = "900150983cd24fb0d6963f7d28e17f72";
    assert_eq!(resume_offset(4, Some(sha), Some(sha)), 4);
    assert_eq!(resume_offset(4, Some(md5), Some(md5)), 4);
    assert_eq!(resume_offset(4, Some(sha), Some(md5)), 0);
    assert_eq!(resume_offset(4, Some("abc"), Some("abc")), 0);
    assert_eq!(resume_offset(4, None, Some(sha)), 0);
    assert_eq!(resume_offset(4, Some(sha), None), 0);
}

#[test]
fn resumed_upload_equals_the_source() {
    let source = b"0123456789".to_vec();
    let remote = b"0123".to_vec();
    let check = resume_check(true, Some(remote.len() as u64), source.len() as u64);
    assert_eq!(check, ResumeCheck::Verify { existing: 4 });
    let remote_hash = digest_prefix(DigestKind::Sha256, &remote, 4);
    let local_hash = digest_prefix(kind_of(&remote_hash).unwrap(), &source, 4);
    let offset = resume_offset(4, Some(&remote_hash), Some(&local_hash)) as usize;
    assert_eq!(offset, 4);
    let mut result = remote[..offset].to_vec();
    result.extend_from_slice(&source[offset..]);
    assert_eq!(result, source);

    let wrong = b"01x3".to_vec();
    let wrong_hash = digest_prefix(DigestKind::Sha256, &wrong, 4);
    let offset = resume_offset(4, Some(&wrong_hash), Some(&local_hash)) as usize;
    assert_eq!(offset, 0);
    let mut result = wrong[..offset].to_vec();
    result.extend_from_slice(&source[offset..]);
    assert_eq!(result, source);
}


/// What the destination holds after a transfer that starts at the offset
/// the library allows.
fn resumed(existing: &[u8], source: &[u8]) -> (u64, Vec<u8>) {
    let offset = match resume_check(true, Some(existing.len() as u64), source.len() as u64) {
        ResumeCheck::Restart => 0,
        ResumeCheck::Verify { existing: n } => {
            let remote_hash = digest_prefix(DigestKind::Sha256, existing, n);
            let local_hash = digest_prefix(kind_of(&remote_hash).unwrap(), source, n);
            resume_offset(n, Some(&remote_hash), Some(&local_hash))
        }
    };
    let mut result = existing[..offset as usize].to_vec();
    result.extend_from_slice(&source[offset as usize..]);
    (offset, result)
}

#[test]
fn a_copy_of_the_same_length_is_compared_before_it_counts_as_done() {
    let source = b"0123456789".to_vec();
    assert_eq!(resumed(b"0123456789", &source), (10, source.clone()));
    assert_eq!(resumed(b"01234x6789", &source), (0, source.clone()));
}

#[test]
fn a_longer_copy_is_written_anew() {
    let source = b"0123456789".to_vec();
    assert_eq!(resumed(b"0123456789-and-more", &source), (0, source.clone()));
    assert_eq!(resumed(b"x", b""), (0, Vec::new()));
}

#[test]
fn an_empty_copy_resumes_from_the_start() {
    let source = b"0123456789".to_vec();
    assert_eq!(resumed(b"", &source), (0, source.clone()));
}

#[test]
fn digest_texts_have_the_length_of_their_kind() {
    for limit in [0u64, 1, 3, 100] {
        let sha = digest_prefix(DigestKind::Sha256, b"abc", limit);
        let md5 = digest_prefix(DigestKind::Md5, b"abc", limit);
        assert_eq!(sha.len(), 64);
        assert_eq!(md5.len(), 32);
        assert_eq!(kind_of(&sha), Some(DigestKind::Sha256));
        assert_eq!(kind_of(&md5), Some(DigestKind::Md5));
    }
    assert_eq!(compute_local_file_hash(b"abc", 3).len(), 64);
}

#[test]
fn command_for_the_digest_of_a_remote_prefix() {
    assert_eq!(
        prefix_hash_command(DigestKind::Sha256, "/srv/a b.bin", 4096),
        "head -c 4096 '/srv/a b.bin' | sha256sum"
    );
    assert_eq!(prefix_hash_command(DigestKind::Md5, "f", 0), "head -c 0 'f' | md5sum");
    assert_eq!(
        prefix_hash_command(DigestKind::Md5, "", u64::MAX),
        "head -c 18446744073709551615 '' | md5sum"
    );
}
