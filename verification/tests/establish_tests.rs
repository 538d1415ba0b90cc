use ssh_assistant::auth::auth_failure_message;
use ssh_assistant::auth::key_file_names;
use ssh_assistant::auth::key_file_names_for;
use ssh_assistant::auth::key_files_to_remove;
use ssh_assistant::auth::plan_auth;
use ssh_assistant::auth::plan_auth_with;
use ssh_assistant::auth::AuthPlan;
use ssh_assistant::auth::KeyFilesState;
use ssh_assistant::establish::backoff_delay_millis;
use ssh_assistant::establish::failure_kind;
use ssh_assistant::establish::plan_route;
use ssh_assistant::establish::Establisher;
use ssh_assistant::establish::FailureKind;
use ssh_assistant::establish::Progress;
use ssh_assistant::establish::Route;
use ssh_assistant::establish::Stage;
use ssh_assistant::models::Connection;

fn config() -> Connection {
    Connection {
        id: Some(1),
        name: "box".to_string(),
        host: "example.org".to_string(),
        port: 2222,
        username: "alice".to_string(),
        password: Some("secret".to_string()),
        auth_type: None,
        ssh_key_id: None,
        jump_host: None,
        jump_port: None,
        jump_username: None,
        jump_password: None,
        group_id: None,
        os_type: None,
        key_content: None,
        key_passphrase: None,
    }
}

/// An Ed25519 private key in OpenSSH format, made from a fixed seed.
fn ed25519_private_key() -> String {
    let seed: [u8; 32] = [
        182, 6, 194, 34, 209, 12, 22, 218, 225, 108, 112, 164, 212, 81, 115, 71, 46, 198, 23, 224,
        92, 101, 105, 32, 210, 110, 86, 192, 143, 181, 145, 237,
    ];
    let pair = ssh_key::private::Ed25519Keypair::from_seed(&seed);
    let key = ssh_key::PrivateKey::from(pair);
    key.to_openssh(ssh_key::LineEnding::LF).unwrap().to_string()
}

/// The public half that belongs to the seed of `ed25519_private_key`.
fn ed25519_public_bytes() -> [u8; 32] {
    [
        179, 62, 174, 243, 126, 162, 223, 124, 170, 1, 13, 239, 222, 163, 78, 36, 31, 101, 241,
        181, 41, 164, 244, 62, 209, 67, 39, 245, 197, 74, 171, 98,
    ]
}

#[test]
fn direct_route_without_jump_host() {
    match plan_route(&config()) {
        Route::Direct { host, port } => {
            assert_eq!(host, "example.org");
            assert_eq!(port, 2222);
        }
        other => panic!("unexpected route {:?}", other),
    }
}

#[test]
fn empty_jump_host_is_no_jump_host() {
    let mut c = config();
    c.jump_host = Some("".to_string());
    assert!(matches!(plan_route(&c), Route::Direct { .. }));
    c.jump_host = Some("  \t ".to_string());
    assert!(matches!(plan_route(&c), Route::Direct { .. }));
}

#[test]
fn tunnel_route_takes_defaults() {
    let mut c = config();
    c.jump_host = Some("bastion".to_string());
    match plan_route(&c) {
        Route::Tunnel { jump_host, jump_port, jump_username, jump_password, host, port } => {
            assert_eq!(jump_host, "bastion");
            assert_eq!(jump_port, 22);
            assert_eq!(jump_username, "");
            assert_eq!(jump_password, "");
            assert_eq!(host, "example.org");
            assert_eq!(port, 2222);
        }
        other => panic!("unexpected route {:?}", other),
    }
    c.jump_port = Some(2200);
    c.jump_username = Some("bob".to_string());
    c.jump_password = Some("pw".to_string());
    match plan_route(&c) {
        Route::Tunnel { jump_port, jump_username, jump_password, .. } => {
            assert_eq!(jump_port, 2200);
            assert_eq!(jump_username, "bob");
            assert_eq!(jump_password, "pw");
        }
        other => panic!("unexpected route {:?}", other),
    }
}

#[test]
fn backoff_doubles() {
    assert_eq!(backoff_delay_millis(1), 1000);
    assert_eq!(backoff_delay_millis(2), 2000);
    assert_eq!(backoff_delay_millis(3), 4000);
    assert_eq!(backoff_delay_millis(32), 1000 * (1u64 << 31));
}

#[test]
fn direct_establishment_runs_every_stage() {
    let mut e = Establisher::new(&plan_route(&config()));
    assert_eq!(e.current(), Stage::Connect);
    assert!(matches!(e.report_done(None), Progress::Run(Stage::Handshake)));
    assert!(matches!(e.report_done(None), Progress::Run(Stage::VerifyHostKey)));
    assert!(matches!(e.report_done(None), Progress::Run(Stage::Authenticate)));
    assert!(matches!(e.report_done(None), Progress::Run(Stage::Tune)));
    assert!(!e.is_established());
    assert!(matches!(e.report_done(None), Progress::Established));
    assert!(e.is_established());
    assert!(e.is_finished());
}

#[test]
fn socket_failures_are_retried_three_times() {
    let mut e = Establisher::new(&plan_route(&config()));
    match e.report_failed("timed out") {
        Progress::Backoff { millis, then } => {
            assert_eq!(millis, 1000);
            assert_eq!(then, Stage::Connect);
        }
        other => panic!("unexpected {:?}", other),
    }
    assert_eq!(e.attempt(), 2);
    match e.report_failed("timed out") {
        Progress::Backoff { millis, .. } => assert_eq!(millis, 2000),
        other => panic!("unexpected {:?}", other),
    }
    match e.report_failed("timed out") {
        Progress::Failed(err) => {
            assert_eq!(err.kind, FailureKind::Connection);
            assert_eq!(err.stage, Stage::Connect);
            assert_eq!(
                err.message,
                "Failed to establish connection after 3 attempts: Connection failed: timed out"
            );
        }
        other => panic!("unexpected {:?}", other),
    }
    assert!(e.is_finished());
    assert!(!e.is_established());
}

#[test]
fn handshake_failure_is_not_retried() {
    let mut e = Establisher::new(&plan_route(&config()));
    let _ = e.report_done(None);
    match e.report_failed("bad banner") {
        Progress::Failed(err) => {
            assert_eq!(err.kind, FailureKind::Handshake);
            assert_eq!(err.message, "Handshake failed: bad banner");
        }
        other => panic!("unexpected {:?}", other),
    }
}

#[test]
fn tunnel_stages_and_local_port_message() {
    let mut c = config();
    c.jump_host = Some("bastion".to_string());
    let mut e = Establisher::new(&plan_route(&c));
    assert_eq!(e.current(), Stage::BastionConnect);
    assert!(matches!(e.report_done(None), Progress::Run(Stage::BastionHandshake)));
    assert!(matches!(e.report_done(None), Progress::Run(Stage::BastionAuth)));
    assert!(matches!(e.report_done(None), Progress::Run(Stage::BastionTune)));
    assert!(matches!(e.report_done(None), Progress::Run(Stage::BindListener)));
    assert!(matches!(e.report_done(Some(40123)), Progress::Run(Stage::StartForwarder)));
    assert!(matches!(e.report_done(None), Progress::Run(Stage::LocalConnect)));
    let _ = e.report_failed("refused");
    // second attempt keeps the remembered port only for the message
    for _ in 0..6 {
        let _ = e.report_done(Some(40123));
    }
    let _ = e.report_failed("refused");
    for _ in 0..6 {
        let _ = e.report_done(Some(40123));
    }
    match e.report_failed("refused") {
        Progress::Failed(err) => {
            assert_eq!(err.stage, Stage::LocalConnect);
            assert_eq!(
                err.message,
                "Failed to establish connection after 3 attempts: Failed to connect to local forwarded port 40123: refused"
            );
        }
        other => panic!("unexpected {:?}", other),
    }
}

#[test]
fn bastion_auth_failure_names_the_bastion() {
    let mut c = config();
    c.jump_host = Some("bastion".to_string());
    let mut e = Establisher::new(&plan_route(&c));
    let _ = e.report_done(None);
    let _ = e.report_done(None);
    match e.report_failed("denied") {
        Progress::Failed(err) => {
            assert_eq!(err.kind, FailureKind::Authentication);
            assert_eq!(err.stage, Stage::BastionAuth);
            assert_eq!(err.message, "Jump auth failed: denied");
        }
        other => panic!("unexpected {:?}", other),
    }
}

#[test]
fn failure_kinds_by_stage() {
    assert_eq!(failure_kind(Stage::Connect), FailureKind::Connection);
    assert_eq!(failure_kind(Stage::BastionConnect), FailureKind::Connection);
    assert_eq!(failure_kind(Stage::LocalConnect), FailureKind::Connection);
    assert_eq!(failure_kind(Stage::Handshake), FailureKind::Handshake);
    assert_eq!(failure_kind(Stage::VerifyHostKey), FailureKind::HostKey);
    assert_eq!(failure_kind(Stage::Authenticate), FailureKind::Authentication);
}

#[test]
fn password_plan_is_the_default() {
    match plan_auth(&config()).unwrap() {
        AuthPlan::Password { username, password } => {
            assert_eq!(username, "alice");
            assert_eq!(password, "secret");
        }
        other => panic!("unexpected {:?}", other),
    }
    let mut c = config();
    c.password = None;
    c.auth_type = Some("password".to_string());
    match plan_auth(&c).unwrap() {
        AuthPlan::Password { password, .. } => assert_eq!(password, ""),
        other => panic!("unexpected {:?}", other),
    }
}

#[test]
fn key_plan_needs_key_content() {
    let mut c = config();
    c.auth_type = Some("key".to_string());
    let err = plan_auth(&c).unwrap_err();
    assert_eq!(err.kind, FailureKind::Authentication);
    assert_eq!(err.message, "Auth type is 'key' but no key content provided");
}

#[test]
fn ppk_keys_are_refused() {
    let mut c = config();
    c.auth_type = Some("key".to_string());
    c.key_content = Some("PuTTY-User-Key-File-2: ssh-rsa\n".to_string());
    let err = plan_auth(&c).unwrap_err();
    assert_eq!(
        err.message,
        "Putty (PPK) format is not supported. Please convert your private key to OpenSSH format (PEM) using PuTTYgen or ssh-keygen."
    );
}

#[test]
fn unreadable_key_is_refused_with_detail() {
    let mut c = config();
    c.auth_type = Some("key".to_string());
    c.key_content = Some("not a key".to_string());
    let err = plan_auth(&c).unwrap_err();
    assert!(err
        .message
        .starts_with("Failed to parse private key. Ensure it is in OpenSSH format. Details: "));
    assert!(err.message.len() > "Failed to parse private key. Ensure it is in OpenSSH format. Details: ".len());
}

#[test]
fn public_key_is_derived_from_private_key() {
    let private = ed25519_private_key();
    let mut c = config();
    c.auth_type = Some("key".to_string());
    c.key_content = Some(private.clone());
    c.key_passphrase = Some("pp".to_string());
    match plan_auth(&c) {
        Ok(AuthPlan::PublicKey { username, private_key, public_key, passphrase }) => {
            assert_eq!(username, "alice");
            assert_eq!(private_key, private);
            assert!(public_key.starts_with("ssh-ed25519 "));
            assert_ne!(public_key, private_key);
            let parsed = ssh_key::PublicKey::from_openssh(&public_key).unwrap();
            assert_eq!(parsed.key_data().ed25519().unwrap().0, ed25519_public_bytes());
            assert_eq!(passphrase, Some("pp".to_string()));
        }
        other => panic!("unexpected {:?}", other),
    }
}

#[test]
fn plan_with_given_derivation() {
    let mut c = config();
    c.auth_type = Some("key".to_string());
    c.key_content = Some("KEY".to_string());
    match plan_auth_with(&c, Ok("PUB".to_string())).unwrap() {
        AuthPlan::PublicKey { public_key, passphrase, .. } => {
            assert_eq!(public_key, "PUB");
            assert_eq!(passphrase, None);
        }
        other => panic!("unexpected {:?}", other),
    }
    let err = plan_auth_with(&c, Err("boom".to_string())).unwrap_err();
    assert_eq!(
        err.message,
        "Failed to parse private key. Ensure it is in OpenSSH format. Details: boom"
    );
}

#[test]
fn auth_failure_messages() {
    let pw = AuthPlan::Password { username: "a".to_string(), password: "b".to_string() };
    assert_eq!(auth_failure_message(&pw, "denied"), "Password authentication failed: denied");
    let with = AuthPlan::PublicKey {
        username: "a".to_string(),
        private_key: "k".to_string(),
        public_key: "p".to_string(),
        passphrase: Some("x".to_string()),
    };
    assert_eq!(
        auth_failure_message(&with, "denied"),
        "Key authentication failed: denied. Hint: Verify your passphrase is correct."
    );
    let without = AuthPlan::PublicKey {
        username: "a".to_string(),
        private_key: "k".to_string(),
        public_key: "p".to_string(),
        passphrase: None,
    };
    assert_eq!(
        auth_failure_message(&without, "denied"),
        "Key authentication failed: denied. Hint: Ensure the public key is added to the server's ~/.ssh/authorized_keys."
    );
}

#[test]
fn key_files_share_a_tag_and_are_all_removed() {
    let (private, public) = key_file_names_for("abc");
    assert_eq!(private, "ssh_key_abc");
    assert_eq!(public, "ssh_key_abc.pub");
    let (a, b) = key_file_names();
    assert!(a.starts_with("ssh_key_"));
    assert_eq!(a.chars().count(), 8 + 36);
    assert_eq!(b, format!("{}.pub", a));
    let (c, _) = key_file_names();
    assert_ne!(a, c);
    assert_eq!(key_files_to_remove(KeyFilesState::Nothing), (false, false));
    assert_eq!(key_files_to_remove(KeyFilesState::PrivateWritten), (true, false));
    assert_eq!(key_files_to_remove(KeyFilesState::BothWritten), (true, true));
}
