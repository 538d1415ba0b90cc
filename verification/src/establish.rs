//! Establishing one authenticated session.
//!
//! A session is reached either directly or through a tunnel over a bastion.
//! Either way the work is a fixed sequence of stages. The caller performs
//! each stage and reports how it went; the `Establisher` says what comes
//! next: the following stage, a pause and a fresh attempt, the finished
//! session, or the error to surface.

use crate::models::Connection;
use crate::text::all_space;
use crate::text::decimal;
use crate::text::is_blank;
use crate::text::join2;
use crate::text::join3;
use crate::text::spec_decimal;
use vstd::prelude::*;

verus! {

/// Time allowed for a direct connection, in milliseconds.
pub const DEFAULT_CONNECTION_TIMEOUT: u64 = 15000;

/// Time allowed for the connection to the bastion, in milliseconds.
pub const JUMP_HOST_TIMEOUT: u64 = 30000;

/// Time allowed for the connection to the local end of the tunnel, in
/// milliseconds.
pub const LOCAL_FORWARD_TIMEOUT: u64 = 10000;

/// Pause before the second attempt, in milliseconds; it doubles with each
/// further attempt.
pub const CONNECTION_RETRY_BASE_DELAY: u64 = 1000;

/// Number of independent attempts at the socket stage.
pub const CONNECTION_RETRY_MAX_ATTEMPTS: u32 = 3;

/// Port of the bastion where the configuration names none.
pub const DEFAULT_JUMP_PORT: u16 = 22;

/// Seconds without traffic after which the protocol sends a keepalive.
pub const KEEPALIVE_INTERVAL_SECS: u32 = 15;

/// Seconds of silence before the first TCP keepalive probe.
pub const TCP_KEEPALIVE_IDLE_SECS: u64 = 60;

/// Seconds between TCP keepalive probes.
pub const TCP_KEEPALIVE_INTERVAL_SECS: u64 = 10;

/// Number of unanswered TCP keepalive probes after which the connection
/// counts as lost.
pub const TCP_KEEPALIVE_PROBES: u32 = 3;

/// How the target is reached.
#[derive(Debug, Clone)]
pub enum Route {
    /// Connect to the target itself.
    Direct { host: String, port: u16 },
    /// Authenticate to the bastion with a password and forward a local
    /// port to the target through it.
    Tunnel {
        jump_host: String,
        jump_port: u16,
        jump_username: String,
        jump_password: String,
        host: String,
        port: u16,
    },
}

/// A route as a mathematical value.
pub ghost enum RouteModel {
    Direct { host: Seq<char>, port: u16 },
    Tunnel {
        jump_host: Seq<char>,
        jump_port: u16,
        jump_username: Seq<char>,
        jump_password: Seq<char>,
        host: Seq<char>,
        port: u16,
    },
}

impl View for Route {
    type V = RouteModel;

    open spec fn view(&self) -> RouteModel {
        match *self {
            Route::Direct { host, port } => RouteModel::Direct { host: host@, port },
            Route::Tunnel { jump_host, jump_port, jump_username, jump_password, host, port } =>
                RouteModel::Tunnel {
                jump_host: jump_host@,
                jump_port,
                jump_username: jump_username@,
                jump_password: jump_password@,
                host: host@,
                port,
            },
        }
    }
}

/// The text of an optional string, empty where there is none.
pub open spec fn spec_text_or_empty(s: Option<String>) -> Seq<char> {
    match s {
        Some(t) => t@,
        None => Seq::<char>::empty(),
    }
}

/// Whether the configuration asks for a bastion: it names a jump host
/// that is more than white space.
pub open spec fn spec_wants_tunnel(config: Connection) -> bool {
    config.jump_host matches Some(h) && !all_space(h@)
}

/// The route of a configuration. A jump host that is empty or white space
/// counts as no jump host.
pub open spec fn spec_route(config: Connection) -> RouteModel {
    if spec_wants_tunnel(config) {
        RouteModel::Tunnel {
            jump_host: config.jump_host->0@,
            jump_port: match config.jump_port {
                Some(p) => p,
                None => DEFAULT_JUMP_PORT,
            },
            jump_username: spec_text_or_empty(config.jump_username),
            jump_password: spec_text_or_empty(config.jump_password),
            host: config.host@,
            port: config.port,
        }
    } else {
        RouteModel::Direct { host: config.host@, port: config.port }
    }
}

/// A copy of an optional string, empty where there is none.
pub fn text_or_empty(s: &Option<String>) -> (out: String)
    ensures
        out@ == spec_text_or_empty(*s),
{
    match s {
        Some(t) => t.clone(),
        None => String::new(),
    }
}

/// Decides how the target of `config` is reached.
pub fn plan_route(config: &Connection) -> (route: Route)
    ensures
        route@ == spec_route(*config),
{
    let tunnel = match &config.jump_host {
        Some(h) => !is_blank(h.as_str()),
        None => false,
    };
    if tunnel {
        let jump_host = match &config.jump_host {
            Some(h) => h.clone(),
            None => String::new(),
        };
        let jump_port = match config.jump_port {
            Some(p) => p,
            None => DEFAULT_JUMP_PORT,
        };
        Route::Tunnel {
            jump_host,
            jump_port,
            jump_username: text_or_empty(&config.jump_username),
            jump_password: text_or_empty(&config.jump_password),
            host: config.host.clone(),
            port: config.port,
        }
    } else {
        Route::Direct { host: config.host.clone(), port: config.port }
    }
}

/// A configuration whose jump host is empty or white space is routed
/// exactly as the same configuration without a jump host.
pub proof fn lemma_blank_jump_host_is_none(config: Connection, jump_host: String)
    requires
        all_space(jump_host@),
    ensures
        spec_route(Connection { jump_host: Some(jump_host), ..config }) == spec_route(
            Connection { jump_host: None, ..config },
        ),
        spec_route(Connection { jump_host: Some(jump_host), ..config }) is Direct,
        spec_stages(spec_wants_tunnel(Connection { jump_host: Some(jump_host), ..config }))
            == spec_stages(spec_wants_tunnel(Connection { jump_host: None, ..config })),
{
}

/// One step on the way to a session.
#[derive(Clone, Copy, Debug, PartialEq, Eq, Structural)]
pub enum Stage {
    /// Connect a socket to the bastion.
    BastionConnect,
    /// Negotiate the transport protocol with the bastion.
    BastionHandshake,
    /// Authenticate to the bastion with its password.
    BastionAuth,
    /// Enable keepalive on the bastion session and make it non-blocking.
    BastionTune,
    /// Bind the local listener on an ephemeral loopback port.
    BindListener,
    /// Start the thread that forwards the local port to the target.
    StartForwarder,
    /// Connect to the local end of the tunnel.
    LocalConnect,
    /// Connect a socket to the target, with `TCP_NODELAY` and keepalive.
    Connect,
    /// Negotiate the transport protocol with the target.
    Handshake,
    /// Check the target's host key against the trust store.
    VerifyHostKey,
    /// Authenticate to the target.
    Authenticate,
    /// Enable keepalive on the session, then make it non-blocking.
    Tune,
}

/// The class of a failure, which decides how it is handled.
#[derive(Clone, Copy, Debug, PartialEq, Eq, Structural)]
pub enum FailureKind {
    /// The socket stage failed: address, timeout, refusal. Retried.
    Connection,
    /// The protocol negotiation failed.
    Handshake,
    /// The host key was refused or could not be checked.
    HostKey,
    /// The credentials were refused or unusable.
    Authentication,
}

/// The error of a failed establishment.
#[derive(Debug, Clone)]
pub struct EstablishError {
    pub kind: FailureKind,
    /// The stage that failed.
    pub stage: Stage,
    pub message: String,
}

/// The stages of one attempt, in order.
pub open spec fn spec_stages(tunnel: bool) -> Seq<Stage> {
    if tunnel {
        seq![
            Stage::BastionConnect,
            Stage::BastionHandshake,
            Stage::BastionAuth,
            Stage::BastionTune,
            Stage::BindListener,
            Stage::StartForwarder,
            Stage::LocalConnect,
            Stage::Handshake,
            Stage::VerifyHostKey,
            Stage::Authenticate,
            Stage::Tune,
        ]
    } else {
        seq![
            Stage::Connect,
            Stage::Handshake,
            Stage::VerifyHostKey,
            Stage::Authenticate,
            Stage::Tune,
        ]
    }
}

/// The class of a failure at `stage`.
pub open spec fn spec_failure_kind(stage: Stage) -> FailureKind {
    match stage {
        Stage::BastionConnect | Stage::BindListener | Stage::StartForwarder | Stage::LocalConnect
        | Stage::Connect => FailureKind::Connection,
        Stage::BastionHandshake | Stage::BastionTune | Stage::Handshake | Stage::Tune =>
            FailureKind::Handshake,
        Stage::VerifyHostKey => FailureKind::HostKey,
        Stage::BastionAuth | Stage::Authenticate => FailureKind::Authentication,
    }
}

/// The kind of failure that a stage ends in.
pub fn failure_kind(stage: Stage) -> (kind: FailureKind)
    ensures
        kind == spec_failure_kind(stage),
{
    match stage {
        Stage::BastionConnect | Stage::BindListener | Stage::StartForwarder | Stage::LocalConnect
        | Stage::Connect => FailureKind::Connection,
        Stage::BastionHandshake | Stage::BastionTune | Stage::Handshake | Stage::Tune =>
            FailureKind::Handshake,
        Stage::VerifyHostKey => FailureKind::HostKey,
        Stage::BastionAuth | Stage::Authenticate => FailureKind::Authentication,
    }
}

/// The pause before attempt `attempt + 1`, after `attempt` attempts have
/// failed: the base delay doubled `attempt - 1` times.
pub open spec fn spec_backoff_millis(attempt: nat) -> nat
    decreases attempt,
{
    if attempt <= 1 {
        CONNECTION_RETRY_BASE_DELAY as nat
    } else {
        2 * spec_backoff_millis((attempt - 1) as nat)
    }
}

/// While the attempt stays within thirty-two, the pause fits in 64 bits, and
/// it doubles from one attempt to the next.
pub proof fn lemma_backoff_bound(attempt: nat)
    requires
        attempt <= 32,
    ensures
        spec_backoff_millis(attempt) <= 1000 * 0x8000_0000,
        attempt >= 1 ==> spec_backoff_millis(attempt + 1) == 2 * spec_backoff_millis(attempt),
    decreases attempt,
{
    reveal_with_fuel(spec_backoff_millis, 2);
    if attempt > 1 {
        lemma_backoff_bound((attempt - 1) as nat);
        assert(spec_backoff_millis(attempt) == 2 * spec_backoff_millis((attempt - 1) as nat));
        lemma_backoff_step_bound(attempt);
    }
}

/// The pause after `attempt` attempts is one second times two to the power
/// of `attempt - 1`.
proof fn lemma_backoff_step_bound(attempt: nat)
    requires
        1 <= attempt <= 32,
    ensures
        spec_backoff_millis(attempt) == 1000 * vstd::arithmetic::power2::pow2(
            (attempt - 1) as nat,
        ),
        spec_backoff_millis(attempt) <= 1000 * 0x8000_0000,
    decreases attempt,
{
    vstd::arithmetic::power2::lemma2_to64();
    if attempt > 1 {
        lemma_backoff_step_bound((attempt - 1) as nat);
        vstd::arithmetic::power2::lemma_pow2_unfold((attempt - 1) as nat);
        vstd::arithmetic::power2::lemma_pow2_strictly_increases((attempt - 1) as nat, 32);
        assert(vstd::arithmetic::power2::pow2(32) == 0x1_0000_0000);
    } else {
        assert(vstd::arithmetic::power2::pow2(0) == 1);
    }
}

/// The pause in milliseconds after `attempt` failed attempts.
pub fn backoff_delay_millis(attempt: u32) -> (millis: u64)
    requires
        1 <= attempt <= 32,
    ensures
        millis == spec_backoff_millis(attempt as nat),
{
    let mut millis: u64 = CONNECTION_RETRY_BASE_DELAY;
    let mut done: u32 = 1;
    while done < attempt
        invariant
            1 <= done <= attempt <= 32,
            millis == spec_backoff_millis(done as nat),
        decreases attempt - done,
    {
        proof {
            lemma_backoff_bound(done as nat);
            lemma_backoff_bound((done + 1) as nat);
        }
        millis = millis * 2;
        done += 1;
    }
    millis
}

/// The words that name the failing stage in front of the detail.
pub open spec fn spec_stage_prefix(stage: Stage, local_port: u16) -> Seq<char> {
    match stage {
        Stage::BastionConnect => "Jump host connection failed: "@,
        Stage::BastionHandshake => "Jump handshake failed: "@,
        Stage::BastionAuth => "Jump auth failed: "@,
        Stage::BastionTune => "Jump session setup failed: "@,
        Stage::BindListener => "Failed to bind local port: "@,
        Stage::StartForwarder => "Failed to start port forwarding: "@,
        Stage::LocalConnect => "Failed to connect to local forwarded port "@ + spec_decimal(
            local_port as nat,
        ) + ": "@,
        Stage::Connect => "Connection failed: "@,
        Stage::Handshake => "Handshake failed: "@,
        Stage::VerifyHostKey => Seq::<char>::empty(),
        Stage::Authenticate => Seq::<char>::empty(),
        Stage::Tune => "Session setup failed: "@,
    }
}

/// The message of a failure at `stage`, before any word on attempts.
pub open spec fn spec_stage_message(stage: Stage, local_port: u16, detail: Seq<char>) -> Seq<
    char,
> {
    spec_stage_prefix(stage, local_port) + detail
}

/// The message of the error that is surfaced. A failure of the socket
/// stage is surfaced only when the attempts are used up, and says so.
pub open spec fn spec_failure_message(stage: Stage, local_port: u16, detail: Seq<char>) -> Seq<
    char,
> {
    if spec_failure_kind(stage) == FailureKind::Connection {
        "Failed to establish connection after 3 attempts: "@ + spec_stage_message(
            stage,
            local_port,
            detail,
        )
    } else {
        spec_stage_message(stage, local_port, detail)
    }
}

/// The message for a failure at `stage`.
fn stage_message(stage: Stage, local_port: u16, detail: &str) -> (message: String)
    ensures
        message@ == spec_stage_message(stage, local_port, detail@),
{
    match stage {
        Stage::BastionConnect => join2("Jump host connection failed: ", detail),
        Stage::BastionHandshake => join2("Jump handshake failed: ", detail),
        Stage::BastionAuth => join2("Jump auth failed: ", detail),
        Stage::BastionTune => join2("Jump session setup failed: ", detail),
        Stage::BindListener => join2("Failed to bind local port: ", detail),
        Stage::StartForwarder => join2("Failed to start port forwarding: ", detail),
        Stage::LocalConnect => {
            let port = decimal(local_port as u64);
            let head = join3("Failed to connect to local forwarded port ", port.as_str(), ": ");
            join2(head.as_str(), detail)
        },
        Stage::Connect => join2("Connection failed: ", detail),
        Stage::Handshake => join2("Handshake failed: ", detail),
        Stage::VerifyHostKey => {
            let message = join2("", detail);
            proof {
                reveal_strlit("");
                assert(message@ =~= detail@);
                assert(spec_stage_message(stage, local_port, detail@) =~= detail@);
            }
            message
        },
        Stage::Authenticate => {
            let message = join2("", detail);
            proof {
                reveal_strlit("");
                assert(message@ =~= detail@);
                assert(spec_stage_message(stage, local_port, detail@) =~= detail@);
            }
            message
        },
        Stage::Tune => join2("Session setup failed: ", detail),
    }
}

/// The state of an establishment as a mathematical value.
pub ghost struct EstablisherModel {
    pub tunnel: bool,
    /// Number of stages completed in the current attempt.
    pub position: nat,
    /// The current attempt, counted from one.
    pub attempt: nat,
    /// The port of the local listener, once it is bound.
    pub local_port: u16,
    /// Whether an error was surfaced.
    pub failed: bool,
}

/// The state before the first stage of the first attempt.
pub open spec fn spec_start(tunnel: bool) -> EstablisherModel {
    EstablisherModel { tunnel, position: 0, attempt: 1, local_port: 0, failed: false }
}

/// The invariant of an establishment.
pub open spec fn spec_wf(m: EstablisherModel) -> bool {
    &&& m.position <= spec_stages(m.tunnel).len()
    &&& 1 <= m.attempt <= CONNECTION_RETRY_MAX_ATTEMPTS
    &&& m.failed ==> m.position < spec_stages(m.tunnel).len()
}

/// Whether every stage of one attempt was completed: the session is
/// ready, authenticated, with keepalive on and non-blocking.
pub open spec fn spec_established(m: EstablisherModel) -> bool {
    !m.failed && m.position == spec_stages(m.tunnel).len()
}

/// Whether nothing more is to be reported.
pub open spec fn spec_finished(m: EstablisherModel) -> bool {
    m.failed || m.position >= spec_stages(m.tunnel).len()
}

/// The stage that is to be performed now.
pub open spec fn spec_current(m: EstablisherModel) -> Stage
    recommends
        !spec_finished(m),
{
    spec_stages(m.tunnel)[m.position as int]
}

/// The state after the current stage was completed. The listener's port
/// is remembered when the stage that binds it reports it.
pub open spec fn spec_done(m: EstablisherModel, bound_port: Option<u16>) -> EstablisherModel {
    if spec_finished(m) {
        m
    } else {
        EstablisherModel {
            position: m.position + 1,
            local_port: if spec_current(m) == Stage::BindListener && bound_port is Some {
                bound_port->0
            } else {
                m.local_port
            },
            ..m
        }
    }
}

/// Whether a failure of the current stage starts a fresh attempt: only a
/// failure of the socket stage does, and only while attempts are left.
pub open spec fn spec_retries(m: EstablisherModel) -> bool {
    !spec_finished(m) && spec_failure_kind(spec_current(m)) == FailureKind::Connection
        && m.attempt < CONNECTION_RETRY_MAX_ATTEMPTS
}

/// The state after the current stage failed.
pub open spec fn spec_failed(m: EstablisherModel) -> EstablisherModel {
    if spec_finished(m) {
        m
    } else if spec_retries(m) {
        EstablisherModel { position: 0, attempt: m.attempt + 1, ..m }
    } else {
        EstablisherModel { failed: true, ..m }
    }
}

/// What the caller does after a report.
#[derive(Debug, Clone)]
pub enum Progress {
    /// Perform this stage next.
    Run(Stage),
    /// Release what this attempt built, wait, then start over with `then`.
    Backoff { millis: u64, then: Stage },
    /// Every stage is complete: assemble the session.
    Established,
    /// Release what this attempt built and surface the error.
    Failed(EstablishError),
}

/// The decisions of one establishment, across its attempts.
pub struct Establisher {
    tunnel: bool,
    position: usize,
    attempt: u32,
    local_port: u16,
    failed: bool,
}

impl View for Establisher {
    type V = EstablisherModel;

    closed spec fn view(&self) -> EstablisherModel {
        EstablisherModel {
            tunnel: self.tunnel,
            position: self.position as nat,
            attempt: self.attempt as nat,
            local_port: self.local_port,
            failed: self.failed,
        }
    }
}

/// The stage at `position` of the route.
fn stage_at(tunnel: bool, position: usize) -> (stage: Stage)
    requires
        position < spec_stages(tunnel).len(),
    ensures
        stage == spec_stages(tunnel)[position as int],
{
    if tunnel {
        match position {
            0 => Stage::BastionConnect,
            1 => Stage::BastionHandshake,
            2 => Stage::BastionAuth,
            3 => Stage::BastionTune,
            4 => Stage::BindListener,
            5 => Stage::StartForwarder,
            6 => Stage::LocalConnect,
            7 => Stage::Handshake,
            8 => Stage::VerifyHostKey,
            9 => Stage::Authenticate,
            _ => Stage::Tune,
        }
    } else {
        match position {
            0 => Stage::Connect,
            1 => Stage::Handshake,
            2 => Stage::VerifyHostKey,
            3 => Stage::Authenticate,
            _ => Stage::Tune,
        }
    }
}

/// How many stages the route has.
fn stage_count(tunnel: bool) -> (n: usize)
    ensures
        n == spec_stages(tunnel).len(),
{
    if tunnel {
        11
    } else {
        5
    }
}

impl Establisher {
    /// An establishment at the start of its first attempt.
    pub fn new(route: &Route) -> (e: Self)
        ensures
            e@ == spec_start(route@ is Tunnel),
            spec_wf(e@),
            !spec_finished(e@),
    {
        let tunnel = match route {
            Route::Direct { .. } => false,
            Route::Tunnel { .. } => true,
        };
        Establisher { tunnel, position: 0, attempt: 1, local_port: 0, failed: false }
    }

    /// Whether the session is ready.
    pub fn is_established(&self) -> (yes: bool)
        ensures
            yes == spec_established(self@),
    {
        !self.failed && self.position == stage_count(self.tunnel)
    }

    /// Whether nothing more is to be reported.
    pub fn is_finished(&self) -> (yes: bool)
        ensures
            yes == spec_finished(self@),
    {
        self.failed || self.position >= stage_count(self.tunnel)
    }

    /// The current attempt, counted from one.
    pub fn attempt(&self) -> (n: u32)
        ensures
            n == self@.attempt,
    {
        self.attempt
    }

    /// The stage to perform now.
    pub fn current(&self) -> (stage: Stage)
        requires
            spec_wf(self@),
            !spec_finished(self@),
        ensures
            stage == spec_current(self@),
    {
        stage_at(self.tunnel, self.position)
    }

    /// Reports that the current stage succeeded. `bound_port` carries the
    /// port of the listener when that stage bound it.
    pub fn report_done(&mut self, bound_port: Option<u16>) -> (progress: Progress)
        requires
            spec_wf(old(self)@),
            !spec_finished(old(self)@),
        ensures
            final(self)@ == spec_done(old(self)@, bound_port),
            spec_wf(final(self)@),
            spec_established(final(self)@) ==> progress == Progress::Established,
            !spec_established(final(self)@) ==> progress == Progress::Run(
                spec_current(final(self)@),
            ),
    {
        let stage = stage_at(self.tunnel, self.position);
        if stage == Stage::BindListener {
            match bound_port {
                Some(p) => {
                    self.local_port = p;
                },
                None => {},
            }
        }
        self.position = self.position + 1;
        if self.position == stage_count(self.tunnel) {
            Progress::Established
        } else {
            Progress::Run(stage_at(self.tunnel, self.position))
        }
    }

    /// Reports that the current stage failed, with the detail the
    /// transport gave.
    pub fn report_failed(&mut self, detail: &str) -> (progress: Progress)
        requires
            spec_wf(old(self)@),
            !spec_finished(old(self)@),
        ensures
            final(self)@ == spec_failed(old(self)@),
            spec_wf(final(self)@),
            spec_retries(old(self)@) ==> progress == (Progress::Backoff {
                millis: spec_backoff_millis(old(self)@.attempt) as u64,
                then: spec_stages(old(self)@.tunnel)[0],
            }),
            !spec_retries(old(self)@) ==> (progress matches Progress::Failed(e) && {
                &&& e.stage == spec_current(old(self)@)
                &&& e.kind == spec_failure_kind(e.stage)
                &&& e.message@ == spec_failure_message(e.stage, old(self)@.local_port, detail@)
            }),
    {
        let stage = stage_at(self.tunnel, self.position);
        let kind = failure_kind(stage);
        if kind == FailureKind::Connection && self.attempt < CONNECTION_RETRY_MAX_ATTEMPTS {
            let millis = backoff_delay_millis(self.attempt);
            self.attempt = self.attempt + 1;
            self.position = 0;
            Progress::Backoff { millis, then: stage_at(self.tunnel, 0) }
        } else {
            self.failed = true;
            let told = stage_message(stage, self.local_port, detail);
            let message = if kind == FailureKind::Connection {
                join2("Failed to establish connection after 3 attempts: ", told.as_str())
            } else {
                told
            };
            Progress::Failed(EstablishError { kind, stage, message })
        }
    }
}

/// One report, as it enters the run of an establishment.
pub ghost enum StageEvent {
    Done { bound_port: Option<u16> },
    Failed,
}

/// The state after one report.
pub open spec fn spec_step(m: EstablisherModel, event: StageEvent) -> EstablisherModel {
    match event {
        StageEvent::Done { bound_port } => spec_done(m, bound_port),
        StageEvent::Failed => spec_failed(m),
    }
}

/// The state after the reports `events`, taken in order until the
/// establishment is finished.
pub open spec fn spec_run(m: EstablisherModel, events: Seq<StageEvent>) -> EstablisherModel
    decreases events.len(),
{
    if events.len() == 0 || spec_finished(m) {
        m
    } else {
        spec_run(spec_step(m, events[0]), events.drop_first())
    }
}

/// The number of reports of `events` that were taken.
pub open spec fn spec_taken(m: EstablisherModel, events: Seq<StageEvent>) -> nat
    decreases events.len(),
{
    if events.len() == 0 || spec_finished(m) {
        0
    } else {
        1 + spec_taken(spec_step(m, events[0]), events.drop_first())
    }
}

/// A run keeps the state well formed. Where it ends established, it took at
/// least the stages that were still ahead, and the last reports, as many as
/// the route has stages, were all of success.
proof fn lemma_run_from(m: EstablisherModel, events: Seq<StageEvent>)
    requires
        spec_wf(m),
    ensures
        spec_wf(spec_run(m, events)),
        spec_taken(m, events) <= events.len(),
        spec_established(spec_run(m, events)) ==> {
            let n = spec_stages(m.tunnel).len() as int;
            let c = spec_taken(m, events) as int;
            &&& m.failed == false
            &&& c >= n - m.position
            &&& forall|i: int| 0 <= i < c && c - n <= i ==> #[trigger] events[i] is Done
        },
    decreases events.len(),
{
    if events.len() == 0 || spec_finished(m) {
    } else {
        let next = spec_step(m, events[0]);
        let rest = events.drop_first();
        lemma_run_from(next, rest);
        if spec_established(spec_run(m, events)) {
            let n = spec_stages(m.tunnel).len() as int;
            let c = spec_taken(m, events) as int;
            let c1 = spec_taken(next, rest) as int;
            assert(c == c1 + 1);
            assert forall|i: int| 0 <= i < c && c - n <= i implies #[trigger] events[i] is Done by {
                if i == 0 {
                    if events[0] is Failed {
                        assert(next.position == 0);
                    }
                } else {
                    assert(events[i] == rest[i - 1]);
                }
            }
        }
    }
}

/// An establishment ends ready only after every stage of its sequence
/// was reported complete, in order and within a single attempt: the last
/// reports taken are one success for each stage. Any other run ends in
/// an error or is still under way; there is no half-built session.
pub proof fn lemma_established_only_after_every_stage(tunnel: bool, events: Seq<StageEvent>)
    ensures
        spec_wf(spec_run(spec_start(tunnel), events)),
        spec_established(spec_run(spec_start(tunnel), events)) ==> {
            let n = spec_stages(tunnel).len() as int;
            let c = spec_taken(spec_start(tunnel), events) as int;
            &&& n <= c <= events.len()
            &&& forall|i: int| c - n <= i < c ==> #[trigger] events[i] is Done
        },
        !spec_established(spec_run(spec_start(tunnel), events)) ==> spec_run(
            spec_start(tunnel),
            events,
        ).failed || !spec_finished(spec_run(spec_start(tunnel), events)),
{
    lemma_run_from(spec_start(tunnel), events);
}

} // verus!
