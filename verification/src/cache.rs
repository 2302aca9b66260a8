//! The resilient cache client.
//!
//! Building the client is a machine with two states. [`Connecting`] holds the
//! address, the pool's settings and the current delay; each attempt to build
//! the pool, take a connection from it and probe the store is reported to
//! [`Connecting::create_pool`], which either hands out the ready
//! [`RedisController`] or says how long to wait before the next attempt.
//! There is no third way out: a failed attempt is always followed by another.
//!
//! The ready client turns each key-value operation into the [`Request`] to
//! send. What comes back is passed through [`conclude`], which keeps every
//! failure as a typed error and never retries.

use crate::backoff::{
    apply_backoff, delay_after, grown, lemma_delay_unfolds, on_schedule, INITIAL_DELAY, MAX_DELAY,
};
use crate::text::{decimal, decimal_text, signed_decimal, signed_decimal_text};
use vstd::prelude::*;
use vstd::string::*;
use vstd::utf8::encode_utf8;

verus! {

/// The address of a store, parsed and ready to open connections with.
#[verifier::external_type_specification]
#[verifier::external_body]
pub struct ExRedisConnectionManager(bb8_redis::RedisConnectionManager);

/// The driver's error.
#[verifier::external_type_specification]
#[verifier::external_body]
pub struct ExRedisError(bb8_redis::redis::RedisError);

/// A command for the store: its name followed by its arguments.
#[verifier::external_type_specification]
#[verifier::external_body]
pub struct ExCmd(bb8_redis::redis::Cmd);

/// The arguments that a command holds, the command's name first, each as
/// the bytes that go on the wire.
pub uninterp spec fn command_args(command: bb8_redis::redis::Cmd) -> Seq<Seq<u8>>;

/// Whether the driver can make sense of `address`. The driver parses the
/// address as a URL and reads scheme, host, port, database and credentials
/// from it; it looks at nothing but the text.
pub uninterp spec fn address_opens(address: Seq<char>) -> bool;

/// What the driver reads from `address`, where it can make sense of it.
pub uninterp spec fn manager_for(address: Seq<char>) -> bb8_redis::RedisConnectionManager;

/// `RedisConnectionManager::new` on a string: parses the address without
/// opening a connection. Whether it succeeds, and what it reads from the
/// address if it does, depends on the address alone; every refusal comes
/// back as an error.
#[verifier::external_body]
fn open_manager(address: &str) -> (opened: Result<
    bb8_redis::RedisConnectionManager,
    bb8_redis::redis::RedisError,
>)
    ensures
        opened is Ok <==> address_opens(address@),
        opened is Ok ==> opened->Ok_0 == manager_for(address@),
{
    bb8_redis::RedisConnectionManager::new(address)
}

/// `redis::cmd`: a new command that holds its name as its only argument.
#[verifier::external_body]
fn named_command(name: &str) -> (command: bb8_redis::redis::Cmd)
    ensures
        command_args(command) == seq![name.spec_bytes()],
{
    bb8_redis::redis::cmd(name)
}

/// `Cmd::arg` with a string: appends the string's bytes as one more
/// argument and leaves the earlier ones as they were.
#[verifier::external_body]
fn push_argument(command: &mut bb8_redis::redis::Cmd, argument: &str)
    ensures
        command_args(*final(command)) == command_args(*old(command)).push(argument.spec_bytes()),
{
    command.arg(argument);
}

/// How many connections a pool holds at most unless told otherwise.
pub const DEFAULT_MAX_SIZE: u32 = 20;

/// How long a connection may sit idle before it is recycled, in seconds.
pub const IDLE_TIMEOUT_SECS: u64 = 30;

/// The settings a pool is built with. They are fixed when the client is
/// made and never change afterwards.
#[derive(Clone, Copy, Debug, PartialEq, Eq, Structural)]
pub struct PoolSettings {
    /// The pool never holds more connections than this.
    pub max_size: u32,
    /// Connections idle for longer than this many seconds are recycled.
    pub idle_timeout_secs: u64,
    /// Whether the pool itself keeps trying while a connection cannot be
    /// opened.
    pub retry_connection: bool,
    /// Whether a connection is checked for health when it is handed out.
    pub test_on_check_out: bool,
}

impl PoolSettings {
    /// A pool needs room for at least one connection and a positive idle
    /// timeout.
    pub open spec fn valid(&self) -> bool {
        self.max_size >= 1 && self.idle_timeout_secs >= 1
    }

    /// The settings of a pool of at most `max_size` connections.
    pub open spec fn with_max_size(max_size: u32) -> PoolSettings {
        PoolSettings {
            max_size,
            idle_timeout_secs: IDLE_TIMEOUT_SECS,
            retry_connection: true,
            test_on_check_out: true,
        }
    }
}

/// Why the cache could not do what it was asked.
#[derive(Debug)]
pub enum CacheError {
    /// The address of the store could not be understood. Nothing was tried.
    InvalidAddress(bb8_redis::redis::RedisError),
    /// A pool must have room for at least one connection.
    InvalidPoolSize,
    /// No connection came free before the pool gave up waiting.
    PoolTimedOut,
    /// The pool could not provide a working connection.
    Pool(bb8_redis::redis::RedisError),
    /// The round trip to the store failed.
    Store(bb8_redis::redis::RedisError),
}

/// How one attempt to reach the store ended.
#[derive(Debug)]
pub enum AttemptOutcome {
    /// The pool could not be built.
    BuildFailed(String),
    /// The pool was built but gave out no connection.
    CheckoutFailed(String),
    /// A connection was there but the store did not answer the probe.
    ProbeFailed(String),
    /// The store answered the probe.
    Probed,
}

impl AttemptOutcome {
    /// The cause reported with a failed attempt.
    pub open spec fn cause(&self) -> Seq<char> {
        match self {
            AttemptOutcome::BuildFailed(cause) => cause@,
            AttemptOutcome::CheckoutFailed(cause) => cause@,
            AttemptOutcome::ProbeFailed(cause) => cause@,
            AttemptOutcome::Probed => Seq::empty(),
        }
    }
}

/// The line logged once the store has answered the probe.
pub open spec fn connected_text() -> Seq<char> {
    "Redis[Info]: Successfully connected"@
}

/// The line logged after a failed attempt: what failed, why, and for how
/// many seconds the client now waits.
pub open spec fn retry_text(outcome: AttemptOutcome, pause: nat) -> Seq<char> {
    let tag = if outcome is BuildFailed {
        "Redis[PoolError]: "@
    } else {
        "Redis[Error]: "@
    };
    tag + outcome.cause() + ", retrying in "@ + decimal_text(pause) + " seconds"@
}

/// The two states of building the client.
pub enum Phase {
    /// Still trying; `delay` seconds are waited after the next failure.
    Connecting { delay: nat },
    /// The store has answered a probe.
    Ready,
}

/// The state that follows `phase` when an attempt has ended, `probed`
/// telling whether the store answered the probe.
pub open spec fn next_phase(phase: Phase, probed: bool) -> Phase {
    match phase {
        Phase::Ready => Phase::Ready,
        Phase::Connecting { delay } => if probed {
            Phase::Ready
        } else {
            Phase::Connecting { delay: grown(delay) }
        },
    }
}

/// The state reached from a fresh start once the given attempts have ended,
/// `true` standing for an attempt that the store answered.
pub open spec fn phase_after(attempts: Seq<bool>) -> Phase
    decreases attempts.len(),
{
    if attempts.len() == 0 {
        Phase::Connecting { delay: INITIAL_DELAY as nat }
    } else {
        next_phase(phase_after(attempts.drop_last()), attempts.last())
    }
}

/// The seconds waited after each of the given attempts that was followed by
/// a wait, in order.
pub open spec fn pauses_during(attempts: Seq<bool>) -> Seq<nat>
    decreases attempts.len(),
{
    if attempts.len() == 0 {
        Seq::empty()
    } else {
        let earlier = pauses_during(attempts.drop_last());
        match phase_after(attempts.drop_last()) {
            Phase::Connecting { delay } => if attempts.last() {
                earlier
            } else {
                earlier.push(delay)
            },
            Phase::Ready => earlier,
        }
    }
}

/// A client that has not reached its store yet.
///
/// The state is handed on by value from attempt to attempt, so there is
/// never more than one run of attempts for one client.
pub struct Connecting {
    manager: bb8_redis::RedisConnectionManager,
    settings: PoolSettings,
    backoff: u64,
}

/// The cache client, ready for use: its store has answered a probe.
pub struct RedisController {
    manager: bb8_redis::RedisConnectionManager,
    settings: PoolSettings,
}

/// What to do after an attempt has ended.
pub enum Progress {
    /// The store answered: here is the client, and the line to log.
    Ready { client: RedisController, log: String },
    /// The attempt failed: log the line, wait `pause_secs` seconds, then try
    /// again and report to `state`.
    Retry { state: Connecting, log: String, pause_secs: u64 },
}

impl Progress {
    /// The state of construction that this step leads to.
    pub open spec fn phase(&self) -> Phase {
        match self {
            Progress::Ready { .. } => Phase::Ready,
            Progress::Retry { state, .. } => state.phase(),
        }
    }
}

impl Connecting {
    #[verifier::type_invariant]
    spec fn sound(&self) -> bool {
        &&& self.settings.valid()
        &&& on_schedule(self.backoff as nat)
    }

    /// The parsed address that connections are opened with.
    pub closed spec fn manager_spec(&self) -> bb8_redis::RedisConnectionManager {
        self.manager
    }

    /// The settings the pool is built with.
    pub closed spec fn settings_spec(&self) -> PoolSettings {
        self.settings
    }

    /// The seconds to wait if the next attempt fails.
    pub closed spec fn delay_spec(&self) -> nat {
        self.backoff as nat
    }

    /// This state in the model of construction.
    pub open spec fn phase(&self) -> Phase {
        Phase::Connecting { delay: self.delay_spec() }
    }

    /// Starts construction from the outcome of parsing the address: a pool
    /// of at most `max_size` connections, waiting the initial delay after
    /// the first failure.
    pub fn begin(
        opened: Result<bb8_redis::RedisConnectionManager, bb8_redis::redis::RedisError>,
        max_size: u32,
    ) -> (started: Result<Connecting, CacheError>)
        ensures
            match opened {
                Err(e) => started == Err::<Connecting, CacheError>(CacheError::InvalidAddress(e)),
                Ok(manager) => if max_size == 0 {
                    started == Err::<Connecting, CacheError>(CacheError::InvalidPoolSize)
                } else {
                    &&& started is Ok
                    &&& started->Ok_0.manager_spec() == manager
                    &&& started->Ok_0.settings_spec() == PoolSettings::with_max_size(max_size)
                    &&& started->Ok_0.delay_spec() == INITIAL_DELAY
                    &&& started->Ok_0.phase() == phase_after(Seq::empty())
                },
            },
    {
        match opened {
            Err(e) => Err(CacheError::InvalidAddress(e)),
            Ok(manager) => {
                if max_size == 0 {
                    Err(CacheError::InvalidPoolSize)
                } else {
                    Ok(
                        Connecting {
                            manager,
                            settings: PoolSettings {
                                max_size,
                                idle_timeout_secs: IDLE_TIMEOUT_SECS,
                                retry_connection: true,
                                test_on_check_out: true,
                            },
                            backoff: INITIAL_DELAY,
                        },
                    )
                }
            },
        }
    }

    /// The parsed address that connections are opened with.
    pub fn manager(&self) -> (manager: &bb8_redis::RedisConnectionManager)
        ensures
            *manager == self.manager_spec(),
    {
        &self.manager
    }

    /// The settings to build the pool with. They are always valid.
    pub fn settings(&self) -> (settings: PoolSettings)
        ensures
            settings == self.settings_spec(),
            settings.valid(),
    {
        proof {
            use_type_invariant(self);
        }
        self.settings
    }

    /// The seconds to wait if the next attempt fails: always a delay of the
    /// schedule, so never less than the initial delay and never more than
    /// the ceiling.
    pub fn delay(&self) -> (delay: u64)
        ensures
            delay == self.delay_spec(),
            on_schedule(delay as nat),
            INITIAL_DELAY <= delay <= MAX_DELAY,
    {
        proof {
            use_type_invariant(self);
        }
        self.backoff
    }

    /// Takes in how an attempt ended and decides what comes next.
    ///
    /// The client is handed out if and only if the store answered the probe.
    /// After any failure the caller is told to log the cause, to wait for
    /// the current delay and to try again; the delay has then grown for the
    /// failure after that. Address and settings are carried along unchanged.
    pub fn create_pool(self, outcome: AttemptOutcome) -> (progress: Progress)
        ensures
            progress is Ready <==> outcome is Probed,
            progress.phase() == next_phase(self.phase(), outcome is Probed),
            match progress {
                Progress::Ready { client, log } => {
                    &&& client.manager_spec() == self.manager_spec()
                    &&& client.settings_spec() == self.settings_spec()
                    &&& log@ == connected_text()
                },
                Progress::Retry { state, log, pause_secs } => {
                    &&& state.manager_spec() == self.manager_spec()
                    &&& state.settings_spec() == self.settings_spec()
                    &&& pause_secs == self.delay_spec()
                    &&& state.delay_spec() == grown(self.delay_spec())
                    &&& log@ == retry_text(outcome, self.delay_spec())
                },
            },
    {
        proof {
            use_type_invariant(&self);
        }
        let Connecting { manager, settings, backoff } = self;
        match outcome {
            AttemptOutcome::Probed => Progress::Ready {
                client: RedisController { manager, settings },
                log: String::from_str("Redis[Info]: Successfully connected"),
            },
            AttemptOutcome::BuildFailed(cause) => {
                let mut backoff = backoff;
                let log = retry_line("Redis[PoolError]: ", cause.as_str(), backoff);
                let pause_secs = apply_backoff(&mut backoff);
                Progress::Retry { state: Connecting { manager, settings, backoff }, log, pause_secs }
            },
            AttemptOutcome::CheckoutFailed(cause) => {
                let mut backoff = backoff;
                let log = retry_line("Redis[Error]: ", cause.as_str(), backoff);
                let pause_secs = apply_backoff(&mut backoff);
                Progress::Retry { state: Connecting { manager, settings, backoff }, log, pause_secs }
            },
            AttemptOutcome::ProbeFailed(cause) => {
                let mut backoff = backoff;
                let log = retry_line("Redis[Error]: ", cause.as_str(), backoff);
                let pause_secs = apply_backoff(&mut backoff);
                Progress::Retry { state: Connecting { manager, settings, backoff }, log, pause_secs }
            },
        }
    }
}

/// Writes the line for a failed attempt.
fn retry_line(tag: &str, cause: &str, pause: u64) -> (line: String)
    ensures
        line@ == tag@ + cause@ + ", retrying in "@ + decimal_text(pause as nat) + " seconds"@,
{
    let mut line = String::from_str(tag);
    line.append(cause);
    line.append(", retrying in ");
    let seconds = decimal(pause);
    line.append(seconds.as_str());
    line.append(" seconds");
    line
}

impl RedisController {
    /// The parsed address that connections are opened with.
    pub closed spec fn manager_spec(&self) -> bb8_redis::RedisConnectionManager {
        self.manager
    }

    /// The settings the pool was built with.
    pub closed spec fn settings_spec(&self) -> PoolSettings {
        self.settings
    }

    #[verifier::type_invariant]
    spec fn sound(&self) -> bool {
        self.settings.valid()
    }

    /// Starts building a client for the store at `address`, with a pool of
    /// at most `max_size` connections.
    ///
    /// Construction starts exactly when the driver can make sense of the
    /// address and the pool has room for a connection. It then holds what
    /// the driver read from the address, the standard settings and the
    /// initial delay. An address that the driver cannot make sense of is
    /// rejected at once, whatever the pool size; an empty pool is rejected
    /// next. Nothing is retried then.
    pub fn new(address: &str, max_size: u32) -> (started: Result<Connecting, CacheError>)
        ensures
            started is Ok <==> address_opens(address@) && max_size > 0,
            !address_opens(address@) ==> started is Err && started->Err_0 is InvalidAddress,
            address_opens(address@) && max_size == 0 ==> started is Err
                && started->Err_0 is InvalidPoolSize,
            started is Ok ==> {
                &&& started->Ok_0.manager_spec() == manager_for(address@)
                &&& started->Ok_0.settings_spec() == PoolSettings::with_max_size(max_size)
                &&& started->Ok_0.delay_spec() == INITIAL_DELAY
                &&& started->Ok_0.phase() == phase_after(Seq::empty())
            },
    {
        Connecting::begin(open_manager(address), max_size)
    }

    /// The parsed address that connections are opened with.
    pub fn manager(&self) -> (manager: &bb8_redis::RedisConnectionManager)
        ensures
            *manager == self.manager_spec(),
    {
        &self.manager
    }

    /// The settings the pool was built with. They are always valid.
    pub fn settings(&self) -> (settings: PoolSettings)
        ensures
            settings == self.settings_spec(),
            settings.valid(),
    {
        proof {
            use_type_invariant(self);
        }
        self.settings
    }
}

/// Each attempt moves the client on by one step, from wherever the
/// attempts before it have brought it.
pub proof fn lemma_phase_after_push(attempts: Seq<bool>, probed: bool)
    ensures
        phase_after(attempts.push(probed)) == next_phase(phase_after(attempts), probed),
{
    assert(attempts.push(probed).drop_last() =~= attempts);
}

/// While every attempt fails the client keeps connecting: after so many
/// failures the delay is the one the schedule gives for that many, and the
/// waits so far were the schedule's delays in order.
pub proof fn lemma_failures_keep_connecting(attempts: Seq<bool>)
    requires
        forall|i: int| 0 <= i < attempts.len() ==> !attempts[i],
    ensures
        phase_after(attempts) == (Phase::Connecting { delay: delay_after(attempts.len()) }),
        pauses_during(attempts) == Seq::new(attempts.len(), |i: int| delay_after(i as nat)),
    decreases attempts.len(),
{
    lemma_delay_unfolds(0);
    if attempts.len() > 0 {
        let earlier = attempts.drop_last();
        lemma_failures_keep_connecting(earlier);
        lemma_delay_unfolds(earlier.len());
        assert(pauses_during(attempts) =~= Seq::new(
            attempts.len(),
            |i: int| delay_after(i as nat),
        ));
    } else {
        assert(pauses_during(attempts) =~= Seq::new(
            attempts.len(),
            |i: int| delay_after(i as nat),
        ));
    }
}

/// However long the store stays out of reach, the first attempt that it
/// answers makes the client ready. Until then every failure was followed by
/// a wait, each wait longer than the one before until the ceiling was
/// reached, and none longer than the ceiling.
pub proof fn lemma_ready_at_first_answer(attempts: Seq<bool>)
    requires
        attempts.len() > 0,
        attempts.last(),
        forall|i: int| 0 <= i < attempts.len() - 1 ==> !attempts[i],
    ensures
        phase_after(attempts) == Phase::Ready,
        phase_after(attempts.drop_last()) is Connecting,
        pauses_during(attempts) == Seq::new(
            (attempts.len() - 1) as nat,
            |i: int| delay_after(i as nat),
        ),
        forall|i: int|
            0 <= i < attempts.len() - 1 ==> INITIAL_DELAY <= #[trigger] pauses_during(attempts)[i]
                <= MAX_DELAY,
        forall|i: int|
            0 <= i < attempts.len() - 2 ==> (#[trigger] pauses_during(attempts)[i])
                < pauses_during(attempts)[i + 1] || pauses_during(attempts)[i] == MAX_DELAY,
{
    lemma_failures_keep_connecting(attempts.drop_last());
    let pauses = pauses_during(attempts);
    assert forall|i: int| 0 <= i < attempts.len() - 1 implies INITIAL_DELAY <= #[trigger] pauses[i]
        <= MAX_DELAY by {
        crate::backoff::lemma_delay_bounded(i as nat);
    }
    assert forall|i: int| 0 <= i < attempts.len() - 2 implies (#[trigger] pauses[i]) < pauses[i
        + 1] || pauses[i] == MAX_DELAY by {
        crate::backoff::lemma_delay_increases(i as nat);
        crate::backoff::lemma_delay_bounded(i as nat);
    }
}

/// The client is ready exactly when some attempt was answered: no run of
/// failures, however long, makes it ready, and no failure after the answer
/// takes readiness away.
pub proof fn lemma_ready_iff_answered(attempts: Seq<bool>)
    ensures
        phase_after(attempts) is Ready <==> exists|i: int|
            0 <= i < attempts.len() && #[trigger] attempts[i],
    decreases attempts.len(),
{
    if attempts.len() > 0 {
        let earlier = attempts.drop_last();
        lemma_ready_iff_answered(earlier);
        if phase_after(attempts) is Ready {
            if attempts.last() {
                assert(attempts[attempts.len() - 1]);
            } else {
                let i = choose|i: int| 0 <= i < earlier.len() && #[trigger] earlier[i];
                assert(attempts[i]);
            }
        }
        if exists|i: int| 0 <= i < attempts.len() && #[trigger] attempts[i] {
            let i = choose|i: int| 0 <= i < attempts.len() && #[trigger] attempts[i];
            if i < earlier.len() {
                assert(earlier[i]);
            }
        }
    }
}

/// One request to the store.
#[derive(Debug)]
pub enum Request {
    /// The liveness probe. It changes nothing in the store.
    Ping,
    /// Read the value of `key`.
    Get { key: String },
    /// Store `value` under `key`.
    Put { key: String, value: String },
    /// Remove `key`.
    Del { key: String },
    /// Let `key` expire after `seconds` seconds.
    Expire { key: String, seconds: i64 },
}

/// What a request asks for: the request with its texts as sequences of
/// characters.
pub enum Op {
    Ping,
    Get { key: Seq<char> },
    Put { key: Seq<char>, value: Seq<char> },
    Del { key: Seq<char> },
    Expire { key: Seq<char>, seconds: int },
}

impl View for Request {
    type V = Op;

    open spec fn view(&self) -> Op {
        match self {
            Request::Ping => Op::Ping,
            Request::Get { key } => Op::Get { key: key@ },
            Request::Put { key, value } => Op::Put { key: key@, value: value@ },
            Request::Del { key } => Op::Del { key: key@ },
            Request::Expire { key, seconds } => Op::Expire { key: key@, seconds: *seconds as int },
        }
    }
}

impl Op {
    /// The key that the request is about, if it is about one.
    pub open spec fn key(self) -> Option<Seq<char>> {
        match self {
            Op::Ping => None,
            Op::Get { key } => Some(key),
            Op::Put { key, .. } => Some(key),
            Op::Del { key } => Some(key),
            Op::Expire { key, .. } => Some(key),
        }
    }

    /// The arguments of the command that carries the request: the
    /// command's name, the key, then the value or the seconds in decimal,
    /// each encoded as UTF-8.
    pub open spec fn wire_args(self) -> Seq<Seq<u8>> {
        match self {
            Op::Ping => seq![encode_utf8("PING"@)],
            Op::Get { key } => seq![encode_utf8("GET"@), encode_utf8(key)],
            Op::Put { key, value } => seq![
                encode_utf8("SET"@),
                encode_utf8(key),
                encode_utf8(value),
            ],
            Op::Del { key } => seq![encode_utf8("DEL"@), encode_utf8(key)],
            Op::Expire { key, seconds } => seq![
                encode_utf8("EXPIRE"@),
                encode_utf8(key),
                encode_utf8(signed_decimal_text(seconds)),
            ],
        }
    }
}

impl Request {
    /// The command that puts this request on the wire.
    pub fn command(&self) -> (command: bb8_redis::redis::Cmd)
        ensures
            command_args(command) == self@.wire_args(),
    {
        match self {
            Request::Ping => named_command("PING"),
            Request::Get { key } => {
                let mut command = named_command("GET");
                push_argument(&mut command, key.as_str());
                command
            },
            Request::Put { key, value } => {
                let mut command = named_command("SET");
                push_argument(&mut command, key.as_str());
                push_argument(&mut command, value.as_str());
                command
            },
            Request::Del { key } => {
                let mut command = named_command("DEL");
                push_argument(&mut command, key.as_str());
                command
            },
            Request::Expire { key, seconds } => {
                let mut command = named_command("EXPIRE");
                push_argument(&mut command, key.as_str());
                let text = signed_decimal(*seconds);
                push_argument(&mut command, text.as_str());
                command
            },
        }
    }
}

impl Connecting {
    /// The request that probes the store: a round trip that changes
    /// nothing.
    pub fn probe(&self) -> (request: Request)
        ensures
            request@ == Op::Ping,
    {
        Request::Ping
    }
}

impl RedisController {
    /// The request that reads the value of `key`.
    pub fn get(&self, key: &str) -> (request: Request)
        ensures
            request@ == (Op::Get { key: key@ }),
    {
        Request::Get { key: String::from_str(key) }
    }

    /// The request that removes `key`.
    pub fn del(&self, key: &str) -> (request: Request)
        ensures
            request@ == (Op::Del { key: key@ }),
    {
        Request::Del { key: String::from_str(key) }
    }

    /// The request that stores `value` under `key`.
    pub fn set(&self, key: &str, value: &str) -> (request: Request)
        ensures
            request@ == (Op::Put { key: key@, value: value@ }),
    {
        Request::Put { key: String::from_str(key), value: String::from_str(value) }
    }

    /// The request that lets `key` expire after `seconds` seconds.
    pub fn expire(&self, key: &str, seconds: i64) -> (request: Request)
        ensures
            request@ == (Op::Expire { key: key@, seconds: seconds as int }),
    {
        Request::Expire { key: String::from_str(key), seconds }
    }
}

/// What became of one round trip.
#[derive(Debug)]
pub enum Outcome<T> {
    /// No connection came free before the pool gave up waiting.
    CheckoutTimedOut,
    /// The pool could not provide a working connection.
    CheckoutFailed(bb8_redis::redis::RedisError),
    /// The request was sent and the round trip failed.
    Failed(bb8_redis::redis::RedisError),
    /// The store replied.
    Replied(T),
}

/// The result that an operation returns for each way its round trip can
/// end.
pub open spec fn concluded<T>(outcome: Outcome<T>) -> Result<T, CacheError> {
    match outcome {
        Outcome::CheckoutTimedOut => Err(CacheError::PoolTimedOut),
        Outcome::CheckoutFailed(e) => Err(CacheError::Pool(e)),
        Outcome::Failed(e) => Err(CacheError::Store(e)),
        Outcome::Replied(reply) => Ok(reply),
    }
}

/// Turns what became of a round trip into the operation's result.
///
/// A reply is passed on as it is. Every failure is passed on too, with the
/// driver's own error inside: nothing is retried and nothing is swallowed,
/// and a pool that gives out no connection is a failure like any other.
pub fn conclude<T>(outcome: Outcome<T>) -> (result: Result<T, CacheError>)
    ensures
        result == concluded(outcome),
{
    match outcome {
        Outcome::CheckoutTimedOut => Err(CacheError::PoolTimedOut),
        Outcome::CheckoutFailed(e) => Err(CacheError::Pool(e)),
        Outcome::Failed(e) => Err(CacheError::Store(e)),
        Outcome::Replied(reply) => Ok(reply),
    }
}

} // verus!
