//! The registry that a logger is connected to, the connection guard, and the
//! routing of records and failures to the host.
use vstd::prelude::*;

use crate::level::{Level, LevelFilter};
use crate::logger::{default_logger, Autput, LogReport, Record};

verus! {

/// Why a connection was refused.
#[derive(Clone, Copy, Debug, PartialEq, Eq, Structural)]
pub enum ConnectError {
    /// A logger is already registered.
    DoubleRegistration,
}

/// The state of a registry, as the contracts see it.
pub struct BridgeState {
    /// The registered logger, once there is one.
    pub logger: Option<Autput>,
    /// Whether failures are forwarded to the host.
    pub panic_hook: bool,
    /// Whether a once-only connection has completed.
    pub connected: bool,
    /// The build-time maximum level: records above it never leave.
    pub ceiling: LevelFilter,
}

impl BridgeState {
    /// A completed once-only connection implies a registered logger.
    pub open spec fn wf(self) -> bool {
        self.connected ==> self.logger is Some
    }

    /// A registry at process start.
    pub open spec fn fresh(ceiling: LevelFilter) -> BridgeState {
        BridgeState { logger: None, panic_hook: false, connected: false, ceiling }
    }

    /// Whether a record of `level` reaches the host.
    pub open spec fn routes(self, level: Level) -> bool {
        &&& self.ceiling.spec_admits(level)
        &&& self.logger matches Some(l) && l.spec_enabled(level)
    }
}

/// Outcome of a direct connection of `logger`: the panic hook is installed in
/// every case, and the logger is registered unless one already is.
pub open spec fn after_connect_with(s: BridgeState, logger: Autput) -> (BridgeState, Result<
    (),
    ConnectError,
>) {
    let hooked = BridgeState { panic_hook: true, ..s };
    if s.logger is Some {
        (hooked, Err(ConnectError::DoubleRegistration))
    } else {
        (BridgeState { logger: Some(logger), ..hooked }, Ok(()))
    }
}

/// Outcome of a once-only connection with the logger that the factory built:
/// nothing happens once connected; otherwise a direct connection, and the flag
/// is set only when it succeeded.
pub open spec fn after_connect_once(s: BridgeState, logger: Autput) -> (BridgeState, Result<
    (),
    ConnectError,
>) {
    if s.connected {
        (s, Ok(()))
    } else {
        let (t, r) = after_connect_with(s, logger);
        if r is Ok {
            (BridgeState { connected: true, ..t }, r)
        } else {
            (t, r)
        }
    }
}

/// The explicitly owned registration slot, with the panic hook's state and the
/// connected flag.
pub struct Registry {
    logger: Option<Autput>,
    panic_hook: bool,
    connected: bool,
    ceiling: LevelFilter,
}

impl View for Registry {
    type V = BridgeState;

    closed spec fn view(&self) -> BridgeState {
        BridgeState {
            logger: self.logger,
            panic_hook: self.panic_hook,
            connected: self.connected,
            ceiling: self.ceiling,
        }
    }
}

/// Description forwarded when a failure could not be rendered.
pub const PANIC_FALLBACK: &'static str = "guest panicked";

impl Registry {
    /// An empty registry whose ceiling is the `log` crate's build-time maximum.
    pub fn new() -> (r: Registry)
        ensures
            r@.logger is None,
            !r@.panic_hook,
            !r@.connected,
    {
        Registry::with_ceiling(build_ceiling())
    }

    /// An empty registry with the given build-time maximum level.
    pub fn with_ceiling(ceiling: LevelFilter) -> (r: Registry)
        ensures
            r@ == BridgeState::fresh(ceiling),
    {
        Registry { logger: None, panic_hook: false, connected: false, ceiling }
    }

    /// The registered logger, if any.
    pub fn logger(&self) -> (r: Option<Autput>)
        ensures
            r == self@.logger,
    {
        self.logger
    }

    /// Whether a once-only connection has completed.
    pub fn is_connected(&self) -> (r: bool)
        ensures
            r == self@.connected,
    {
        self.connected
    }

    /// Whether failures are forwarded to the host.
    pub fn panic_hook_installed(&self) -> (r: bool)
        ensures
            r == self@.panic_hook,
    {
        self.panic_hook
    }

    /// The build-time maximum level.
    pub fn ceiling(&self) -> (r: LevelFilter)
        ensures
            r == self@.ceiling,
    {
        self.ceiling
    }

    /// The filter in force: the stricter of the ceiling and the registered
    /// logger's own, and `Off` while no logger is registered.
    pub fn max_level(&self) -> (r: LevelFilter)
        ensures
            forall|level: Level| r.spec_admits(level) <==> self@.routes(level),
            self@.logger matches Some(l) ==> r == self@.ceiling.spec_stricter(l.max_level),
            self@.logger is None ==> r == LevelFilter::Off,
    {
        match self.logger {
            Some(l) => self.ceiling.stricter(l.max_level),
            None => LevelFilter::Off,
        }
    }

    /// Routes a record: the report for the host when the record passes the
    /// ceiling and the registered logger's filter, else nothing.
    pub fn log(&self, record: &Record) -> (r: Option<LogReport>)
        ensures
            r is Some <==> self@.routes(record.level),
            r matches Some(rep) ==> rep.reports(record),
    {
        match &self.logger {
            Some(l) => {
                if self.ceiling.admits(record.level) {
                    l.log(record)
                } else {
                    None
                }
            },
            None => None,
        }
    }

    /// The description to forward for a failure, once the panic hook is
    /// installed: the rendered description, or a fixed one where rendering
    /// failed. Nothing before.
    pub fn report_panic(&self, description: Option<&str>) -> (r: Option<String>)
        ensures
            r is Some <==> self@.panic_hook,
            r matches Some(s) ==> s@ == (match description {
                Some(d) => d@,
                None => PANIC_FALLBACK@,
            }),
    {
        if !self.panic_hook {
            return None;
        }
        match description {
            Some(d) => Some(d.to_owned()),
            None => Some(PANIC_FALLBACK.to_owned()),
        }
    }
}

impl Autput {
    /// Registers this logger and publishes its filter, unless a logger is
    /// already registered.
    pub fn connect(self, registry: &mut Registry) -> (r: Result<(), ConnectError>)
        ensures
            old(registry)@.logger is Some ==> r == Err::<(), ConnectError>(
                ConnectError::DoubleRegistration,
            ) && final(registry)@ == old(registry)@,
            old(registry)@.logger is None ==> r == Ok::<(), ConnectError>(()) && final(registry)@ == (BridgeState {
                logger: Some(self),
                ..old(registry)@
            }),
    {
        if registry.logger.is_some() {
            return Err(ConnectError::DoubleRegistration);
        }
        publish_max_level(self.max_level);
        registry.logger = Some(self);
        Ok(())
    }
}

/// Installs the panic hook and registers `logger`; refused when a logger is
/// already registered.
pub fn connect_with(registry: &mut Registry, logger: Autput) -> (r: Result<(), ConnectError>)
    requires
        old(registry)@.wf(),
    ensures
        (final(registry)@, r) == after_connect_with(old(registry)@, logger),
        final(registry)@.wf(),
{
    registry.panic_hook = true;
    logger.connect(registry)
}

/// `connect_with` the default logger.
pub fn connect(registry: &mut Registry) -> (r: Result<(), ConnectError>)
    requires
        old(registry)@.wf(),
    ensures
        (final(registry)@, r) == after_connect_with(old(registry)@, default_logger()),
        final(registry)@.wf(),
{
    connect_with(registry, Autput::default())
}

/// Connects once: after a completed once-only connection this does nothing
/// and does not call `make_logger`; before, it builds the logger, connects it
/// and marks the registry connected only when that succeeded.
pub fn connect_once_with<T: FnOnce() -> Autput>(registry: &mut Registry, make_logger: T) -> (r:
    Result<(), ConnectError>)
    requires
        old(registry)@.wf(),
        make_logger.requires(()),
    ensures
        old(registry)@.connected ==> r == Ok::<(), ConnectError>(()) && final(registry)@ == old(registry)@,
        !old(registry)@.connected ==> exists|logger: Autput|
            make_logger.ensures((), logger) && (final(registry)@, r) == after_connect_once(
                old(registry)@,
                logger,
            ),
        final(registry)@.wf(),
{
    if registry.connected {
        return Ok(());
    }
    let logger = make_logger();
    let r = connect_with(registry, logger);
    if r.is_ok() {
        registry.connected = true;
    }
    assert((registry@, r) == after_connect_once(old(registry)@, logger));
    r
}

/// `connect_once_with` the default logger.
pub fn connect_once(registry: &mut Registry) -> (r: Result<(), ConnectError>)
    requires
        old(registry)@.wf(),
    ensures
        (final(registry)@, r) == after_connect_once(old(registry)@, default_logger()),
        final(registry)@.wf(),
{
    let make_default = || -> (l: Autput)
        ensures
            l == default_logger(),
        { Autput::default() };
    connect_once_with(registry, make_default)
}

/// State after `n` once-only connections, each with `logger`.
pub open spec fn connect_once_repeated(s: BridgeState, logger: Autput, n: nat) -> BridgeState
    decreases n,
{
    if n == 0 {
        s
    } else {
        after_connect_once(connect_once_repeated(s, logger, (n - 1) as nat), logger).0
    }
}

/// How many of `n` once-only connections call their factory: those made
/// before the registry was connected.
pub open spec fn factory_calls(s: BridgeState, logger: Autput, n: nat) -> nat
    decreases n,
{
    if n == 0 {
        0
    } else {
        factory_calls(s, logger, (n - 1) as nat) + if connect_once_repeated(
            s,
            logger,
            (n - 1) as nat,
        ).connected {
            0nat
        } else {
            1nat
        }
    }
}

/// Any number (at least one) of once-only connections on a registry without a
/// logger registers exactly one logger, calls the factory exactly once, and
/// none of them fails.
pub proof fn lemma_connect_once_idempotent(s: BridgeState, logger: Autput, n: nat)
    requires
        s.wf(),
        s.logger is None,
        n >= 1,
    ensures
        connect_once_repeated(s, logger, n) == (BridgeState {
            logger: Some(logger),
            panic_hook: true,
            connected: true,
            ..s
        }),
        factory_calls(s, logger, n) == 1,
        forall|i: nat|
            i < n ==> (#[trigger] after_connect_once(connect_once_repeated(s, logger, i), logger)).1
                is Ok,
    decreases n,
{
    if n > 1 {
        lemma_connect_once_idempotent(s, logger, (n - 1) as nat);
        assert forall|i: nat| i < n implies (#[trigger] after_connect_once(
            connect_once_repeated(s, logger, i),
            logger,
        )).1 is Ok by {
            if i == n - 1 {
            }
        }
    } else {
        assert(connect_once_repeated(s, logger, 0) == s);
        assert(factory_calls(s, logger, 0) == 0);
        assert forall|i: nat| i < n implies (#[trigger] after_connect_once(
            connect_once_repeated(s, logger, i),
            logger,
        )).1 is Ok by {
            assert(i == 0);
        }
    }
}

/// A second direct connection is refused, whatever happened before.
pub proof fn lemma_double_connect_fails(s: BridgeState, first: Autput, second: Autput)
    ensures
        after_connect_with(after_connect_with(s, first).0, second).1 == Err::<(), ConnectError>(
            ConnectError::DoubleRegistration,
        ),
{
}

/// Failures are forwarded once a direct connection was attempted, whether or
/// not it registered its logger; a registry at process start forwards none.
pub proof fn lemma_panic_forwarding(s: BridgeState, logger: Autput, ceiling: LevelFilter)
    ensures
        after_connect_with(s, logger).0.panic_hook,
        !BridgeState::fresh(ceiling).panic_hook,
{
}

/// With a ceiling of `Info`, no `Debug` or `Trace` record reaches the host,
/// whatever filter the registered logger has.
pub proof fn lemma_ceiling_blocks_verbose(s: BridgeState, level: Level)
    requires
        s.ceiling == LevelFilter::Info,
        level == Level::Debug || level == Level::Trace,
    ensures
        !s.routes(level),
{
}

/// Relies on `log::STATIC_MAX_LEVEL`, the maximum level compiled into the
/// `log` macros; nothing is assumed of its value.
#[verifier::external_body]
fn build_ceiling() -> (r: LevelFilter) {
    match log::STATIC_MAX_LEVEL {
        log::LevelFilter::Off => LevelFilter::Off,
        log::LevelFilter::Error => LevelFilter::Error,
        log::LevelFilter::Warn => LevelFilter::Warn,
        log::LevelFilter::Info => LevelFilter::Info,
        log::LevelFilter::Debug => LevelFilter::Debug,
        log::LevelFilter::Trace => LevelFilter::Trace,
    }
}

/// Relies on `log::set_max_level`, which stores the global maximum level that
/// the `log` macros check.
#[verifier::external_body]
fn publish_max_level(filter: LevelFilter) {
    log::set_max_level(
        match filter {
            LevelFilter::Off => log::LevelFilter::Off,
            LevelFilter::Error => log::LevelFilter::Error,
            LevelFilter::Warn => log::LevelFilter::Warn,
            LevelFilter::Info => log::LevelFilter::Info,
            LevelFilter::Debug => log::LevelFilter::Debug,
            LevelFilter::Trace => log::LevelFilter::Trace,
        },
    )
}

} // verus!
