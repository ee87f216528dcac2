use crate::config::{
    config_accepted, max_log_level, translate_config, translated, BoundaryConfig, DaemonConfig,
    LEVEL_TRACE,
};
use crate::error::StartError;
use vstd::prelude::*;

verus! {

/// The caller's view of a running daemon: the port it listens on and the
/// access token it was configured with.
pub struct Daemon {
    port: u16,
    access_token: Option<String>,
}

impl Daemon {
    pub closed spec fn spec_port(&self) -> u16 {
        self.port
    }

    pub closed spec fn spec_access_token(&self) -> Option<String> {
        self.access_token
    }

    /// Decides how a start ends, from the foreign runtime's initialisation
    /// reply: a reported error is passed on verbatim, and otherwise the
    /// caller receives a handle on the assigned port with its own token.
    pub fn from_init_reply(port: u16, error: Option<String>, access_token: Option<String>) -> (r:
        Result<Daemon, StartError>)
        ensures
            error matches Some(m) ==> r == Err::<Daemon, StartError>(StartError::Lassie(m)),
            error is None ==> (r matches Ok(d) && d.spec_port() == port && d.spec_access_token()
                == access_token),
    {
        match error {
            Some(m) => Err(StartError::Lassie(m)),
            None => Ok(Daemon { port, access_token }),
        }
    }

    /// The port the daemon listens on.
    pub fn port(&self) -> (r: u16)
        ensures
            r == self.spec_port(),
    {
        self.port
    }

    /// The access token requests must present, if one was configured.
    pub fn access_token(&self) -> (r: &Option<String>)
        ensures
            *r == self.spec_access_token(),
    {
        &self.access_token
    }
}

/// The process-wide slot that records the one running daemon. `H` is what
/// the driver needs to finish a daemon off (the handle of its background
/// thread); the slot is occupied exactly while such a handle is held.
pub struct DaemonSlot<H> {
    instance: Option<H>,
}

/// How a start request is decided: refused while a daemon runs, and
/// otherwise decided by the configuration.
pub open spec fn start_decided(
    occupied: bool,
    config: DaemonConfig,
    max_level: usize,
    user_agent: Seq<char>,
    r: Result<BoundaryConfig, StartError>,
) -> bool {
    if occupied {
        r == Err::<BoundaryConfig, StartError>(StartError::OnlyOneInstanceAllowed)
    } else {
        translated(config, max_level, user_agent, r)
    }
}

impl<H> DaemonSlot<H> {
    pub closed spec fn instance(&self) -> Option<H> {
        self.instance
    }

    pub open spec fn is_occupied(&self) -> bool {
        self.instance() is Some
    }

    /// The slot once `handle` has been recorded in it.
    pub closed spec fn registered(self, handle: H) -> DaemonSlot<H> {
        DaemonSlot { instance: Some(handle) }
    }

    /// The slot once its daemon has been stopped and joined.
    pub closed spec fn cleared(self) -> DaemonSlot<H> {
        DaemonSlot { instance: None }
    }

    /// An empty slot: no daemon runs.
    pub fn new() -> (r: DaemonSlot<H>)
        ensures
            r.instance() is None,
    {
        DaemonSlot { instance: None }
    }

    pub fn is_running(&self) -> (r: bool)
        ensures
            r == self.is_occupied(),
    {
        self.instance.is_some()
    }

    /// Decides a start request: with a daemon running it is refused before
    /// anything crosses the boundary; otherwise the configuration is
    /// translated into the record for the foreign initialisation call.
    pub fn decide_start(&self, config: &DaemonConfig, max_level: usize, user_agent: &str) -> (r:
        Result<BoundaryConfig, StartError>)
        ensures
            start_decided(self.is_occupied(), *config, max_level, user_agent@, r),
    {
        if self.instance.is_some() {
            return Err(StartError::OnlyOneInstanceAllowed);
        }
        translate_config(config, max_level, user_agent)
    }

    /// `decide_start` at the host's current maximum log level.
    pub fn prepare_start(&self, config: &DaemonConfig, user_agent: &str) -> (r: Result<
        BoundaryConfig,
        StartError,
    >)
        ensures
            exists|l: usize|
                l <= LEVEL_TRACE && start_decided(self.is_occupied(), *config, l, user_agent@, r),
    {
        let level = max_log_level();
        self.decide_start(config, level, user_agent)
    }

    /// Records the daemon that has just been started.
    pub fn register(&mut self, handle: H)
        requires
            !old(self).is_occupied(),
        ensures
            *final(self) == old(self).registered(handle),
            final(self).instance() == Some(handle),
    {
        self.instance = Some(handle);
    }

    /// Decides how a stop ends, from the foreign runtime's reply to the stop
    /// request. An error leaves the foreign side in a state that cannot be
    /// trusted: the message is returned and the slot is left as it was.
    /// Otherwise the slot is emptied and the recorded handle is returned so
    /// that its thread can be joined.
    pub fn finish_stop(&mut self, stop_error: Option<String>) -> (r: Result<H, String>)
        requires
            old(self).is_occupied(),
        ensures
            stop_error matches Some(m) ==> r == Err::<H, String>(m) && *final(self) == *old(self),
            stop_error is None ==> r == Ok::<H, String>(old(self).instance()->0) && *final(self)
                == old(self).cleared(),
            stop_error is None ==> final(self).instance() is None,
    {
        match stop_error {
            Some(m) => Err(m),
            None => Ok(self.instance.take().unwrap()),
        }
    }
}

/// A temporary directory with a NUL byte in it is refused, whether or not a
/// daemon runs: the start fails before any boundary call, and since deciding
/// a start does not change the slot, an empty slot stays empty.
pub proof fn lemma_nul_in_path_refused(
    occupied: bool,
    config: DaemonConfig,
    max_level: usize,
    user_agent: Seq<char>,
    r: Result<BoundaryConfig, StartError>,
)
    requires
        config.temp_dir matches Some(p) && p@.contains(0u8),
        start_decided(occupied, config, max_level, user_agent, r),
    ensures
        r is Err,
{
}

/// While a daemon is recorded, every further start is refused with
/// `OnlyOneInstanceAllowed`, so no second initialisation record is produced.
pub proof fn lemma_second_start_refused<H>(
    slot: DaemonSlot<H>,
    handle: H,
    config: DaemonConfig,
    max_level: usize,
    user_agent: Seq<char>,
    r: Result<BoundaryConfig, StartError>,
)
    requires
        start_decided(slot.registered(handle).is_occupied(), config, max_level, user_agent, r),
    ensures
        r == Err::<BoundaryConfig, StartError>(StartError::OnlyOneInstanceAllowed),
{
}

/// Start, stop, start: once a recorded daemon has been stopped the slot is
/// empty again, and the next start is decided by its configuration alone,
/// succeeding whenever that configuration is accepted.
pub proof fn lemma_start_after_stop<H>(
    slot: DaemonSlot<H>,
    handle: H,
    config: DaemonConfig,
    max_level: usize,
    user_agent: Seq<char>,
    r: Result<BoundaryConfig, StartError>,
)
    requires
        start_decided(
            slot.registered(handle).cleared().is_occupied(),
            config,
            max_level,
            user_agent,
            r,
        ),
    ensures
        !slot.registered(handle).cleared().is_occupied(),
        translated(config, max_level, user_agent, r),
        config_accepted(config, user_agent) ==> r is Ok,
{
}

} // verus!
