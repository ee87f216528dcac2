use crate::duration::{try_convert_duration_to_go_type, Duration};
use crate::error::StartError;
use crate::text::{has_nul_byte, has_nul_char, NUL_CHAR};
use vstd::prelude::*;
use vstd::utf8::{decode_utf8, valid_utf8};

verus! {

/// Discriminant of `log::LevelFilter::Off`.
pub const LEVEL_OFF: usize = 0;

/// Discriminant of `log::LevelFilter::Debug`.
pub const LEVEL_DEBUG: usize = 4;

/// Discriminant of `log::LevelFilter::Trace`, the most verbose filter.
pub const LEVEL_TRACE: usize = 5;

/// What a caller chooses about the daemon it starts.
#[derive(Debug, Clone, Default)]
pub struct DaemonConfig {
    /// Directory for temporary files (the CAR store), as the raw bytes of
    /// the path. By default the foreign side uses the system's temp directory.
    pub temp_dir: Option<Vec<u8>>,
    /// Port to listen on; 0 asks the operating system for a free port.
    pub port: u16,
    /// The most blocks a single retrieval may fetch; unset means no limit.
    pub max_blocks: Option<u64>,
    /// How long a provider may stay silent before its retrieval fails.
    pub provider_timeout: Option<Duration>,
    /// How long a whole retrieval may take.
    pub global_timeout: Option<Duration>,
    /// Token that requests must present as `Authorization: Bearer {token}`.
    pub access_token: Option<String>,
}

/// The flat record handed to the foreign runtime when it is initialised.
/// Zero and the empty string mean "use the foreign side's default".
#[derive(Debug, Clone)]
pub struct BoundaryConfig {
    pub temp_dir: String,
    pub port: u16,
    pub log_level: usize,
    pub max_blocks: u64,
    pub provider_timeout: i64,
    pub global_timeout: i64,
    pub access_token: String,
    pub user_agent: String,
}

/// Message reported when the client identification cannot cross the boundary.
pub const INVALID_VERSION_MESSAGE: &'static str = "Internal error: invalid Lassie version.";

/// The foreign side logs at debug level when the host does, and not at all otherwise.
pub open spec fn boundary_log_level(max_level: usize) -> usize {
    if max_level >= LEVEL_DEBUG {
        LEVEL_DEBUG
    } else {
        LEVEL_OFF
    }
}

pub open spec fn timeout_fits(t: Option<Duration>) -> bool {
    match t {
        None => true,
        Some(d) => d.total_nanos() <= i64::MAX,
    }
}

/// The boundary value of a timeout that fits: its nanoseconds, or 0 when unset.
pub open spec fn timeout_field(t: Option<Duration>) -> i64 {
    match t {
        None => 0,
        Some(d) => d.total_nanos() as i64,
    }
}

pub open spec fn max_blocks_field(m: Option<u64>) -> u64 {
    match m {
        None => 0,
        Some(k) => k,
    }
}

pub open spec fn path_bytes(p: Option<Vec<u8>>) -> Seq<u8> {
    match p {
        None => Seq::empty(),
        Some(b) => b@,
    }
}

pub open spec fn token_text(t: Option<String>) -> Seq<char> {
    match t {
        None => Seq::empty(),
        Some(s) => s@,
    }
}

/// What `translate_config` returns, given the host's maximum log level
/// and the client identification string. The checks run in this order:
/// path encoding, NUL in the path, global timeout, provider timeout, NUL
/// in the token, NUL in the client identification.
pub open spec fn translated(
    config: DaemonConfig,
    max_level: usize,
    user_agent: Seq<char>,
    r: Result<BoundaryConfig, StartError>,
) -> bool {
    let path = path_bytes(config.temp_dir);
    if !valid_utf8(path) {
        r matches Err(StartError::PathIsNotValidUtf8(q)) && q@ == path
    } else if path.contains(0u8) {
        r matches Err(StartError::PathContainsNullByte(s)) && s@ == decode_utf8(path)
    } else if !timeout_fits(config.global_timeout) {
        r == Err::<BoundaryConfig, StartError>(
            StartError::DurationIsTooLong(config.global_timeout->0),
        )
    } else if !timeout_fits(config.provider_timeout) {
        r == Err::<BoundaryConfig, StartError>(
            StartError::DurationIsTooLong(config.provider_timeout->0),
        )
    } else if token_text(config.access_token).contains(NUL_CHAR) {
        r matches Err(StartError::AccessTokenContainsNullByte(s)) && s@ == token_text(
            config.access_token,
        )
    } else if user_agent.contains(NUL_CHAR) {
        r matches Err(StartError::Lassie(m)) && m@ == INVALID_VERSION_MESSAGE@
    } else {
        r matches Ok(b) && b.temp_dir@ == decode_utf8(path) && b.port == config.port
            && b.log_level == boundary_log_level(max_level) && b.max_blocks
            == max_blocks_field(config.max_blocks) && b.provider_timeout == timeout_field(
            config.provider_timeout,
        ) && b.global_timeout == timeout_field(config.global_timeout) && b.access_token@
            == token_text(config.access_token) && b.user_agent@ == user_agent
    }
}

/// Whether a configuration crosses the boundary: every check of `translated` passes.
pub open spec fn config_accepted(config: DaemonConfig, user_agent: Seq<char>) -> bool {
    let path = path_bytes(config.temp_dir);
    &&& valid_utf8(path)
    &&& !path.contains(0u8)
    &&& timeout_fits(config.global_timeout)
    &&& timeout_fits(config.provider_timeout)
    &&& !token_text(config.access_token).contains(NUL_CHAR)
    &&& !user_agent.contains(NUL_CHAR)
}

/// Relies on String::from_utf8: it succeeds exactly on valid UTF-8, and the
/// string then holds the decoded characters.
#[verifier::external_body]
fn decode_utf8_bytes(b: Vec<u8>) -> (r: Option<String>)
    ensures
        r is Some <==> valid_utf8(b@),
        r matches Some(s) ==> s@ == decode_utf8(b@),
{
    String::from_utf8(b).ok()
}

fn clone_bytes(b: &Vec<u8>) -> (r: Vec<u8>)
    ensures
        r@ == b@,
{
    let r = b.clone();
    assert(r@ =~= b@);
    r
}

/// The temporary directory as text, or the error that rejects it.
fn translate_path(p: &Option<Vec<u8>>) -> (r: Result<String, StartError>)
    ensures
        !valid_utf8(path_bytes(*p)) ==> (r matches Err(StartError::PathIsNotValidUtf8(q)) && q@
            == path_bytes(*p)),
        valid_utf8(path_bytes(*p)) && path_bytes(*p).contains(0u8) ==> (r matches Err(
            StartError::PathContainsNullByte(s),
        ) && s@ == decode_utf8(path_bytes(*p))),
        valid_utf8(path_bytes(*p)) && !path_bytes(*p).contains(0u8) ==> (r matches Ok(s) && s@
            == decode_utf8(path_bytes(*p))),
{
    match p {
        None => {
            let s = String::new();
            assert(decode_utf8(Seq::<u8>::empty()) =~= Seq::<char>::empty());
            Ok(s)
        },
        Some(b) => {
            match decode_utf8_bytes(clone_bytes(b)) {
                None => Err(StartError::PathIsNotValidUtf8(clone_bytes(b))),
                Some(s) => {
                    if has_nul_byte(b) {
                        Err(StartError::PathContainsNullByte(s))
                    } else {
                        Ok(s)
                    }
                },
            }
        },
    }
}

/// The boundary value of a timeout, or the error that rejects it.
fn translate_timeout(t: &Option<Duration>) -> (r: Result<i64, StartError>)
    ensures
        timeout_fits(*t) ==> r == Ok::<i64, StartError>(timeout_field(*t)),
        !timeout_fits(*t) ==> r == Err::<i64, StartError>(StartError::DurationIsTooLong(t->0)),
{
    match t {
        None => Ok(0),
        Some(d) => try_convert_duration_to_go_type(*d),
    }
}

/// Turns a configuration into the record handed to the foreign runtime.
/// `max_level` is the host's maximum log level (a `log::LevelFilter`
/// discriminant); `user_agent` identifies this client to providers.
pub fn translate_config(config: &DaemonConfig, max_level: usize, user_agent: &str) -> (r: Result<
    BoundaryConfig,
    StartError,
>)
    ensures
        translated(*config, max_level, user_agent@, r),
        r is Ok <==> config_accepted(*config, user_agent@),
        r matches Ok(b) ==> b.max_blocks == max_blocks_field(config.max_blocks),
        r matches Ok(b) ==> b.access_token@ == token_text(config.access_token),
{
    let temp_dir = match translate_path(&config.temp_dir) {
        Ok(s) => s,
        Err(e) => {
            return Err(e);
        },
    };
    let global_timeout = match translate_timeout(&config.global_timeout) {
        Ok(n) => n,
        Err(e) => {
            return Err(e);
        },
    };
    let provider_timeout = match translate_timeout(&config.provider_timeout) {
        Ok(n) => n,
        Err(e) => {
            return Err(e);
        },
    };
    let access_token = match &config.access_token {
        None => String::new(),
        Some(t) => t.clone(),
    };
    if has_nul_char(access_token.as_str()) {
        return Err(StartError::AccessTokenContainsNullByte(access_token));
    }
    if has_nul_char(user_agent) {
        return Err(StartError::Lassie(INVALID_VERSION_MESSAGE.to_owned()));
    }
    let log_level = if max_level >= LEVEL_DEBUG {
        LEVEL_DEBUG
    } else {
        LEVEL_OFF
    };
    let max_blocks = match config.max_blocks {
        None => 0,
        Some(k) => k,
    };
    Ok(
        BoundaryConfig {
            temp_dir,
            port: config.port,
            log_level,
            max_blocks,
            provider_timeout,
            global_timeout,
            access_token,
            user_agent: user_agent.to_owned(),
        },
    )
}

/// Relies on log::max_level: the current maximum level filter, read as its
/// `usize` discriminant (`LevelFilter` is `repr(usize)`, Off = 0 up to Trace = 5).
#[verifier::external_body]
pub(crate) fn max_log_level() -> (r: usize)
    ensures
        r <= LEVEL_TRACE,
{
    log::max_level() as usize
}

} // verus!
