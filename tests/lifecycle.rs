use lassie::{Daemon, DaemonConfig, DaemonSlot, StartError};

const USER_AGENT: &str = "lassie/v0.0.0-test";

/// Drives one start through the library's decisions, with `reply` standing
/// for what the foreign initialisation call answered.
fn start(
    slot: &mut DaemonSlot<u32>,
    config: DaemonConfig,
    reply: (u16, Option<String>),
    thread: u32,
) -> Result<Daemon, StartError> {
    slot.prepare_start(&config, USER_AGENT)?;
    let daemon = Daemon::from_init_reply(reply.0, reply.1, config.access_token.clone())?;
    slot.register(thread);
    Ok(daemon)
}

fn stop(slot: &mut DaemonSlot<u32>, daemon: Daemon) -> u32 {
    assert!(slot.is_running());
    drop(daemon);
    slot.finish_stop(None).expect("stopping should succeed")
}

#[test]
fn can_start_after_stopping() {
    let mut slot = DaemonSlot::new();
    let d = start(&mut slot, DaemonConfig::default(), (4001, None), 1)
        .expect("cannot start the first time");
    assert_eq!(stop(&mut slot, d), 1);
    let _ = start(&mut slot, DaemonConfig::default(), (4002, None), 2)
        .expect("cannot start the second time");
}

#[test]
fn cannot_start_twice() {
    let mut slot = DaemonSlot::new();
    let _first = start(&mut slot, DaemonConfig::default(), (4001, None), 1)
        .expect("cannot start the first instance");
    match start(&mut slot, DaemonConfig::default(), (4002, None), 2) {
        Ok(_) => panic!("starting another instance should have failed"),
        Err(err) => assert_eq!(err, StartError::OnlyOneInstanceAllowed),
    };
    assert!(slot.is_running());
}

#[test]
fn reports_listen_error() {
    let mut slot = DaemonSlot::new();
    // The reply the foreign runtime gives when binding port 1 is refused.
    let reply = "cannot start the HTTP server: listen tcp 127.0.0.1:1: bind: permission denied";
    let result = start(
        &mut slot,
        DaemonConfig {
            port: 1,
            ..DaemonConfig::default()
        },
        (0, Some(reply.to_string())),
        1,
    );
    match result {
        Ok(_) => panic!("starting Lassie on port 1 should have failed"),
        Err(StartError::Lassie(msg)) => {
            assert!(
                msg.contains("cannot start the HTTP server")
                    && msg.contains("listen tcp 127.0.0.1:1")
                    && msg.contains("permission denied"),
                "Expected bind-socket permission error, actual: {msg}",
            );
        }
        Err(err) => panic!("unexpected error while starting Lassie on port 1: {err:?}"),
    };
    assert!(!slot.is_running());
}

#[test]
fn start_returns_access_token() {
    let token = Some("super_secret".to_string());
    let mut slot = DaemonSlot::new();
    let result = start(
        &mut slot,
        DaemonConfig {
            access_token: token.clone(),
            ..DaemonConfig::default()
        },
        (4001, None),
        1,
    )
    .expect("cannot start Lassie daemon");

    assert_eq!(*result.access_token(), token);
}

#[test]
fn start_returns_assigned_port() {
    let d = Daemon::from_init_reply(51234, None, None).expect("no error was reported");
    assert_eq!(d.port(), 51234);
    assert_eq!(*d.access_token(), None);
}

#[test]
fn init_error_is_reported_verbatim() {
    let r = Daemon::from_init_reply(0, Some("boom".to_string()), Some("t".to_string()));
    assert_eq!(r.err(), Some(StartError::Lassie("boom".to_string())));
}

#[test]
fn new_slot_is_empty() {
    let slot: DaemonSlot<u32> = DaemonSlot::new();
    assert!(!slot.is_running());
}

#[test]
fn stop_clears_slot_and_returns_handle() {
    let mut slot = DaemonSlot::new();
    slot.register(7u32);
    assert!(slot.is_running());
    assert_eq!(slot.finish_stop(None), Ok(7));
    assert!(!slot.is_running());
}

#[test]
fn stop_error_is_fatal_and_keeps_slot() {
    let mut slot = DaemonSlot::new();
    slot.register(7u32);
    assert_eq!(
        slot.finish_stop(Some("stuck".to_string())),
        Err("stuck".to_string())
    );
    assert!(slot.is_running());
}

#[test]
fn nul_in_path_refused_and_slot_stays_empty() {
    let mut slot = DaemonSlot::new();
    let config = DaemonConfig {
        temp_dir: Some(b"/tmp/a\0b".to_vec()),
        ..DaemonConfig::default()
    };
    let r = start(&mut slot, config, (4001, None), 1);
    assert_eq!(
        r.err(),
        Some(StartError::PathContainsNullByte("/tmp/a\0b".to_string()))
    );
    assert!(!slot.is_running());
}

#[test]
fn decide_start_refuses_while_running() {
    let mut slot = DaemonSlot::new();
    slot.register(1u32);
    let r = slot.decide_start(&DaemonConfig::default(), 0, USER_AGENT);
    assert_eq!(r.err(), Some(StartError::OnlyOneInstanceAllowed));
}

#[test]
fn prepare_start_follows_host_log_level() {
    log::set_max_level(log::LevelFilter::Debug);
    let slot: DaemonSlot<u32> = DaemonSlot::new();
    let b = slot
        .prepare_start(&DaemonConfig::default(), USER_AGENT)
        .expect("default configuration is accepted");
    assert_eq!(b.log_level, 4);
    log::set_max_level(log::LevelFilter::Off);
    let b = slot
        .prepare_start(&DaemonConfig::default(), USER_AGENT)
        .expect("default configuration is accepted");
    assert_eq!(b.log_level, 0);
}
