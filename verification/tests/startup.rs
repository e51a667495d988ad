use tor_balancer::backend::backend_specs;
use tor_balancer::config::{TorConfig, TorDataDirsConfig};
use tor_balancer::error::TorSpawnError;
use tor_balancer::supervisor::{spawn_error, SpawnOutcome, Supervisor};

fn supervisor(port_count: u16) -> Supervisor {
    Supervisor::new(backend_specs(&TorConfig {
        path: "tor".to_string(),
        torrc: "torrc".to_string(),
        data_dirs: TorDataDirsConfig {
            path: "data".to_string(),
            clear: false,
            full_path: "/srv/data/".to_string(),
        },
        start_port: 9000,
        port_count,
        full_path: "/srv/bin/tor".to_string(),
        torrc_full_path: "/srv/torrc".to_string(),
    }))
}

#[test]
fn spawn_error_tells_a_missing_executable_apart() {
    assert_eq!(spawn_error("/bin/tor", &SpawnOutcome::Started), None);
    assert_eq!(
        spawn_error("/bin/tor", &SpawnOutcome::NotFound),
        Some(TorSpawnError::NotFound { path: "/bin/tor".to_string() })
    );
    assert_eq!(
        spawn_error("/bin/tor", &SpawnOutcome::Failed { error: "denied".to_string() }),
        Some(TorSpawnError::Other { path: "/bin/tor".to_string(), error: "denied".to_string() })
    );
}

#[test]
fn supervisor_is_ready_when_all_backends_run() {
    let mut s = supervisor(3);
    for port in 9000u16..9003 {
        assert!(!s.is_ready());
        assert_eq!(s.pending().unwrap().port, port);
        s.record(&SpawnOutcome::Started);
    }
    assert!(s.is_ready());
    assert!(s.pending().is_none());
    assert_eq!(s.failure(), None);
}

#[test]
fn supervisor_stops_at_a_missing_executable() {
    let mut s = supervisor(3);
    s.record(&SpawnOutcome::Started);
    s.record(&SpawnOutcome::NotFound);
    assert_eq!(s.failure(), Some(TorSpawnError::NotFound { path: "/srv/bin/tor".to_string() }));
    assert!(!s.is_ready());
    assert!(s.pending().is_none());
    s.record(&SpawnOutcome::Started);
    s.record(&SpawnOutcome::Started);
    assert_eq!(s.failure(), Some(TorSpawnError::NotFound { path: "/srv/bin/tor".to_string() }));
    assert!(!s.is_ready());
}

#[test]
fn supervisor_keeps_the_first_failure() {
    let mut s = supervisor(2);
    s.record(&SpawnOutcome::Failed { error: "permission denied".to_string() });
    s.record(&SpawnOutcome::NotFound);
    assert_eq!(
        s.failure(),
        Some(TorSpawnError::Other {
            path: "/srv/bin/tor".to_string(),
            error: "permission denied".to_string()
        })
    );
    assert!(!s.is_ready());
}

#[test]
fn supervisor_without_backends_is_ready_at_once() {
    let mut s = supervisor(0);
    assert!(s.is_ready());
    assert!(s.pending().is_none());
    s.record(&SpawnOutcome::NotFound);
    assert!(s.is_ready());
    assert_eq!(s.failure(), None);
}
