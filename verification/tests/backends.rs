use tor_balancer::backend::{
    backend_address, backend_addresses, backend_ports, backend_specs, data_directory,
    launch_arguments, BackendSpec,
};
use tor_balancer::config::{TorConfig, TorDataDirsConfig};
use tor_balancer::text::port_text;

fn tor_config(start_port: u16, port_count: u16) -> TorConfig {
    TorConfig {
        path: "tor".to_string(),
        torrc: "torrc".to_string(),
        data_dirs: TorDataDirsConfig {
            path: "data".to_string(),
            clear: true,
            full_path: "/srv/data/".to_string(),
        },
        start_port,
        port_count,
        full_path: "/srv/tor".to_string(),
        torrc_full_path: "/srv/torrc".to_string(),
    }
}

#[test]
fn port_text_is_decimal() {
    assert_eq!(port_text(0), "0");
    assert_eq!(port_text(7), "7");
    assert_eq!(port_text(10), "10");
    assert_eq!(port_text(9000), "9000");
    assert_eq!(port_text(65535), "65535");
    for p in [1u16, 9, 99, 100, 101, 1234, 8600, 40000, 65534] {
        assert_eq!(port_text(p), p.to_string());
    }
}

#[test]
fn backend_ports_cover_the_range() {
    assert_eq!(backend_ports(9000, 3), vec![9000, 9001, 9002]);
    assert_eq!(backend_ports(9000, 0), Vec::<u16>::new());
    assert_eq!(backend_ports(65534, 1), vec![65534]);
    assert_eq!(backend_ports(65533, 2), vec![65533, 65534]);
    assert_eq!(backend_ports(0, 2), vec![0, 1]);
}

#[test]
fn backend_addresses_are_local() {
    assert_eq!(backend_address(8600), "127.0.0.1:8600");
    assert_eq!(
        backend_addresses(&vec![9000, 9001, 9002]),
        vec!["127.0.0.1:9000", "127.0.0.1:9001", "127.0.0.1:9002"]
    );
    assert!(backend_addresses(&Vec::new()).is_empty());
}

#[test]
fn data_directory_appends_the_port_without_separator() {
    assert_eq!(data_directory("/srv/data/", 9000), "/srv/data/9000");
    assert_eq!(data_directory("/srv/data", 9001), "/srv/data9001");
    assert_eq!(data_directory("", 5), "5");
}

#[test]
fn data_directories_of_distinct_ports_differ() {
    let ports = backend_ports(9995, 12);
    for a in &ports {
        for b in &ports {
            let same = data_directory("/d/1", *a) == data_directory("/d/1", *b);
            assert_eq!(same, a == b);
        }
    }
}

#[test]
fn launch_arguments_follow_the_fixed_order() {
    assert_eq!(
        launch_arguments("/srv/torrc", "/srv/data/", 9001),
        vec!["-f", "/srv/torrc", "--SocksPort", "9001", "--DataDirectory", "/srv/data/9001"]
    );
}

#[test]
fn backend_specs_derive_one_spec_per_port() {
    let specs = backend_specs(&tor_config(9000, 3));
    assert_eq!(specs.len(), 3);
    for (i, spec) in specs.iter().enumerate() {
        let port = 9000 + i as u16;
        assert_eq!(
            *spec,
            BackendSpec {
                executable: "/srv/tor".to_string(),
                config_path: "/srv/torrc".to_string(),
                port,
                data_dir: format!("/srv/data/{}", port),
            }
        );
        assert_eq!(spec.address(), format!("127.0.0.1:{}", port));
        assert_eq!(spec.arguments(), launch_arguments("/srv/torrc", "/srv/data/", port));
    }
    assert!(backend_specs(&tor_config(9000, 0)).is_empty());
}
