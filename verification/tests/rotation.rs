use tor_balancer::backend::{backend_addresses, backend_ports};
use tor_balancer::rotation::Dispatcher;

fn table(ports: &[u16]) -> Vec<String> {
    ports.iter().map(|p| format!("127.0.0.1:{}", p)).collect()
}

#[test]
fn dispatcher_walks_the_table_in_order() {
    let mut d = Dispatcher::new(backend_addresses(&backend_ports(9000, 3)));
    assert_eq!(d.len(), 3);
    let hits: Vec<String> = (0..4).map(|_| d.next()).collect();
    assert_eq!(hits, table(&[9000, 9001, 9002, 9000]));
}

#[test]
fn dispatcher_repeats_whole_cycles_then_a_prefix() {
    for n in 1usize..6 {
        let ports: Vec<u16> = (0..n).map(|i| 8600 + i as u16).collect();
        let addresses = table(&ports);
        let mut d = Dispatcher::new(addresses.clone());
        for k in 0..(4 * n + 3) {
            assert_eq!(d.next(), addresses[k % n], "call {} of {}", k, n);
        }
    }
}

#[test]
fn dispatcher_with_one_backend_always_gives_it() {
    let mut d = Dispatcher::new(table(&[8600]));
    for _ in 0..5 {
        assert_eq!(d.next(), "127.0.0.1:8600");
    }
}

#[test]
fn dispatcher_gives_each_backend_its_share() {
    let addresses = table(&[9000, 9001, 9002]);
    let mut d = Dispatcher::new(addresses.clone());
    let mut counts = vec![0usize; 3];
    for _ in 0..11 {
        let a = d.next();
        let i = addresses.iter().position(|x| *x == a).unwrap();
        counts[i] += 1;
    }
    assert_eq!(counts, vec![4, 4, 3]);
}
