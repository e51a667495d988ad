//! What each backend is started with: its port, its address, its data
//! directory and its command line.

use crate::config::TorConfig;
use crate::text::{decimal, lemma_decimal_injective, port_text};
use vstd::prelude::*;
use vstd::string::StringExecFns;

verus! {

/// The address at which the backend on `port` listens.
pub open spec fn address_text(port: u16) -> Seq<char> {
    "127.0.0.1:"@ + decimal(port as nat)
}

/// The data directory of the backend on `port`: the base path with the port
/// number written behind it, nothing in between.
pub open spec fn data_directory_text(base: Seq<char>, port: u16) -> Seq<char> {
    base + decimal(port as nat)
}

/// The command line of the backend on `port`.
pub open spec fn launch_arguments_text(torrc: Seq<char>, data_dirs: Seq<char>, port: u16) -> Seq<
    Seq<char>,
> {
    seq![
        "-f"@,
        torrc,
        "--SocksPort"@,
        decimal(port as nat),
        "--DataDirectory"@,
        data_directory_text(data_dirs, port),
    ]
}

/// One backend to launch.
#[derive(Debug, Clone, PartialEq, Eq)]
pub struct BackendSpec {
    pub executable: String,
    pub config_path: String,
    pub port: u16,
    pub data_dir: String,
}

impl BackendSpec {
    /// The spec is the one derived for `port` from the configuration `tor`.
    pub open spec fn derived_from(&self, tor: &TorConfig, port: u16) -> bool {
        &&& self.executable@ == tor.full_path@
        &&& self.config_path@ == tor.torrc_full_path@
        &&& self.port == port
        &&& self.data_dir@ == data_directory_text(tor.data_dirs.full_path@, port)
    }

    /// The arguments that the executable is started with.
    pub fn arguments(&self) -> (args: Vec<String>)
        ensures
            args@.len() == 6,
            args@[0]@ == "-f"@,
            args@[1]@ == self.config_path@,
            args@[2]@ == "--SocksPort"@,
            args@[3]@ == decimal(self.port as nat),
            args@[4]@ == "--DataDirectory"@,
            args@[5]@ == self.data_dir@,
    {
        let mut args: Vec<String> = Vec::new();
        args.push(String::from_str("-f"));
        args.push(self.config_path.clone());
        args.push(String::from_str("--SocksPort"));
        args.push(port_text(self.port));
        args.push(String::from_str("--DataDirectory"));
        args.push(self.data_dir.clone());
        args
    }

    /// The address at which the backend will listen.
    pub fn address(&self) -> (r: String)
        ensures
            r@ == address_text(self.port),
    {
        backend_address(self.port)
    }
}

/// The ports `start_port, start_port + 1, ..`, `port_count` of them.
pub fn backend_ports(start_port: u16, port_count: u16) -> (ports: Vec<u16>)
    requires
        start_port + port_count <= u16::MAX,
    ensures
        ports@.len() == port_count,
        forall|i: int| 0 <= i < port_count ==> ports@[i] == start_port + i,
{
    let mut ports: Vec<u16> = Vec::new();
    let mut i: u16 = 0;
    while i < port_count
        invariant
            start_port + port_count <= u16::MAX,
            i <= port_count,
            ports@.len() == i,
            forall|j: int| 0 <= j < i ==> ports@[j] == start_port + j,
        decreases port_count - i,
    {
        ports.push(start_port + i);
        i = i + 1;
    }
    ports
}

/// The local address of the backend on `port`.
pub fn backend_address(port: u16) -> (r: String)
    ensures
        r@ == address_text(port),
{
    let mut r = String::from_str("127.0.0.1:");
    let digits = port_text(port);
    r.append(digits.as_str());
    r
}

/// The backend table: the address of each port, in the order of the ports.
pub fn backend_addresses(ports: &Vec<u16>) -> (table: Vec<String>)
    ensures
        table@.len() == ports@.len(),
        forall|i: int| 0 <= i < ports@.len() ==> table@[i]@ == address_text(ports@[i]),
{
    let mut table: Vec<String> = Vec::new();
    let mut i: usize = 0;
    while i < ports.len()
        invariant
            i <= ports@.len(),
            table@.len() == i,
            forall|j: int| 0 <= j < i ==> table@[j]@ == address_text(ports@[j]),
        decreases ports@.len() - i,
    {
        table.push(backend_address(ports[i]));
        i = i + 1;
    }
    table
}

/// The data directory of the backend on `port` under the base path `base`.
pub fn data_directory(base: &str, port: u16) -> (r: String)
    ensures
        r@ == data_directory_text(base@, port),
{
    let mut r = String::from_str(base);
    let digits = port_text(port);
    r.append(digits.as_str());
    r
}

/// The arguments for the backend on `port`, given the backend's configuration
/// file and the base path of the data directories.
pub fn launch_arguments(torrc: &str, data_dirs: &str, port: u16) -> (args: Vec<String>)
    ensures
        args@.len() == 6,
        forall|i: int|
            0 <= i < 6 ==> args@[i]@ == launch_arguments_text(torrc@, data_dirs@, port)[i],
{
    let mut args: Vec<String> = Vec::new();
    args.push(String::from_str("-f"));
    args.push(String::from_str(torrc));
    args.push(String::from_str("--SocksPort"));
    args.push(port_text(port));
    args.push(String::from_str("--DataDirectory"));
    args.push(data_directory(data_dirs, port));
    args
}

/// One spec per configured port, in the order of the ports.
pub fn backend_specs(tor: &TorConfig) -> (specs: Vec<BackendSpec>)
    requires
        tor.start_port + tor.port_count <= u16::MAX,
    ensures
        specs@.len() == tor.port_count,
        forall|i: int|
            0 <= i < tor.port_count ==> (#[trigger] specs@[i]).derived_from(
                tor,
                (tor.start_port + i) as u16,
            ),
{
    let mut specs: Vec<BackendSpec> = Vec::new();
    let mut i: u16 = 0;
    while i < tor.port_count
        invariant
            tor.start_port + tor.port_count <= u16::MAX,
            i <= tor.port_count,
            specs@.len() == i,
            forall|j: int|
                0 <= j < i ==> (#[trigger] specs@[j]).derived_from(tor, (tor.start_port + j) as u16),
        decreases tor.port_count - i,
    {
        let port: u16 = tor.start_port + i;
        specs.push(
            BackendSpec {
                executable: tor.full_path.clone(),
                config_path: tor.torrc_full_path.clone(),
                port,
                data_dir: data_directory(tor.data_dirs.full_path.as_str(), port),
            },
        );
        i = i + 1;
    }
    specs
}

/// The data directories of two different ports under one base path differ.
pub proof fn lemma_data_directories_distinct(base: Seq<char>, first: u16, second: u16)
    requires
        first != second,
    ensures
        data_directory_text(base, first) != data_directory_text(base, second),
{
    let left = data_directory_text(base, first);
    let right = data_directory_text(base, second);
    if left == right {
        assert(left.subrange(base.len() as int, left.len() as int) =~= decimal(first as nat));
        assert(right.subrange(base.len() as int, right.len() as int) =~= decimal(second as nat));
        lemma_decimal_injective(first as nat, second as nat);
    }
}

/// The addresses of two different ports differ.
pub proof fn lemma_addresses_distinct(first: u16, second: u16)
    requires
        first != second,
    ensures
        address_text(first) != address_text(second),
{
    let left = address_text(first);
    let right = address_text(second);
    let n = "127.0.0.1:"@.len() as int;
    if left == right {
        assert(left.subrange(n, left.len() as int) =~= decimal(first as nat));
        assert(right.subrange(n, right.len() as int) =~= decimal(second as nat));
        lemma_decimal_injective(first as nat, second as nat);
    }
}

} // verus!
