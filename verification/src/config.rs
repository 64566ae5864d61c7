//! The agent's configuration with its documented defaults. Reading
//! environment variables and command-line flags is I/O and happens in the
//! surrounding binary, which overrides these fields afterwards.

use vstd::prelude::*;

verus! {

/// The agent's configuration: ingress socket path, collector address, sensor
/// identity and tuning knobs.
pub struct ClientConfig {
    pub file: String,
    pub server: String,
    pub port: u16,
    pub insecure: bool,
    pub interval: u64,
    pub sensor_id: String,
    pub testing_mode: bool,
    pub max_clients: Option<usize>,
    pub max_message_size: usize,
    pub verbose: usize,
}

impl ClientConfig {
    /// The default configuration: the local Suricata socket, a local
    /// collector on the default port, TLS off, one-second interval, the
    /// `sensor1` identity, worker count left to the machine.
    pub fn new() -> (c: ClientConfig)
        ensures
            c.file@ == "/var/run/suricata.sock"@,
            c.server@ == "localhost"@,
            c.port == 50051,
            c.insecure == true,
            c.interval == 1,
            c.sensor_id@ == "sensor1"@,
            c.testing_mode == false,
            c.max_clients is None,
            c.max_message_size == 100,
            c.verbose == 0,
    {
        ClientConfig {
            file: String::from_str("/var/run/suricata.sock"),
            server: String::from_str("localhost"),
            port: 50051,
            insecure: true,
            interval: 1,
            sensor_id: String::from_str("sensor1"),
            testing_mode: false,
            max_clients: None,
            max_message_size: 100,
            verbose: 0,
        }
    }
}

} // verus!
