//! The socket listener's verified core: its per-second read counter and the
//! round-robin selection of a parser worker for each line. The socket itself
//! — bind, permissions, accept, line reading — is I/O and lives in the
//! surrounding binary, which calls `record_read` for every line it hands to
//! a worker.

use vstd::prelude::*;

use vstd::wrapping::i64_specs;

verus! {

/// The listener's state: the socket path it serves and its per-second read
/// counters.
pub struct Listener {
    socket_path: String,
    read_this_sec: i64,
    latest_read_per_sec: i64,
}

impl Listener {
    /// The path of the ingress socket.
    pub closed spec fn spec_socket_path(&self) -> Seq<char> {
        self.socket_path@
    }

    /// Lines read since the last metrics tick.
    pub closed spec fn spec_read_this_sec(&self) -> i64 {
        self.read_this_sec
    }

    /// The snapshot taken by the last metrics tick of lines read that second.
    pub closed spec fn spec_latest_read_per_sec(&self) -> i64 {
        self.latest_read_per_sec
    }

    /// Creates a listener for the given socket path, with zeroed counters.
    pub fn new(socket_path: &str) -> (l: Listener)
        ensures
            l.spec_socket_path() == socket_path@,
            l.spec_read_this_sec() == 0,
            l.spec_latest_read_per_sec() == 0,
    {
        Listener { socket_path: socket_path.to_owned(), read_this_sec: 0, latest_read_per_sec: 0 }
    }

    /// The socket path this listener was created for.
    pub fn get_socket_path(&self) -> (r: &str)
        ensures
            r@ == self.spec_socket_path(),
    {
        self.socket_path.as_str()
    }

    /// Counts one successfully enqueued line (wrapping).
    pub fn record_read(&mut self)
        ensures
            final(self).spec_read_this_sec() == i64_specs::wrapping_add(
                old(self).spec_read_this_sec(),
                1,
            ),
            final(self).spec_latest_read_per_sec() == old(self).spec_latest_read_per_sec(),
            final(self).spec_socket_path() == old(self).spec_socket_path(),
    {
        self.read_this_sec = self.read_this_sec.wrapping_add(1);
    }

    /// Lines read during the last completed second.
    pub fn get_event_read_per_second(&self) -> (r: i64)
        ensures
            r == self.spec_latest_read_per_sec(),
    {
        self.latest_read_per_sec
    }

    /// The per-second tick: snapshots the read counter and resets it.
    pub fn update_metrics(&mut self)
        ensures
            final(self).spec_latest_read_per_sec() == old(self).spec_read_this_sec(),
            final(self).spec_read_this_sec() == 0,
            final(self).spec_socket_path() == old(self).spec_socket_path(),
    {
        let count = self.read_this_sec;
        self.read_this_sec = 0;
        self.latest_read_per_sec = count;
    }
}

/// The round-robin worker for the `counter`-th line among `num_workers`
/// workers.
pub fn select_worker(counter: usize, num_workers: usize) -> (r: usize)
    requires
        num_workers > 0,
    ensures
        r == counter % num_workers,
        r < num_workers,
{
    counter % num_workers
}

} // verus!
