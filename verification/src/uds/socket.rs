//! Sockets, and the packets that they send and receive.
use crate::error::{ErrorKind, IoCause, IoError};
use crate::uds::addr::{
    components, fake_ip, join, joined, parent, parent_len, AddrMap, AddrMapSpec, Counter,
};
use crate::util::decimal::{decimal, is_digit, lemma_decimal_injective, lemma_digits, push_decimal};
use vstd::prelude::*;
use vstd::slice::slice_subrange;

verus! {

/// Desired socket buffer size (2MB). The kernel may cap this lower.
pub const SOCKET_BUF_SIZE: usize = 2 * 1024 * 1024;

/// The directory for the socket of a client, if the path of the server has none: `/tmp`.
pub open spec fn default_client_dir() -> Seq<u8> {
    seq![47, 116, 109, 112]
}

/// The name of the socket file of a client.
pub open spec fn client_file_name_spec(pid: nat, client_id: nat) -> Seq<char> {
    ".irpc-uds-client-"@ + decimal(pid) + seq!['-'] + decimal(client_id)
}

/// The name of the socket file of the client with this id in the process with this id.
pub fn client_file_name(pid: u32, client_id: u16) -> (r: String)
    ensures
        r@ == client_file_name_spec(pid as nat, client_id as nat),
{
    let mut name = ".irpc-uds-client-".to_owned();
    push_decimal(&mut name, pid as u64);
    name.push('-');
    push_decimal(&mut name, client_id as u64);
    assert(name@ =~= client_file_name_spec(pid as nat, client_id as nat));
    name
}

/// The path of the socket of a client: this file, in the directory of the server.
pub open spec fn client_path_spec(server_path: Seq<u8>, file_name: Seq<u8>) -> Seq<u8> {
    joined(
        match parent(server_path) {
            Some(dir) => dir,
            None => default_client_dir(),
        },
        file_name,
    )
}

/// The path of the socket of a client that will communicate with the server at `server_path`.
pub fn client_path(server_path: &[u8], file_name: &[u8]) -> (r: Vec<u8>)
    ensures
        r@ == client_path_spec(server_path@, file_name@),
{
    match parent_len(server_path) {
        Some(n) => join(slice_subrange(server_path, 0, n), file_name),
        None => {
            let dir: [u8; 4] = [47, 116, 109, 112];
            assert(dir@ =~= default_client_dir());
            join(dir.as_slice(), file_name)
        },
    }
}

/// Different clients have different socket files, in one process and across processes.
pub proof fn law_client_files_differ(pid: nat, client_id: nat, other_pid: nat, other_id: nat)
    requires
        client_file_name_spec(pid, client_id) == client_file_name_spec(other_pid, other_id),
    ensures
        pid == other_pid,
        client_id == other_id,
{
    let prefix = ".irpc-uds-client-"@;
    let a = decimal(pid) + seq!['-'] + decimal(client_id);
    let b = decimal(other_pid) + seq!['-'] + decimal(other_id);
    let name = client_file_name_spec(pid, client_id);
    assert(name =~= prefix + a);
    assert(name =~= prefix + b) by {
        assert(client_file_name_spec(other_pid, other_id) =~= prefix + b);
    }
    assert(a =~= b) by {
        assert(name.skip(prefix.len() as int) =~= a);
        assert(name.skip(prefix.len() as int) =~= b);
    }
    lemma_digits(pid);
    lemma_digits(other_pid);
    let n = decimal(pid).len() as int;
    let m = decimal(other_pid).len() as int;
    assert(a[n] == '-');
    assert(b[m] == '-');
    if n < m {
        assert(b[n] == decimal(other_pid)[n]);
        assert(is_digit(decimal(other_pid)[n]));
    }
    if m < n {
        assert(a[m] == decimal(pid)[m]);
        assert(is_digit(decimal(pid)[m]));
    }
    assert(decimal(pid) =~= decimal(other_pid)) by {
        assert(a.take(n) =~= decimal(pid));
        assert(b.take(m) =~= decimal(other_pid));
    }
    assert(decimal(client_id) =~= decimal(other_id)) by {
        assert(a.skip(n + 1) =~= decimal(client_id));
        assert(b.skip(m + 1) =~= decimal(other_id));
    }
    lemma_decimal_injective(pid, other_pid);
    lemma_decimal_injective(client_id, other_id);
}

/// The fake addresses of a socket.
pub struct SocketAddrs {
    /// The fake port of the socket itself.
    pub local: u16,
    pub map: AddrMap,
}

/// The fake addresses of a server socket that is bound to `path`.
pub fn bind(path: &[u8], ports: &mut Counter) -> (r: SocketAddrs)
    ensures
        r.local == old(ports).next,
        r.map@ == AddrMapSpec::empty().with(path@, r.local),
        final(ports).next == Counter::after(r.local),
{
    let local: u16 = ports.take();
    let mut map = AddrMap::new();
    map.insert(path, local);
    SocketAddrs { local, map }
}

/// The fake addresses of a client socket that is bound to `client_path`, and the fake port of the
/// server that it will communicate with.
pub fn connect(client_path: &[u8], server_path: &[u8], ports: &mut Counter) -> (r: (
    SocketAddrs,
    u16,
))
    ensures
        r.0.local == old(ports).next,
        r.1 == Counter::after(r.0.local),
        r.0.map@ == AddrMapSpec::empty().with(client_path@, r.0.local).with(server_path@, r.1),
        final(ports).next == Counter::after(r.1),
{
    let local: u16 = ports.take();
    let server: u16 = ports.take();
    let mut map = AddrMap::new();
    map.insert(client_path, local);
    map.insert(server_path, server);
    (SocketAddrs { local, map }, server)
}

/// The addresses of a new client are bidirectional, and those of a new server.
pub proof fn law_new_sockets_are_bidirectional(
    client_path: Seq<u8>,
    server_path: Seq<u8>,
    local: u16,
)
    requires
        components(client_path) != components(server_path),
    ensures
        AddrMapSpec::empty().with(server_path, local).is_bidirectional(),
        AddrMapSpec::empty().with(client_path, local).with(
            server_path,
            Counter::after(local),
        ).is_bidirectional(),
{
    crate::uds::addr::law_mapping_stays_bidirectional(AddrMapSpec::empty(), server_path, local);
    crate::uds::addr::law_mapping_stays_bidirectional(AddrMapSpec::empty(), client_path, local);
    crate::uds::addr::law_mapping_stays_bidirectional(
        AddrMapSpec::empty().with(client_path, local),
        server_path,
        Counter::after(local),
    );
}

/// What the transport is told of a received packet.
#[derive(Debug, Clone, Copy, PartialEq, Eq)]
pub struct RecvMeta {
    /// The fake port of the sender.
    pub port: u16,
    pub len: usize,
    /// One packet at a time: the stride is the length.
    pub stride: usize,
    pub dst_ip: [u8; 4],
}

/// What polling a socket comes to.
#[derive(Debug)]
pub enum PollStep<T> {
    /// The socket was not ready after all: wait for it again.
    Again,
    /// This is the result.
    Return(Result<T, IoError>),
}

/// A packet that was received, with the path of the sender if it has one.
#[derive(Debug)]
pub struct Received {
    pub len: usize,
    pub path: Option<Vec<u8>>,
}

impl SocketAddrs {
    /// Takes what trying to receive a packet gave. A sender with a path keeps its fake port, and one
    /// without a path gets a new one each time.
    pub fn poll_recv(&mut self, res: Result<Received, IoError>, ports: &mut Counter) -> (step:
        PollStep<RecvMeta>)
        ensures
            final(self).local == old(self).local,
            match res {
                Err(e) => {
                    &&& final(self).map@ == old(self).map@
                    &&& *final(ports) == *old(ports)
                    &&& step == if e.kind == ErrorKind::WouldBlock {
                        PollStep::<RecvMeta>::Again
                    } else {
                        PollStep::Return(Err(e))
                    }
                },
                Ok(received) => {
                    &&& step matches PollStep::Return(Ok(meta))
                    &&& meta.len == received.len
                    &&& meta.stride == received.len
                    &&& meta.dst_ip@ == seq![127u8, 0, 0, 1]
                    &&& match received.path {
                        Some(path) => if old(self).map@.ports.contains_key(components(path@)) {
                            &&& meta.port == old(self).map@.ports[components(path@)]
                            &&& final(self).map@ == old(self).map@
                            &&& *final(ports) == *old(ports)
                        } else {
                            &&& meta.port == old(ports).next
                            &&& final(self).map@ == old(self).map@.with(path@, meta.port)
                            &&& final(ports).next == Counter::after(meta.port)
                        },
                        None => {
                            &&& meta.port == old(ports).next
                            &&& final(self).map@ == old(self).map@
                            &&& final(ports).next == Counter::after(meta.port)
                        },
                    }
                },
            },
    {
        match res {
            Err(e) => if e.kind == ErrorKind::WouldBlock {
                PollStep::Again
            } else {
                PollStep::Return(Err(e))
            },
            Ok(received) => {
                let port: u16 = match &received.path {
                    Some(path) => self.map.get_or_insert_addr(path.as_slice(), ports),
                    None => ports.take(),
                };
                PollStep::Return(
                    Ok(
                        RecvMeta {
                            port,
                            len: received.len,
                            stride: received.len,
                            dst_ip: fake_ip(),
                        },
                    ),
                )
            },
        }
    }

    /// The path that a packet for this fake port goes to.
    pub fn destination(&self, port: u16) -> (r: Result<Vec<u8>, IoError>)
        ensures
            if self.map@.paths.contains_key(port) {
                r matches Ok(path) && path@ == self.map@.paths[port]
            } else {
                r == Err::<Vec<u8>, _>(
                    IoError {
                        kind: ErrorKind::AddrNotAvailable,
                        cause: IoCause::NoPathForAddr { port },
                    },
                )
            },
    {
        match self.map.get_path(port) {
            Some(path) => Ok(path),
            None => Err(
                IoError {
                    kind: ErrorKind::AddrNotAvailable,
                    cause: IoCause::NoPathForAddr { port },
                },
            ),
        }
    }
}

/// Takes what trying to send a packet gave.
pub fn poll_send(res: Result<usize, IoError>) -> (step: PollStep<()>)
    ensures
        step == match res {
            Ok(_) => PollStep::Return(Ok(())),
            Err(e) => if e.kind == ErrorKind::WouldBlock {
                PollStep::<()>::Again
            } else {
                PollStep::Return(Err(e))
            },
        },
{
    match res {
        Ok(_) => PollStep::Return(Ok(())),
        Err(e) => if e.kind == ErrorKind::WouldBlock {
            PollStep::Again
        } else {
            PollStep::Return(Err(e))
        },
    }
}

/// A packet from a path can be answered: what is sent to the fake port of its sender goes to that
/// path.
pub proof fn law_packets_can_be_answered(map: AddrMapSpec, path: Seq<u8>, next: u16)
    requires
        map.is_bidirectional(),
        !map.paths.contains_key(next),
    ensures
        ({
            let (after, port) = if map.ports.contains_key(components(path)) {
                (map, map.ports[components(path)])
            } else {
                (map.with(path, next), next)
            };
            after.is_bidirectional() && after.paths.contains_key(port) && components(
                after.paths[port],
            ) == components(path)
        }),
{
    if !map.ports.contains_key(components(path)) {
        crate::uds::addr::law_mapping_stays_bidirectional(map, path, next);
    }
}

/// The socket of a client stands beside that of the server, and in `/tmp` if the path of the server has
/// no names.
pub proof fn law_client_path(server_path: Seq<u8>, file_name: Seq<u8>)
    requires
        file_name.len() > 0,
        file_name != seq![46u8],
        forall|k: int| 0 <= k < file_name.len() ==> file_name[k] != 47,
    ensures
        components(server_path).names.len() > 0 ==> {
            let path = components(client_path_spec(server_path, file_name));
            &&& path.root == components(server_path).root
            &&& path.names == components(server_path).names.drop_last().push(file_name)
        },
        components(server_path).names.len() == 0 ==> client_path_spec(server_path, file_name)
            == seq![47u8, 116, 109, 112, 47] + file_name,
{
    crate::uds::addr::law_parent(server_path);
    if components(server_path).names.len() > 0 {
        crate::uds::addr::law_parent_has_the_names_before_the_last(server_path, file_name);
    } else {
        assert(client_path_spec(server_path, file_name) =~= seq![47u8, 116, 109, 112, 47]
            + file_name);
    }
}

/// The file of a client is hidden, and names the process and the client in it.
pub proof fn law_client_file_names(pid: nat, client_id: nat)
    ensures
        exists|start: Seq<char>|
            client_file_name_spec(pid, client_id) == #[trigger] (start + decimal(pid) + seq!['-']
                + decimal(client_id)) && start.len() > 0 && start[0] == '.',
{
    reveal_strlit(".irpc-uds-client-");
    let start = ".irpc-uds-client-"@;
    assert(start[0] == '.');
    assert(client_file_name_spec(pid, client_id) == start + decimal(pid) + seq!['-'] + decimal(
        client_id,
    ));
}

/// Sending is tried again exactly if it would have blocked. Every other failure is reported as it is.
pub proof fn law_send_is_tried_again(res: Result<usize, IoError>, step: PollStep<()>)
    requires
        call_ensures(poll_send, (res,), step),
    ensures
        step is Again <==> (res matches Err(e) && e.kind == ErrorKind::WouldBlock),
        step matches PollStep::Return(r) ==> (r is Ok <==> res is Ok),
        step matches PollStep::Return(Err(e)) ==> res == Err::<usize, _>(e),
{
}

} // verus!
