//! Plaintext "crypto" for local sockets.
//!
//! There is no encryption: packets are sent in plaintext, with a checksum for integrity. The handshake
//! only exchanges the transport parameters.
use noq_proto::transport_parameters::TransportParameters;
use vstd::bytes::{lemma_auto_spec_u64_to_from_le_bytes, spec_u64_to_le_bytes, u64_to_le_bytes};
use vstd::prelude::*;
use vstd::slice::slice_subrange;

verus! {

/// The side of a connection.
#[derive(Debug, Clone, Copy, PartialEq, Eq, Structural)]
pub enum Side {
    Client,
    Server,
}

/// The key for packet headers, which leaves them as they are.
#[derive(Debug, Clone, Copy, PartialEq, Eq, Structural)]
pub struct PlaintextHeaderKey {
    pub side: Side,
}

impl PlaintextHeaderKey {
    pub fn new(side: Side) -> (r: Self)
        ensures
            r.side == side,
    {
        PlaintextHeaderKey { side }
    }

    /// Leaves the header as it is.
    pub fn decrypt(&self, _pn_offset: usize, packet: &mut Vec<u8>)
        ensures
            final(packet)@ == old(packet)@,
    {
    }

    /// Leaves the header as it is.
    pub fn encrypt(&self, _pn_offset: usize, packet: &mut Vec<u8>)
        ensures
            final(packet)@ == old(packet)@,
    {
    }

    /// No bytes of a packet are sampled.
    pub fn sample_size(&self) -> (r: usize)
        ensures
            r == 0,
    {
        0
    }
}

/// The hash of some bytes by `seahash::hash`.
pub uninterp spec fn seahash_of(bytes: Seq<u8>) -> u64;

/// Whether two sequences of bytes differ at one position and nowhere else.
pub open spec fn differ_at(a: Seq<u8>, b: Seq<u8>, i: int) -> bool {
    &&& a.len() == b.len()
    &&& 0 <= i < a.len()
    &&& a[i] != b[i]
    &&& forall|k: int| 0 <= k < a.len() && k != i ==> a[k] == b[k]
}

/// `seahash::hash`: the hash of the bytes, which is a function of the bytes alone. Bytes that differ
/// at one position and nowhere else have another hash: each word of the input goes into one of four
/// states by bijections, and so do the states into the hash.
pub assume_specification[ seahash::hash ](buf: &[u8]) -> (r: u64)
    ensures
        r == seahash_of(buf@),
        forall|other: Seq<u8>, i: int| #[trigger]
            differ_at(buf@, other, i) ==> seahash_of(other) != r,
;

/// The length of the checksum at the end of a packet.
pub const TAG_LEN: usize = 8;

/// The checksum of a packet, as it stands at its end.
pub open spec fn checksum(packet: Seq<u8>) -> Seq<u8> {
    spec_u64_to_le_bytes(seahash_of(packet))
}

/// A packet without the checksum that stands at its end.
pub open spec fn unsealed(payload: Seq<u8>) -> Seq<u8> {
    payload.take(payload.len() - TAG_LEN)
}

/// Whether the payload of a packet with this header ends with the checksum of the packet.
pub open spec fn is_intact(header: Seq<u8>, payload: Seq<u8>) -> bool {
    &&& payload.len() >= TAG_LEN
    &&& payload.skip(payload.len() - TAG_LEN) == checksum(header + unsealed(payload))
}

/// A packet was altered on its way.
#[derive(Debug, Clone, Copy, PartialEq, Eq, Structural)]
pub struct CryptoError;

/// The key for packets, which are not encrypted. A checksum shows whether they were altered.
#[derive(Debug, Clone, Copy, PartialEq, Eq, Structural)]
pub struct PlaintextPacketKey;

impl PlaintextPacketKey {
    pub fn new(_side: Side) -> (r: Self)
        ensures
            r == PlaintextPacketKey,
    {
        PlaintextPacketKey
    }

    /// Writes the checksum of a packet to its end, where there is room for it. The rest of the
    /// packet stays as it is.
    pub fn encrypt(&self, _packet: u64, buf: &mut Vec<u8>, header_len: usize)
        requires
            header_len + TAG_LEN <= old(buf).len(),
        ensures
            final(buf)@ == unsealed(old(buf)@) + checksum(unsealed(old(buf)@)),
            is_intact(
                old(buf)@.take(header_len as int),
                final(buf)@.skip(header_len as int),
            ),
    {
        let ghost packet = unsealed(buf@);
        let ghost before = buf@;
        let n: usize = buf.len() - TAG_LEN;
        buf.truncate(n);
        assert(buf@ =~= packet);
        let tag = u64_to_le_bytes(seahash::hash(buf.as_slice()));
        buf.extend_from_slice(tag.as_slice());
        proof {
            lemma_auto_spec_u64_to_from_le_bytes();
            assert(buf@ =~= packet + checksum(packet));
            let header = before.take(header_len as int);
            let payload = buf@.skip(header_len as int);
            assert(header + unsealed(payload) =~= packet);
            assert(payload.skip(payload.len() - TAG_LEN) =~= checksum(packet));
        }
    }

    /// Checks the checksum of a packet, and takes it off the payload. A packet that is not intact is
    /// refused. In particular, a packet is refused that differs from an intact one in one byte of its
    /// payload or of its header.
    pub fn decrypt(&self, _packet: u64, header: &[u8], payload: &mut Vec<u8>) -> (r: Result<
        (),
        CryptoError,
    >)
        ensures
            if is_intact(header@, old(payload)@) {
                &&& r == Ok::<(), CryptoError>(())
                &&& final(payload)@ == unsealed(old(payload)@)
            } else {
                &&& r == Err::<(), _>(CryptoError)
                &&& final(payload)@ == old(payload)@
            },
            forall|intact: Seq<u8>, i: int|
                is_intact(header@, intact) && #[trigger] differ_at(intact, old(payload)@, i)
                    ==> r is Err,
            forall|other: Seq<u8>, i: int|
                is_intact(other, old(payload)@) && #[trigger] differ_at(other, header@, i) ==> r is Err,
    {
        let ghost before = payload@;
        if payload.len() < TAG_LEN {
            assert forall|intact: Seq<u8>, i: int|
                is_intact(header@, intact) implies !(#[trigger] differ_at(intact, before, i)) by {}
            assert forall|other: Seq<u8>| !is_intact(other, before) by {}
            return Err(CryptoError);
        }
        let n: usize = payload.len() - TAG_LEN;
        let mut packet: Vec<u8> = Vec::new();
        packet.extend_from_slice(header);
        packet.extend_from_slice(slice_subrange(payload.as_slice(), 0, n));
        assert(packet@ =~= header@ + unsealed(before));
        let hash: u64 = seahash::hash(packet.as_slice());
        let tag = u64_to_le_bytes(hash);
        proof {
            lemma_auto_spec_u64_to_from_le_bytes();
            assert forall|intact: Seq<u8>, i: int|
                is_intact(header@, intact) && #[trigger] differ_at(
                    intact,
                    before,
                    i,
                ) implies !is_intact(header@, before) by {
                let other = header@ + unsealed(intact);
                if i < n {
                    assert(differ_at(packet@, other, header@.len() + i));
                    assert(intact.skip(n as int) =~= before.skip(n as int));
                } else {
                    assert(unsealed(intact) =~= unsealed(before));
                    assert(intact.skip(n as int)[i - n] != before.skip(n as int)[i - n]);
                }
            }
            assert forall|other: Seq<u8>, i: int|
                is_intact(other, before) && #[trigger] differ_at(
                    other,
                    header@,
                    i,
                ) implies !is_intact(header@, before) by {
                assert(differ_at(packet@, other + unsealed(before), i));
            }
        }
        let mut i: usize = 0;
        while i < TAG_LEN
            invariant
                i <= TAG_LEN,
                payload@ == before,
                n + TAG_LEN == payload.len(),
                tag@ == checksum(header@ + unsealed(before)),
                tag.len() == TAG_LEN,
                forall|k: int| 0 <= k < i ==> before[n + k] == tag[k],
                forall|intact: Seq<u8>, i: int|
                    is_intact(header@, intact) && #[trigger] differ_at(intact, before, i)
                        ==> !is_intact(header@, before),
                forall|other: Seq<u8>, i: int|
                    is_intact(other, before) && #[trigger] differ_at(other, header@, i)
                        ==> !is_intact(header@, before),
            decreases TAG_LEN - i,
        {
            if payload[n + i] != tag[i] {
                assert(before.skip(n as int)[i as int] != tag@[i as int]);
                return Err(CryptoError);
            }
            i = i + 1;
        }
        assert(before.skip(n as int) =~= tag@);
        payload.truncate(n);
        assert(payload@ =~= unsealed(before));
        Ok(())
    }

    /// How long the checksum is.
    pub fn tag_len(&self) -> (r: usize)
        ensures
            r == TAG_LEN,
    {
        TAG_LEN
    }

    /// There is nothing to keep confidential.
    pub fn confidentiality_limit(&self) -> (r: u64)
        ensures
            r == u64::MAX,
    {
        u64::MAX
    }

    /// Limit of packets with failed integrity.
    pub fn integrity_limit(&self) -> (r: u64)
        ensures
            r == 0x10_0000_0000,
    {
        0x10_0000_0000
    }
}

/// A packet that was not altered gives its payload back. `packet` is the header and the payload, with
/// room for the checksum after them.
pub proof fn law_packet_round_trip(header: Seq<u8>, payload: Seq<u8>, room: Seq<u8>)
    requires
        room.len() == TAG_LEN,
    ensures
        ({
            let sealed = unsealed(header + payload + room) + checksum(
                unsealed(header + payload + room),
            );
            &&& sealed.take(header.len() as int) == header
            &&& is_intact(header, sealed.skip(header.len() as int))
            &&& unsealed(sealed.skip(header.len() as int)) == payload
        }),
{
    lemma_auto_spec_u64_to_from_le_bytes();
    let packet = header + payload;
    assert(unsealed(header + payload + room) =~= packet);
    let sealed = packet + checksum(packet);
    assert(sealed.take(header.len() as int) =~= header);
    let rest = sealed.skip(header.len() as int);
    assert(rest =~= payload + checksum(packet));
    assert(unsealed(rest) =~= payload);
    assert(rest.skip(rest.len() - TAG_LEN) =~= checksum(packet));
}

/// The configuration of a client.
#[derive(Debug, Clone, Copy, PartialEq, Eq, Structural)]
pub struct PlaintextClientConfig;

impl Default for PlaintextClientConfig {
    fn default() -> (r: Self)
        ensures
            r == PlaintextClientConfig,
    {
        PlaintextClientConfig
    }
}

impl PlaintextClientConfig {
    /// The session of a new connection.
    pub fn start_session<P>(&self, params: P) -> (r: PlaintextSession<P>)
        ensures
            r@ == new_session(Side::Client, params),
    {
        PlaintextSession::new(Side::Client, params)
    }
}

/// The configuration of a server.
#[derive(Debug, Clone, Copy, PartialEq, Eq, Structural)]
pub struct PlaintextServerConfig;

impl Default for PlaintextServerConfig {
    fn default() -> (r: Self)
        ensures
            r == PlaintextServerConfig,
    {
        PlaintextServerConfig
    }
}

impl PlaintextServerConfig {
    /// The session of a new connection.
    pub fn start_session<P>(&self, params: P) -> (r: PlaintextSession<P>)
        ensures
            r@ == new_session(Side::Server, params),
    {
        PlaintextSession::new(Side::Server, params)
    }

    /// The tag of a retry packet.
    pub fn retry_tag(&self) -> (r: [u8; 16])
        ensures
            r@ == Seq::new(16, |i: int| 0u8),
    {
        let tag: [u8; 16] = [0; 16];
        assert(tag@ =~= Seq::new(16, |i: int| 0u8));
        tag
    }
}

/// The session of a connection. Transport parameters are of type `P`.
pub struct PlaintextSession<P> {
    side: Side,
    params: P,
    peer_params: Option<P>,
    wrote_transport_params: bool,
    initial_keys: bool,
    handshake_keys: bool,
}

/// A [`PlaintextSession`] as a model.
pub struct SessionSpec<P> {
    pub side: Side,
    pub params: P,
    /// The parameters of the peer, once they were read.
    pub peer_params: Option<P>,
    /// The parameters of this side were written.
    pub wrote_transport_params: bool,
    /// The initial keys were not taken yet.
    pub initial_keys: bool,
    /// The handshake keys were not taken yet.
    pub handshake_keys: bool,
}

impl<P> View for PlaintextSession<P> {
    type V = SessionSpec<P>;

    closed spec fn view(&self) -> SessionSpec<P> {
        SessionSpec {
            side: self.side,
            params: self.params,
            peer_params: self.peer_params,
            wrote_transport_params: self.wrote_transport_params,
            initial_keys: self.initial_keys,
            handshake_keys: self.handshake_keys,
        }
    }
}

/// A session before the handshake.
pub open spec fn new_session<P>(side: Side, params: P) -> SessionSpec<P> {
    SessionSpec {
        side,
        params,
        peer_params: None,
        wrote_transport_params: false,
        initial_keys: true,
        handshake_keys: true,
    }
}

/// What a write of the handshake gives.
#[derive(Debug, Clone, Copy, PartialEq, Eq, Structural)]
pub struct HandshakeWrite {
    /// Write the transport parameters of this side.
    pub write_params: bool,
    /// Go on to the next keys.
    pub keys: bool,
}

/// Transport parameters that could not be read.
#[derive(Debug, Clone, PartialEq, Eq)]
pub struct TransportParameterError {
    pub message: String,
}

impl<P> SessionSpec<P> {
    /// Whether the handshake is still going on.
    pub open spec fn handshaking(self) -> bool {
        self.peer_params is None || (!self.wrote_transport_params && (self.initial_keys
            || self.handshake_keys))
    }

    /// What a write of the handshake gives. A client writes its parameters at once, and a server
    /// with its handshake keys. The keys come one after the other.
    pub open spec fn write(self) -> (HandshakeWrite, SessionSpec<P>) {
        let keys = self.initial_keys || self.handshake_keys;
        let write_params = !self.wrote_transport_params && (self.side is Client || (
        !self.initial_keys && self.handshake_keys));
        (
            HandshakeWrite { write_params, keys },
            SessionSpec {
                wrote_transport_params: self.wrote_transport_params || write_params,
                initial_keys: false,
                handshake_keys: self.initial_keys && self.handshake_keys,
                ..self
            },
        )
    }
}

impl<P> PlaintextSession<P> {
    /// Before the handshake.
    pub fn new(side: Side, params: P) -> (r: Self)
        ensures
            r@ == new_session(side, params),
    {
        PlaintextSession {
            side,
            params,
            peer_params: None,
            wrote_transport_params: false,
            initial_keys: true,
            handshake_keys: true,
        }
    }

    pub fn side(&self) -> (r: Side)
        ensures
            r == self@.side,
    {
        self.side
    }

    /// The transport parameters of this side.
    pub fn params(&self) -> (r: &P)
        ensures
            *r == self@.params,
    {
        &self.params
    }

    /// Whether the handshake is still going on.
    pub fn is_handshaking(&self) -> (r: bool)
        ensures
            r == self@.handshaking(),
    {
        self.peer_params.is_none() || !self.wrote_transport_params && (self.initial_keys
            || self.handshake_keys)
    }

    /// Whether the parameters of the peer are still to be read.
    pub fn wants_params(&self) -> (r: bool)
        ensures
            r == (self@.peer_params is None),
    {
        self.peer_params.is_none()
    }

    /// Takes handshake data of the peer, as the transport parameters that it was read as. Only the
    /// first data is read: later data has no effect.
    pub fn take_params(&mut self, read: Result<P, String>) -> (r: Result<
        bool,
        TransportParameterError,
    >)
        ensures
            match (old(self)@.peer_params, read) {
                (Some(_), _) => r == Ok::<_, TransportParameterError>(true) && final(self)@ == old(
                    self,
                )@,
                (None, Ok(params)) => {
                    &&& r == Ok::<_, TransportParameterError>(true)
                    &&& final(self)@ == (SessionSpec { peer_params: Some(params), ..old(self)@ })
                },
                (None, Err(message)) => {
                    &&& r matches Err(e)
                    &&& e.message@ == "failed to read transport parameters: "@ + message@
                    &&& final(self)@ == old(self)@
                },
            },
    {
        if self.peer_params.is_none() {
            match read {
                Ok(params) => {
                    self.peer_params = Some(params);
                },
                Err(message) => {
                    let text = "failed to read transport parameters: ".to_owned();
                    return Err(TransportParameterError { message: text.concat(message.as_str()) });
                },
            }
        }
        Ok(true)
    }

    /// The transport parameters of the peer.
    pub fn transport_parameters(&self) -> (r: Option<&P>)
        ensures
            r == match self@.peer_params {
                Some(params) => Some(&params),
                None => None,
            },
    {
        match &self.peer_params {
            Some(params) => Some(params),
            None => None,
        }
    }

    /// Goes on to the next part of the handshake, and says what there is to write.
    pub fn next_write(&mut self) -> (r: HandshakeWrite)
        ensures
            (r, final(self)@) == old(self)@.write(),
    {
        let mut write_params = false;
        match self.side {
            Side::Client => {
                if !self.wrote_transport_params {
                    write_params = true;
                    self.wrote_transport_params = true;
                }
            },
            Side::Server => {},
        }
        if self.initial_keys {
            self.initial_keys = false;
            return HandshakeWrite { write_params, keys: true };
        }
        if self.handshake_keys {
            self.handshake_keys = false;
            match self.side {
                Side::Server => {
                    if !self.wrote_transport_params {
                        write_params = true;
                        self.wrote_transport_params = true;
                    }
                },
                Side::Client => {},
            }
            return HandshakeWrite { write_params, keys: true };
        }
        HandshakeWrite { write_params, keys: false }
    }
}

/// The transport parameters of one side of a connection.
#[verifier::external_type_specification]
#[verifier::external_body]
pub struct ExTransportParameters(TransportParameters);

/// What reading transport parameters from some bytes gives, on the side of a server or of a client.
pub uninterp spec fn params_read(server: bool, bytes: Seq<u8>) -> Option<TransportParameters>;

/// The bytes that transport parameters are written as.
pub uninterp spec fn params_written(params: TransportParameters) -> Seq<u8>;

/// `noq_proto::transport_parameters::TransportParameters::read`: the parameters that the bytes are.
///
/// The outcome is that of [`params_read`]. Of the message that comes with a failure nothing is
/// claimed.
#[verifier::external_body]
fn read_params(side: Side, buf: &[u8]) -> (r: Result<TransportParameters, String>)
    ensures
        match r {
            Ok(params) => params_read(side is Server, buf@) == Some(params),
            Err(_) => params_read(side is Server, buf@) is None,
        },
{
    let mut buf = buf;
    let side = match side {
        Side::Client => noq_proto::Side::Client,
        Side::Server => noq_proto::Side::Server,
    };
    TransportParameters::read(side, &mut buf).map_err(|e| e.to_string())
}

/// `noq_proto::transport_parameters::TransportParameters::write`: the bytes of the parameters come
/// after those that the buffer holds. They are those of [`params_written`]: also the order in which
/// the parameters are written is part of the value.
#[verifier::external_body]
fn write_params(params: &TransportParameters, buf: &mut Vec<u8>)
    ensures
        final(buf)@ == old(buf)@ + params_written(*params),
{
    params.write(buf)
}

impl PlaintextSession<TransportParameters> {
    /// Takes handshake data of the peer, which is its transport parameters. Only the first data is
    /// read: later data has no effect.
    pub fn read_handshake(&mut self, buf: &[u8]) -> (r: Result<bool, TransportParameterError>)
        ensures
            match (old(self)@.peer_params, params_read(old(self)@.side is Server, buf@)) {
                (Some(_), _) => r == Ok::<_, TransportParameterError>(true) && final(self)@ == old(
                    self,
                )@,
                (None, Some(params)) => {
                    &&& r == Ok::<_, TransportParameterError>(true)
                    &&& final(self)@ == (SessionSpec { peer_params: Some(params), ..old(self)@ })
                },
                (None, None) => {
                    &&& r matches Err(e)
                    &&& exists|message: Seq<char>| #[trigger]
                        ("failed to read transport parameters: "@ + message) == e.message@
                    &&& final(self)@ == old(self)@
                },
            },
    {
        if !self.wants_params() {
            return Ok(true);
        }
        let read = read_params(self.side(), buf);
        self.take_params(read)
    }

    /// Writes the next part of the handshake to the end of `buf`: the transport parameters of this
    /// side, once. Returns whether to go on to the next keys.
    pub fn write_handshake(&mut self, buf: &mut Vec<u8>) -> (keys: bool)
        ensures
            (HandshakeWrite { write_params: old(self)@.write().0.write_params, keys }, final(self)@)
                == old(self)@.write(),
            final(buf)@ == if old(self)@.write().0.write_params {
                old(buf)@ + params_written(old(self)@.params)
            } else {
                old(buf)@
            },
    {
        let written = self.next_write();
        if written.write_params {
            write_params(self.params(), buf);
        }
        written.keys
    }
}

/// The session after some writes of the handshake.
pub open spec fn after_writes<P>(session: SessionSpec<P>, n: nat) -> SessionSpec<P>
    decreases n,
{
    if n == 0 {
        session
    } else {
        after_writes(session, (n - 1) as nat).write().1
    }
}

/// A session gives its keys in the first two writes of the handshake and in no later one. It writes
/// its parameters exactly once: a client in the first write, a server in the second one.
pub proof fn law_handshake_writes<P>(side: Side, params: P, n: nat)
    ensures
        ({
            let write = after_writes(new_session(side, params), n).write().0;
            &&& write.keys <==> n < 2
            &&& write.write_params <==> n == if side is Client {
                0nat
            } else {
                1nat
            }
        }),
    decreases n,
{
    reveal_with_fuel(after_writes, 3);
    if n >= 2 {
        lemma_all_written(side, params, n);
    }
}

proof fn lemma_all_written<P>(side: Side, params: P, n: nat)
    requires
        n >= 2,
    ensures
        ({
            let session = after_writes(new_session(side, params), n);
            &&& session.side == side
            &&& session.wrote_transport_params
            &&& !session.initial_keys
            &&& !session.handshake_keys
        }),
    decreases n,
{
    reveal_with_fuel(after_writes, 3);
    if n > 2 {
        lemma_all_written(side, params, (n - 1) as nat);
    }
}

/// The handshake is over once the parameters of the peer were read and those of this side were
/// written.
pub proof fn law_handshake_ends<P>(session: SessionSpec<P>)
    requires
        session.peer_params is Some,
        session.wrote_transport_params,
    ensures
        !session.handshaking(),
        !session.write().1.handshaking(),
{
}

/// Something that a session does in the handshake.
pub enum HandshakeEvent<P> {
    /// It writes the next part of the handshake.
    Write,
    /// It has read these parameters of the peer.
    Read(P),
}

/// A session after some events, from the first one on. Only the first parameters are read.
pub open spec fn after_events<P>(
    session: SessionSpec<P>,
    events: Seq<HandshakeEvent<P>>,
) -> SessionSpec<P>
    decreases events.len(),
{
    if events.len() == 0 {
        session
    } else {
        let before = after_events(session, events.drop_last());
        match events.last() {
            HandshakeEvent::Write => before.write().1,
            HandshakeEvent::Read(params) => SessionSpec {
                peer_params: match before.peer_params {
                    Some(first) => Some(first),
                    None => Some(params),
                },
                ..before
            },
        }
    }
}

/// How many of some events are writes.
pub open spec fn writes_in<P>(events: Seq<HandshakeEvent<P>>) -> nat
    decreases events.len(),
{
    if events.len() == 0 {
        0
    } else {
        writes_in(events.drop_last()) + if events.last() is Write {
            1nat
        } else {
            0nat
        }
    }
}

/// However a handshake goes, it is over exactly if the parameters of the peer were read and those of
/// this side were written, which a client does in its first write and a server in its second one. A
/// session keeps its side and its parameters.
pub proof fn law_handshake_goes_on<P>(side: Side, params: P, events: Seq<HandshakeEvent<P>>)
    ensures
        ({
            let session = after_events(new_session(side, params), events);
            &&& !session.handshaking() <==> (exists|i: int|
                0 <= i < events.len() && #[trigger] events[i] is Read) && writes_in(events)
                >= if side is Client {
                1nat
            } else {
                2nat
            }
            &&& session.peer_params is Some <==> exists|i: int|
                0 <= i < events.len() && #[trigger] events[i] is Read
            &&& session.peer_params is None ==> session.handshaking()
            &&& session.side == side
            &&& session.params == params
            &&& session.write().0.keys <==> writes_in(events) < 2
            &&& session.write().0.write_params <==> writes_in(events) == if side is Client {
                0nat
            } else {
                1nat
            }
        }),
    decreases events.len(),
{
    lemma_after_events(side, params, events);
}

proof fn lemma_after_events<P>(side: Side, params: P, events: Seq<HandshakeEvent<P>>)
    ensures
        ({
            let session = after_events(new_session(side, params), events);
            let n = writes_in(events);
            &&& session.side == side
            &&& session.params == params
            &&& session.initial_keys == (n < 1)
            &&& session.handshake_keys == (n < 2)
            &&& session.wrote_transport_params == (n >= if side is Client {
                1nat
            } else {
                2nat
            })
            &&& session.peer_params is Some <==> exists|i: int|
                0 <= i < events.len() && #[trigger] events[i] is Read
        }),
    decreases events.len(),
{
    if events.len() > 0 {
        let before = events.drop_last();
        lemma_after_events(side, params, before);
        if exists|i: int| 0 <= i < before.len() && #[trigger] before[i] is Read {
            let i = choose|i: int| 0 <= i < before.len() && #[trigger] before[i] is Read;
            assert(events[i] is Read);
        }
        if exists|i: int| 0 <= i < events.len() && #[trigger] events[i] is Read {
            let i = choose|i: int| 0 <= i < events.len() && #[trigger] events[i] is Read;
            if i < before.len() {
                assert(before[i] is Read);
            } else {
                assert(events.last() is Read);
            }
        }
    }
}

/// The parameters of the peer are the first ones that were read: later ones change nothing.
pub proof fn law_first_parameters_stay<P>(
    session: SessionSpec<P>,
    first: P,
    events: Seq<HandshakeEvent<P>>,
)
    requires
        session.peer_params == Some(first),
    ensures
        after_events(session, events).peer_params == Some(first),
    decreases events.len(),
{
    if events.len() > 0 {
        law_first_parameters_stay(session, first, events.drop_last());
    }
}

/// Both sides of a connection finish the handshake once each has written twice and has read what the
/// other one wrote, in whatever order that happens.
pub proof fn law_handshake_finishes<P>(side: Side, params: P, events: Seq<HandshakeEvent<P>>, i: int)
    requires
        0 <= i < events.len(),
        events[i] is Read,
        writes_in(events) >= 2,
    ensures
        !after_events(new_session(side, params), events).handshaking(),
{
    law_handshake_goes_on(side, params, events);
}

/// The checksum of a packet takes eight bytes, and taking it off leaves the rest as it is. A packet is
/// intact with one checksum only.
pub proof fn law_checksum(header: Seq<u8>, payload: Seq<u8>, tag: Seq<u8>)
    requires
        tag.len() == 8,
    ensures
        unsealed(payload + tag) == payload,
        is_intact(header, payload + tag) <==> tag == spec_u64_to_le_bytes(
            seahash_of(header + payload),
        ),
        checksum(header + payload).len() == 8,
        payload.len() < 8 ==> !is_intact(header, payload),
{
    lemma_auto_spec_u64_to_from_le_bytes();
    assert(unsealed(payload + tag) =~= payload);
    assert((payload + tag).skip(payload.len() as int) =~= tag);
}

} // verus!
