//! Fixed-layout handshake frames: a type byte, a little-endian 32-bit index
//! and 32 bytes of key material, 37 bytes in all.
use vstd::prelude::*;

verus! {

/// Length of every handshake frame on the wire.
pub const FRAME_LEN: usize = 37;

/// Length of the key material carried in a frame.
pub const KEY_LEN: usize = 32;

/// Type byte of a handshake initiation.
pub const MSG_INITIATION: u8 = 1;

/// Type byte of a handshake response.
pub const MSG_RESPONSE: u8 = 2;

/// Type byte reserved for encrypted data.
pub const MSG_DATA: u8 = 4;

/// The four little-endian bytes of `x`.
pub open spec fn le_bytes(x: u32) -> Seq<u8> {
    seq![
        (x % 256) as u8,
        (x / 256 % 256) as u8,
        (x / 65536 % 256) as u8,
        (x / 16777216 % 256) as u8,
    ]
}

/// The 32-bit integer whose little-endian bytes are `b[0..4]`.
pub open spec fn le_value(b: Seq<u8>) -> u32 {
    (b[0] as int + 256 * b[1] as int + 65536 * b[2] as int + 16777216 * b[3] as int) as u32
}

/// A frame with the given type byte, index and key material.
pub open spec fn frame(ty: u8, index: u32, key: Seq<u8>) -> Seq<u8> {
    seq![ty] + le_bytes(index) + key
}

/// The type byte, index and key material that the first 37 bytes of `s` hold.
pub open spec fn fields_of(s: Seq<u8>) -> (u8, u32, Seq<u8>) {
    (s[0], le_value(s.subrange(1, 5)), s.subrange(5, 37))
}

pub proof fn lemma_le_round_trip(x: u32)
    ensures
        le_value(le_bytes(x)) == x,
{
    let b = le_bytes(x);
    assert(b[0] as int == x % 256);
    assert(b[1] as int == x / 256 % 256);
    assert(b[2] as int == x / 65536 % 256);
    assert(b[3] as int == x / 16777216 % 256);
    assert(x as int == x % 256 + 256 * (x / 256 % 256) + 65536 * (x / 65536 % 256)
        + 16777216 * (x / 16777216 % 256)) by (nonlinear_arith)
        requires
            0 <= x < 0x1_0000_0000,
    ;
}

/// Reading back the fields of a frame gives what it was written from.
pub proof fn lemma_frame_fields(ty: u8, index: u32, key: Seq<u8>)
    requires
        key.len() == KEY_LEN,
    ensures
        frame(ty, index, key).len() == FRAME_LEN,
        fields_of(frame(ty, index, key)) == (ty, index, key),
{
    let f = frame(ty, index, key);
    lemma_le_round_trip(index);
    assert(f.subrange(1, 5) =~= le_bytes(index));
    assert(f.subrange(5, 37) =~= key);
}

/// The little-endian bytes of `x`.
fn u32_to_le(x: u32) -> (r: [u8; 4])
    ensures
        r@ == le_bytes(x),
{
    let r: [u8; 4] = [
        (x % 256) as u8,
        (x / 256 % 256) as u8,
        (x / 65536 % 256) as u8,
        (x / 16777216 % 256) as u8,
    ];
    assert(r@ =~= le_bytes(x));
    r
}

/// The integer whose little-endian bytes are `b[at..at + 4]`.
fn u32_from_le(b: &[u8], at: usize) -> (r: u32)
    requires
        at + 4 <= b@.len(),
    ensures
        r == le_value(b@.subrange(at as int, at + 4)),
{
    let v: u32 = b[at] as u32 + 256 * (b[at + 1] as u32) + 65536 * (b[at + 2] as u32)
        + 16777216 * (b[at + 3] as u32);
    v
}

/// Lays out a frame of type `ty` with `index` and `key`.
fn write_frame(ty: u8, index: u32, key: &[u8; 32]) -> (r: [u8; 37])
    ensures
        r@ == frame(ty, index, key@),
{
    let mut out = [0u8; 37];
    out[0] = ty;
    let le = u32_to_le(index);
    let mut i: usize = 0;
    while i < 4
        invariant
            0 <= i <= 4,
            out@.len() == FRAME_LEN,
            le@ == le_bytes(index),
            out@[0] == ty,
            forall|j: int| 0 <= j < i ==> out@[1 + j] == le@[j],
        decreases 4 - i,
    {
        out[1 + i] = le[i];
        i = i + 1;
    }
    let mut k: usize = 0;
    while k < KEY_LEN
        invariant
            0 <= k <= KEY_LEN,
            out@.len() == FRAME_LEN,
            key@.len() == KEY_LEN,
            le@ == le_bytes(index),
            out@[0] == ty,
            forall|j: int| 0 <= j < 4 ==> out@[1 + j] == le@[j],
            forall|j: int| 0 <= j < k ==> out@[5 + j] == key@[j],
        decreases KEY_LEN - k,
    {
        out[5 + k] = key[k];
        k = k + 1;
    }
    assert(out@ =~= frame(ty, index, key@));
    out
}

/// The 32 bytes of key material at `b[5..37]`.
fn read_key(b: &[u8]) -> (r: [u8; 32])
    requires
        FRAME_LEN <= b@.len(),
    ensures
        r@ == b@.subrange(5, 37),
{
    let mut key = [0u8; 32];
    let mut k: usize = 0;
    while k < KEY_LEN
        invariant
            0 <= k <= KEY_LEN,
            key@.len() == KEY_LEN,
            FRAME_LEN <= b@.len(),
            forall|j: int| 0 <= j < k ==> key@[j] == b@[5 + j],
        decreases KEY_LEN - k,
    {
        key[k] = b[5 + k];
        k = k + 1;
    }
    assert(key@ =~= b@.subrange(5, 37));
    key
}

/// The first message of the handshake, sent by the client.
#[derive(Clone, Copy, Debug)]
pub struct HandshakeInitiation {
    pub msg_type: u8,
    pub client_id: u32,
    pub ephemeral_public_key: [u8; 32],
}

impl View for HandshakeInitiation {
    /// Type byte, client index and key material.
    type V = (u8, u32, Seq<u8>);

    open spec fn view(&self) -> (u8, u32, Seq<u8>) {
        (self.msg_type, self.client_id, self.ephemeral_public_key@)
    }
}

impl HandshakeInitiation {
    /// An initiation from the client with index `sender_id`.
    pub fn new(sender_id: u32, ephemeral_pub: [u8; 32]) -> (r: Self)
        ensures
            r@ == (MSG_INITIATION, sender_id, ephemeral_pub@),
    {
        HandshakeInitiation {
            msg_type: MSG_INITIATION,
            client_id: sender_id,
            ephemeral_public_key: ephemeral_pub,
        }
    }

    /// The 37-byte wire frame of this message.
    pub fn to_bytes(&self) -> (r: [u8; 37])
        ensures
            r@ == frame(self.msg_type, self.client_id, self.ephemeral_public_key@),
    {
        write_frame(self.msg_type, self.client_id, &self.ephemeral_public_key)
    }

    /// Reads an initiation from the first 37 bytes of `buf`; `None` when
    /// `buf` is shorter. The type byte is kept as it stands.
    pub fn from_bytes(buf: &[u8]) -> (r: Option<Self>)
        ensures
            r is None <==> buf@.len() < FRAME_LEN,
            r matches Some(m) ==> m@ == fields_of(buf@),
    {
        if buf.len() < FRAME_LEN {
            return None;
        }
        let msg_type = buf[0];
        let client_id = u32_from_le(buf, 1);
        let ephem = read_key(buf);
        Some(HandshakeInitiation { msg_type, client_id, ephemeral_public_key: ephem })
    }
}

/// The second message of the handshake, sent by the server.
#[derive(Clone, Copy, Debug)]
pub struct HandshakeResponse {
    pub msg_type: u8,
    pub receiver_index: u32,
    pub server_ephem_pub: [u8; 32],
}

impl View for HandshakeResponse {
    /// Type byte, receiver index and key material.
    type V = (u8, u32, Seq<u8>);

    open spec fn view(&self) -> (u8, u32, Seq<u8>) {
        (self.msg_type, self.receiver_index, self.server_ephem_pub@)
    }
}

impl HandshakeResponse {
    /// A response addressed to the client with index `id`.
    pub fn new(id: u32, public_key: &[u8; 32]) -> (r: Self)
        ensures
            r@ == (MSG_RESPONSE, id, public_key@),
    {
        HandshakeResponse { msg_type: MSG_RESPONSE, receiver_index: id, server_ephem_pub: *public_key }
    }

    /// The 37-byte wire frame of this message; its type byte is always that
    /// of a response.
    pub fn to_bytes(&self) -> (r: [u8; 37])
        ensures
            r@ == frame(MSG_RESPONSE, self.receiver_index, self.server_ephem_pub@),
    {
        write_frame(MSG_RESPONSE, self.receiver_index, &self.server_ephem_pub)
    }

    /// Reads a response from the first 37 bytes of `data`; `None` when
    /// `data` is shorter or does not start with the response type byte.
    pub fn from_bytes(data: &[u8]) -> (r: Option<Self>)
        ensures
            r is None <==> (data@.len() < FRAME_LEN || data@[0] != MSG_RESPONSE),
            r matches Some(m) ==> m@ == fields_of(data@),
    {
        if data.len() < FRAME_LEN || data[0] != MSG_RESPONSE {
            return None;
        }
        let pubkey = read_key(data);
        Some(HandshakeResponse {
            msg_type: MSG_RESPONSE,
            receiver_index: u32_from_le(data, 1),
            server_ephem_pub: pubkey,
        })
    }
}

/// Decoding the frame of an initiation gives the message back.
pub proof fn lemma_initiation_round_trip(m: HandshakeInitiation)
    ensures
        frame(m.msg_type, m.client_id, m.ephemeral_public_key@).len() == FRAME_LEN,
        fields_of(frame(m.msg_type, m.client_id, m.ephemeral_public_key@)) == m@,
{
    lemma_frame_fields(m.msg_type, m.client_id, m.ephemeral_public_key@);
}

/// Decoding the frame of a response gives the response back, with the
/// response type byte.
pub proof fn lemma_response_round_trip(m: HandshakeResponse)
    ensures
        frame(MSG_RESPONSE, m.receiver_index, m.server_ephem_pub@).len() == FRAME_LEN,
        frame(MSG_RESPONSE, m.receiver_index, m.server_ephem_pub@)[0] == MSG_RESPONSE,
        fields_of(frame(MSG_RESPONSE, m.receiver_index, m.server_ephem_pub@))
            == (MSG_RESPONSE, m.receiver_index, m.server_ephem_pub@),
{
    lemma_frame_fields(MSG_RESPONSE, m.receiver_index, m.server_ephem_pub@);
}

} // verus!
