use vstd::prelude::*;

verus! {

/// Identifier of a logical connection carried over the shared socket.
pub type ConnID = u32;

/// Connection of the plugin service.
pub const PLUGIN_SERVICE_CONN: ConnID = 1;
/// Connection of the runtime service.
pub const RUNTIME_SERVICE_CONN: ConnID = 2;
/// Size of a frame header: connection id and payload length, big-endian.
pub const MUX_HEADER_SIZE: usize = 8;
/// Largest payload: one framed RPC message, its 10-byte header and at most 4 MiB.
pub const MAX_PAYLOAD_SIZE: usize = 10 + 4 * 1024 * 1024;

/// Errors of the connection multiplexer.
#[derive(Debug, Clone, PartialEq, Eq)]
pub enum MuxError {
    /// Reading the socket failed.
    Read(String),
    /// Writing the socket failed.
    Write(String),
    /// A payload is larger than [`MAX_PAYLOAD_SIZE`].
    PayloadTooLarge(usize),
    /// The connection is already open.
    ConnectionAlreadyExists(ConnID),
    /// Connection id 0 is reserved.
    InvalidConnectionId(ConnID),
    /// A multiplexer task panicked.
    TaskPanic(String, String),
    /// The connection table could not be locked.
    LockError,
    /// A payload could not be handed to its connection.
    SendError(ConnID, String),
}

pub open spec fn be_u32(b: Seq<u8>) -> u32 {
    ((b[0] as u32) << 24u32) | ((b[1] as u32) << 16u32) | ((b[2] as u32) << 8u32) | (b[3] as u32)
}

pub open spec fn u32_be_bytes(v: u32) -> Seq<u8> {
    seq![
        ((v >> 24u32) & 0xff) as u8,
        ((v >> 16u32) & 0xff) as u8,
        ((v >> 8u32) & 0xff) as u8,
        (v & 0xff) as u8,
    ]
}

/// The frame that carries `payload` on connection `conn_id`.
pub open spec fn spec_frame(conn_id: u32, payload: Seq<u8>) -> Seq<u8> {
    u32_be_bytes(conn_id) + u32_be_bytes(payload.len() as u32) + payload
}

fn push_u32_be(out: &mut Vec<u8>, v: u32)
    ensures
        final(out)@ == old(out)@ + u32_be_bytes(v),
{
    out.push(((v >> 24u32) & 0xff) as u8);
    out.push(((v >> 16u32) & 0xff) as u8);
    out.push(((v >> 8u32) & 0xff) as u8);
    out.push((v & 0xff) as u8);
    assert(final(out)@ =~= old(out)@ + u32_be_bytes(v));
}

/// Frames `payload` for connection `conn_id`: header, then payload.
pub fn encode_frame(conn_id: ConnID, payload: &[u8]) -> (r: Result<Vec<u8>, MuxError>)
    ensures
        payload@.len() > MAX_PAYLOAD_SIZE ==> r == Err::<Vec<u8>, MuxError>(
            MuxError::PayloadTooLarge(payload@.len() as usize),
        ),
        payload@.len() <= MAX_PAYLOAD_SIZE ==> (r matches Ok(f) && f@ == spec_frame(conn_id, payload@)),
{
    if payload.len() > MAX_PAYLOAD_SIZE {
        return Err(MuxError::PayloadTooLarge(payload.len()));
    }
    let mut frame: Vec<u8> = Vec::new();
    push_u32_be(&mut frame, conn_id);
    push_u32_be(&mut frame, payload.len() as u32);
    let ghost head = frame@;
    let mut i: usize = 0;
    while i < payload.len()
        invariant
            i <= payload@.len(),
            frame@ == head + payload@.take(i as int),
        decreases payload@.len() - i,
    {
        frame.push(payload[i]);
        i = i + 1;
        assert(frame@ =~= head + payload@.take(i as int));
    }
    assert(payload@.take(i as int) =~= payload@);
    Ok(frame)
}

/// Decodes a frame header: the connection id and the payload length.
pub fn decode_header(header: &[u8]) -> (r: Result<(ConnID, usize), MuxError>)
    requires
        header@.len() == MUX_HEADER_SIZE,
    ensures
        ({
            let len = be_u32(header@.subrange(4, 8));
            &&& len > MAX_PAYLOAD_SIZE ==> r == Err::<(ConnID, usize), MuxError>(
                MuxError::PayloadTooLarge(len as usize),
            )
            &&& len <= MAX_PAYLOAD_SIZE ==> r == Ok::<(ConnID, usize), MuxError>(
                (be_u32(header@.subrange(0, 4)), len as usize),
            )
        }),
{
    let conn_id = ((header[0] as u32) << 24u32) | ((header[1] as u32) << 16u32) | ((header[2] as u32)
        << 8u32) | (header[3] as u32);
    let len = ((header[4] as u32) << 24u32) | ((header[5] as u32) << 16u32) | ((header[6] as u32)
        << 8u32) | (header[7] as u32);
    if len as usize > MAX_PAYLOAD_SIZE {
        return Err(MuxError::PayloadTooLarge(len as usize));
    }
    Ok((conn_id, len as usize))
}

/// Whether connection `conn_id` may be opened, given whether it is open.
pub fn check_open(conn_id: ConnID, already_open: bool) -> (r: Result<(), MuxError>)
    ensures
        conn_id == 0 ==> r == Err::<(), MuxError>(MuxError::InvalidConnectionId(conn_id)),
        conn_id != 0 && already_open ==> r == Err::<(), MuxError>(
            MuxError::ConnectionAlreadyExists(conn_id),
        ),
        conn_id != 0 && !already_open ==> r == Ok::<(), MuxError>(()),
{
    if conn_id == 0 {
        return Err(MuxError::InvalidConnectionId(conn_id));
    }
    if already_open {
        return Err(MuxError::ConnectionAlreadyExists(conn_id));
    }
    Ok(())
}

/// Frame round trip: the header of the frame of `payload` on `conn_id`
/// gives back `conn_id` and the payload's length, and the payload follows it.
pub proof fn lemma_frame_round_trip(conn_id: u32, payload: Seq<u8>)
    requires
        payload.len() <= MAX_PAYLOAD_SIZE,
    ensures
        be_u32(spec_frame(conn_id, payload).subrange(0, 4)) == conn_id,
        be_u32(spec_frame(conn_id, payload).subrange(4, 8)) == payload.len(),
        spec_frame(conn_id, payload).subrange(8, 8 + payload.len() as int) == payload,
{
    let f = spec_frame(conn_id, payload);
    let n = payload.len() as u32;
    assert(f.subrange(0, 4) =~= u32_be_bytes(conn_id));
    assert(f.subrange(4, 8) =~= u32_be_bytes(n));
    assert(f.subrange(8, 8 + payload.len() as int) =~= payload);
    lemma_be_round_trip(conn_id);
    lemma_be_round_trip(n);
}

proof fn lemma_be_round_trip(v: u32)
    ensures
        be_u32(u32_be_bytes(v)) == v,
{
    let b = u32_be_bytes(v);
    assert(b[0] == ((v >> 24u32) & 0xff) as u8);
    assert(b[1] == ((v >> 16u32) & 0xff) as u8);
    assert(b[2] == ((v >> 8u32) & 0xff) as u8);
    assert(b[3] == (v & 0xff) as u8);
    assert((((((v >> 24u32) & 0xffu32) as u8) as u32) << 24u32) | (((((v >> 16u32) & 0xffu32) as u8) as u32) << 16u32)
        | (((((v >> 8u32) & 0xffu32) as u8) as u32) << 8u32) | (((v & 0xffu32) as u8) as u32) == v)
        by (bit_vector);
}

} // verus!
