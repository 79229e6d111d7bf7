//! Transaction byte encoding and the serialization buffer pool.
//!
//! Serialized transactions go out base64- or base58-encoded depending on
//! what the channel's wire format asks for. A bounded pool of pre-allocated
//! buffers keeps the hot path free of runtime allocation.

use vstd::prelude::*;

verus! {

/// Default number of buffers in the serialization pool.
pub const SERIALIZER_POOL_SIZE: usize = 10000;

/// Default size of one pooled serialization buffer, in bytes.
pub const SERIALIZER_BUFFER_SIZE: usize = 256 * 1024;

/// The standard-alphabet, padded base64 rendering of a byte sequence.
pub uninterp spec fn base64_of(b: Seq<u8>) -> Seq<char>;

/// The Bitcoin-alphabet base58 rendering of a byte sequence.
pub uninterp spec fn base58_of(b: Seq<u8>) -> Seq<char>;

/// Relies on `base64::Engine::encode` with the standard engine: the
/// padded rendering, four characters for every started three input bytes,
/// a function of the bytes alone. The length bound keeps the output
/// length computation clear of overflow, on which the engine panics.
#[verifier::external_body]
fn base64_encode(data: &[u8]) -> (r: String)
    requires
        data@.len() <= usize::MAX / 2,
    ensures
        r@ == base64_of(data@),
        r@.len() == 4 * ((data@.len() + 2) / 3),
{
    base64::Engine::encode(&base64::engine::general_purpose::STANDARD, data)
}

/// Relies on `bs58::encode`: the Bitcoin-alphabet rendering, a function of
/// the bytes alone, empty exactly for empty input.
#[verifier::external_body]
fn base58_encode(data: &[u8]) -> (r: String)
    ensures
        r@ == base58_of(data@),
        (data@.len() == 0) == (r@.len() == 0),
{
    bs58::encode(data).into_string()
}

/// Base64 encoder for wire payloads.
pub struct Base64Encoder;

impl Base64Encoder {
    /// Encodes bytes with the standard padded base64 alphabet.
    pub fn encode(data: &[u8]) -> (r: String)
        requires
            data@.len() <= usize::MAX / 2,
        ensures
            r@ == base64_of(data@),
            r@.len() == 4 * ((data@.len() + 2) / 3),
    {
        base64_encode(data)
    }
}

/// Wire encodings a serialized transaction can be rendered in.
#[derive(Clone, Copy, Debug, PartialEq, Eq, Structural)]
pub enum TxEncoding {
    Binary,
    Base64,
    Base58,
    Json,
    JsonParsed,
}

/// Renders serialized transaction bytes in the requested encoding;
/// only the base58 and base64 renderings exist on this path.
pub fn serialize_and_encode(transaction: &Vec<u8>, encoding: TxEncoding) -> (r: Result<
    String,
    String,
>)
    requires
        transaction@.len() <= usize::MAX / 2,
    ensures
        match r {
            Ok(s) => (encoding == TxEncoding::Base58 && s@ == base58_of(transaction@)) || (
            encoding == TxEncoding::Base64 && s@ == base64_of(transaction@)),
            Err(m) => encoding != TxEncoding::Base58 && encoding != TxEncoding::Base64 && m@
                == "Unsupported encoding"@,
        },
{
    match encoding {
        TxEncoding::Base58 => Ok(base58_encode(transaction.as_slice())),
        TxEncoding::Base64 => Ok(base64_encode(transaction.as_slice())),
        _ => Err("Unsupported encoding".to_owned()),
    }
}

/// The buffers a pool queue holds, in order.
pub uninterp spec fn buffer_queue_contents(q: crossbeam_queue::ArrayQueue<Vec<u8>>) -> Seq<
    Vec<u8>,
>;

/// The fixed capacity a pool queue was created with.
pub uninterp spec fn buffer_queue_capacity(q: crossbeam_queue::ArrayQueue<Vec<u8>>) -> nat;

/// Relies on `crossbeam_queue::ArrayQueue::new`: an empty bounded queue of
/// the given capacity, which must stay clear of the sizes the constructor
/// documents as panicking.
#[verifier::external_body]
fn buffer_queue_new(cap: usize) -> (q: crossbeam_queue::ArrayQueue<Vec<u8>>)
    requires
        1 <= cap < usize::MAX / 4,
    ensures
        buffer_queue_contents(q) == Seq::<Vec<u8>>::empty(),
        buffer_queue_capacity(q) == cap as nat,
{
    crossbeam_queue::ArrayQueue::new(cap)
}

/// Relies on `crossbeam_queue::ArrayQueue::push_mut`: appends at the tail
/// unless the queue is full, in which case the buffer is dropped.
#[verifier::external_body]
fn buffer_queue_push(q: &mut crossbeam_queue::ArrayQueue<Vec<u8>>, value: Vec<u8>) -> (r: bool)
    ensures
        buffer_queue_capacity(*final(q)) == buffer_queue_capacity(*old(q)),
        r == (buffer_queue_contents(*old(q)).len() < buffer_queue_capacity(*old(q))),
        r ==> buffer_queue_contents(*final(q)) == buffer_queue_contents(*old(q)).push(value),
        !r ==> buffer_queue_contents(*final(q)) == buffer_queue_contents(*old(q)),
{
    q.push_mut(value).is_ok()
}

/// Relies on `crossbeam_queue::ArrayQueue::pop_mut`: removes and returns
/// the head of the queue, or nothing when the queue is empty.
#[verifier::external_body]
fn buffer_queue_pop(q: &mut crossbeam_queue::ArrayQueue<Vec<u8>>) -> (r: Option<Vec<u8>>)
    ensures
        buffer_queue_capacity(*final(q)) == buffer_queue_capacity(*old(q)),
        match r {
            Some(v) => buffer_queue_contents(*old(q)).len() > 0 && v == buffer_queue_contents(
                *old(q),
            )[0] && buffer_queue_contents(*final(q)) == buffer_queue_contents(
                *old(q),
            ).drop_first(),
            None => buffer_queue_contents(*old(q)).len() == 0 && buffer_queue_contents(*final(q))
                == buffer_queue_contents(*old(q)),
        },
{
    q.pop_mut()
}

/// Relies on `crossbeam_queue::ArrayQueue::len`: the number of queued
/// elements.
#[verifier::external_body]
fn buffer_queue_len(q: &crossbeam_queue::ArrayQueue<Vec<u8>>) -> (r: usize)
    ensures
        r as nat == buffer_queue_contents(*q).len(),
{
    q.len()
}

/// Relies on `crossbeam_queue::ArrayQueue::capacity`: the capacity the
/// queue was created with.
#[verifier::external_body]
fn buffer_queue_cap(q: &crossbeam_queue::ArrayQueue<Vec<u8>>) -> (r: usize)
    ensures
        r as nat == buffer_queue_capacity(*q),
{
    q.capacity()
}

/// Pool of pre-allocated serialization buffers: serializing borrows a
/// buffer instead of allocating, and finished buffers come back.
pub struct ZeroAllocSerializer {
    buffer_pool: crossbeam_queue::ArrayQueue<Vec<u8>>,
    buffer_size: usize,
}

impl ZeroAllocSerializer {
    /// Well-formedness: the pool never holds more buffers than its capacity.
    pub closed spec fn wf(&self) -> bool {
        buffer_queue_contents(self.buffer_pool).len() <= buffer_queue_capacity(self.buffer_pool)
    }

    /// How many buffers are pooled right now.
    pub closed spec fn spec_available(&self) -> nat {
        buffer_queue_contents(self.buffer_pool).len()
    }

    /// How many buffers the pool can hold.
    pub closed spec fn spec_capacity(&self) -> nat {
        buffer_queue_capacity(self.buffer_pool)
    }

    /// A full pool: `pool_size` buffers of `buffer_size` zeroed bytes each.
    pub fn new(pool_size: usize, buffer_size: usize) -> (r: Self)
        requires
            1 <= pool_size < usize::MAX / 4,
        ensures
            r.wf(),
            r.spec_available() == pool_size as nat,
            r.spec_capacity() == pool_size as nat,
    {
        let mut pool = buffer_queue_new(pool_size);
        let mut i: usize = 0;
        while i < pool_size
            invariant
                i <= pool_size,
                buffer_queue_capacity(pool) == pool_size as nat,
                buffer_queue_contents(pool).len() == i as nat,
            decreases pool_size - i,
        {
            let mut buffer: Vec<u8> = Vec::new();
            let mut j: usize = 0;
            while j < buffer_size
                invariant
                    j <= buffer_size,
                    buffer@.len() == j as nat,
                decreases buffer_size - j,
            {
                buffer.push(0u8);
                j = j + 1;
            }
            let pushed = buffer_queue_push(&mut pool, buffer);
            assert(pushed);
            i = i + 1;
        }
        ZeroAllocSerializer { buffer_pool: pool, buffer_size }
    }

    /// Takes a pooled buffer, or none when the pool has been emptied.
    pub fn take_buffer(&mut self) -> (r: Option<Vec<u8>>)
        requires
            old(self).wf(),
        ensures
            final(self).wf(),
            final(self).spec_capacity() == old(self).spec_capacity(),
            (r is Some) == (old(self).spec_available() > 0),
            r is Some ==> final(self).spec_available() == old(self).spec_available() - 1,
            r is None ==> final(self).spec_available() == old(self).spec_available(),
    {
        buffer_queue_pop(&mut self.buffer_pool)
    }

    /// Returns a buffer to the pool; a buffer beyond the pool's capacity is
    /// dropped.
    pub fn return_buffer(&mut self, buffer: Vec<u8>)
        requires
            old(self).wf(),
        ensures
            final(self).wf(),
            final(self).spec_capacity() == old(self).spec_capacity(),
            old(self).spec_available() < old(self).spec_capacity() ==> final(self).spec_available()
                == old(self).spec_available() + 1,
            old(self).spec_available() >= old(self).spec_capacity()
                ==> final(self).spec_available() == old(self).spec_available(),
    {
        let _ = buffer_queue_push(&mut self.buffer_pool, buffer);
    }

    /// Pool statistics: buffers available now, and the pool's capacity.
    pub fn get_pool_stats(&self) -> (r: (usize, usize))
        ensures
            r.0 as nat == self.spec_available(),
            r.1 as nat == self.spec_capacity(),
    {
        (buffer_queue_len(&self.buffer_pool), buffer_queue_cap(&self.buffer_pool))
    }
}

/// Statistics of a serialization pool with the default configuration on
/// which nothing has been checked out: every buffer available, at the
/// default capacity.
pub fn get_serializer_stats() -> (r: (usize, usize))
    ensures
        r.0 <= r.1,
        r.1 == SERIALIZER_POOL_SIZE,
{
    (SERIALIZER_POOL_SIZE, SERIALIZER_POOL_SIZE)
}

} // verus!
