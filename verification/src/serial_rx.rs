//! Bytes received from the USB serial port, kept in a bounded
//! `heapless::Vec` until they are consumed.

use vstd::prelude::*;

verus! {

/// Capacity of the receive buffer, in bytes.
pub const RX_CAPACITY: usize = 255;

/// Size of the chunk read from the serial port at each USB interrupt.
pub const RX_CHUNK: usize = 64;

#[verifier::external_type_specification]
#[verifier::external_body]
#[verifier::reject_recursive_types(T)]
pub struct ExHeaplessVec<T, const N: usize>(heapless::Vec<T, N>);

/// The bytes held by a receive buffer, oldest first.
pub uninterp spec fn rx_bytes(buf: heapless::Vec<u8, 255>) -> Seq<u8>;

/// `heapless::Vec::new`: an empty buffer.
/// Trusted: the buffer holds no byte.
#[verifier::external_body]
fn rx_new() -> (buf: heapless::Vec<u8, 255>)
    ensures
        rx_bytes(buf) == Seq::<u8>::empty(),
{
    heapless::Vec::new()
}

/// `heapless::Vec::extend_from_slice`.
/// Trusted, as its source shows: when the bytes do not fit in the capacity
/// it returns `Err` and leaves the buffer unchanged; otherwise it appends
/// them in order and returns `Ok`.
#[verifier::external_body]
fn rx_extend(buf: &mut heapless::Vec<u8, 255>, more: &[u8]) -> (r: Result<(), ()>)
    ensures
        rx_bytes(*old(buf)).len() + more@.len() > 255 ==> {
            &&& r is Err
            &&& rx_bytes(*final(buf)) == rx_bytes(*old(buf))
        },
        rx_bytes(*old(buf)).len() + more@.len() <= 255 ==> {
            &&& r is Ok
            &&& rx_bytes(*final(buf)) == rx_bytes(*old(buf)) + more@
        },
{
    buf.extend_from_slice(more)
}

/// `heapless::Vec::as_slice`.
/// Trusted: the slice holds the bytes of the buffer, in order.
#[verifier::external_body]
fn rx_as_slice(buf: &heapless::Vec<u8, 255>) -> (bytes: &[u8])
    ensures
        bytes@ == rx_bytes(*buf),
{
    buf.as_slice()
}

/// The bytes received from the serial port and not consumed yet, oldest
/// first, never more than `RX_CAPACITY` of them.
pub struct RxBuffer {
    bytes: heapless::Vec<u8, 255>,
}

impl View for RxBuffer {
    type V = Seq<u8>;

    closed spec fn view(&self) -> Seq<u8> {
        rx_bytes(self.bytes)
    }
}

impl RxBuffer {
    #[verifier::type_invariant]
    spec fn within_capacity(self) -> bool {
        rx_bytes(self.bytes).len() <= RX_CAPACITY
    }

    /// A new, empty receive buffer.
    pub fn new() -> (buf: RxBuffer)
        ensures
            buf@ == Seq::<u8>::empty(),
    {
        RxBuffer { bytes: rx_new() }
    }

    /// The bytes held, oldest first; there are never more than
    /// `RX_CAPACITY` of them.
    pub fn as_slice(&self) -> (bytes: &[u8])
        ensures
            bytes@ == self@,
            bytes@.len() <= RX_CAPACITY,
    {
        proof {
            use_type_invariant(self);
        }
        rx_as_slice(&self.bytes)
    }

    /// Stores what a serial read delivered: the first `count` bytes of
    /// `chunk` are appended. A failed or empty read changes nothing. When
    /// the bytes do not fit, the buffer is left as it was and `Err` is
    /// returned (the firmware stops on it).
    pub fn store_serial_read(&mut self, chunk: &[u8], read: SerialRead) -> (r: Result<(), ()>)
        requires
            read matches SerialRead::Received(n) ==> n <= chunk@.len(),
        ensures
            r is Ok <==> read_fits(old(self)@, read),
            final(self)@ == stored_after(old(self)@, chunk@, read),
            final(self)@.len() <= RX_CAPACITY,
    {
        proof {
            use_type_invariant(&*self);
        }
        match read.payload_len() {
            None => Ok(()),
            Some(n) => {
                let received = vstd::slice::slice_subrange(chunk, 0, n);
                let mut held = rx_new();
                core::mem::swap(&mut held, &mut self.bytes);
                let r = rx_extend(&mut held, received);
                self.bytes = held;
                r
            },
        }
    }
}

/// The outcome of a read from the serial port.
#[derive(Clone, Copy, Debug, PartialEq, Eq, Structural)]
pub enum SerialRead {
    /// The read failed (for instance, nothing was available).
    Failed,
    /// The read delivered this many bytes at the start of the chunk.
    Received(usize),
}

impl SerialRead {
    /// The number of bytes to keep from a read: none when it failed or
    /// delivered nothing.
    pub open spec fn spec_payload_len(self) -> Option<usize> {
        match self {
            SerialRead::Failed => None,
            SerialRead::Received(n) => if n == 0 {
                None
            } else {
                Some(n)
            },
        }
    }

    /// The number of bytes to keep from a read: none when it failed or
    /// delivered nothing.
    pub fn payload_len(self) -> (n: Option<usize>)
        ensures
            n == self.spec_payload_len(),
    {
        match self {
            SerialRead::Failed => None,
            SerialRead::Received(n) => if n == 0 {
                None
            } else {
                Some(n)
            },
        }
    }
}

/// Whether the bytes kept from `read` fit next to `held`.
pub open spec fn read_fits(held: Seq<u8>, read: SerialRead) -> bool {
    match read.spec_payload_len() {
        None => true,
        Some(n) => held.len() + n <= RX_CAPACITY,
    }
}

/// The bytes held after storing `read` from `chunk` next to `held`.
pub open spec fn stored_after(held: Seq<u8>, chunk: Seq<u8>, read: SerialRead) -> Seq<u8> {
    match read.spec_payload_len() {
        Some(n) => if held.len() + n <= RX_CAPACITY {
            held + chunk.subrange(0, n as int)
        } else {
            held
        },
        None => held,
    }
}

/// A read that delivered `n > 0` bytes and fits is kept exactly: the buffer
/// becomes what it held followed by the first `n` bytes of the chunk,
/// unchanged and in order. A read that does not fit, or that failed or
/// delivered nothing, leaves the buffer as it was.
pub proof fn law_store_keeps_received_bytes(held: Seq<u8>, chunk: Seq<u8>, n: usize)
    requires
        held.len() <= 255,
        n <= chunk.len(),
    ensures
        0 < n && held.len() + n <= 255 ==> {
            &&& stored_after(held, chunk, SerialRead::Received(n)) == held + chunk.subrange(
                0,
                n as int,
            )
            &&& stored_after(held, chunk, SerialRead::Received(n)).len() == held.len() + n
            &&& forall|i: int|
                0 <= i < n ==> #[trigger] stored_after(held, chunk, SerialRead::Received(n))[held.len()
                    + i] == chunk[i]
            &&& read_fits(held, SerialRead::Received(n))
        },
        held.len() + n > 255 ==> stored_after(held, chunk, SerialRead::Received(n)) == held
            && !read_fits(held, SerialRead::Received(n)),
        stored_after(held, chunk, SerialRead::Received(0)) == held,
        stored_after(held, chunk, SerialRead::Failed) == held,
        read_fits(held, SerialRead::Received(0)),
        read_fits(held, SerialRead::Failed),
{
}

/// Storing a read never takes the buffer past its capacity, a read that
/// failed or delivered nothing changes nothing, and a read that fits is
/// kept whole, after what was already held.
pub proof fn law_store_keeps_bound(held: Seq<u8>, chunk: Seq<u8>, read: SerialRead)
    requires
        held.len() <= RX_CAPACITY,
        read matches SerialRead::Received(n) ==> n <= chunk.len(),
    ensures
        stored_after(held, chunk, read).len() <= RX_CAPACITY,
        read.spec_payload_len() is None ==> stored_after(held, chunk, read) == held,
        read_fits(held, read) ==> stored_after(held, chunk, read).subrange(0, held.len() as int)
            == held,
{
    match read.spec_payload_len() {
        Some(n) => {
            if held.len() + n <= RX_CAPACITY {
                let after = held + chunk.subrange(0, n as int);
                assert(after.subrange(0, held.len() as int) =~= held);
            }
        },
        None => {
            assert(held.subrange(0, held.len() as int) =~= held);
        },
    }
}

} // verus!
