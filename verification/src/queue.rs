use vstd::pervasive::unreached;
use vstd::prelude::*;

use crate::bytes::{ByteReader, ByteWriter};
use crate::error::Error;
use crate::header::{decode_spec, Header};
use crate::llid::{lemma_llid_roundtrip, llid_bits, Llid};
use crate::spsc::{
    slots, spsc_dequeue, spsc_enqueue, spsc_is_empty, spsc_new, spsc_peek_clone, PduRing,
};

verus! {

/// Maximum payload, in bytes, of one data-channel PDU slot.
pub const MIN_DATA_PAYLOAD_BUF: usize = 27;

/// Size of one slot: a two-byte header followed by a maximum-size payload.
pub const MIN_DATA_PDU_BUF: usize = 2 + MIN_DATA_PAYLOAD_BUF;

/// A fully-formed slot: at least the header, at most one whole slot, and a
/// length byte that matches the payload that follows the header.
pub open spec fn wf_pdu(p: Seq<u8>) -> bool {
    &&& 2 <= p.len() <= MIN_DATA_PDU_BUF
    &&& p[1] as int == p.len() - 2
}

/// The header encoded in the first two bytes of a slot.
pub open spec fn header_of(p: Seq<u8>) -> Header {
    decode_spec(p[0], p[1])
}

/// The payload bytes of a slot: everything after the two-byte header.
pub open spec fn payload_of(p: Seq<u8>) -> Seq<u8> {
    p.skip(2)
}

/// The slot committed for a payload with the given link identifier: the
/// encoded header followed by the payload bytes.
pub open spec fn pdu_spec(llid: Llid, payload: Seq<u8>) -> Seq<u8> {
    seq![llid_bits(llid), payload.len() as u8] + payload
}

/// The bytes of an occupied slot; the empty sequence stands for no slot.
pub open spec fn pdu_of(v: Option<Seq<u8>>) -> Seq<u8> {
    match v {
        Some(p) => p,
        None => Seq::empty(),
    }
}

/// A packet queue that can hold a single PDU.
///
/// The storage is a lock-free index-based SPSC ring of one slot, compatible
/// with cores that lack wide atomic read-modify-write instructions; beyond
/// the raw buffer only the two ring indices are kept. The queue is
/// abstracted by its view: `None` when empty, or `Some` of the bytes of the
/// one committed slot.
///
/// The queue is constructed once and then moved into the producer role by
/// [`SimpleQueue::split`]; the consumer role is reached from there. At any
/// time exactly one role owns the storage: moving it across roles is the
/// hand-off that, between two concurrent contexts, the ring's index protocol
/// would perform — here Rust's ownership discipline serializes the roles, so
/// the exclusive time-slicing of the slot is enforced at compile time.
pub struct SimpleQueue {
    inner: PduRing,
}

impl View for SimpleQueue {
    type V = Option<Seq<u8>>;

    /// The committed slot, if any.
    closed spec fn view(&self) -> Option<Seq<u8>> {
        if slots(self.inner).len() == 0 {
            None
        } else {
            Some(slots(self.inner)[0])
        }
    }
}

impl SimpleQueue {
    /// The ring never holds more than its one slot, and an occupied slot is
    /// always fully formed — never partially valid.
    pub closed spec fn wf(&self) -> bool {
        &&& slots(self.inner).len() <= 1
        &&& slots(self.inner).len() == 1 ==> wf_pdu(slots(self.inner)[0])
    }

    /// Creates a new, empty queue.
    pub fn new() -> (q: SimpleQueue)
        ensures
            q.wf(),
            q@ is None,
    {
        SimpleQueue { inner: spsc_new() }
    }

    /// Hands the queue to its producer role. This consumes the queue: the
    /// split is a one-time ownership transfer, and no second producer or
    /// consumer for the same storage can exist.
    pub fn split(self) -> (p: SimpleProducer)
        requires
            self.wf(),
        ensures
            p.wf(),
            p@ == self@,
    {
        SimpleProducer { queue: self }
    }
}

/// The write half: reports free capacity and enqueues one PDU at a time
/// through a payload-construction callback.
pub struct SimpleProducer {
    queue: SimpleQueue,
}

impl View for SimpleProducer {
    type V = Option<Seq<u8>>;

    /// The committed slot of the underlying queue, if any.
    closed spec fn view(&self) -> Option<Seq<u8>> {
        self.queue@
    }
}

impl SimpleProducer {
    /// The underlying queue is well-formed.
    pub closed spec fn wf(&self) -> bool {
        self.queue.wf()
    }

    /// Payload bytes available for a single enqueue: the full payload
    /// capacity when the slot is free, 0 when it is occupied — there is no
    /// partial-capacity state in a single-slot queue.
    pub fn free_space(&self) -> (r: u8)
        requires
            self.wf(),
        ensures
            self@ is None ==> r == MIN_DATA_PAYLOAD_BUF as u8,
            self@ is Some ==> r == 0,
    {
        if spsc_is_empty(&self.queue.inner) {
            MIN_DATA_PAYLOAD_BUF as u8
        } else {
            0
        }
    }

    /// Enqueues one PDU built by `f`, without blocking.
    ///
    /// `payload_bytes` announces the size the caller intends to write; a
    /// request above the payload capacity is a caller contract violation and
    /// is excluded by precondition. If the slot is occupied the call fails
    /// at once with [`Error::Eof`]. Otherwise `f` receives an empty bounded
    /// writer over the payload region and returns the link identifier for
    /// the header — or an error, which propagates unchanged with nothing
    /// enqueued. On success the measured payload length and the returned
    /// link identifier are serialized into the header and the whole slot is
    /// committed in one enqueue step.
    pub fn produce_dyn<F: FnOnce(ByteWriter) -> Result<(Llid, ByteWriter), Error>>(
        &mut self,
        payload_bytes: u8,
        f: F,
    ) -> (r: Result<(), Error>)
        requires
            old(self).wf(),
            payload_bytes as int <= MIN_DATA_PAYLOAD_BUF as int,
            forall|w: ByteWriter|
                w@ == Seq::<u8>::empty() && w.cap_spec() == MIN_DATA_PAYLOAD_BUF
                    ==> call_requires(f, (w,)),
            forall|w: ByteWriter, l: Llid, w2: ByteWriter|
                #[trigger] call_ensures(f, (w,), Ok::<(Llid, ByteWriter), Error>((l, w2)))
                    ==> w2.wf() && w2.cap_spec() == MIN_DATA_PAYLOAD_BUF,
        ensures
            final(self).wf(),
            old(self)@ is Some ==> r == Err::<(), Error>(Error::Eof) && final(self)@ == old(
                self,
            )@,
            old(self)@ is None ==> (match r {
                Ok(_) => exists|l: Llid, w2: ByteWriter|
                    {
                        &&& exists|w: ByteWriter|
                            w@ == Seq::<u8>::empty() && w.cap_spec() == MIN_DATA_PAYLOAD_BUF
                                && #[trigger] call_ensures(
                                f,
                                (w,),
                                Ok::<(Llid, ByteWriter), Error>((l, w2)),
                            )
                        &&& final(self)@ == Some(pdu_spec(l, w2@))
                    },
                Err(e) => final(self)@ == old(self)@ && exists|w: ByteWriter|
                    w@ == Seq::<u8>::empty() && w.cap_spec() == MIN_DATA_PAYLOAD_BUF
                        && #[trigger] call_ensures(f, (w,), Err::<(Llid, ByteWriter), Error>(e)),
            }),
    {
        if !spsc_is_empty(&self.queue.inner) {
            return Err(Error::Eof);
        }
        let writer = ByteWriter::new(MIN_DATA_PAYLOAD_BUF);
        let free = writer.space_left();
        let ghost w0 = writer;
        match f(writer) {
            Err(e) => {
                proof {
                    assert(call_ensures(f, (w0,), Err::<(Llid, ByteWriter), Error>(e)));
                }
                Err(e)
            },
            Ok((llid, w2)) => {
                proof {
                    assert(call_ensures(f, (w0,), Ok::<(Llid, ByteWriter), Error>((llid, w2))));
                }
                let used = free - w2.space_left();
                let mut header = Header::new(llid);
                header.set_payload_length(used as u8);
                let mut hw = ByteWriter::new(2);
                match header.to_bytes(&mut hw) {
                    Ok(_) => {},
                    Err(_) => {
                        return unreached();
                    },
                }
                let mut pdu = hw.into_vec();
                let mut payload = w2.into_vec();
                pdu.append(&mut payload);
                proof {
                    assert(pdu@ =~= pdu_spec(llid, w2@));
                    assert(wf_pdu(pdu@));
                }
                match spsc_enqueue(&mut self.queue.inner, pdu) {
                    Ok(_) => Ok(()),
                    Err(_) => unreached(),  // capacity was verified free just above
                }
            },
        }
    }

    /// Hands the storage over to the consumer role.
    pub fn into_consumer(self) -> (c: SimpleConsumer)
        requires
            self.wf(),
        ensures
            c.wf(),
            c@ == self@,
    {
        SimpleConsumer { queue: self.queue }
    }
}

/// What the consumer's inspection callback decides: its own result, and
/// whether the inspected slot is removed from the queue.
pub struct Consume<R> {
    /// Remove the slot when `true`; leave it queued, unchanged, when `false`.
    pub consume: bool,
    /// The value handed back to the caller of `consume_raw_with`.
    pub result: Result<R, Error>,
}

/// The read half: reports data availability and performs a peek-then-decide
/// dequeue through an inspection callback.
pub struct SimpleConsumer {
    queue: SimpleQueue,
}

impl View for SimpleConsumer {
    type V = Option<Seq<u8>>;

    /// The committed slot of the underlying queue, if any.
    closed spec fn view(&self) -> Option<Seq<u8>> {
        self.queue@
    }
}

impl SimpleConsumer {
    /// The underlying queue is well-formed.
    pub closed spec fn wf(&self) -> bool {
        self.queue.wf()
    }

    /// True exactly when a committed slot is available to read. Does not
    /// consume anything.
    pub fn has_data(&self) -> (r: bool)
        requires
            self.wf(),
        ensures
            r == (self@ is Some),
    {
        !spsc_is_empty(&self.queue.inner)
    }

    /// Peeks at the oldest PDU and lets `f` decide whether it is removed.
    ///
    /// If the queue is empty this fails at once with [`Error::Eof`].
    /// Otherwise `f` receives the decoded header and exactly
    /// `payload_length` payload bytes, read with a bounds check that
    /// surfaces an out-of-range length as an error rather than an
    /// out-of-range access. If `f` sets the consume flag the slot is
    /// dequeued — that step cannot fail under the single-consumer
    /// discipline; otherwise the slot stays queued unchanged, available for
    /// a later retry. `f`'s own result is returned either way.
    pub fn consume_raw_with<R, F: FnOnce(Header, Vec<u8>) -> Consume<R>>(&mut self, f: F) -> (r:
        Result<R, Error>)
        requires
            old(self).wf(),
            forall|p: Vec<u8>|
                old(self)@ is Some && p@ == payload_of(pdu_of(old(self)@)) ==> call_requires(
                    f,
                    (header_of(pdu_of(old(self)@)), p),
                ),
        ensures
            final(self).wf(),
            old(self)@ is None ==> r == Err::<R, Error>(Error::Eof) && final(self)@ == old(
                self,
            )@,
            old(self)@ is Some ==> exists|p: Vec<u8>, c: Consume<R>|
                {
                    &&& p@ == payload_of(pdu_of(old(self)@))
                    &&& #[trigger] call_ensures(f, (header_of(pdu_of(old(self)@)), p), c)
                    &&& r == c.result
                    &&& final(self)@ == (if c.consume {
                        None::<Seq<u8>>
                    } else {
                        old(self)@
                    })
                },
    {
        match spsc_peek_clone(&self.queue.inner) {
            None => Err(Error::Eof),
            Some(packet) => {
                let ghost pk = packet@;
                let mut bytes = ByteReader::new(packet);
                let b0 = match bytes.read_u8() {
                    Ok(b) => b,
                    Err(_) => {
                        return unreached();
                    },
                };
                let b1 = match bytes.read_u8() {
                    Ok(b) => b,
                    Err(_) => {
                        return unreached();
                    },
                };
                let head = Header { llid: Llid::from_bits(b0), payload_length: b1 };
                let pl_len = b1 as usize;
                // A length byte beyond the slot bound would fail this
                // bounds-checked read; the queue's invariant keeps every
                // committed slot fully formed, so the read succeeds.
                let payload = match bytes.read_vec(pl_len) {
                    Ok(p) => p,
                    Err(e) => {
                        return Err(e);
                    },
                };
                proof {
                    assert(head == header_of(pk));
                    assert(payload@ =~= payload_of(pk));
                }
                let ghost p0 = payload;
                let res = f(head, payload);
                proof {
                    assert(call_ensures(f, (header_of(pdu_of(old(self)@)), p0), res));
                }
                if res.consume {
                    match spsc_dequeue(&mut self.queue.inner) {
                        Some(_) => {},
                        None => {
                            return unreached();  // peek just confirmed data present
                        },
                    }
                }
                res.result
            },
        }
    }

    /// Hands the storage back to the producer role.
    pub fn into_producer(self) -> (p: SimpleProducer)
        requires
            self.wf(),
        ensures
            p.wf(),
            p@ == self@,
    {
        SimpleProducer { queue: self.queue }
    }
}

/// A slot committed for a payload decodes to exactly that payload, with a
/// header carrying the produced link identifier and the payload's length:
/// what one `produce` writes is, byte for byte, what the following
/// `consume` observes.
pub proof fn lemma_pdu_roundtrip(llid: Llid, payload: Seq<u8>)
    requires
        payload.len() <= MIN_DATA_PAYLOAD_BUF,
    ensures
        header_of(pdu_spec(llid, payload)) == (Header {
            llid,
            payload_length: payload.len() as u8,
        }),
        payload_of(pdu_spec(llid, payload)) == payload,
        wf_pdu(pdu_spec(llid, payload)),
{
    lemma_llid_roundtrip(llid);
    assert(payload_of(pdu_spec(llid, payload)) =~= payload);
}

} // verus!
