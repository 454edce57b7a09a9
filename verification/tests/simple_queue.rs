use pdu_queue::{
    ByteWriter, Consume, Error, Llid, SimpleQueue, MIN_DATA_PAYLOAD_BUF,
};

#[test]
fn simple_queue() {
    let q = SimpleQueue::new();
    let mut p = q.split();
    assert_eq!(p.free_space(), MIN_DATA_PAYLOAD_BUF as u8);

    let r = p.produce_dyn(4, |mut w: ByteWriter| {
        w.write_slice(&[1, 2, 3, 4])?;
        Ok((Llid::DataStart, w))
    });
    assert_eq!(r, Ok(()));
    assert_eq!(p.free_space(), 0);

    let mut c = p.into_consumer();
    assert!(c.has_data());
    let out = c.consume_raw_with(|h, pl| {
        assert_eq!(h.llid, Llid::DataStart);
        assert_eq!(h.payload_length, 4);
        assert_eq!(pl, vec![1, 2, 3, 4]);
        Consume { consume: true, result: Ok(42u32) }
    });
    assert_eq!(out, Ok(42));
    assert!(!c.has_data());

    let mut p = c.into_producer();
    assert_eq!(p.free_space(), MIN_DATA_PAYLOAD_BUF as u8);
    let r = p.produce_dyn(0, |w: ByteWriter| Ok((Llid::DataCont, w)));
    assert_eq!(r, Ok(()));
    let mut c = p.into_consumer();
    let out = c.consume_raw_with(|h, pl| {
        assert_eq!(h.llid, Llid::DataCont);
        assert_eq!(h.payload_length, 0);
        assert!(pl.is_empty());
        Consume { consume: true, result: Ok(0u32) }
    });
    assert_eq!(out, Ok(0));
}

#[test]
fn roundtrip_all_payload_sizes() {
    for n in 0..=MIN_DATA_PAYLOAD_BUF {
        let q = SimpleQueue::new();
        let mut p = q.split();
        let bytes: Vec<u8> = (0..n).map(|i| (3 * i + 1) as u8).collect();
        let to_write = bytes.clone();
        let r = p.produce_dyn(n as u8, move |mut w: ByteWriter| {
            w.write_slice(&to_write)?;
            Ok((Llid::DataStart, w))
        });
        assert_eq!(r, Ok(()));
        let mut c = p.into_consumer();
        let expect = bytes.clone();
        let out = c.consume_raw_with(move |h, pl| {
            assert_eq!(h.llid, Llid::DataStart);
            assert_eq!(h.payload_length as usize, n);
            assert_eq!(pl, expect);
            Consume { consume: true, result: Ok(n) }
        });
        assert_eq!(out, Ok(n));
    }
}

#[test]
fn second_produce_fails_when_full() {
    let q = SimpleQueue::new();
    let mut p = q.split();
    let r = p.produce_dyn(1, |mut w: ByteWriter| {
        w.write_u8(9)?;
        Ok((Llid::Control, w))
    });
    assert_eq!(r, Ok(()));
    // Slot occupied: the second produce fails with end-of-capacity and the
    // callback never runs (the queued PDU stays exactly as it was).
    let r = p.produce_dyn(1, |mut w: ByteWriter| {
        w.write_u8(77)?;
        Ok((Llid::DataCont, w))
    });
    assert_eq!(r, Err(Error::Eof));
    assert_eq!(p.free_space(), 0);
    let mut c = p.into_consumer();
    let out = c.consume_raw_with(|h, pl| {
        assert_eq!(h.llid, Llid::Control);
        assert_eq!(pl, vec![9]);
        Consume { consume: true, result: Ok(()) }
    });
    assert_eq!(out, Ok(()));
}

#[test]
fn empty_queue_has_no_data() {
    let q = SimpleQueue::new();
    let mut c = q.split().into_consumer();
    assert!(!c.has_data());
    let out: Result<u8, Error> = c.consume_raw_with(|_h, _pl| Consume {
        consume: true,
        result: Ok(0),
    });
    assert_eq!(out, Err(Error::Eof));
}

#[test]
fn non_consuming_peek_leaves_slot() {
    let q = SimpleQueue::new();
    let mut p = q.split();
    let r = p.produce_dyn(3, |mut w: ByteWriter| {
        w.write_slice(&[10, 20, 30])?;
        Ok((Llid::DataCont, w))
    });
    assert_eq!(r, Ok(()));
    let mut c = p.into_consumer();

    let out = c.consume_raw_with(|h, pl| {
        assert_eq!(h.llid, Llid::DataCont);
        assert_eq!(pl, vec![10, 20, 30]);
        Consume { consume: false, result: Ok(1u8) }
    });
    assert_eq!(out, Ok(1));
    // The slot was only peeked: it is still there, identical.
    assert!(c.has_data());
    let out = c.consume_raw_with(|h, pl| {
        assert_eq!(h.llid, Llid::DataCont);
        assert_eq!(h.payload_length, 3);
        assert_eq!(pl, vec![10, 20, 30]);
        Consume { consume: true, result: Ok(2u8) }
    });
    assert_eq!(out, Ok(2));
    assert!(!c.has_data());
}

#[test]
fn consuming_peek_frees_slot() {
    let q = SimpleQueue::new();
    let mut p = q.split();
    let r = p.produce_dyn(1, |mut w: ByteWriter| {
        w.write_u8(5)?;
        Ok((Llid::DataStart, w))
    });
    assert_eq!(r, Ok(()));
    let mut c = p.into_consumer();
    let out = c.consume_raw_with(|_h, _pl| Consume { consume: true, result: Ok(()) });
    assert_eq!(out, Ok(()));
    assert!(!c.has_data());
    let mut p = c.into_producer();
    assert_eq!(p.free_space(), MIN_DATA_PAYLOAD_BUF as u8);
    let r = p.produce_dyn(1, |mut w: ByteWriter| {
        w.write_u8(6)?;
        Ok((Llid::DataStart, w))
    });
    assert_eq!(r, Ok(()));
}

#[test]
fn failing_build_callback_enqueues_nothing() {
    let q = SimpleQueue::new();
    let mut p = q.split();
    let r = p.produce_dyn(2, |mut w: ByteWriter| {
        w.write_u8(1)?;
        Err(Error::InvalidLength)
    });
    assert_eq!(r, Err(Error::InvalidLength));
    // Nothing was committed: the error propagated verbatim and the slot is
    // still free for a fresh produce.
    assert_eq!(p.free_space(), MIN_DATA_PAYLOAD_BUF as u8);
    let mut c = p.into_consumer();
    assert!(!c.has_data());
    let mut p = c.into_producer();
    let r = p.produce_dyn(1, |mut w: ByteWriter| {
        w.write_u8(2)?;
        Ok((Llid::DataCont, w))
    });
    assert_eq!(r, Ok(()));
}
