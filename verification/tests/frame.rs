use hid_report::{Frame, HidError, Reserved};

#[test]
fn frame_new_keeps_bytes() {
    let frame = Frame::new(&[0x26, 0x3c, 0x02]).unwrap();
    assert_eq!(frame.as_ref(), &[0x26, 0x3c, 0x02]);
    assert_eq!(frame.prefix(), 0x26);
    assert_eq!(frame.data(), &[0x3c, 0x02]);
}

#[test]
fn frame_new_accepts_each_size() {
    assert_eq!(Frame::new(&[0xC0]).unwrap().data(), &[] as &[u8]);
    assert_eq!(Frame::new(&[0xC1, 7]).unwrap().data(), &[7]);
    assert_eq!(Frame::new(&[0xC2, 7, 8]).unwrap().data(), &[7, 8]);
    assert_eq!(Frame::new(&[0xC3, 7, 8, 9, 10]).unwrap().data(), &[7, 8, 9, 10]);
}

#[test]
fn frame_new_rejects_empty_input() {
    assert_eq!(Frame::new(&[]), Err(HidError::EmptyRawInput));
}

#[test]
fn frame_new_rejects_wrong_length() {
    assert_eq!(
        Frame::new(&[0x26, 0x3c]),
        Err(HidError::DataSizeNotMatch { expected: 2, provided: 1 })
    );
    assert_eq!(
        Frame::new(&[0x27, 1, 2, 3]),
        Err(HidError::DataSizeNotMatch { expected: 4, provided: 3 })
    );
    assert_eq!(
        Frame::new(&[0x24, 1]),
        Err(HidError::DataSizeNotMatch { expected: 0, provided: 1 })
    );
    assert_eq!(
        Frame::new(&[0x25, 1, 2, 3, 4, 5, 6]),
        Err(HidError::DataSizeNotMatch { expected: 1, provided: 6 })
    );
}

#[test]
fn frame_new_unchecked_keeps_bytes() {
    let frame = Frame::new_unchecked(&[0x95, 0x06]);
    assert_eq!(frame.as_ref(), &[0x95, 0x06]);
}

#[test]
fn frame_set_data_rewrites_size_bits() {
    let mut frame = Frame::new(&[0x24]).unwrap();
    frame.set_data(&[1]).unwrap();
    assert_eq!(frame.as_ref(), &[0x25, 1]);
    frame.set_data(&[1, 2]).unwrap();
    assert_eq!(frame.as_ref(), &[0x26, 1, 2]);
    frame.set_data(&[1, 2, 3, 4]).unwrap();
    assert_eq!(frame.as_ref(), &[0x27, 1, 2, 3, 4]);
    frame.set_data(&[]).unwrap();
    assert_eq!(frame.as_ref(), &[0x24]);
}

#[test]
fn set_data_then_data_gives_the_data_back() {
    let all: [&[u8]; 4] = [&[], &[0xAA], &[0xAA, 0xBB], &[0xAA, 0xBB, 0xCC, 0xDD]];
    for start in all {
        for data in all {
            let mut item = Reserved::new_unchecked(&[0xFC]);
            item.set_data(start).unwrap();
            item.set_data(data).unwrap();
            assert_eq!(item.data(), data);
            assert_eq!(item.prefix() & 0b1111_1100, 0xFC);
        }
    }
}

#[test]
fn set_data_rejects_other_sizes_and_changes_nothing() {
    let mut item = Reserved::new(&[0xFE, 1, 2]).unwrap();
    assert_eq!(item.set_data(&[1, 2, 3]).err(), Some(HidError::InvalidDataSize));
    assert_eq!(item.as_ref(), &[0xFE, 1, 2]);
    assert_eq!(item.set_data(&[1, 2, 3, 4, 5]).err(), Some(HidError::InvalidDataSize));
    assert_eq!(item.as_ref(), &[0xFE, 1, 2]);
    let mut frame = Frame::new(&[0x25, 9]).unwrap();
    assert_eq!(frame.set_data(&[0; 7]).err(), Some(HidError::InvalidDataSize));
    assert_eq!(frame.as_ref(), &[0x25, 9]);
}

#[test]
fn set_data_can_be_chained() {
    let mut item = Reserved::new(&[0xFC]).unwrap();
    item.set_data(&[1]).unwrap().set_data(&[2, 3]).unwrap();
    assert_eq!(item.as_ref(), &[0xFE, 2, 3]);
}

#[test]
fn data_mut_writes_into_the_item() {
    let mut item = Reserved::new(&[0xFE, 1, 2]).unwrap();
    item.data_mut()[1] = 9;
    assert_eq!(item.as_ref(), &[0xFE, 1, 9]);
    assert_eq!(item.data_mut().len(), 2);
    let mut bare = Reserved::new(&[0xFC]).unwrap();
    assert_eq!(bare.data_mut().len(), 0);
    let mut frame = Frame::new(&[0x27, 1, 2, 3, 4]).unwrap();
    frame.data_mut().copy_from_slice(&[5, 6, 7, 8]);
    assert_eq!(frame.as_ref(), &[0x27, 5, 6, 7, 8]);
}

#[test]
fn frames_are_equal_when_their_bytes_are() {
    let mut long = Frame::new(&[0x27, 1, 2, 3, 4]).unwrap();
    long.set_data(&[1]).unwrap();
    assert_eq!(long, Frame::new(&[0x25, 1]).unwrap());
    assert_ne!(long, Frame::new(&[0x25, 2]).unwrap());
    assert_ne!(long, Frame::new(&[0x26, 1, 0]).unwrap());
    let mut reserved = Reserved::new(&[0xFE, 1, 2]).unwrap();
    reserved.set_data(&[9]).unwrap();
    assert_eq!(reserved, Reserved::new(&[0xFD, 9]).unwrap());
}

#[test]
fn reserved_new_rejects_empty_input() {
    assert_eq!(Reserved::new(&[]), Err(HidError::EmptyRawInput));
}

#[test]
fn reserved_new_rejects_wrong_length() {
    assert_eq!(
        Reserved::new(&[0xFD]),
        Err(HidError::DataSizeNotMatch { expected: 1, provided: 0 })
    );
}

#[test]
fn reserved_accepts_any_prefix() {
    for prefix in 0..=255u8 {
        let size = [0usize, 1, 2, 4][(prefix & 0b11) as usize];
        let mut raw = vec![prefix];
        raw.resize(size + 1, 0x5A);
        let item = Reserved::new(&raw).unwrap();
        assert_eq!(item.prefix(), prefix);
        assert_eq!(item.as_ref(), &raw[..]);
        assert_eq!(item.data(), &raw[1..]);
        assert_eq!(item.to_string(), "Reserved");
    }
}
