use piv_applet::data_response::DataResponseBuffer;

fn pattern(len: usize) -> Vec<u8> {
    (0..len).map(|i| (i % 251) as u8).collect()
}

#[test]
fn drain_reconstructs_a_600_byte_object() {
    let data = pattern(600);
    let mut buffer = DataResponseBuffer::new();
    buffer.set(&data);

    let mut gathered: Vec<u8> = Vec::new();

    let r1 = buffer.send();
    assert_eq!(r1.payload.len(), 255);
    assert_eq!(r1.status, 0x61FF); // 345 pending, reported capped at 255
    gathered.extend_from_slice(&r1.payload);

    let r2 = buffer.send();
    assert_eq!(r2.payload.len(), 255);
    assert_eq!(r2.status, 0x615A); // 90 pending
    gathered.extend_from_slice(&r2.payload);

    let r3 = buffer.send();
    assert_eq!(r3.payload.len(), 90);
    assert_eq!(r3.status, 0x9000);
    gathered.extend_from_slice(&r3.payload);

    assert_eq!(gathered, data);
}

#[test]
fn send_on_empty_buffer_is_idempotent() {
    let mut buffer = DataResponseBuffer::new();
    for _ in 0..5 {
        let r = buffer.send();
        assert_eq!(r.payload.len(), 0);
        assert_eq!(r.status, 0x9000);
    }
}

#[test]
fn send_after_drain_is_idempotent() {
    let mut buffer = DataResponseBuffer::new();
    buffer.set(&[1, 2, 3]);
    let r = buffer.send();
    assert_eq!(r.payload, vec![1, 2, 3]);
    assert_eq!(r.status, 0x9000);
    for _ in 0..3 {
        let again = buffer.send();
        assert_eq!(again.payload.len(), 0);
        assert_eq!(again.status, 0x9000);
    }
}

#[test]
fn set_of_empty_input_leaves_nothing_pending() {
    let mut buffer = DataResponseBuffer::new();
    buffer.set(&[]);
    let r = buffer.send();
    assert_eq!(r.payload.len(), 0);
    assert_eq!(r.status, 0x9000);
}

#[test]
fn exactly_one_window_needs_no_continuation() {
    let data = pattern(255);
    let mut buffer = DataResponseBuffer::new();
    buffer.set(&data);
    let r = buffer.send();
    assert_eq!(r.payload, data);
    assert_eq!(r.status, 0x9000);
}

#[test]
fn one_byte_over_the_window_is_paged() {
    let data = pattern(256);
    let mut buffer = DataResponseBuffer::new();
    buffer.set(&data);
    let r1 = buffer.send();
    assert_eq!(r1.payload.len(), 255);
    assert_eq!(r1.status, 0x6101);
    let r2 = buffer.send();
    assert_eq!(r2.payload, vec![data[255]]);
    assert_eq!(r2.status, 0x9000);
}

#[test]
fn set_truncates_to_capacity() {
    let data = pattern(1100);
    let mut buffer = DataResponseBuffer::new();
    buffer.set(&data);
    let mut gathered: Vec<u8> = Vec::new();
    loop {
        let r = buffer.send();
        gathered.extend_from_slice(&r.payload);
        if r.status == 0x9000 {
            break;
        }
    }
    assert_eq!(gathered.len(), 1024);
    assert_eq!(gathered, data[..1024].to_vec());
}

#[test]
fn set_replaces_prior_content_and_resets_the_cursor() {
    let mut buffer = DataResponseBuffer::new();
    buffer.set(&pattern(300));
    let first = buffer.send();
    assert_eq!(first.payload.len(), 255);
    buffer.set(&[7, 7, 7]);
    let r = buffer.send();
    assert_eq!(r.payload, vec![7, 7, 7]);
    assert_eq!(r.status, 0x9000);
}

#[test]
fn extend_appends_in_order() {
    let mut buffer = DataResponseBuffer::new();
    buffer.set(&[1, 2]);
    buffer.extend(&[3, 4, 5]);
    let r = buffer.send();
    assert_eq!(r.payload, vec![1, 2, 3, 4, 5]);
    assert_eq!(r.status, 0x9000);
}

#[test]
fn extend_keeps_only_what_fits() {
    let mut buffer = DataResponseBuffer::new();
    buffer.set(&pattern(1020));
    buffer.extend(&[1, 2, 3, 4, 5, 6, 7, 8]);
    let mut gathered: Vec<u8> = Vec::new();
    loop {
        let r = buffer.send();
        gathered.extend_from_slice(&r.payload);
        if r.status == 0x9000 {
            break;
        }
    }
    assert_eq!(gathered.len(), 1024);
    assert_eq!(&gathered[1020..], &[1, 2, 3, 4]);
}
