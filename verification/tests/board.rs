use picoha_io::board::{
    slot_borrow, slot_replace, take_singleton, USB_MANUFACTURER_ID, USB_PRODUCT_ID,
    USB_SERIAL_NUMBER,
};
use picoha_io::serial_rx::{RxBuffer, SerialRead, RX_CAPACITY};

#[test]
fn peripherals_are_handed_out_once() {
    let mut taken = false;
    assert!(take_singleton(&mut taken));
    assert!(taken);
    assert!(!take_singleton(&mut taken));
    assert!(!take_singleton(&mut taken));
}

#[test]
fn slot_gives_back_what_was_put() {
    let mut slot: Option<u32> = None;
    assert_eq!(slot_borrow(&mut slot), None);
    slot_replace(&mut slot, 7);
    slot_replace(&mut slot, 9);
    assert_eq!(slot_borrow(&mut slot), Some(9));
    assert_eq!(slot_borrow(&mut slot), None);
}

#[test]
fn usb_identity() {
    assert_eq!(USB_MANUFACTURER_ID, 0x16c0);
    assert_eq!(USB_PRODUCT_ID, 0x05e1);
    assert_eq!(USB_SERIAL_NUMBER, "TEST_123456789");
}

#[test]
fn received_bytes_are_kept_in_order() {
    let mut buf = RxBuffer::new();
    assert!(buf.as_slice().is_empty());
    let chunk = [1u8, 2, 3, 4, 5];
    assert_eq!(buf.store_serial_read(&chunk, SerialRead::Received(3)), Ok(()));
    assert_eq!(buf.as_slice(), &[1, 2, 3]);
    assert_eq!(buf.store_serial_read(&chunk, SerialRead::Received(5)), Ok(()));
    assert_eq!(buf.as_slice(), &[1, 2, 3, 1, 2, 3, 4, 5]);
}

#[test]
fn failed_or_empty_reads_change_nothing() {
    let mut buf = RxBuffer::new();
    let chunk = [9u8; 64];
    assert_eq!(buf.store_serial_read(&chunk, SerialRead::Failed), Ok(()));
    assert_eq!(buf.store_serial_read(&chunk, SerialRead::Received(0)), Ok(()));
    assert!(buf.as_slice().is_empty());
}

#[test]
fn overflowing_read_is_refused_whole() {
    let mut buf = RxBuffer::new();
    let chunk = [7u8; 64];
    for _ in 0..3 {
        assert_eq!(buf.store_serial_read(&chunk, SerialRead::Received(64)), Ok(()));
    }
    assert_eq!(buf.as_slice().len(), 192);
    assert_eq!(buf.store_serial_read(&chunk, SerialRead::Received(64)), Err(()));
    assert_eq!(buf.as_slice().len(), 192);
    assert_eq!(buf.store_serial_read(&chunk, SerialRead::Received(63)), Ok(()));
    assert_eq!(buf.as_slice().len(), RX_CAPACITY);
    assert_eq!(buf.store_serial_read(&chunk, SerialRead::Received(1)), Err(()));
    assert_eq!(buf.as_slice().len(), RX_CAPACITY);
}
