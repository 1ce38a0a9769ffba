use e1000::desc::{RxDesc, TxDesc};
use e1000::regs::is_valid_ring_size;

#[test]
fn desc_tx_layout_is_byte_exact() {
    let d = TxDesc {
        buf_addr: 0x1122_3344_5566_7788,
        length: 0x05DC,
        cso: 0xA1,
        cmd: 0x09,
        sta: 0x01,
        css: 0xB2,
        special: 0xC3D4,
    };
    assert_eq!(
        d.to_bytes(),
        vec![0x88, 0x77, 0x66, 0x55, 0x44, 0x33, 0x22, 0x11, 0xDC, 0x05, 0xA1, 0x09, 0x01, 0xB2, 0xD4, 0xC3]
    );
    assert_eq!(TxDesc::from_bytes(&d.to_bytes()), d);
}

#[test]
fn desc_rx_layout_is_byte_exact() {
    let d = RxDesc {
        buf_addr: 0x0000_0000_0010_4000,
        length: 64,
        checksum: 0xBEEF,
        status: 0x03,
        errors: 0x40,
        special: 0x0102,
    };
    assert_eq!(
        d.to_bytes(),
        vec![0x00, 0x40, 0x10, 0x00, 0x00, 0x00, 0x00, 0x00, 0x40, 0x00, 0xEF, 0xBE, 0x03, 0x40, 0x02, 0x01]
    );
    assert_eq!(RxDesc::from_bytes(&d.to_bytes()), d);
}

#[test]
fn desc_done_bit_read_from_device_bytes() {
    let mut bytes = vec![0u8; 16];
    assert!(!RxDesc::from_bytes(&bytes).is_done());
    bytes[12] = 0x01;
    bytes[8] = 64;
    let d = RxDesc::from_bytes(&bytes);
    assert!(d.is_done());
    assert_eq!(d.length, 64);
    bytes[12] = 0x02;
    assert!(!TxDesc::from_bytes(&bytes).is_done());
}

#[test]
fn ring_sizes_fit_the_length_register() {
    assert!(is_valid_ring_size(8));
    assert!(is_valid_ring_size(256));
    assert!(is_valid_ring_size(65528));
    assert!(!is_valid_ring_size(65536));
    assert!(!is_valid_ring_size(0));
    assert!(!is_valid_ring_size(12));
}
