use ble_peripheral::advertising::{
    advertising_data, build_advertising_data, build_scan_response, scan_response_data,
    AdvertisingError,
};

#[test]
fn advertising_payload_bytes() {
    let mut expected = vec![2u8, 0x01, 0x06, 3, 0x03, 0x0f, 0x18, 10, 0x09];
    expected.extend_from_slice(b"HelloRust");
    assert_eq!(advertising_data(), expected);
}

#[test]
fn scan_response_payload_bytes() {
    let mut expected = vec![17u8, 0x07];
    expected.extend_from_slice(&0x03b80e5a_ede8_4b33_a751_6ce34ec4c700_u128.to_le_bytes());
    assert_eq!(scan_response_data(), expected);
}

#[test]
fn payloads_over_legacy_size_are_refused() {
    let long_name = [b'x'; 23];
    assert_eq!(
        build_advertising_data(&long_name, &[0x180f]),
        Err(AdvertisingError::Oversize)
    );
    let fits = [b'x'; 22];
    assert_eq!(build_advertising_data(&fits, &[0x180f]).unwrap().len(), 31);
    assert_eq!(build_scan_response(&[1, 2]), Err(AdvertisingError::Oversize));
    assert_eq!(build_scan_response(&[]), Ok(vec![1, 0x07]));
    assert_eq!(
        build_advertising_data(b"ab", &[0x1234, 0xabcd]),
        Ok(vec![2, 1, 6, 5, 3, 0x34, 0x12, 0xcd, 0xab, 3, 9, b'a', b'b'])
    );
}
