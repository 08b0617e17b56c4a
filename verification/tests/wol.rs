use touls::wol::{build_magic_packet, decode_hex, mac_to_array, wake_on_lan};

#[test]
fn test_valid_mac_to_array() {
    let letter_mac = "aa:bb:cc:dd:ee:ff";
    assert_eq!(
        mac_to_array(letter_mac),
        Ok([0xaa, 0xbb, 0xcc, 0xdd, 0xee, 0xff])
    );

    let number_mac = "11:22:33:44:55:66";
    assert_eq!(
        mac_to_array(number_mac),
        Ok([0x11, 0x22, 0x33, 0x44, 0x55, 0x66])
    );

    let mixed_mac = "a7:8b:99:cc:d0:1e";
    assert_eq!(
        mac_to_array(mixed_mac),
        Ok([0xa7, 0x8b, 0x99, 0xcc, 0xd0, 0x1e])
    );

    let broadcast_mac = "ff:ff:ff:ff:ff:ff";
    assert_eq!(
        mac_to_array(broadcast_mac),
        Ok([0xff, 0xff, 0xff, 0xff, 0xff, 0xff])
    );
}

#[test]
fn test_invalid_mac_to_array() {
    let empty_string = "";
    assert!(mac_to_array(empty_string).is_err());

    let random_string = "test";
    assert!(mac_to_array(random_string).is_err());

    let wrong_format_1 = "aaa:bb:cc:dd:ee:ff";
    assert!(mac_to_array(wrong_format_1).is_err());

    let wrong_format_2 = "11::22:33:44:55:66";
    assert!(mac_to_array(wrong_format_2).is_err());

    let wrong_format_3 = "11:22:33";
    assert!(mac_to_array(wrong_format_3).is_err());

    let wrong_format_4 = "11:22:33:44:55:66:77";
    assert!(mac_to_array(wrong_format_4).is_err());

    let wrong_format_5 = "ll:aa:bb:zz:00:aa";
    assert!(mac_to_array(wrong_format_5).is_err());
}

#[test]
fn test_invalid_mac_error_text() {
    let err = mac_to_array("not a mac").unwrap_err();
    assert_eq!(err, "The given MAC address is not valid".to_string());
}

#[test]
fn test_decode_hex() {
    assert_eq!(decode_hex("00"), Some(0x00));
    assert_eq!(decode_hex("7f"), Some(0x7f));
    assert_eq!(decode_hex("FF"), Some(0xff));
    assert_eq!(decode_hex("a0"), Some(0xa0));
    assert_eq!(decode_hex(""), None);
    assert_eq!(decode_hex("f"), None);
    // Only the first two characters are read; the rest is ignored.
    assert_eq!(decode_hex("fff"), Some(0xff));
    assert_eq!(decode_hex("a7:"), Some(0xa7));
    assert_eq!(decode_hex("g0"), None);
    assert_eq!(decode_hex("0x41"), None);
}

#[test]
fn test_magic_packet_layout() {
    let packet = build_magic_packet([0x11, 0x22, 0x33, 0x44, 0x55, 0x66]).unwrap();
    assert_eq!(packet.len(), 102);
    for i in 0..6 {
        assert_eq!(packet[i], 0xff);
    }
    for rep in 0..16 {
        assert_eq!(
            &packet[6 + rep * 6..6 + (rep + 1) * 6],
            &[0x11, 0x22, 0x33, 0x44, 0x55, 0x66]
        );
    }
}

#[test]
fn test_wake_on_lan_packet() {
    let packet = wake_on_lan("aa:bb:cc:dd:ee:ff").unwrap();
    assert_eq!(&packet[0..6], &[0xff; 6]);
    assert_eq!(&packet[6..12], &[0xaa, 0xbb, 0xcc, 0xdd, 0xee, 0xff]);
    assert_eq!(&packet[96..102], &[0xaa, 0xbb, 0xcc, 0xdd, 0xee, 0xff]);

    assert!(wake_on_lan("aa:bb:cc:dd:ee").is_err());
}
