use std::str;
use viper_client::command::Command;
use viper_client::ctpp_channel::CTPPChannel;

#[test]
fn ctpp_channel_test_template() {
    let ctpp = CTPPChannel::new(&[1, 2]);
    let t = ctpp.template(
        &[0, 0, 0, 0, 0, 0, 0, 0],
        &String::from("SB0000062"),
        &String::from("SB000006"),
    );

    assert_eq!(&t[16..20], &[255, 255, 255, 255]);
    assert_eq!(str::from_utf8(&t[20..29]).unwrap(), "SB0000062");
    assert_eq!(str::from_utf8(&t[30..38]).unwrap(), "SB000006");
    assert_eq!(&t[29], &0);
    assert_eq!(&t[38..40], &[0, 0]);
}

#[test]
fn ctpp_channel_test_connect_open() {
    let ctpp = CTPPChannel::new(&[1, 2]);
    let conn = ctpp.open(&String::from("SB0000062"));

    assert_eq!(conn[2], 0x1e);
    assert_eq!(&conn[8..16], &[0xcd, 0xab, 0x01, 0x00, 0x07, 0x00, 0x00, 0x00]);
    assert_eq!(str::from_utf8(&conn[16..20]).unwrap(), "CTPP");
    assert_eq!(str::from_utf8(&conn[28..37]).unwrap(), "SB0000062");
    assert_eq!(conn[37], 0x00);
}

#[test]
fn ctpp_channel_test_connect_hs() {
    let ctpp = CTPPChannel::new(&[1, 2]);
    let conn = ctpp.connect_hs(&String::from("SB0000062"), &String::from("SB000006"));

    assert_eq!(&conn[2], &52);
    assert_eq!(&conn[8..10], &[192, 24]);
    assert_eq!(str::from_utf8(&conn[20..29]).unwrap(), "SB0000062");
    assert_eq!(str::from_utf8(&conn[40..49]).unwrap(), "SB0000062");
    assert_eq!(&conn[49], &0x00);
    assert_eq!(str::from_utf8(&conn[50..58]).unwrap(), "SB000006");
    assert_eq!(&conn[58..], &[0x00, 0x00]);
}

#[test]
fn ctpp_channel_test_ack() {
    let mut ctpp = CTPPChannel::new(&[1, 2]);
    let mask = ctpp.bitmask()[3];
    let conn = ctpp.ack(0x00, &String::from("SB0000062"), &String::from("SB000006"));

    assert_eq!(conn[13], mask + 1);
    assert_eq!(&conn[2], &32);
    assert_eq!(&conn[8..10], &[0, 24]);
    assert_eq!(str::from_utf8(&conn[20..29]).unwrap(), "SB0000062");
    assert_eq!(str::from_utf8(&conn[30..38]).unwrap(), "SB000006");

    let conn_2 = ctpp.ack(0x20, &String::from("SB0000062"), &String::from("SB000006"));

    assert_eq!(&conn_2[2], &32);
    assert_eq!(&conn_2[8..10], &[32, 24]);
    assert_eq!(str::from_utf8(&conn_2[20..29]).unwrap(), "SB0000062");
    assert_eq!(str::from_utf8(&conn_2[30..38]).unwrap(), "SB000006");
    // This is to test that the bitmask doesn't swap between
    // 0x00 and 0x20 calls
    assert_eq!(&conn_2[10..14], &conn[10..14]);
}

#[test]
fn test_confirm_handshake() {
    let ctpp = CTPPChannel::with_bitmask(&[1, 2], [0x42, 0x70, 0x2f, 0x50]);

    assert_eq!(ctpp.confirm_handshake(&[0x00, 0x18, 0xc2, 0x70, 0x50, 0x30]), false);

    assert_eq!(ctpp.confirm_handshake(&[0x60, 0x18, 0xc2, 0x70, 0x50, 0x30]), true);

    assert_eq!(ctpp.confirm_handshake(&[0x60, 0x18, 0xc1, 0x70, 0x50, 0x30]), false);
}

#[test]
fn ctpp_channel_test_link_actuators() {
    let mut ctpp = CTPPChannel::new(&[1, 2]);
    let conn = ctpp.link_actuators(&String::from("SB0000062"), &String::from("SB000006"));

    assert_eq!(&conn[2], &72);
    assert_eq!(&conn[8..10], &[192, 24]);
    assert_eq!(str::from_utf8(&conn[18..27]).unwrap(), "SB0000062");
    assert_eq!(&conn[27], &0);
    assert_eq!(str::from_utf8(&conn[28..36]).unwrap(), "SB000006");
    assert_eq!(str::from_utf8(&conn[44..53]).unwrap(), "SB0000062");
    assert_eq!(str::from_utf8(&conn[60..69]).unwrap(), "SB0000062");
    assert_eq!(&conn[69], &0);
    assert_eq!(str::from_utf8(&conn[70..78]).unwrap(), "SB000006");
}

fn in_range(bytes: &[u8]) -> bool {
    bytes.iter().all(|b| 0x01 <= *b && *b < 0x80)
}

#[test]
fn generated_bitmasks_stay_in_range() {
    for _ in 0..200 {
        let mut ctpp = CTPPChannel::new(&[1, 2]);
        assert_eq!(ctpp.control(), [1, 2]);
        assert!(in_range(&ctpp.bitmask()));
        let before = ctpp.bitmask();
        let frame = ctpp.link_actuators(&String::from("SB0000062"), &String::from("SB000006"));
        assert!(in_range(&ctpp.bitmask()));
        assert_eq!(&frame[10..14], &ctpp.bitmask());
        assert!(in_range(&frame[40..44]));
        let hs = ctpp.connect_hs(&String::from("SB0000062"), &String::from("SB000006"));
        assert!(in_range(&hs[18..20]));
        assert_eq!(&hs[10..14], &ctpp.bitmask());
        let _ = before;
    }
}

#[test]
fn handshake_frame_is_exact() {
    let ctpp = CTPPChannel::with_bitmask(&[1, 2], [0x42, 0x70, 0x2f, 0x50]);
    let f = ctpp.handshake_frame(&[0x11, 0x22], "SB0000062".as_bytes(), "SB000006".as_bytes());
    let mut expected: Vec<u8> = vec![0x00, 0x06, 52, 0, 1, 2, 0, 0];
    expected.extend_from_slice(&[0xc0, 0x18, 0x42, 0x70, 0x2f, 0x50, 0x00, 0x11, 0x00, 0x40]);
    expected.extend_from_slice(&[0x11, 0x22]);
    expected.extend_from_slice("SB0000062".as_bytes());
    expected.extend_from_slice(&[0x00, 0x10, 0x0e, 0x00, 0x00, 0x00, 0x00]);
    expected.extend_from_slice(&[0xff, 0xff, 0xff, 0xff]);
    expected.extend_from_slice("SB0000062".as_bytes());
    expected.push(0);
    expected.extend_from_slice("SB000006".as_bytes());
    expected.extend_from_slice(&[0, 0]);
    assert_eq!(f, expected);
    assert_eq!(f.len(), 60);
}

#[test]
fn ack_frame_is_exact_and_ratchets() {
    let mut ctpp = CTPPChannel::with_bitmask(&[1, 2], [0x42, 0x70, 0x2f, 0x50]);
    let first = ctpp.ack_frame(0x00, "SB0000062".as_bytes(), "SB000006".as_bytes());
    assert_eq!(ctpp.bitmask(), [0x42, 0x70, 0x2f, 0x51]);
    let mut expected: Vec<u8> = vec![0x00, 0x06, 32, 0, 1, 2, 0, 0];
    expected.extend_from_slice(&[0x00, 0x18, 0x42, 0x70, 0x2f, 0x51, 0x00, 0x00]);
    expected.extend_from_slice(&[0xff, 0xff, 0xff, 0xff]);
    expected.extend_from_slice("SB0000062".as_bytes());
    expected.push(0);
    expected.extend_from_slice("SB000006".as_bytes());
    expected.extend_from_slice(&[0, 0]);
    assert_eq!(first, expected);

    let second = ctpp.ack_frame(0x20, "SB0000062".as_bytes(), "SB000006".as_bytes());
    assert_eq!(ctpp.bitmask(), [0x42, 0x70, 0x2f, 0x51]);
    expected[8] = 0x20;
    assert_eq!(second, expected);
    assert_eq!(&first[10..14], &second[10..14]);
}

#[test]
fn tick_mask_adds_one_to_the_last_byte() {
    let mut ctpp = CTPPChannel::with_bitmask(&[1, 2], [1, 2, 3, 0x7f]);
    ctpp.tick_mask();
    assert_eq!(ctpp.bitmask(), [1, 2, 3, 0x80]);
    assert_eq!(ctpp.control(), [1, 2]);
}

#[test]
fn link_frame_is_exact() {
    let mut ctpp = CTPPChannel::with_bitmask(&[1, 2], [1, 1, 1, 1]);
    let f = ctpp.link_frame(
        [0x42, 0x70, 0x2f, 0x50],
        &[0x0a, 0x0b, 0x0c, 0x0d],
        "SB1000001".as_bytes(),
        "SB000006".as_bytes(),
    );
    assert_eq!(ctpp.bitmask(), [0x42, 0x70, 0x2f, 0x50]);
    let mut expected: Vec<u8> = vec![0x00, 0x06, 72, 0, 1, 2, 0, 0];
    expected.extend_from_slice(&[0xc0, 0x18, 0x42, 0x70, 0x2f, 0x50, 0x00, 0x28, 0x00, 0x01]);
    expected.extend_from_slice("SB1000001".as_bytes());
    expected.push(0);
    expected.extend_from_slice("SB000006".as_bytes());
    expected.extend_from_slice(&[0x00, 0x00, 0x01, 0x20]);
    expected.extend_from_slice(&[0x0a, 0x0b, 0x0c, 0x0d]);
    expected.extend_from_slice("SB1000001".as_bytes());
    expected.extend_from_slice(&[0x00, 0x49, 0x49]);
    expected.extend_from_slice(&[0xff, 0xff, 0xff, 0xff]);
    expected.extend_from_slice("SB1000001".as_bytes());
    expected.push(0);
    expected.extend_from_slice("SB000006".as_bytes());
    expected.extend_from_slice(&[0, 0]);
    assert_eq!(f, expected);
}

#[test]
fn short_and_long_addresses_overlay_the_template() {
    let ctpp = CTPPChannel::with_bitmask(&[1, 2], [1, 2, 3, 4]);
    // A short address leaves the filler of the template behind it.
    let f = ctpp.handshake_frame(&[5, 6], "AB".as_bytes(), "C".as_bytes());
    assert_eq!(&f[20..22], "AB".as_bytes());
    assert_eq!(&f[22..29], &[0xff; 7]);
    assert_eq!(&f[40..42], "AB".as_bytes());
    assert_eq!(f[50], 0x43);
    assert_eq!(&f[51..58], &[0xff; 7]);
    // A nine-byte second address reaches one byte into what follows it.
    let mut ctpp = CTPPChannel::with_bitmask(&[1, 2], [1, 2, 3, 4]);
    let f = ctpp.link_frame([1, 2, 3, 4], &[9, 9, 9, 9], "SB1000001".as_bytes(), "SB0000062".as_bytes());
    assert_eq!(&f[28..37], "SB0000062".as_bytes());
    assert_eq!(&f[37..40], &[0x00, 0x01, 0x20]);
    assert_eq!(&f[70..79], "SB0000062".as_bytes());
    assert_eq!(f[79], 0);
    assert!(CTPPChannel::fits("SB1000001".as_bytes(), "SB0000062".as_bytes()));
    assert!(!CTPPChannel::fits(&[0u8; 21], &[0u8; 1]));
    assert!(!CTPPChannel::fits(&[0u8; 1], &[0u8; 11]));
}

#[test]
fn set_bytes_overlays() {
    let mut t = vec![0xffu8; 6];
    CTPPChannel::set_bytes(&mut t, &[1, 2, 3], 2);
    assert_eq!(t, vec![0xff, 0xff, 1, 2, 3, 0xff]);
    CTPPChannel::set_bytes(&mut t, &[], 6);
    assert_eq!(t, vec![0xff, 0xff, 1, 2, 3, 0xff]);
}

#[test]
fn confirmation_cases() {
    let ctpp = CTPPChannel::with_bitmask(&[1, 2], [0x42, 0x70, 0x2f, 0x50]);
    assert!(ctpp.confirm(&[0x60, 0x18, 0xc2, 0x70, 0x50, 0x30, 0x99]));
    assert!(!ctpp.confirm(&[0x60, 0x18, 0xc2, 0x70, 0x50]));
    assert!(!ctpp.confirm(&[]));
    assert!(!ctpp.confirm(&[0x60, 0x18, 0xc2, 0x71, 0x50, 0x30]));
    assert!(!ctpp.confirm(&[0x60, 0x18, 0xc2, 0x70, 0x51, 0x30]));
    assert!(!ctpp.confirm(&[0x60, 0x18, 0xc2, 0x70, 0x50, 0x31]));
    assert!(!ctpp.confirm(&[0x60, 0x18, 0x42, 0x70, 0x50, 0x30]));
    let zero = CTPPChannel::with_bitmask(&[1, 2], [0x42, 0x70, 0x00, 0x50]);
    assert!(!zero.confirm(&[0x60, 0x18, 0xc2, 0x70, 0x50, 0x00]));
    assert!(zero.confirm(&[0x60, 0x18, 0xc2, 0x70, 0x50, 0x01]));
}

#[test]
fn open_and_close_frames() {
    let ctpp = CTPPChannel::with_bitmask(&[1, 2], [1, 2, 3, 4]);
    let open = ctpp.open(&String::from("SB0000062"));
    assert_eq!(open, Command::channel(&String::from("CTPP"), &[1, 2], Some("SB0000062".as_bytes())));
    assert_eq!(open, ctpp.open_frame("SB0000062".as_bytes()));
    assert_eq!(&open[20..28], &[1, 2, 0, 0, 10, 0, 0, 0]);
    let close = ctpp.close();
    assert_eq!(close[2], 10);
    assert_eq!(close[3], 0);
    assert_eq!(&close[8..16], &[0xef, 0x01, 0x03, 0x00, 0x02, 0x00, 0x00, 0x00]);
    assert_eq!(&close[16..18], &[1, 2]);
}
