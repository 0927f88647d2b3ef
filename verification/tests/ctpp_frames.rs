use std::str;
use viper_client::ctpp_channel::CTPPChannel;

#[test]
fn test_connect_open() {
    let ctpp = CTPPChannel::new(&[1, 2]);
    let conn = ctpp.open(&String::from("SB0000062"));

    assert_eq!(conn[2], 0x1e);
    assert_eq!(&conn[8..16], &[0xcd, 0xab, 0x01, 0x00, 0x07, 0x00, 0x00, 0x00]);
    assert_eq!(str::from_utf8(&conn[16..20]).unwrap(), "CTPP");
    assert_eq!(str::from_utf8(&conn[28..37]).unwrap(), "SB0000062");
    assert_eq!(conn[37], 0x00);
}

#[test]
fn test_connect_hs() {
    let ctpp = CTPPChannel::new(&[1, 2]);
    let conn = ctpp.connect_hs(&String::from("SB0000062"), &String::from("SB000006"));

    assert_eq!(&conn[2], &52);
    assert_eq!(&conn[8..10], &[192, 24]);
    assert_eq!(str::from_utf8(&conn[20..29]).unwrap(), "SB0000062");
    assert_eq!(str::from_utf8(&conn[40..49]).unwrap(), "SB0000062");
    assert_eq!(&conn[49], &0x00);
    assert_eq!(str::from_utf8(&conn[50..58]).unwrap(), "SB000006");
    assert_eq!(&conn[58..], &[0x00, 0x00]);
}

#[test]
fn test_ack() {
    let mut ctpp = CTPPChannel::new(&[1, 2]);
    let conn = ctpp.ack(0x00, &String::from("SB0000062"), &String::from("SB000006"));

    assert_eq!(&conn[2], &32);
    assert_eq!(&conn[8..10], &[0, 24]);
    assert_eq!(str::from_utf8(&conn[20..29]).unwrap(), "SB0000062");
    assert_eq!(str::from_utf8(&conn[30..38]).unwrap(), "SB000006");

    let conn_2 = ctpp.ack(0x20, &String::from("SB0000062"), &String::from("SB000006"));

    assert_eq!(&conn_2[2], &32);
    assert_eq!(&conn_2[8..10], &[32, 24]);
    assert_eq!(str::from_utf8(&conn_2[20..29]).unwrap(), "SB0000062");
    assert_eq!(str::from_utf8(&conn_2[30..38]).unwrap(), "SB000006");
    // This is to test that the bitmask doesn't swap between
    // 0x00 and 0x20 calls
    assert_eq!(&conn_2[10..14], &conn[10..14]);
}

#[test]
fn test_link_actuators() {
    let mut ctpp = CTPPChannel::new(&[1, 2]);
    let conn = ctpp.link_actuators(&String::from("SB0000062"), &String::from("SB000006"));

    assert_eq!(&conn[2], &72);
    assert_eq!(&conn[8..10], &[192, 24])
}
