use viper_client::client::ViperClient;
use viper_client::command::{Command, CommandKind};

#[test]
fn test_tick() {
    let mut client = ViperClient::new();

    let c = client.control();
    client.tick();

    // The first byte moves one ahead and starts over before 0x80.
    let expected = if c[0] + 1 == 0x80 { 0x01 } else { c[0] + 1 };
    assert_eq!(expected, client.control()[0]);
    assert_eq!(c[1], client.control()[1]);
}

#[test]
fn tick_moves_one_ahead() {
    let mut client = ViperClient::with_control([0x10, 0x20]).unwrap();
    let c = client.control();
    client.tick();
    assert_eq!(c[0] + 1, client.control()[0]);
    assert_eq!(client.control(), [0x11, 0x20]);
}

#[test]
fn tick_wraps_to_one() {
    let mut client = ViperClient::with_control([0x7e, 0x05]).unwrap();
    client.tick();
    assert_eq!(client.control(), [0x7f, 0x05]);
    client.tick();
    assert_eq!(client.control(), [0x01, 0x05]);
    client.tick();
    assert_eq!(client.control(), [0x02, 0x05]);
}

#[test]
fn control_after_many_allocations() {
    for c in [0x01u8, 0x02, 0x40, 0x7e, 0x7f] {
        let mut client = ViperClient::with_control([c, 0x33]).unwrap();
        for n in 1..=400usize {
            let channel = client.channel("INFO");
            let expected = ((c as usize - 1 + n) % 0x7f + 1) as u8;
            assert_eq!(channel.control(), [expected, 0x33]);
            assert_eq!(client.control(), [expected, 0x33]);
            assert_ne!(expected, 0);
            assert!(expected < 0x80);
        }
    }
}

#[test]
fn control_ids_out_of_range_are_refused() {
    assert!(ViperClient::with_control([0x00, 0x01]).is_none());
    assert!(ViperClient::with_control([0x01, 0x00]).is_none());
    assert!(ViperClient::with_control([0x80, 0x01]).is_none());
    assert!(ViperClient::with_control([0x01, 0x80]).is_none());
    assert!(ViperClient::with_control([0xff, 0xff]).is_none());
    assert!(ViperClient::with_control([0x01, 0x01]).is_some());
    assert!(ViperClient::with_control([0x7f, 0x7f]).is_some());
}

#[test]
fn new_clients_have_a_control_id_in_range() {
    for _ in 0..100 {
        let client = ViperClient::new();
        let c = client.control();
        assert!(0x01 <= c[0] && c[0] < 0x80);
        assert!(0x01 <= c[1] && c[1] < 0x80);
    }
}

#[test]
fn exchange_has_three_frames_on_one_fresh_channel() {
    let mut client = ViperClient::with_control([0x10, 0x20]).unwrap();
    let e = client.authorize("token".to_string());
    assert_eq!(client.control(), [0x11, 0x20]);
    assert_eq!(e.open, Command::channel(&String::from("UAUT"), &[0x11, 0x20], None));
    assert_eq!(
        e.command,
        Command::for_kind(CommandKind::UAUT("token".to_string()), &[0x11, 0x20])
    );
    assert_eq!(e.close, Command::close(&[0x11, 0x20]));
    assert_eq!(e.command.len(), 89);

    let e = client.configuration("all".to_string());
    assert_eq!(client.control(), [0x12, 0x20]);
    assert_eq!(&e.open[16..20], "UCFG".as_bytes());
    assert_eq!(&e.open[20..22], &[0x12, 0x20]);
    assert_eq!(
        e.command,
        Command::for_kind(CommandKind::UCFG("all".to_string()), &[0x12, 0x20])
    );
    assert_eq!(&e.close[16..18], &[0x12, 0x20]);

    let e = client.info();
    assert_eq!(&e.open[16..20], "INFO".as_bytes());
    assert_eq!(e.command, Command::for_kind(CommandKind::INFO, &[0x13, 0x20]));

    let e = client.face_recognition_params();
    assert_eq!(&e.open[16..20], "FRCG".as_bytes());
    assert_eq!(e.command, Command::for_kind(CommandKind::FRCG, &[0x14, 0x20]));

    let e = client.sign_up(&"me@example.org".to_string());
    assert_eq!(&e.open[16..20], "FACT".as_bytes());
    assert_eq!(
        e.command,
        Command::for_kind(CommandKind::ActivateUser("me@example.org".to_string()), &[0x15, 0x20])
    );

    let e = client.remove_all_users(&"me@example.org".to_string());
    assert_eq!(&e.open[16..20], "FACT".as_bytes());
    assert_eq!(
        e.command,
        Command::for_kind(
            CommandKind::RemoveAllUsers("me@example.org".to_string()),
            &[0x16, 0x20]
        )
    );
    assert_eq!(e.close, Command::close(&[0x16, 0x20]));
}

#[test]
fn channels_get_the_next_control_id() {
    let mut client = ViperClient::with_control([0x7f, 0x01]).unwrap();
    let a = client.channel("CSPB");
    let b = client.ctpp_channel();
    assert_eq!(a.control(), [0x01, 0x01]);
    assert_eq!(b.control(), [0x02, 0x01]);
    assert!(b.bitmask().iter().all(|x| 0x01 <= *x && *x < 0x80));
}
