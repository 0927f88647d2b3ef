use viper_client::channel::Channel;
use viper_client::command::{Command, CommandKind};

#[test]
fn test_channel_open() {
    let channel = Channel::new(&[0, 0], "INFO");
    channel.open();
}

#[test]
fn channel_frames_match_the_framer() {
    let channel = Channel::new(&[5, 6], "UCFG");
    assert_eq!(channel.control(), [5, 6]);
    assert_eq!(channel.open(), Command::channel(&String::from("UCFG"), &[5, 6], None));
    assert_eq!(channel.close(), Command::close(&[5, 6]));
    assert_eq!(
        channel.com(CommandKind::UCFG("all".to_string())),
        Command::for_kind(CommandKind::UCFG("all".to_string()), &[5, 6])
    );
    let open = channel.open();
    assert_eq!(&open[16..20], "UCFG".as_bytes());
    assert_eq!(&open[20..22], &[5, 6]);
}

#[test]
fn every_channel_name_opens_with_its_four_bytes() {
    for name in ["UAUT", "UCFG", "INFO", "FRCG", "FACT", "CTPP", "CSPB"] {
        let channel = Channel::new(&[0x31, 0x32], name);
        let open = channel.open();
        assert_eq!(open.len(), 23);
        assert_eq!(&open[8..16], &[0xcd, 0xab, 0x01, 0x00, 0x07, 0x00, 0x00, 0x00]);
        assert_eq!(&open[16..20], name.as_bytes());
        assert_eq!(&open[20..22], &[0x31, 0x32]);
        assert_eq!(open[22], 0);
        assert_eq!(&open[4..6], &[0, 0]);
        let close = channel.close();
        assert_eq!(&close[8..16], &[0xef, 0x01, 0x03, 0x00, 0x02, 0x00, 0x00, 0x00]);
        assert_eq!(&close[16..18], &[0x31, 0x32]);
        assert_eq!(&close[4..6], &[0, 0]);
    }
}
