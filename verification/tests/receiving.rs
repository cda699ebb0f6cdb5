use kiwirecorder::sdr::kiwi::audio::{
    announces_audio, parse_audio_init, rate_from_groups, AudioInitError,
};
use kiwirecorder::sdr::kiwi::client::{MessageError, Reaction, ServerMessage};
use kiwirecorder::sdr::kiwi::frame::{decode_frame, decode_samples, FrameError, ServerFrame};
use kiwirecorder::sdr::kiwi::opening::OpeningStep;
use kiwirecorder::sdr::kiwi::{Endpoint, KiwiSdrBuilder, KiwiSdrError, KiwiSdrSndClient};

fn client() -> KiwiSdrSndClient {
    let endpoint = Endpoint::parse("ws://example.com").unwrap();
    let opening = KiwiSdrBuilder::new(endpoint).with_name("kiwi").build_snd_in(1).unwrap();
    let next = match opening.advance(Ok(())) {
        Ok(OpeningStep::Continue(next)) => next,
        _ => panic!("not connected"),
    };
    match next.advance(Ok(())) {
        Ok(OpeningStep::Ready(client)) => client,
        _ => panic!("not logged in"),
    }
}

fn text_frame(text: &str) -> Vec<u8> {
    let mut data = b"MSG ".to_vec();
    data.extend_from_slice(text.as_bytes());
    data
}

fn sound_frame(flags: u8, sequence: u32, smeter: u16, samples: &[i16]) -> Vec<u8> {
    let mut data = b"SND".to_vec();
    data.push(flags);
    data.extend_from_slice(&sequence.to_le_bytes());
    data.extend_from_slice(&smeter.to_be_bytes());
    for sample in samples {
        data.extend_from_slice(&sample.to_le_bytes());
    }
    data
}

const ANNOUNCEMENT: &str = "audio_init=0 audio_rate=12000 sample_rate=11998.957";

#[test]
fn short_frames_are_refused() {
    for data in [&b""[..], b"M", b"SN", b"MSG", b"SND", b"SND123456"] {
        assert!(matches!(decode_frame(data), Err(FrameError::TooShort)));
    }
}

#[test]
fn codes_have_to_be_text() {
    assert!(matches!(decode_frame(&[0xff, 0x00, 0x00]), Err(FrameError::CodeNotText)));
    assert!(matches!(decode_frame(&[0x41, 0xc3, 0x28, 0x00]), Err(FrameError::CodeNotText)));
}

#[test]
fn unknown_codes_are_passed_over() {
    assert!(matches!(decode_frame(b"W/F"), Ok(ServerFrame::Unknown)));
    assert!(matches!(decode_frame(b"EXT something"), Ok(ServerFrame::Unknown)));
    assert!(matches!(decode_frame("\u{20ac}".as_bytes()), Ok(ServerFrame::Unknown)));
    assert!(matches!(decode_frame(b"msg x"), Ok(ServerFrame::Unknown)));
}

#[test]
fn texts_are_decoded() {
    match decode_frame(&text_frame("h\u{e9}llo \u{20ac}")) {
        Ok(ServerFrame::Text(text)) => assert_eq!(text, "h\u{e9}llo \u{20ac}"),
        _ => panic!("no text"),
    }
    match decode_frame(b"MSG\xff") {
        Ok(ServerFrame::Text(text)) => assert_eq!(text, ""),
        _ => panic!("no text"),
    }
    assert!(matches!(decode_frame(b"MSG \xff"), Err(FrameError::BodyNotText)));
}

#[test]
fn sound_is_decoded() {
    let samples = [0i16, 1, -1, 258, i16::MAX, i16::MIN];
    match decode_frame(&sound_frame(3, 0x01020304, 0x0506, &samples)) {
        Ok(ServerFrame::Sound(block)) => {
            assert_eq!(block.flags, 3);
            assert_eq!(block.sequence, 0x01020304);
            assert_eq!(block.smeter, 0x0506);
            assert_eq!(block.samples, samples);
        }
        _ => panic!("no sound"),
    }
    match decode_frame(&sound_frame(0, 0, 0, &[])) {
        Ok(ServerFrame::Sound(block)) => assert!(block.samples.is_empty()),
        _ => panic!("no sound"),
    }
}

#[test]
fn an_odd_byte_is_no_sample() {
    assert_eq!(decode_samples(&[1, 2, 3]), vec![0x0201]);
    assert_eq!(decode_samples(&[1]), Vec::<i16>::new());
    assert_eq!(decode_samples(&[0, 0x80, 0xff, 0xff]), vec![i16::MIN, -1]);
}

#[test]
fn announcements_are_recognized() {
    assert!(announces_audio(ANNOUNCEMENT));
    assert!(announces_audio("audio_initial"));
    assert!(!announces_audio(" audio_init=0"));
    assert!(!announces_audio("audio"));
}

#[test]
fn rates_are_read() {
    assert_eq!(parse_audio_init(ANNOUNCEMENT), Ok(12000));
    assert_eq!(parse_audio_init("audio_init=1  audio_rate=8000\tsample_rate=.5 rest"), Ok(8000));
    assert_eq!(parse_audio_init("audio_init=1 audio_rate=007 sample_rate=5."), Ok(7));
    assert_eq!(
        parse_audio_init("audio_init audio_init=1 audio_rate=9 sample_rate=1"),
        Ok(9)
    );
    assert_eq!(
        parse_audio_init("audio_init=1 audio_rate=4294967294 sample_rate=1"),
        Ok(4294967294)
    );
    assert_eq!(
        parse_audio_init("audio_init=1 audio_rate=99999999999999999999 sample_rate=1"),
        Ok(u32::MAX)
    );
}

#[test]
fn rates_agree_with_float_conversion() {
    for digits in ["0", "12000", "4294967295", "4294967296", "9007199254740993", "1"] {
        let text = format!("audio_init=0 audio_rate={} sample_rate=1", digits);
        let rate = digits.parse::<f64>().unwrap().ceil() as u32;
        assert_eq!(parse_audio_init(&text), Ok(rate));
    }
}

#[test]
fn bad_announcements_are_refused() {
    assert_eq!(parse_audio_init("audio_init=1 audio_rate=2"), Err(AudioInitError::NoMatch));
    assert_eq!(parse_audio_init("audio_init=x"), Err(AudioInitError::NoMatch));
    let refused = |text: &str| parse_audio_init(text).err().unwrap();
    assert_eq!(
        refused("audio_init=32768 audio_rate=1 sample_rate=1"),
        AudioInitError::BadAudioInit
    );
    assert_eq!(
        refused("audio_init=\u{663} audio_rate=1 sample_rate=1"),
        AudioInitError::BadAudioInit
    );
    assert_eq!(
        refused("audio_init=1 audio_rate=\u{663} sample_rate=1"),
        AudioInitError::BadAudioRate
    );
    for sample in [".", "1.2.3", "\u{663}"] {
        let text = format!("audio_init=32767 audio_rate=1 sample_rate={}", sample);
        assert_eq!(refused(&text), AudioInitError::BadSampleRate);
        assert!(sample.parse::<f64>().is_err());
    }
}

#[test]
fn groups_give_the_rate() {
    let groups = |a: &str, b: &str, c: &str| Some((a.to_string(), b.to_string(), c.to_string()));
    assert_eq!(rate_from_groups(&None), Err(AudioInitError::NoMatch));
    assert_eq!(rate_from_groups(&groups("0", "12000", "11998.9")), Ok(12000));
    assert_eq!(rate_from_groups(&groups("32767", "5", "1")), Ok(5));
    assert_eq!(
        rate_from_groups(&groups("32768", "x", "x")),
        Err(AudioInitError::BadAudioInit)
    );
    assert_eq!(rate_from_groups(&groups("", "1", "1")), Err(AudioInitError::BadAudioInit));
    assert_eq!(rate_from_groups(&groups("1", "x", "x")), Err(AudioInitError::BadAudioRate));
    assert_eq!(rate_from_groups(&groups("1", "1", "x")), Err(AudioInitError::BadSampleRate));
    assert_eq!(rate_from_groups(&groups("1", "1", "")), Err(AudioInitError::BadSampleRate));
}

#[test]
fn announcement_starts_the_client() {
    let mut client = client();
    let text = "audio_init=0 audio_rate=20250 sample_rate=20248.1";
    let reactions = client.on_message(ServerMessage::Binary(text_frame(text))).unwrap();
    assert_eq!(reactions.len(), 3);
    match &reactions[0] {
        Reaction::Send(command) => assert_eq!(command, "SET AR OK in=12000 out=44100"),
        _ => panic!("no answer"),
    }
    match &reactions[1] {
        Reaction::Send(command) => assert_eq!(command, "SET squelch=0 param=0.00"),
        _ => panic!("no squelch"),
    }
    assert!(matches!(reactions[2], Reaction::NotifyStart));
    assert_eq!(client.get_sample_rate().unwrap(), 20250);
    assert_eq!(client.get_stats().unwrap().rssi_tenths, 0);
}

#[test]
fn a_rate_starts_the_client() {
    let mut client = client();
    assert_eq!(client.on_announcement(Ok(8000)).unwrap().len(), 3);
    assert_eq!(client.get_sample_rate().unwrap(), 8000);
    let refused = client.on_announcement(Err(AudioInitError::NoMatch));
    assert!(matches!(refused, Err(AudioInitError::NoMatch)));
    assert_eq!(client.get_sample_rate().unwrap(), 8000);
}

#[test]
fn a_copy_goes_its_own_way() {
    let mut client = client();
    assert_eq!(client.on_announcement(Ok(8000)).unwrap().len(), 3);
    let copy = client.clone();
    assert!(client.on_message(ServerMessage::Close).is_ok());
    assert!(client.is_cancelled());
    assert_eq!(copy.get_sample_rate().unwrap(), 8000);
    assert!(!copy.is_cancelled());
}

#[test]
fn sound_is_delivered() {
    let mut client = client();
    let data = sound_frame(0, 1, 470, &[5, -5]);
    let reactions = client.on_message(ServerMessage::Binary(data)).unwrap();
    assert_eq!(reactions.len(), 1);
    match &reactions[0] {
        Reaction::Deliver(samples) => assert_eq!(samples, &vec![5i16, -5]),
        _ => panic!("no sound"),
    }
    assert_eq!(client.get_stats().unwrap().rssi_tenths, -800);
    assert_eq!(client.get_sample_rate().unwrap(), 12000);
}

#[test]
fn signal_strength_in_tenths() {
    let mut client = client();
    for (smeter, tenths) in [(0u16, -1270i32), (1270, 0), (65535, 64265)] {
        let data = sound_frame(0, 0, smeter, &[]);
        assert!(client.on_message(ServerMessage::Binary(data)).is_ok());
        assert_eq!(client.get_stats().unwrap().rssi_tenths, tenths);
    }
}

#[test]
fn other_messages_change_nothing() {
    let mut client = client();
    for message in [
        ServerMessage::Failure("reset".to_string()),
        ServerMessage::Ping,
        ServerMessage::Other,
        ServerMessage::Binary(b"W/F".to_vec()),
        ServerMessage::Binary(text_frame("version_maj=1")),
    ] {
        assert!(client.on_message(message).unwrap().is_empty());
        assert_eq!(client.get_sample_rate().unwrap(), 12000);
        assert_eq!(client.get_stats().unwrap().rssi_tenths, 0);
        assert!(!client.is_cancelled());
    }
}

#[test]
fn bad_messages_are_refused() {
    let mut first = client();
    let short = first.on_message(ServerMessage::Binary(b"SN".to_vec()));
    assert!(matches!(short, Err(MessageError::Frame(FrameError::TooShort))));
    let mut second = client();
    let bad = second.on_message(ServerMessage::Binary(text_frame("audio_init=")));
    assert!(matches!(bad, Err(MessageError::Audio(AudioInitError::NoMatch))));
    assert_eq!(second.get_sample_rate().unwrap(), 12000);
    let mut third = client();
    let frame = decode_frame(&text_frame("audio_initial")).ok().unwrap();
    assert!(matches!(third.on_frame(frame), Err(AudioInitError::NoMatch)));
    assert!(!first.is_listening() && !second.is_listening() && !third.is_listening());
}

#[test]
fn a_close_behind_a_bad_message_is_not_heard() {
    let mut client = client();
    assert!(client.is_listening());
    assert!(client.on_message(ServerMessage::Binary(Vec::new())).is_err());
    assert!(!client.is_listening());
    assert!(client.on_message(ServerMessage::Close).unwrap().is_empty());
    assert!(!client.is_cancelled());
    assert_eq!(client.keepalive_due(), Some("SET keepalive".to_string()));
}

#[test]
fn a_close_in_front_of_a_bad_message_is_heard() {
    let mut client = client();
    assert_eq!(client.on_message(ServerMessage::Close).unwrap().len(), 1);
    assert!(client.is_listening());
    assert!(client.on_message(ServerMessage::Binary(b"MSG".to_vec())).is_err());
    assert!(!client.is_listening());
    assert!(client.is_cancelled());
}

#[test]
fn nothing_is_taken_in_after_a_bad_message() {
    let mut client = client();
    client.on_message(ServerMessage::Binary(sound_frame(0, 1, 470, &[5]))).unwrap();
    assert!(client.on_message(ServerMessage::Binary(text_frame("audio_init"))).is_err());
    let sound = sound_frame(0, 2, 500, &[6]);
    assert!(client.on_message(ServerMessage::Binary(sound.clone())).unwrap().is_empty());
    assert!(client.on_frame(decode_frame(&sound).ok().unwrap()).unwrap().is_empty());
    assert!(client.on_announcement(Ok(8000)).unwrap().is_empty());
    assert!(client.on_announcement(Err(AudioInitError::NoMatch)).unwrap().is_empty());
    let announcement = text_frame(ANNOUNCEMENT);
    assert!(client.on_message(ServerMessage::Binary(announcement)).unwrap().is_empty());
    assert_eq!(client.get_stats().unwrap().rssi_tenths, -800);
    assert_eq!(client.get_sample_rate().unwrap(), 12000);
    assert!(!client.clone().is_listening());
}

#[test]
fn a_failed_answer_ends_the_listening() {
    let mut client = client();
    let announcement = text_frame("audio_init=0 audio_rate=8000 sample_rate=8000.0");
    assert_eq!(client.on_message(ServerMessage::Binary(announcement)).unwrap().len(), 3);
    client.answer_failed();
    assert!(!client.is_listening());
    assert!(client.on_message(ServerMessage::Close).unwrap().is_empty());
    assert!(!client.is_cancelled());
    assert_eq!(client.get_sample_rate().unwrap(), 8000);
}

#[test]
fn blocks_come_through_in_order() {
    let mut client = client();
    let messages = vec![
        ServerMessage::Binary(sound_frame(0, 1, 0, &[1, 2])),
        ServerMessage::Ping,
        ServerMessage::Binary(sound_frame(0, 2, 0, &[])),
        ServerMessage::Failure("lost".to_string()),
        ServerMessage::Binary(text_frame(ANNOUNCEMENT)),
        ServerMessage::Binary(sound_frame(0, 3, 0, &[3])),
        ServerMessage::Binary(b"SND".to_vec()),
        ServerMessage::Binary(sound_frame(0, 4, 0, &[4])),
    ];
    let mut blocks: Vec<Vec<i16>> = Vec::new();
    for message in messages {
        for reaction in client.on_message(message).unwrap_or_default() {
            if let Reaction::Deliver(samples) = reaction {
                blocks.push(samples);
            }
        }
    }
    assert_eq!(blocks, vec![vec![1, 2], vec![], vec![3]]);
}

#[test]
fn closing_is_final() {
    let mut client = client();
    assert_eq!(client.keepalive_due(), Some("SET keepalive".to_string()));
    let reactions = client.on_message(ServerMessage::Close).unwrap();
    assert_eq!(reactions.len(), 1);
    assert!(matches!(reactions[0], Reaction::Cancel));
    assert!(client.is_cancelled());
    assert_eq!(client.keepalive_due(), None);
    assert!(client.on_message(ServerMessage::Binary(text_frame(ANNOUNCEMENT))).is_ok());
    assert!(client.on_message(ServerMessage::Ping).is_ok());
    assert!(client.is_cancelled());
    assert_eq!(client.name(), "kiwi");
}

#[test]
fn sound_ends_with_the_connection() {
    assert_eq!(KiwiSdrSndClient::get_sound_data(Some(vec![1, 2])).unwrap(), vec![1, 2]);
    assert!(matches!(
        KiwiSdrSndClient::get_sound_data(None),
        Err(KiwiSdrError::ConnectionClosed)
    ));
}
