use kiwirecorder::sdr::kiwi::opening::{
    named_builder, open_any, open_in, ClientError, OpeningAction, OpeningStep, SndOpening,
};
use kiwirecorder::sdr::kiwi::{
    add, Endpoint, KiwiSdrBuilder, KiwiSdrBuilderConfig, KiwiSdrError, KiwiSdrSndClient,
};
use kiwirecorder::sdr::{AMTuning, AgcConfig, Frequency, GeneralTuning, SDRWrapper, Station};
use kiwirecorder::text::{capped_number, push_int, push_nat, starts_with};

fn builder(url: &str) -> KiwiSdrBuilder {
    KiwiSdrBuilder::new(Endpoint::parse(url).unwrap())
}

fn finish(opening: SndOpening) -> KiwiSdrSndClient {
    let next = match opening.advance(Ok(())) {
        Ok(OpeningStep::Continue(next)) => next,
        _ => panic!("not connected"),
    };
    match next.advance(Ok(())) {
        Ok(OpeningStep::Ready(client)) => client,
        _ => panic!("not logged in"),
    }
}

fn client() -> KiwiSdrSndClient {
    let opening = builder("ws://example.com:8073").with_name("kiwi").build_snd_in(7);
    finish(opening.unwrap())
}

fn url_of(opening: &SndOpening) -> String {
    match opening.action() {
        OpeningAction::Connect(url) => url,
        OpeningAction::Send(_) => panic!("connected already"),
    }
}

#[test]
fn adds() {
    assert_eq!(add(2, 2), 4);
    assert_eq!(add(usize::MAX, 0), usize::MAX);
}

#[test]
fn numerals() {
    let mut out = String::from("n=");
    push_int(&mut out, -20);
    out.push(',');
    push_int(&mut out, i64::MIN);
    out.push(',');
    push_nat(&mut out, u64::MAX);
    out.push(',');
    push_nat(&mut out, 0);
    assert_eq!(out, "n=-20,-9223372036854775808,18446744073709551615,0");
}

#[test]
fn numerals_read_back() {
    for n in [0u32, 9, 10, 12000, 4294967294] {
        let mut out = String::new();
        push_nat(&mut out, n as u64);
        assert_eq!(capped_number(&out, u32::MAX), Some(n));
    }
}

#[test]
fn numbers_are_capped() {
    assert_eq!(capped_number("0012", 100), Some(12));
    assert_eq!(capped_number("101", 100), Some(100));
    assert_eq!(capped_number("99999999999999999999999", u32::MAX), Some(u32::MAX));
    assert_eq!(capped_number("", 100), None);
    assert_eq!(capped_number("1a", 100), None);
    assert_eq!(capped_number("\u{663}", 100), None);
}

#[test]
fn prefixes() {
    assert!(starts_with("audio_init=0", "audio_init"));
    assert!(starts_with("h\u{e9}llo", "h\u{e9}"));
    assert!(starts_with("x", ""));
    assert!(!starts_with("audio", "audio_init"));
    assert!(!starts_with("Audio_init", "audio_init"));
}

#[test]
fn agc_command() {
    let agc = AgcConfig::new(false, false, -20, 6, 1000, 10);
    let expected = "SET agc=0 hang=0 thresh=-20 slope=6 decay=1000 manGain=10";
    assert_eq!(agc.to_string(), expected);
    assert_eq!(client().configure_agc(agc), expected);
    assert_eq!(
        AgcConfig::new(true, true, i16::MIN, 255, u32::MAX, 0).to_string(),
        "SET agc=1 hang=1 thresh=-32768 slope=255 decay=4294967295 manGain=0"
    );
}

#[test]
fn agc_commands_differ() {
    let one = AgcConfig::new(false, true, 1, 2, 3, 4).to_string();
    let other = AgcConfig::new(true, false, 1, 2, 3, 4).to_string();
    assert_ne!(one, other);
}

#[test]
fn am_command() {
    let station = Station::AM(AMTuning { bandwidth: 9000, freq: Frequency::from_khz(7200) });
    assert_eq!(station.to_message(), "SET mod=am low_cut=-4500 high_cut=4500 freq=7200");
    let odd = Station::AM(AMTuning { bandwidth: 5, freq: Frequency::from_khz(-3) });
    assert_eq!(odd.to_message(), "SET mod=am low_cut=-2 high_cut=2 freq=-3");
    let negative = Station::AM(AMTuning { bandwidth: -5, freq: Frequency::from_khz(0) });
    assert_eq!(negative.to_message(), "SET mod=am low_cut=2 high_cut=-2 freq=0");
    let widest = Station::AM(AMTuning { bandwidth: i32::MAX, freq: Frequency::from_khz(i32::MIN) });
    assert_eq!(
        widest.to_message(),
        "SET mod=am low_cut=-1073741823 high_cut=1073741823 freq=-2147483648"
    );
}

#[test]
fn whole_frequencies_print_as_numbers_do() {
    for khz in [i32::MIN, -1, 0, 1, 7200, i32::MAX] {
        let whole = Station::FM(GeneralTuning {
            low_cut: 0,
            high_cut: 0,
            freq: Frequency::from_khz(khz),
        });
        let printed = Station::FM(GeneralTuning {
            low_cut: 0,
            high_cut: 0,
            freq: Frequency::from_numeral(format!("{}", khz as f64)),
        });
        assert_eq!(whole.to_message(), printed.to_message());
    }
}

#[test]
fn general_commands() {
    let tuning = |low_cut: i32, high_cut: i32| GeneralTuning {
        low_cut,
        high_cut,
        freq: Frequency::from_numeral("14070.5".to_string()),
    };
    assert_eq!(
        Station::FM(tuning(-6000, 6000)).to_message(),
        "SET mod=fm low_cut=-6000 high_cut=6000 freq=14070.5"
    );
    assert_eq!(
        Station::LSB(tuning(-2700, -300)).to_message(),
        "SET mod=lsb low_cut=-2700 high_cut=-300 freq=14070.5"
    );
    assert_eq!(
        client().tune(Station::USB(tuning(300, 2700))),
        "SET mod=usb low_cut=300 high_cut=2700 freq=14070.5"
    );
}

#[test]
fn plain_commands() {
    let client = client();
    assert_eq!(client.set_compression(true), "SET compression=1");
    assert_eq!(client.set_compression(false), "SET compression=0");
    assert_eq!(client.set_callsign("N0CALL"), "SET ident_user=N0CALL");
    assert_eq!(client.set_location("JO62"), "SET geoloc=JO62");
    assert_eq!(client.send_keepalive(), "SET keepalive");
}

#[test]
fn all_commands_begin_with_set() {
    let client = client();
    for command in [
        client.set_compression(true),
        client.set_callsign(""),
        client.set_location(""),
        client.send_keepalive(),
        client.configure_agc(AgcConfig::new(true, true, 0, 0, 0, 0)),
    ] {
        assert!(command.starts_with("SET "));
    }
}

#[test]
fn failed_command_is_a_connection_error() {
    assert!(KiwiSdrSndClient::command_sent(Ok(())).is_ok());
    match KiwiSdrSndClient::command_sent(Err("broken pipe".to_string())) {
        Err(KiwiSdrError::ConnectionError(reason)) => assert_eq!(reason, "broken pipe"),
        _ => panic!("no connection error"),
    }
}

#[test]
fn login_messages() {
    let mut config = KiwiSdrBuilderConfig {
        endpoint: Endpoint::parse("ws://example.com").unwrap(),
        password: None,
        name: None,
    };
    assert_eq!(config.login_message(), "SET auth t=kiwi p=#");
    config.password = Some("secret".to_string());
    assert_eq!(config.login_message(), "SET auth t=kiwi p=secret");
    config.password = Some(String::new());
    assert_eq!(config.login_message(), "SET auth t=kiwi p=");
}

#[test]
fn endpoints_are_normalized() {
    let endpoint = Endpoint::parse("WS://Example.COM:8073/a/../b").unwrap();
    assert_eq!(endpoint.as_str(), "ws://example.com:8073/b");
    assert_eq!(Endpoint::parse("example").err().unwrap(), "relative URL without a base");
    assert_eq!(Endpoint::parse("ws://").err().unwrap(), "empty host");
}

#[test]
fn sound_endpoints() {
    let endpoint = Endpoint::parse("ws://user@example.com:8073/a/b?q=1#f").unwrap();
    let sound = endpoint.sound(1234).unwrap();
    assert_eq!(sound.as_str(), "ws://user@example.com:8073/kiwi/1234/SND");
    let file = Endpoint::parse("file:///C:/x").unwrap();
    assert!(file.sound(5).unwrap().as_str().ends_with("/kiwi/5/SND"));
    let odd = Endpoint::parse("web+demo:/.//not-a-host/").unwrap();
    assert!(odd.sound(6).unwrap().as_str().ends_with("/kiwi/6/SND"));
    let mail = Endpoint::parse("mailto:a@b.c").unwrap();
    assert_eq!(mail.sound(7).err().unwrap(), "relative URL with a cannot-be-a-base base");
}

#[test]
fn a_client_needs_a_name() {
    for opening in [
        builder("ws://example.com").build_snd_in(1),
        builder("ws://example.com").build_snd(),
        builder("ws://example.com").with_password(Some("p")).build_snd(),
    ] {
        match opening {
            Err(ClientError::Kiwi(KiwiSdrError::CannotBuild(reason))) => {
                assert_eq!(reason, "No name provided")
            }
            _ => panic!("built without a name"),
        }
    }
}

#[test]
fn a_client_needs_a_sound_endpoint() {
    match builder("mailto:a@b.c").with_name("n").build_snd() {
        Err(ClientError::NoSoundEndpoint(reason)) => {
            assert_eq!(reason, "relative URL with a cannot-be-a-base base")
        }
        _ => panic!("built without a sound endpoint"),
    }
}

#[test]
fn an_opening_takes_the_address_found() {
    let config = |name: Option<&str>| KiwiSdrBuilderConfig {
        endpoint: Endpoint::parse("ws://example.com").unwrap(),
        password: None,
        name: name.map(|n| n.to_string()),
    };
    let found = || Ok(Endpoint { url: "ws://elsewhere/".to_string() });
    let opening = KiwiSdrSndClient::from_builder(config(Some("n")), found()).unwrap();
    assert_eq!(url_of(&opening), "ws://elsewhere/");
    assert!(matches!(
        KiwiSdrSndClient::from_builder(config(None), found()),
        Err(ClientError::Kiwi(KiwiSdrError::CannotBuild(_)))
    ));
    match KiwiSdrSndClient::from_builder(config(Some("n")), Err("gone".to_string())) {
        Err(ClientError::NoSoundEndpoint(reason)) => assert_eq!(reason, "gone"),
        _ => panic!("opens nothing"),
    }
}

fn server_and_session(url: &str) -> (String, u32) {
    let (server, path) = url.split_once("/kiwi/").unwrap();
    (server.to_string(), path.strip_suffix("/SND").unwrap().parse().unwrap())
}

#[test]
fn a_sound_socket_is_on_the_same_server() {
    for (address, server) in [
        ("ws://kiwi.example:8073/old?x=1#y", "ws://kiwi.example:8073"),
        ("WSS://me:pw@Kiwi.Example", "wss://me:pw@kiwi.example"),
        ("http://[::1]:8073/a/../b", "http://[::1]:8073"),
        ("sdr://receiver?q", "sdr://receiver"),
    ] {
        let endpoint = Endpoint::parse(address).unwrap();
        let sound = endpoint.sound(42).unwrap();
        assert_eq!(sound.as_str(), format!("{}/kiwi/42/SND", server));
        let opening = KiwiSdrBuilder::new(endpoint).with_name("n").build_snd().unwrap();
        let (host, session) = server_and_session(&url_of(&opening));
        assert_eq!(host, server);
        assert!(session < 10000);
        let any = open_any(address, "n", &None).unwrap();
        assert_eq!(server_and_session(&url_of(&any)).0, server);
        let third = open_in(address, "n", &None, 3).unwrap();
        assert_eq!(url_of(&third), format!("{}/kiwi/3/SND", server));
    }
}

#[test]
fn openings_at_an_address() {
    let opening = open_in("ws://example.com", "n", &None, 3).unwrap();
    assert_eq!(url_of(&opening), "ws://example.com/kiwi/3/SND");
    assert_eq!(finish(opening).name(), "n");
    let any = open_any("ws://example.com", "n", &None).unwrap();
    assert!(url_of(&any).starts_with("ws://example.com/kiwi/"));
    assert!(matches!(
        open_in("nowhere", "n", &None, 3),
        Err(ClientError::InvalidEndpoint(_))
    ));
    assert!(matches!(
        open_any("mailto:a@b.c", "n", &None),
        Err(ClientError::NoSoundEndpoint(_))
    ));
}

#[test]
fn builders_with_a_name() {
    let endpoint = Endpoint::parse("ws://example.com");
    let builder = named_builder(endpoint, "n", &Some("pw".to_string())).ok().unwrap();
    let client = finish(builder.build_snd_in(1).unwrap());
    assert_eq!(client.name(), "n");
    match named_builder(Err("no URL".to_string()), "n", &None) {
        Err(ClientError::InvalidEndpoint(reason)) => assert_eq!(reason, "no URL"),
        _ => panic!("builds without an address"),
    }
}

#[test]
fn opening_connects_and_logs_in() {
    let opening = builder("ws://example.com:8073")
        .with_name("first")
        .with_password(Some("old"))
        .with_name("second")
        .with_password(Some("new"))
        .build_snd_in(42)
        .unwrap();
    assert_eq!(url_of(&opening), "ws://example.com:8073/kiwi/42/SND");
    let next = match opening.advance(Ok(())) {
        Ok(OpeningStep::Continue(next)) => next,
        _ => panic!("not connected"),
    };
    match next.action() {
        OpeningAction::Send(command) => assert_eq!(command, "SET auth t=kiwi p=new"),
        OpeningAction::Connect(_) => panic!("connects again"),
    }
    let client = match next.advance(Ok(())) {
        Ok(OpeningStep::Ready(client)) => client,
        _ => panic!("not logged in"),
    };
    assert_eq!(client.name(), "second");
    assert_eq!(client.get_sample_rate().unwrap(), 12000);
    assert_eq!(client.get_stats().unwrap().rssi_tenths, 0);
    assert!(!client.is_cancelled());
}

#[test]
fn opening_fails_with_the_reason() {
    let opening = |session: i32| builder("ws://example.com").with_name("n").build_snd_in(session);
    match opening(1).unwrap().advance(Err("refused".to_string())) {
        Err(KiwiSdrError::ConnectionError(reason)) => assert_eq!(reason, "refused"),
        _ => panic!("no connection error"),
    }
    let next = match opening(1).unwrap().advance(Ok(())) {
        Ok(OpeningStep::Continue(next)) => next,
        _ => panic!("not connected"),
    };
    match next.advance(Err("reset".to_string())) {
        Err(KiwiSdrError::SendError(reason)) => assert_eq!(reason, "reset"),
        _ => panic!("no send error"),
    }
}

#[test]
fn sessions_are_picked_among_ten_thousand() {
    let mut seen: Vec<u32> = Vec::new();
    for _ in 0..50 {
        let opening = builder("ws://example.com").with_name("n").build_snd().unwrap();
        let url = url_of(&opening);
        let rest = url.strip_prefix("ws://example.com/kiwi/").unwrap();
        let session: u32 = rest.strip_suffix("/SND").unwrap().parse().unwrap();
        assert!(session < 10000);
        if !seen.contains(&session) {
            seen.push(session);
        }
    }
    assert!(seen.len() > 1);
}

#[test]
fn wrapper_connects() {
    let station = || Station::AM(AMTuning { bandwidth: 9000, freq: Frequency::from_khz(7200) });
    let mut wrapper = SDRWrapper::new(
        "ws://example.com".to_string(),
        "w".to_string(),
        station(),
        Some("pw".to_string()),
    );
    assert!(wrapper.client().is_none());
    let opening = wrapper.connect_in(3).unwrap();
    assert_eq!(url_of(&opening), "ws://example.com/kiwi/3/SND");
    assert!(wrapper.connect().is_ok());
    assert_eq!(server_and_session(&url_of(&wrapper.connect().unwrap())).0, "ws://example.com");
    wrapper.connected(finish(opening));
    assert_eq!(wrapper.client().unwrap().name(), "w");
    let bad = SDRWrapper::new("nowhere".to_string(), "w".to_string(), station(), None);
    match bad.connect() {
        Err(ClientError::InvalidEndpoint(reason)) => {
            assert_eq!(reason, "relative URL without a base")
        }
        _ => panic!("connects to nowhere"),
    }
    assert!(matches!(bad.connect_in(0), Err(ClientError::InvalidEndpoint(_))));
}
