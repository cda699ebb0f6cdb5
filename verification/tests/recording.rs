use kiwirecorder::monitor::{
    check_station, plan_recording, Config, ConfigError, RunningTasks, SampleFormat, StationAction,
    StationEvent, StationPhase, WavFormat,
};
use kiwirecorder::recorder::{bracketed, RecorderError, SDRRecorder, WebSdrConfig, WebSdrScraperType};
use kiwirecorder::sdr::kiwi::client::ServerMessage;
use kiwirecorder::sdr::kiwi::opening::{ClientError, OpeningAction, OpeningStep, SndOpening};
use kiwirecorder::sdr::kiwi::{Endpoint, KiwiSdrError, KiwiSdrSndClient};

fn station(name: &str, endpoint: &str) -> WebSdrConfig {
    WebSdrConfig {
        scraper_type: WebSdrScraperType::KiwiSDR,
        name: name.to_string(),
        endpoint: endpoint.to_string(),
        password: None,
        frequency: 7200,
        bandwidth: 9000,
    }
}

fn config(endpoints: &[&str]) -> Config {
    Config {
        data_dir: "data".to_string(),
        callsign: "N0CALL".to_string(),
        location: "JO62".to_string(),
        stations: endpoints.iter().map(|e| station("s", e)).collect(),
    }
}

fn finish(opening: SndOpening) -> KiwiSdrSndClient {
    let next = match opening.advance(Ok(())) {
        Ok(OpeningStep::Continue(next)) => next,
        _ => panic!("not connected"),
    };
    match next.advance(Ok(())) {
        Ok(OpeningStep::Ready(client)) => client,
        _ => panic!("not logged in"),
    }
}

fn client() -> KiwiSdrSndClient {
    finish(station("s", "ws://example.com").create_client_in(1).unwrap())
}

#[test]
fn configurations_are_checked() {
    assert_eq!(config(&[]).validate(), Ok(()));
    assert_eq!(config(&["ws://a", "http://b:8073/"]).validate(), Ok(()));
    assert_eq!(
        config(&["ws://a", "nowhere", "also nowhere"]).validate(),
        Err(ConfigError::InvalidUrl(1))
    );
    assert_eq!(config(&[""]).validate(), Err(ConfigError::InvalidUrl(0)));
}

#[test]
fn a_station_is_checked_by_its_address() {
    let kind = WebSdrScraperType::KiwiSDR;
    assert_eq!(check_station(kind, &Endpoint::parse("ws://a"), 4), None);
    let bad = check_station(kind, &Err("no URL".to_string()), 4);
    assert_eq!(bad, Some(ConfigError::InvalidUrl(4)));
}

#[test]
fn checked_stations_open() {
    let good = config(&["ws://a", "http://b:8073/"]);
    assert!(good.validate().is_ok());
    for station in &good.stations {
        assert!(station.create_client().is_ok());
    }
    match good.stations[1].create_client().unwrap().action() {
        OpeningAction::Connect(url) => assert!(url.starts_with("http://b:8073/kiwi/")),
        OpeningAction::Send(_) => panic!("connected already"),
    }
    let bad = config(&["nowhere"]);
    assert!(bad.validate().is_err());
    assert!(matches!(bad.stations[0].create_client(), Err(ClientError::InvalidEndpoint(_))));
    assert!(matches!(bad.stations[0].create_client_in(9), Err(ClientError::InvalidEndpoint(_))));
}

#[test]
fn clients_use_the_configuration() {
    let mut station = station("west", "http://example.com:8073/");
    station.password = Some("pw".to_string());
    let opening = station.create_client_in(77).unwrap();
    match opening.action() {
        OpeningAction::Connect(url) => assert_eq!(url, "http://example.com:8073/kiwi/77/SND"),
        OpeningAction::Send(_) => panic!("connected already"),
    }
    let next = match opening.advance(Ok(())) {
        Ok(OpeningStep::Continue(next)) => next,
        _ => panic!("not connected"),
    };
    match next.action() {
        OpeningAction::Send(command) => assert_eq!(command, "SET auth t=kiwi p=pw"),
        OpeningAction::Connect(_) => panic!("connects again"),
    }
}

#[test]
fn errors_are_written_with_their_kind() {
    let text = |error: KiwiSdrError| match RecorderError::from(error) {
        RecorderError::SdrError(text) => text,
        RecorderError::ExistsError => panic!("no error of a receiver"),
    };
    assert_eq!(bracketed("SendError(", "\"x\""), "SendError(\"x\")");
    assert_eq!(text(KiwiSdrError::ConnectionClosed), "ConnectionClosed");
    assert_eq!(
        text(KiwiSdrError::ConnectionError("a \"b\"\n".to_string())),
        "ConnectionError(\"a \\\"b\\\"\\n\")"
    );
    for reason in ["", "plain", "\u{e9}\u{301}\u{0}\\"] {
        let error = || KiwiSdrError::SendError(reason.to_string());
        assert_eq!(text(error()), format!("{:?}", error()));
        let error = || KiwiSdrError::CannotBuild(reason.to_string());
        assert_eq!(text(error()), format!("{:?}", error()));
    }
}

#[test]
fn a_recorder_keeps_its_client() {
    let mut recorder = SDRRecorder::new(station("s", "ws://example.com"));
    assert_eq!(recorder.begin_respawn().ok().unwrap().name, "s");
    match recorder.respawn(Err(KiwiSdrError::ConnectionClosed)) {
        Err(RecorderError::SdrError(text)) => assert_eq!(text, "ConnectionClosed"),
        _ => panic!("no error"),
    }
    assert!(recorder.begin_respawn().is_ok());
    assert!(recorder.respawn(Ok(client())).is_ok());
    assert!(matches!(recorder.begin_respawn(), Err(RecorderError::ExistsError)));
    assert!(matches!(recorder.respawn(Ok(client())), Err(RecorderError::ExistsError)));
    assert!(matches!(
        recorder.respawn(Err(KiwiSdrError::ConnectionClosed)),
        Err(RecorderError::ExistsError)
    ));
}

#[test]
fn plans_hold_commands_file_and_format() {
    let mut client = client();
    let text = b"MSG audio_init=0 audio_rate=20250 sample_rate=20248.1";
    assert!(client.on_message(ServerMessage::Binary(text.to_vec())).is_ok());
    let plan = plan_recording(&station("west", "ws://a"), &client, "N0CALL", "JO62");
    assert_eq!(
        plan.commands,
        vec![
            "SET mod=am low_cut=-4500 high_cut=4500 freq=7200",
            "SET ident_user=N0CALL",
            "SET geoloc=JO62",
            "SET agc=0 hang=0 thresh=-20 slope=6 decay=1000 manGain=10",
            "SET compression=0",
        ]
    );
    assert_eq!(plan.file_name, "west_7200.wav");
    assert_eq!(
        plan.format,
        WavFormat {
            channels: 1,
            sample_rate: 20250,
            bits_per_sample: 16,
            sample_format: SampleFormat::Int,
        }
    );
}

#[test]
fn a_recording_runs_its_course() {
    let mut phase = StationPhase::Connecting;
    assert!(matches!(phase.next(StationEvent::Connected), StationAction::AwaitStart));
    assert_eq!(phase, StationPhase::AwaitingStart);
    assert!(matches!(phase.next(StationEvent::Started), StationAction::Record));
    assert_eq!(phase, StationPhase::Recording);
    let sound = StationEvent::from_sound(KiwiSdrSndClient::get_sound_data(Some(vec![1, -1])));
    match phase.next(sound) {
        StationAction::Write(samples) => assert_eq!(samples, vec![1, -1]),
        _ => panic!("nothing to write"),
    }
    let end = StationEvent::from_sound(KiwiSdrSndClient::get_sound_data(None));
    assert!(matches!(phase.next(end), StationAction::Stop));
    assert_eq!(phase, StationPhase::Finished);
}

#[test]
fn a_recording_can_end_early() {
    let mut phase = StationPhase::Connecting;
    assert!(matches!(phase.next(StationEvent::ConnectFailed), StationAction::Stop));
    assert_eq!(phase, StationPhase::Finished);
    let mut phase = StationPhase::AwaitingStart;
    assert!(matches!(phase.next(StationEvent::StartTimedOut), StationAction::Stop));
    assert_eq!(phase, StationPhase::Finished);
}

#[test]
fn events_out_of_place_are_ignored() {
    let mut phase = StationPhase::Connecting;
    assert!(matches!(phase.next(StationEvent::Sound(vec![1])), StationAction::Ignore));
    assert_eq!(phase, StationPhase::Connecting);
    let mut phase = StationPhase::Finished;
    assert!(matches!(phase.next(StationEvent::Connected), StationAction::Ignore));
    assert!(matches!(phase.next(StationEvent::Sound(vec![1])), StationAction::Ignore));
    assert_eq!(phase, StationPhase::Finished);
}

#[test]
fn the_last_recording_ends_it_all() {
    let names = |list: &[&str]| list.iter().map(|n| n.to_string()).collect::<Vec<String>>();
    let mut tasks = RunningTasks::new();
    assert!(!tasks.remove_finished(&names(&[])));
    for name in ["a", "b", "a", "c"] {
        tasks.insert(name.to_string());
    }
    assert!(!tasks.remove_finished(&names(&["a"])));
    assert!(!tasks.remove_finished(&names(&[])));
    assert!(!tasks.remove_finished(&names(&["b", "d"])));
    assert!(tasks.remove_finished(&names(&["c"])));
    assert!(!tasks.remove_finished(&names(&[])));
}
