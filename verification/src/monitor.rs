//! What goes on for all configured receivers: the check of the configuration,
//! the course of each recording, and the table of those that still run.

use vstd::prelude::*;
use vstd::string::*;

use crate::outside::parsed_url;
use crate::recorder::{WebSdrConfig, WebSdrScraperType};
use crate::sdr::kiwi::client::{
    callsign_command, compression_command, is_word_before, law_fixed_commands,
    law_listener_is_named_in_full, location_command, KiwiSdrError, KiwiSdrSndClient,
};
use crate::sdr::kiwi::endpoint::Endpoint;
use crate::sdr::{
    agc_command, half, reads_tuning, tune_command, AMTuning, AgcConfig, AgcModel, Frequency, Station,
};
use crate::text::{
    denotes, int_text, law_numeral_denotes, law_numerals_differ, law_signed_numeral_round_trip,
    nat_text, push_int, texts,
};

verus! {

/// How many seconds a receiver has to announce its audio parameters.
pub const START_TIMEOUT_SECS: u64 = 6;

/// How many seconds lie between two commands that keep a connection open.
pub const KEEPALIVE_SECS: u64 = 5;

/// The configuration of the recorder.
#[derive(Debug)]
pub struct Config {
    pub data_dir: String,
    pub callsign: String,
    pub location: String,
    pub stations: Vec<WebSdrConfig>,
}

/// What is wrong with a configuration: the first receiver that cannot be
/// recorded, by its place in the list.
#[derive(Debug, Clone, Copy, PartialEq, Eq, Structural)]
pub enum ConfigError {
    UnsupportedScraper(usize),
    InvalidUrl(usize),
}

/// What is wrong with a receiver, at its place in the list, given its kind and
/// whether its address is a URL.
pub open spec fn fault(kind: WebSdrScraperType, is_url: bool, place: usize) -> Option<ConfigError> {
    if kind != WebSdrScraperType::KiwiSDR {
        Some(ConfigError::UnsupportedScraper(place))
    } else if !is_url {
        Some(ConfigError::InvalidUrl(place))
    } else {
        None
    }
}

/// What is wrong with a receiver, at its place in the list.
pub open spec fn station_fault(station: WebSdrConfig, place: usize) -> Option<ConfigError> {
    fault(station.scraper_type, parsed_url(station.endpoint@) is Ok, place)
}

/// Checks a receiver, given what the reading of its address came to.
pub fn check_station(
    kind: WebSdrScraperType,
    endpoint: &Result<Endpoint, String>,
    place: usize,
) -> (found: Option<ConfigError>)
    ensures
        found == fault(kind, endpoint is Ok, place),
        kind is KiwiSDR && endpoint is Ok ==> found is None,
        kind is KiwiSDR && endpoint is Err ==> found == Some(ConfigError::InvalidUrl(place)),
        kind !is KiwiSDR ==> found == Some(ConfigError::UnsupportedScraper(place)),
{
    if kind != WebSdrScraperType::KiwiSDR {
        return Some(ConfigError::UnsupportedScraper(place));
    }
    if endpoint.is_err() {
        return Some(ConfigError::InvalidUrl(place));
    }
    None
}

impl Config {
    /// Checks that each receiver can be recorded.
    pub fn validate(&self) -> (result: Result<(), ConfigError>)
        ensures
            match result {
                Ok(()) => forall|i: int|
                    0 <= i < self.stations@.len() ==> station_fault(
                        #[trigger] self.stations@[i],
                        i as usize,
                    ) is None,
                Err(error) => exists|i: int|
                    {
                        &&& 0 <= i < self.stations@.len()
                        &&& station_fault(#[trigger] self.stations@[i], i as usize) == Some(error)
                        &&& forall|j: int|
                            0 <= j < i ==> station_fault(
                                #[trigger] self.stations@[j],
                                j as usize,
                            ) is None
                    },
            },
            result is Ok <==> forall|i: int|
                0 <= i < self.stations@.len() ==> (#[trigger] self.stations@[i]).scraper_type
                    is KiwiSDR && parsed_url(self.stations@[i].endpoint@) is Ok,
            result matches Err(ConfigError::UnsupportedScraper(place)) ==> place
                < self.stations@.len() && self.stations@[place as int].scraper_type !is KiwiSDR,
            result matches Err(ConfigError::InvalidUrl(place)) ==> {
                &&& place < self.stations@.len()
                &&& parsed_url(self.stations@[place as int].endpoint@) is Err
                &&& forall|j: int|
                    0 <= j < place ==> parsed_url((#[trigger] self.stations@[j]).endpoint@) is Ok
            },
    {
        let mut i: usize = 0;
        while i < self.stations.len()
            invariant
                i <= self.stations@.len(),
                forall|j: int|
                    0 <= j < i ==> station_fault(#[trigger] self.stations@[j], j as usize) is None,
            decreases self.stations@.len() - i,
        {
            let station = &self.stations[i];
            let endpoint = Endpoint::parse(station.endpoint.as_str());
            if let Some(error) = check_station(station.scraper_type, &endpoint, i) {
                assert(station_fault(self.stations@[i as int], i) == Some(error));
                return Err(error);
            }
            i += 1;
        }
        Ok(())
    }
}

/// How the samples of a sound file are written.
#[derive(Debug, Clone, Copy, PartialEq, Eq, Structural)]
pub enum SampleFormat {
    Int,
    Float,
}

/// The layout of a sound file.
#[derive(Debug, Clone, Copy, PartialEq, Eq, Structural)]
pub struct WavFormat {
    pub channels: u16,
    pub sample_rate: u32,
    pub bits_per_sample: u16,
    pub sample_format: SampleFormat,
}

/// What it takes to record a station once its receiver has started.
pub struct RecordingPlan {
    /// The commands to send to the receiver, in order.
    pub commands: Vec<String>,
    /// The name of the sound file.
    pub file_name: String,
    /// The layout of the sound file.
    pub format: WavFormat,
}

/// What a plan holds.
#[verifier::ext_equal]
pub struct PlanModel {
    pub commands: Seq<Seq<char>>,
    pub file_name: Seq<char>,
    pub format: WavFormat,
}

impl View for RecordingPlan {
    type V = PlanModel;

    open spec fn view(&self) -> PlanModel {
        PlanModel {
            commands: texts(self.commands@),
            file_name: self.file_name@,
            format: self.format,
        }
    }
}

/// The gain control settings of a recording: fixed gain.
pub open spec fn recording_agc() -> AgcModel {
    AgcModel { agc: false, hang: false, thresh: -20i16, slope: 6, decay: 1000, man_gain: 10 }
}

/// The commands that set a receiver up for recording a station, in order.
pub open spec fn setup_commands(
    frequency: int,
    bandwidth: int,
    callsign: Seq<char>,
    location: Seq<char>,
) -> Seq<Seq<char>> {
    seq![
        tune_command("am"@, half(-bandwidth), half(bandwidth), int_text(frequency)),
        callsign_command(callsign),
        location_command(location),
        agc_command(recording_agc()),
        compression_command(false),
    ]
}

/// The name of the sound file of a station.
pub open spec fn recording_name(name: Seq<char>, frequency: int) -> Seq<char> {
    name + "_"@ + int_text(frequency) + ".wav"@
}

/// The layout of a recording: one channel of integers of sixteen bits.
pub open spec fn recording_format(sample_rate: u32) -> WavFormat {
    WavFormat {
        channels: 1,
        sample_rate,
        bits_per_sample: 16,
        sample_format: SampleFormat::Int,
    }
}

/// What it takes to record a station.
pub open spec fn plan_of(
    station: WebSdrConfig,
    callsign: Seq<char>,
    location: Seq<char>,
    sample_rate: u32,
) -> PlanModel {
    PlanModel {
        commands: setup_commands(
            station.frequency as int,
            station.bandwidth as int,
            callsign,
            location,
        ),
        file_name: recording_name(station.name@, station.frequency as int),
        format: recording_format(sample_rate),
    }
}

/// What it takes to record a station on a client that has started.
pub fn plan_recording(
    station: &WebSdrConfig,
    client: &KiwiSdrSndClient,
    callsign: &str,
    location: &str,
) -> (plan: RecordingPlan)
    requires
        station.bandwidth > i32::MIN,
    ensures
        plan@ == plan_of(*station, callsign@, location@, client@.sample_rate),
        plan.format.sample_rate == client@.sample_rate,
        plan.format.channels == 1,
        plan.format.bits_per_sample == 16,
        plan.format.sample_format is Int,
        plan.commands@.len() == 5,
        exists|edge: int|
            {
                &&& station.bandwidth >= 0 ==> 0 <= station.bandwidth - 2 * edge <= 1
                &&& station.bandwidth < 0 ==> -1 <= station.bandwidth - 2 * edge <= 0
                &&& #[trigger] reads_tuning(
                    plan.commands@[0]@,
                    "am"@,
                    -edge,
                    edge,
                    int_text(station.frequency as int),
                )
            },
        is_word_before(plan.commands@[1]@, "SET ident_user="@, callsign@),
        is_word_before(plan.commands@[2]@, "SET geoloc="@, location@),
        plan.commands@[3]@ == "SET agc=0 hang=0 thresh=-20 slope=6 decay=1000 manGain=10"@,
        plan.commands@[4]@ == "SET compression=0"@,
        exists|numeral: Seq<char>| #[trigger]
            denotes(numeral, station.frequency as int) && plan.file_name@ == station.name@ + "_"@
                + numeral + ".wav"@,
{
    proof {
        law_fixed_commands(false);
        law_gain_is_fixed();
        law_numeral_denotes(station.frequency as int);
    }
    let mut commands: Vec<String> = Vec::new();
    commands.push(
        client.tune(
            Station::AM(
                AMTuning {
                    bandwidth: station.bandwidth,
                    freq: Frequency::from_khz(station.frequency),
                },
            ),
        ),
    );
    commands.push(client.set_callsign(callsign));
    commands.push(client.set_location(location));
    commands.push(client.configure_agc(AgcConfig::new(false, false, -20, 6, 1000, 10)));
    commands.push(client.set_compression(false));
    assert(commands@[0]@ == tune_command(
        "am"@,
        half(-station.bandwidth),
        half(station.bandwidth as int),
        int_text(station.frequency as int),
    ));
    proof {
        let edge = half(station.bandwidth as int);
        law_numeral_denotes(-edge);
        law_numeral_denotes(edge);
        assert(half(-station.bandwidth) == -edge);
        assert(reads_tuning(
            commands@[0]@,
            "am"@,
            -edge,
            edge,
            int_text(station.frequency as int),
        ));
    }
    assert(texts(commands@) =~= setup_commands(
        station.frequency as int,
        station.bandwidth as int,
        callsign@,
        location@,
    ));
    let mut file_name: String = station.name.clone();
    file_name.append("_");
    push_int(&mut file_name, station.frequency as i64);
    file_name.append(".wav");
    let sample_rate: u32 = client.get_sample_rate().unwrap();
    RecordingPlan {
        commands,
        file_name,
        format: WavFormat {
            channels: 1,
            sample_rate,
            bits_per_sample: 16,
            sample_format: SampleFormat::Int,
        },
    }
}

/// The sound file has the rate that the client has, in one channel of integers
/// of sixteen bits. So it is played at the speed at which it was received.
pub proof fn law_file_has_the_clients_rate(
    station: WebSdrConfig,
    callsign: Seq<char>,
    location: Seq<char>,
    rate: u32,
)
    ensures
        ({
            let format = plan_of(station, callsign, location, rate).format;
            &&& format.sample_rate == rate
            &&& format.channels == 1
            &&& format.bits_per_sample == 16
            &&& format.sample_format is Int
            &&& recording_format(rate) == format
        }),
{
}

/// A receiver is set up by five commands: it is tuned to the station's
/// frequency with a pass band as wide as the station's bandwidth, is told who
/// listens and where, and has its gain control and its compression switched
/// off.
pub proof fn law_receiver_is_set_up(
    station: WebSdrConfig,
    callsign: Seq<char>,
    location: Seq<char>,
    rate: u32,
)
    ensures
        ({
            let commands = plan_of(station, callsign, location, rate).commands;
            &&& commands.len() == 5
            &&& exists|low: Seq<char>, high: Seq<char>, freq: Seq<char>, edge: int|
                {
                    &&& #[trigger] denotes(low, -edge)
                    &&& #[trigger] denotes(high, edge)
                    &&& #[trigger] denotes(freq, station.frequency as int)
                    &&& station.bandwidth >= 0 ==> 0 <= station.bandwidth - 2 * edge <= 1
                    &&& station.bandwidth < 0 ==> -1 <= station.bandwidth - 2 * edge <= 0
                    &&& commands[0] == "SET mod="@ + "am"@ + " low_cut="@ + low + " high_cut="@
                        + high + " freq="@ + freq
                }
            &&& commands[1].len() == 15 + callsign.len()
            &&& commands[1].take(15) == "SET ident_user="@
            &&& commands[1].skip(15) == callsign
            &&& commands[2].len() == 11 + location.len()
            &&& commands[2].take(11) == "SET geoloc="@
            &&& commands[2].skip(11) == location
            &&& commands[3] == "SET agc=0 hang=0 thresh=-20 slope=6 decay=1000 manGain=10"@
            &&& commands[4] == "SET compression=0"@
        }),
{
    let commands = plan_of(station, callsign, location, rate).commands;
    let edge = half(station.bandwidth as int);
    assert(half(-station.bandwidth) == -edge);
    law_numeral_denotes(-edge);
    law_numeral_denotes(edge);
    law_numeral_denotes(station.frequency as int);
    law_listener_is_named_in_full(callsign, callsign);
    law_listener_is_named_in_full(location, location);
    law_gain_is_fixed();
    law_fixed_commands(false);
    assert(denotes(int_text(-edge), -edge) && denotes(int_text(edge), edge));
}

/// A recording is made with a fixed gain.
pub proof fn law_gain_is_fixed()
    ensures
        agc_command(recording_agc())
            == "SET agc=0 hang=0 thresh=-20 slope=6 decay=1000 manGain=10"@,
{
    reveal_strlit("SET agc=0 hang=0 thresh=-20 slope=6 decay=1000 manGain=10");
    reveal_strlit("SET agc=");
    reveal_strlit(" hang=");
    reveal_strlit(" thresh=");
    reveal_strlit(" slope=");
    reveal_strlit(" decay=");
    reveal_strlit(" manGain=");
    reveal_strlit("0");
    reveal_with_fuel(nat_text, 4);
    assert(int_text(-20) =~= seq!['-', '2', '0']);
    assert(int_text(6) =~= seq!['6']);
    assert(int_text(1000) =~= seq!['1', '0', '0', '0']);
    assert(int_text(10) =~= seq!['1', '0']);
    assert(agc_command(recording_agc())
        =~= "SET agc=0 hang=0 thresh=-20 slope=6 decay=1000 manGain=10"@);
}

/// The name of a sound file begins with the station's name and ends with the
/// numeral of its frequency and the suffix. So two stations share a file only
/// if they share both their name and their frequency.
pub proof fn law_file_names_differ(name: Seq<char>, frequency: int, other: Seq<char>, second: int)
    ensures
        ({
            let file = recording_name(name, frequency);
            let end = file.len() - 4;
            &&& name.len() + 1 < end
            &&& file.take(name.len() as int) == name
            &&& file[name.len() as int] == '_'
            &&& denotes(file.subrange(name.len() + 1int, end), frequency)
            &&& file.skip(end) == ".wav"@
        }),
        recording_name(name, frequency) == recording_name(other, second) ==> name == other
            && frequency == second,
{
    reveal_strlit("_");
    reveal_strlit(".wav");
    lemma_file_name(name, frequency);
    lemma_file_name(other, second);
    law_numeral_denotes(frequency);
    if recording_name(name, frequency) == recording_name(other, second) {
        let file = recording_name(name, frequency);
        let (m, n) = (name.len() as int, other.len() as int);
        let end = file.len() - 4;
        if m < n {
            assert(file.subrange(m + 1, end)[n - m - 1] == file[n]);
            lemma_no_underscore(frequency, n - m - 1);
        } else if n < m {
            assert(file.subrange(n + 1, end)[m - n - 1] == file[m]);
            lemma_no_underscore(second, m - n - 1);
        }
        law_numerals_differ(frequency, second);
    }
}

proof fn lemma_file_name(name: Seq<char>, frequency: int)
    ensures
        ({
            let file = recording_name(name, frequency);
            let end = file.len() - 4;
            &&& name.len() + 1 < end
            &&& file.take(name.len() as int) == name
            &&& file[name.len() as int] == '_'
            &&& file.subrange(name.len() + 1int, end) == int_text(frequency)
            &&& file.skip(end) == ".wav"@
        }),
{
    reveal_strlit("_");
    reveal_strlit(".wav");
    law_numeral_denotes(frequency);
    let file = recording_name(name, frequency);
    let end = file.len() - 4;
    assert(file.take(name.len() as int) =~= name);
    assert(file.subrange(name.len() + 1int, end) =~= int_text(frequency));
    assert(file.skip(end) =~= ".wav"@);
}

proof fn lemma_no_underscore(n: int, i: int)
    requires
        0 <= i < int_text(n).len(),
    ensures
        int_text(n)[i] != '_',
{
    law_signed_numeral_round_trip(n);
}

/// A configuration is refused for the first receiver whose address is no URL,
/// by its place, and for nothing else.
pub proof fn law_only_the_address_is_at_fault(station: WebSdrConfig, place: usize)
    ensures
        parsed_url(station.endpoint@) is Ok ==> station_fault(station, place) is None,
        parsed_url(station.endpoint@) is Err ==> station_fault(station, place) == Some(
            ConfigError::InvalidUrl(place),
        ),
{
}

/// A receiver has six seconds to start, and is sent a sign of life every five.
pub proof fn law_waiting_times()
    ensures
        START_TIMEOUT_SECS == 6,
        KEEPALIVE_SECS == 5,
{
}

/// How far the recording of a station has come.
#[derive(Debug, Clone, Copy, PartialEq, Eq, Structural)]
pub enum StationPhase {
    /// A client of the receiver is being opened.
    Connecting,
    /// The receiver has yet to announce its audio parameters.
    AwaitingStart,
    /// Sound is being recorded.
    Recording,
    /// Nothing more happens.
    Finished,
}

/// What happens in the course of a recording.
pub enum StationEvent {
    /// The client is open.
    Connected,
    /// The client could not be opened.
    ConnectFailed,
    /// The receiver has announced its audio parameters.
    Started,
    /// The receiver has not done so in time.
    StartTimedOut,
    /// Sound has come.
    Sound(Vec<i16>),
    /// No more sound will come.
    SoundEnded,
}

/// What an event holds.
pub enum StationEventModel {
    Connected,
    ConnectFailed,
    Started,
    StartTimedOut,
    Sound(Seq<i16>),
    SoundEnded,
}

impl View for StationEvent {
    type V = StationEventModel;

    open spec fn view(&self) -> StationEventModel {
        match self {
            StationEvent::Connected => StationEventModel::Connected,
            StationEvent::ConnectFailed => StationEventModel::ConnectFailed,
            StationEvent::Started => StationEventModel::Started,
            StationEvent::StartTimedOut => StationEventModel::StartTimedOut,
            StationEvent::Sound(samples) => StationEventModel::Sound(samples@),
            StationEvent::SoundEnded => StationEventModel::SoundEnded,
        }
    }
}

/// What has to be done about an event.
pub enum StationAction {
    /// Wait for the start, as long as the receiver has for it.
    AwaitStart,
    /// Set the receiver up, create the sound file and wait for sound.
    Record,
    /// Write samples to the sound file and wait for more.
    Write(Vec<i16>),
    /// Leave off.
    Stop,
    /// Nothing: the event has no place in this phase.
    Ignore,
}

/// What an action holds.
pub enum StationActionModel {
    AwaitStart,
    Record,
    Write(Seq<i16>),
    Stop,
    Ignore,
}

impl View for StationAction {
    type V = StationActionModel;

    open spec fn view(&self) -> StationActionModel {
        match self {
            StationAction::AwaitStart => StationActionModel::AwaitStart,
            StationAction::Record => StationActionModel::Record,
            StationAction::Write(samples) => StationActionModel::Write(samples@),
            StationAction::Stop => StationActionModel::Stop,
            StationAction::Ignore => StationActionModel::Ignore,
        }
    }
}

/// The phase that an event leads to, and what has to be done about it.
pub open spec fn after_event(phase: StationPhase, event: StationEventModel) -> (
    StationPhase,
    StationActionModel,
) {
    match (phase, event) {
        (StationPhase::Connecting, StationEventModel::Connected) => (
            StationPhase::AwaitingStart,
            StationActionModel::AwaitStart,
        ),
        (StationPhase::Connecting, StationEventModel::ConnectFailed) => (
            StationPhase::Finished,
            StationActionModel::Stop,
        ),
        (StationPhase::AwaitingStart, StationEventModel::Started) => (
            StationPhase::Recording,
            StationActionModel::Record,
        ),
        (StationPhase::AwaitingStart, StationEventModel::StartTimedOut) => (
            StationPhase::Finished,
            StationActionModel::Stop,
        ),
        (StationPhase::Recording, StationEventModel::Sound(samples)) => (
            StationPhase::Recording,
            StationActionModel::Write(samples),
        ),
        (StationPhase::Recording, StationEventModel::SoundEnded) => (
            StationPhase::Finished,
            StationActionModel::Stop,
        ),
        _ => (phase, StationActionModel::Ignore),
    }
}

impl StationPhase {
    /// Goes on to the phase that an event leads to, and says what has to be
    /// done about it.
    pub fn next(&mut self, event: StationEvent) -> (action: StationAction)
        ensures
            (*final(self), action@) == after_event(*old(self), event@),
            *final(self) is Recording <==> *old(self) is AwaitingStart && event is Started || *old(
                self,
            ) is Recording && event !is SoundEnded,
            *final(self) is AwaitingStart <==> *old(self) is Connecting && event is Connected
                || *old(self) is AwaitingStart && event !is Started && event !is StartTimedOut,
            *final(self) is Finished <==> *old(self) is Finished || *old(self) is Connecting
                && event is ConnectFailed || *old(self) is AwaitingStart && event is StartTimedOut
                || *old(self) is Recording && event is SoundEnded,
            action is AwaitStart <==> *old(self) is Connecting && event is Connected,
            action is Record <==> *old(self) is AwaitingStart && event is Started,
            action is Stop <==> *final(self) is Finished && *old(self) !is Finished,
            action is Write <==> *old(self) is Recording && event is Sound,
            action is Write ==> action->Write_0@ == event->Sound_0@,
    {
        match (*self, event) {
            (StationPhase::Connecting, StationEvent::Connected) => {
                *self = StationPhase::AwaitingStart;
                StationAction::AwaitStart
            },
            (StationPhase::Connecting, StationEvent::ConnectFailed) => {
                *self = StationPhase::Finished;
                StationAction::Stop
            },
            (StationPhase::AwaitingStart, StationEvent::Started) => {
                *self = StationPhase::Recording;
                StationAction::Record
            },
            (StationPhase::AwaitingStart, StationEvent::StartTimedOut) => {
                *self = StationPhase::Finished;
                StationAction::Stop
            },
            (StationPhase::Recording, StationEvent::Sound(samples)) => StationAction::Write(
                samples,
            ),
            (StationPhase::Recording, StationEvent::SoundEnded) => {
                *self = StationPhase::Finished;
                StationAction::Stop
            },
            _ => StationAction::Ignore,
        }
    }
}

impl StationEvent {
    /// The event that waiting for sound has led to.
    pub fn from_sound(sound: Result<Vec<i16>, KiwiSdrError>) -> (event: Self)
        ensures
            match sound {
                Ok(samples) => event@ == StationEventModel::Sound(samples@),
                Err(_) => event@ == StationEventModel::SoundEnded,
            },
            match sound {
                Ok(samples) => event == StationEvent::Sound(samples),
                Err(_) => event is SoundEnded,
            },
    {
        match sound {
            Ok(samples) => StationEvent::Sound(samples),
            Err(_) => StationEvent::SoundEnded,
        }
    }
}

/// The phase after several events.
pub open spec fn after_events(phase: StationPhase, events: Seq<StationEventModel>) -> StationPhase
    decreases events.len(),
{
    if events.len() == 0 {
        phase
    } else {
        after_event(after_events(phase, events.drop_last()), events.last()).0
    }
}

/// The samples that are written in the course of several events.
pub open spec fn written(phase: StationPhase, events: Seq<StationEventModel>) -> Seq<i16>
    decreases events.len(),
{
    if events.len() == 0 {
        seq![]
    } else {
        let earlier = events.drop_last();
        match after_event(after_events(phase, earlier), events.last()).1 {
            StationActionModel::Write(samples) => written(phase, earlier) + samples,
            _ => written(phase, earlier),
        }
    }
}

/// The samples of all sound among several events.
pub open spec fn all_sound(events: Seq<StationEventModel>) -> Seq<i16>
    decreases events.len(),
{
    if events.len() == 0 {
        seq![]
    } else {
        match events.last() {
            StationEventModel::Sound(samples) => all_sound(events.drop_last()) + samples,
            _ => all_sound(events.drop_last()),
        }
    }
}

/// The course of a recording: it waits for the start once it is connected,
/// records once it has started, and leaves off when the connection, the start
/// or the sound fails; nothing else moves it. Sound is written exactly while
/// it records, and whole.
pub proof fn law_course_of_a_recording(phase: StationPhase, event: StationEventModel)
    ensures
        ({
            let (next, action) = after_event(phase, event);
            &&& next is Recording <==> phase is AwaitingStart && event is Started || phase
                is Recording && event !is SoundEnded
            &&& next is AwaitingStart <==> phase is Connecting && event is Connected || phase
                is AwaitingStart && event !is Started && event !is StartTimedOut
            &&& next is Finished <==> phase is Finished || phase is Connecting && event
                is ConnectFailed || phase is AwaitingStart && event is StartTimedOut || phase
                is Recording && event is SoundEnded
            &&& action is AwaitStart <==> phase is Connecting && event is Connected
            &&& action is Record <==> phase is AwaitingStart && event is Started
            &&& action is Stop <==> next is Finished && phase !is Finished
            &&& action is Write <==> phase is Recording && event is Sound
            &&& action is Write ==> action->Write_0 == event->Sound_0
        }),
{
}

/// A recording that is finished stays so, and nothing is written to it.
pub proof fn law_finished_is_final(events: Seq<StationEventModel>)
    ensures
        after_events(StationPhase::Finished, events) == StationPhase::Finished,
        written(StationPhase::Finished, events) == Seq::<i16>::empty(),
    decreases events.len(),
{
    if events.len() > 0 {
        law_finished_is_final(events.drop_last());
    }
}

/// While a recording runs, all sound is written, complete and in order, until
/// the sound ends.
pub proof fn law_all_sound_is_written(events: Seq<StationEventModel>)
    requires
        !events.contains(StationEventModel::SoundEnded),
    ensures
        after_events(StationPhase::Recording, events) == StationPhase::Recording,
        written(StationPhase::Recording, events) == all_sound(events),
    decreases events.len(),
{
    if events.len() > 0 {
        let earlier = events.drop_last();
        if earlier.contains(StationEventModel::SoundEnded) {
            let i = choose|i: int|
                0 <= i < earlier.len() && earlier[i] == StationEventModel::SoundEnded;
            assert(events[i] == StationEventModel::SoundEnded);
        }
        assert(events[events.len() - 1] == events.last());
        law_all_sound_is_written(earlier);
    }
}

/// Nothing is written before the receiver has started.
pub proof fn law_nothing_is_written_before_the_start(events: Seq<StationEventModel>)
    requires
        !events.contains(StationEventModel::Started),
    ensures
        after_events(StationPhase::Connecting, events) != StationPhase::Recording,
        written(StationPhase::Connecting, events) == Seq::<i16>::empty(),
    decreases events.len(),
{
    if events.len() > 0 {
        let earlier = events.drop_last();
        if earlier.contains(StationEventModel::Started) {
            let i = choose|i: int|
                0 <= i < earlier.len() && earlier[i] == StationEventModel::Started;
            assert(events[i] == StationEventModel::Started);
        }
        assert(events[events.len() - 1] == events.last());
        law_nothing_is_written_before_the_start(earlier);
    }
}

/// The table of the recordings that still run, by the names of their stations.
pub struct RunningTasks {
    names: Vec<String>,
}

impl View for RunningTasks {
    type V = Set<Seq<char>>;

    closed spec fn view(&self) -> Set<Seq<char>> {
        texts(self.names@).to_set()
    }
}

fn holds(names: &Vec<String>, name: &String) -> (found: bool)
    ensures
        found == texts(names@).contains(name@),
{
    let mut i: usize = 0;
    while i < names.len()
        invariant
            i <= names@.len(),
            forall|j: int| 0 <= j < i ==> texts(names@)[j] != name@,
        decreases names@.len() - i,
    {
        if names[i] == *name {
            assert(texts(names@)[i as int] == name@);
            return true;
        }
        assert(texts(names@)[i as int] == names@[i as int]@);
        i += 1;
    }
    false
}

impl RunningTasks {
    /// No name stands in the table twice.
    pub closed spec fn wf(&self) -> bool {
        texts(self.names@).no_duplicates()
    }

    /// An empty table.
    pub fn new() -> (tasks: Self)
        ensures
            tasks.wf(),
            tasks@ == Set::<Seq<char>>::empty(),
    {
        let tasks = RunningTasks { names: Vec::new() };
        assert(tasks@ =~= Set::<Seq<char>>::empty());
        tasks
    }

    /// Adds a recording. One of the same name is replaced.
    pub fn insert(&mut self, name: String)
        requires
            old(self).wf(),
        ensures
            final(self).wf(),
            final(self)@ == old(self)@.insert(name@),
    {
        if !holds(&self.names, &name) {
            let ghost before = texts(self.names@);
            self.names.push(name);
            let ghost after = texts(self.names@);
            proof {
                assert(after =~= before.push(name@));
                lemma_push_contains(before, name@);
                lemma_push_no_duplicates(before, name@);
                assert(after.to_set() =~= before.to_set().insert(name@));
            }
        } else {
            assert(self@.contains(name@));
            assert(self@ =~= self@.insert(name@));
        }
    }

    /// Removes the recordings that have finished. The result says whether the
    /// last one has now been removed; where none has finished it says no.
    pub fn remove_finished(&mut self, finished: &Vec<String>) -> (all_done: bool)
        requires
            old(self).wf(),
        ensures
            final(self).wf(),
            final(self)@ == old(self)@.difference(texts(finished@).to_set()),
            all_done == (finished@.len() > 0 && final(self)@ == Set::<Seq<char>>::empty()),
    {
        if finished.len() == 0 {
            assert(self@ =~= self@.difference(texts(finished@).to_set()));
            return false;
        }
        let ghost before = texts(self.names@);
        let mut kept: Vec<String> = Vec::new();
        let mut i: usize = 0;
        while i < self.names.len()
            invariant
                i <= self.names@.len(),
                before == texts(self.names@),
                before.no_duplicates(),
                texts(kept@).no_duplicates(),
                forall|n: Seq<char>| #[trigger]
                    texts(kept@).contains(n) <==> before.take(i as int).contains(n) && !texts(
                        finished@,
                    ).contains(n),
            decreases self.names@.len() - i,
        {
            let ghost old_kept = texts(kept@);
            let ghost name = self.names@[i as int]@;
            assert(before[i as int] == name);
            assert(before.take(i + 1) =~= before.take(i as int).push(name));
            assert(!before.take(i as int).contains(name)) by {
                if before.take(i as int).contains(name) {
                    let j = choose|j: int|
                        0 <= j < i && before.take(i as int)[j] == name;
                    assert(before[j] == before[i as int]);
                }
            }
            if !holds(finished, &self.names[i]) {
                assert(!old_kept.contains(name));
                kept.push(self.names[i].clone());
                assert(texts(kept@) =~= old_kept.push(name));
            }
            proof {
                lemma_push_contains(before.take(i as int), name);
                lemma_push_contains(old_kept, name);
                lemma_push_no_duplicates(old_kept, name);
            }
            i += 1;
        }
        assert(before.take(before.len() as int) =~= before);
        self.names = kept;
        let empty: bool = self.names.len() == 0;
        proof {
            let after = texts(self.names@);
            assert(self@ =~= old(self)@.difference(texts(finished@).to_set()));
            if self.names@.len() > 0 {
                assert(after.contains(after[0]));
                assert(self@.contains(after[0]));
            } else {
                assert(self@ =~= Set::<Seq<char>>::empty());
            }
        }
        empty
    }
}

/// The recordings that still run after several batches have finished.
pub open spec fn still_running(
    names: Set<Seq<char>>,
    batches: Seq<Set<Seq<char>>>,
) -> Set<Seq<char>>
    decreases batches.len(),
{
    if batches.len() == 0 {
        names
    } else {
        still_running(names, batches.drop_last()).difference(batches.last())
    }
}

/// A recording still runs until it stands in a batch that has finished, so the
/// table is empty exactly when each recording has finished.
pub proof fn law_table_empties_with_the_last(
    names: Set<Seq<char>>,
    batches: Seq<Set<Seq<char>>>,
)
    ensures
        forall|name: Seq<char>| #[trigger]
            still_running(names, batches).contains(name) <==> names.contains(name) && !(exists|
                i: int,
            |
                0 <= i < batches.len() && (#[trigger] batches[i]).contains(name)),
        still_running(names, batches) == Set::<Seq<char>>::empty() <==> (forall|name: Seq<char>| #[trigger]
            names.contains(name) ==> exists|i: int|
                0 <= i < batches.len() && (#[trigger] batches[i]).contains(name)),
    decreases batches.len(),
{
    let left = still_running(names, batches);
    if batches.len() > 0 {
        let earlier = batches.drop_last();
        law_table_empties_with_the_last(names, earlier);
        assert forall|name: Seq<char>| #[trigger] left.contains(name) <==> names.contains(name)
            && !(exists|i: int| 0 <= i < batches.len() && (#[trigger] batches[i]).contains(
            name,
        )) by {
            assert(still_running(names, earlier).contains(name) <==> names.contains(name) && !(
            exists|i: int| 0 <= i < earlier.len() && (#[trigger] earlier[i]).contains(name)));
            if exists|i: int| 0 <= i < earlier.len() && (#[trigger] earlier[i]).contains(name) {
                let i = choose|i: int|
                    0 <= i < earlier.len() && (#[trigger] earlier[i]).contains(name);
                assert(batches[i].contains(name));
            }
            if exists|i: int| 0 <= i < batches.len() && (#[trigger] batches[i]).contains(name) {
                let i = choose|i: int|
                    0 <= i < batches.len() && (#[trigger] batches[i]).contains(name);
                if i < earlier.len() {
                    assert(earlier[i].contains(name));
                }
            }
            if batches.last().contains(name) {
                assert(batches[batches.len() - 1].contains(name));
            }
        }
    }
    if forall|name: Seq<char>| #[trigger]
        names.contains(name) ==> exists|i: int|
            0 <= i < batches.len() && (#[trigger] batches[i]).contains(name) {
        assert(left =~= Set::<Seq<char>>::empty());
    } else {
        let name = choose|name: Seq<char>| #[trigger]
            names.contains(name) && !(exists|i: int|
                0 <= i < batches.len() && (#[trigger] batches[i]).contains(name));
        assert(left.contains(name));
    }
}

proof fn lemma_push_contains(names: Seq<Seq<char>>, name: Seq<char>)
    ensures
        forall|n: Seq<char>| #[trigger]
            names.push(name).contains(n) <==> names.contains(n) || n == name,
{
    assert forall|n: Seq<char>| #[trigger] names.push(name).contains(n) <==> names.contains(n) || n
        == name by {
        if names.contains(n) {
            let i = choose|i: int| 0 <= i < names.len() && names[i] == n;
            assert(names.push(name)[i] == n);
        }
        assert(names.push(name)[names.len() as int] == name);
    }
}

proof fn lemma_push_no_duplicates(names: Seq<Seq<char>>, name: Seq<char>)
    requires
        names.no_duplicates(),
    ensures
        !names.contains(name) ==> names.push(name).no_duplicates(),
{
    if !names.contains(name) {
        let after = names.push(name);
        assert forall|i: int, j: int|
            0 <= i < after.len() && 0 <= j < after.len() && i != j implies after[i] != after[j] by {
            if i == names.len() {
                assert(names.contains(names[j]));
            } else if j == names.len() {
                assert(names.contains(names[i]));
            }
        }
    }
}

} // verus!
