//! Receiver settings and the commands that carry them.

use vstd::prelude::*;
use vstd::string::*;

use crate::outside::parsed_url;
use crate::sdr::kiwi::client::{ClientModel, KiwiSdrSndClient};
use crate::sdr::kiwi::opening::{
    begins_at, open_any, open_in, opening_at, opening_result, opens_at, opens_on_server,
    stays_on_server_of, ClientError, SndOpening,
};
use crate::text::{denotes, int_text, law_numeral_denotes, option_text, push_int};

pub mod kiwi;

verus! {

/// Settings of the automatic gain control.
pub struct AgcConfig {
    agc: bool,
    hang: bool,
    thresh: i16,
    slope: u8,
    decay: u32,
    man_gain: u8,
}

/// What the settings of the automatic gain control are.
pub struct AgcModel {
    pub agc: bool,
    pub hang: bool,
    pub thresh: i16,
    pub slope: u8,
    pub decay: u32,
    pub man_gain: u8,
}

impl View for AgcConfig {
    type V = AgcModel;

    closed spec fn view(&self) -> AgcModel {
        AgcModel {
            agc: self.agc,
            hang: self.hang,
            thresh: self.thresh,
            slope: self.slope,
            decay: self.decay,
            man_gain: self.man_gain,
        }
    }
}

/// How a switch is written in a command.
pub open spec fn switch_text(on: bool) -> Seq<char> {
    if on {
        "1"@
    } else {
        "0"@
    }
}

/// The command that applies gain control settings.
pub open spec fn agc_command(agc: AgcModel) -> Seq<char> {
    "SET agc="@ + switch_text(agc.agc) + " hang="@ + switch_text(agc.hang) + " thresh="@
        + int_text(agc.thresh as int) + " slope="@ + int_text(agc.slope as int) + " decay="@
        + int_text(agc.decay as int) + " manGain="@ + int_text(agc.man_gain as int)
}

/// Whether a command says, one after the other, whether gain control is on,
/// whether it hangs, and its four numbers.
pub open spec fn reads_agc(command: Seq<char>, agc: AgcModel) -> bool {
    exists|thresh: Seq<char>, slope: Seq<char>, decay: Seq<char>, man_gain: Seq<char>|
        {
            &&& #[trigger] denotes(thresh, agc.thresh as int)
            &&& #[trigger] denotes(slope, agc.slope as int)
            &&& #[trigger] denotes(decay, agc.decay as int)
            &&& #[trigger] denotes(man_gain, agc.man_gain as int)
            &&& command == "SET agc="@ + seq![switch_char(agc.agc)] + " hang="@ + seq![
                switch_char(agc.hang),
            ] + " thresh="@ + thresh + " slope="@ + slope + " decay="@ + decay + " manGain="@
                + man_gain
        }
}

/// The digit that a switch is written as: one for on, zero for off.
pub open spec fn switch_char(on: bool) -> char {
    if on {
        '1'
    } else {
        '0'
    }
}

/// The gain control command can be read back: its parts stand in their order
/// behind their names, and each number denotes the setting that it was made of.
pub proof fn law_agc_command_is_read_back(agc: AgcModel)
    ensures
        reads_agc(agc_command(agc), agc),
        exists|thresh: Seq<char>, slope: Seq<char>, decay: Seq<char>, man_gain: Seq<char>|
            {
                &&& #[trigger] denotes(thresh, agc.thresh as int)
                &&& #[trigger] denotes(slope, agc.slope as int)
                &&& #[trigger] denotes(decay, agc.decay as int)
                &&& #[trigger] denotes(man_gain, agc.man_gain as int)
                &&& agc_command(agc) == "SET agc="@ + (if agc.agc {
                    "1"@
                } else {
                    "0"@
                }) + " hang="@ + (if agc.hang {
                    "1"@
                } else {
                    "0"@
                }) + " thresh="@ + thresh + " slope="@ + slope + " decay="@ + decay + " manGain="@
                    + man_gain
            },
{
    law_switch_is_one_digit(agc.agc);
    law_switch_is_one_digit(agc.hang);
    law_numeral_denotes(agc.thresh as int);
    law_numeral_denotes(agc.slope as int);
    law_numeral_denotes(agc.decay as int);
    law_numeral_denotes(agc.man_gain as int);
}

/// A switch is written as the digit one when it is on, and zero when it is off.
pub proof fn law_switch_is_one_digit(on: bool)
    ensures
        switch_text(on) == seq![switch_char(on)],
        switch_char(on) == '1' <==> on,
        switch_char(on) == '0' <==> !on,
{
    reveal_strlit("1");
    reveal_strlit("0");
    assert(switch_text(on) =~= seq![switch_char(on)]);
}

pub(crate) fn switch_str(on: bool) -> (text: &'static str)
    ensures
        text@ == switch_text(on),
        on ==> text@ == "1"@,
        !on ==> text@ == "0"@,
{
    if on {
        "1"
    } else {
        "0"
    }
}

impl AgcConfig {
    pub fn new(agc: bool, hang: bool, thresh: i16, slope: u8, decay: u32, man_gain: u8) -> (config:
        Self)
        ensures
            config@ == (AgcModel { agc, hang, thresh, slope, decay, man_gain }),
    {
        Self { agc, hang, thresh, slope, decay, man_gain }
    }

    /// The command that applies these settings.
    pub fn to_string(&self) -> (command: String)
        ensures
            command@ == agc_command(self@),
            reads_agc(command@, self@),
    {
        proof {
            law_agc_command_is_read_back(self@);
        }
        let mut out: String = "SET agc=".to_owned();
        out.append(switch_str(self.agc));
        out.append(" hang=");
        out.append(switch_str(self.hang));
        out.append(" thresh=");
        push_int(&mut out, self.thresh as i64);
        out.append(" slope=");
        push_int(&mut out, self.slope as i64);
        out.append(" decay=");
        push_int(&mut out, self.decay as i64);
        out.append(" manGain=");
        push_int(&mut out, self.man_gain as i64);
        out
    }
}

/// A frequency in kilohertz, as a command writes it.
pub struct Frequency {
    text: String,
}

impl View for Frequency {
    type V = Seq<char>;

    closed spec fn view(&self) -> Seq<char> {
        self.text@
    }
}

impl Frequency {
    /// A whole number of kilohertz.
    pub fn from_khz(khz: i32) -> (frequency: Self)
        ensures
            frequency@ == int_text(khz as int),
            denotes(frequency@, khz as int),
    {
        let mut text: String = String::new();
        push_int(&mut text, khz as i64);
        assert(text@ =~= int_text(khz as int));
        proof {
            law_numeral_denotes(khz as int);
        }
        Frequency { text }
    }

    /// A frequency whose numeral is already written.
    pub fn from_numeral(numeral: String) -> (frequency: Self)
        ensures
            frequency@ == numeral@,
    {
        Frequency { text: numeral }
    }
}

/// Tuning in amplitude modulation: the pass band lies around the carrier.
pub struct AMTuning {
    pub bandwidth: i32,
    pub freq: Frequency,
}

/// Tuning with both edges of the pass band given.
pub struct GeneralTuning {
    pub low_cut: i32,
    pub high_cut: i32,
    pub freq: Frequency,
}

/// What to tune to.
pub enum Station {
    AM(AMTuning),
    FM(GeneralTuning),
    LSB(GeneralTuning),
    USB(GeneralTuning),
}

/// A number halved, with the fraction cut off toward zero.
pub open spec fn half(n: int) -> int {
    if n < 0 {
        -((-n) / 2)
    } else {
        n / 2
    }
}

/// The command that tunes to a frequency with a mode and the edges of the pass band.
pub open spec fn tune_command(
    mode: Seq<char>,
    low_cut: int,
    high_cut: int,
    freq: Seq<char>,
) -> Seq<char> {
    "SET mod="@ + mode + " low_cut="@ + int_text(low_cut) + " high_cut="@ + int_text(high_cut)
        + " freq="@ + freq
}

/// Whether a command says, one after the other, a mode, the two edges of the
/// pass band, and a frequency.
pub open spec fn reads_tuning(
    command: Seq<char>,
    mode: Seq<char>,
    low_cut: int,
    high_cut: int,
    freq: Seq<char>,
) -> bool {
    exists|low: Seq<char>, high: Seq<char>|
        {
            &&& #[trigger] denotes(low, low_cut)
            &&& #[trigger] denotes(high, high_cut)
            &&& command == "SET mod="@ + mode + " low_cut="@ + low + " high_cut="@ + high
                + " freq="@ + freq
        }
}

fn tune_text(mode: &str, low_cut: i32, high_cut: i32, freq: &Frequency) -> (command: String)
    ensures
        command@ == tune_command(mode@, low_cut as int, high_cut as int, freq@),
{
    let mut out: String = "SET mod=".to_owned();
    out.append(mode);
    out.append(" low_cut=");
    push_int(&mut out, low_cut as i64);
    out.append(" high_cut=");
    push_int(&mut out, high_cut as i64);
    out.append(" freq=");
    out.append(freq.text.as_str());
    out
}

impl Station {
    /// Whether the edges of the pass band can be computed: a bandwidth has to
    /// have a negative counterpart.
    pub open spec fn tunable(self) -> bool {
        self matches Station::AM(config) ==> config.bandwidth > i32::MIN
    }

    /// The mode's name in a command.
    pub open spec fn mode(self) -> Seq<char> {
        match self {
            Station::AM(_) => "am"@,
            Station::FM(_) => "fm"@,
            Station::LSB(_) => "lsb"@,
            Station::USB(_) => "usb"@,
        }
    }

    /// The lower edge of the pass band, relative to the frequency.
    pub open spec fn low_edge(self) -> int {
        match self {
            Station::AM(config) => half(-config.bandwidth),
            Station::FM(config) => config.low_cut as int,
            Station::LSB(config) => config.low_cut as int,
            Station::USB(config) => config.low_cut as int,
        }
    }

    /// The upper edge of the pass band, relative to the frequency.
    pub open spec fn high_edge(self) -> int {
        match self {
            Station::AM(config) => half(config.bandwidth as int),
            Station::FM(config) => config.high_cut as int,
            Station::LSB(config) => config.high_cut as int,
            Station::USB(config) => config.high_cut as int,
        }
    }

    /// The frequency's numeral.
    pub open spec fn frequency(self) -> Seq<char> {
        match self {
            Station::AM(config) => config.freq@,
            Station::FM(config) => config.freq@,
            Station::LSB(config) => config.freq@,
            Station::USB(config) => config.freq@,
        }
    }

    /// The command that tunes to this station.
    pub open spec fn command(self) -> Seq<char> {
        tune_command(self.mode(), self.low_edge(), self.high_edge(), self.frequency())
    }

    /// Whether a command tunes to this station: it gives the mode, the edges
    /// that the station has or, in amplitude modulation, those that lie
    /// symmetrically about the frequency and as far apart as the bandwidth, up
    /// to a fraction that is cut off, and the frequency.
    pub open spec fn is_tuned_by(self, command: Seq<char>) -> bool {
        match self {
            Station::AM(config) => exists|edge: int|
                {
                    &&& config.bandwidth >= 0 ==> 0 <= config.bandwidth - 2 * edge <= 1
                    &&& config.bandwidth < 0 ==> -1 <= config.bandwidth - 2 * edge <= 0
                    &&& #[trigger] reads_tuning(command, "am"@, -edge, edge, config.freq@)
                },
            Station::FM(config) => reads_tuning(
                command,
                "fm"@,
                config.low_cut as int,
                config.high_cut as int,
                config.freq@,
            ),
            Station::LSB(config) => reads_tuning(
                command,
                "lsb"@,
                config.low_cut as int,
                config.high_cut as int,
                config.freq@,
            ),
            Station::USB(config) => reads_tuning(
                command,
                "usb"@,
                config.low_cut as int,
                config.high_cut as int,
                config.freq@,
            ),
        }
    }

    /// The command that tunes to this station.
    pub fn to_message(&self) -> (command: String)
        requires
            self.tunable(),
        ensures
            command@ == self.command(),
            self.is_tuned_by(command@),
    {
        proof {
            law_tuning_is_read_back(*self);
        }
        match self {
            Station::AM(config) => tune_text(
                "am",
                -config.bandwidth / 2,
                config.bandwidth / 2,
                &config.freq,
            ),
            Station::FM(config) => tune_text("fm", config.low_cut, config.high_cut, &config.freq),
            Station::LSB(config) => tune_text("lsb", config.low_cut, config.high_cut, &config.freq),
            Station::USB(config) => tune_text("usb", config.low_cut, config.high_cut, &config.freq),
        }
    }
}

/// A receiver together with the station to hear on it.
pub struct SDRWrapper {
    client: Option<KiwiSdrSndClient>,
    password: Option<String>,
    endpoint: String,
    name: String,
    station: Station,
}

/// What is known of a receiver.
#[verifier::ext_equal]
pub struct WrapperModel {
    pub client: Option<ClientModel>,
    pub password: Option<Seq<char>>,
    pub endpoint: Seq<char>,
    pub name: Seq<char>,
    pub station: Station,
}

/// What an optional client knows.
pub open spec fn option_client(client: Option<KiwiSdrSndClient>) -> Option<ClientModel> {
    match client {
        Some(c) => Some(c@),
        None => None,
    }
}

impl View for SDRWrapper {
    type V = WrapperModel;

    closed spec fn view(&self) -> WrapperModel {
        WrapperModel {
            client: option_client(self.client),
            password: option_text(self.password),
            endpoint: self.endpoint@,
            name: self.name@,
            station: self.station,
        }
    }
}

impl SDRWrapper {
    /// A receiver that is not connected.
    pub fn new(
        endpoint: String,
        name: String,
        station: Station,
        password: Option<String>,
    ) -> (wrapper: SDRWrapper)
        ensures
            wrapper@ == (WrapperModel {
                client: None,
                password: option_text(password),
                endpoint: endpoint@,
                name: name@,
                station,
            }),
    {
        SDRWrapper { client: None, password, endpoint, name, station }
    }

    /// Begins to connect to the receiver, in a given session. The address is
    /// refused exactly where it is no URL. With one that has a server this
    /// succeeds, and the socket is on that same server.
    pub fn connect_in(&self, session: i32) -> (opening: Result<SndOpening, ClientError>)
        ensures
            opening_result(opening) == opening_at(
                self@.endpoint,
                self@.name,
                self@.password,
                session as int,
            ),
            parsed_url(self@.endpoint) is Err <==> opening is Err && opening->Err_0 is InvalidEndpoint,
            parsed_url(self@.endpoint) is Ok && session >= 0 ==> opens_on_server(
                parsed_url(self@.endpoint)->Ok_0,
                session as int,
                opening_result(opening),
            ),
            begins_at(
                self@.endpoint,
                self@.name,
                self@.password,
                session as int,
                opening,
            ),
    {
        open_in(self.endpoint.as_str(), self.name.as_str(), &self.password, session)
    }

    /// Begins to connect to the receiver, in a session that is picked at random.
    /// The address is refused exactly where it is no URL. With one that has a
    /// server this succeeds, and the socket is on that same server.
    pub fn connect(&self) -> (opening: Result<SndOpening, ClientError>)
        ensures
            opens_at(self@.endpoint, self@.name, self@.password, opening_result(opening)),
            parsed_url(self@.endpoint) is Err <==> opening is Err && opening->Err_0 is InvalidEndpoint,
            parsed_url(self@.endpoint) is Ok ==> stays_on_server_of(
                parsed_url(self@.endpoint)->Ok_0,
                opening_result(opening),
            ),
            exists|session: int|
                0 <= session < 10000 && #[trigger] begins_at(
                    self@.endpoint,
                    self@.name,
                    self@.password,
                    session,
                    opening,
                ),
    {
        open_any(self.endpoint.as_str(), self.name.as_str(), &self.password)
    }

    /// Takes the client that the connecting has led to, in place of an earlier one.
    pub fn connected(&mut self, client: KiwiSdrSndClient)
        ensures
            final(self)@ == (WrapperModel { client: Some(client@), ..old(self)@ }),
    {
        self.client = Some(client);
    }

    /// The client, once there is one.
    pub fn client(&self) -> (client: Option<&KiwiSdrSndClient>)
        ensures
            match client {
                Some(c) => self@.client == Some(c@),
                None => self@.client is None,
            },
    {
        self.client.as_ref()
    }
}

/// The command that tunes to a station can be read back: the mode, the edges
/// and the frequency are those of the station.
pub proof fn law_tuning_is_read_back(station: Station)
    ensures
        station.is_tuned_by(station.command()),
        exists|low: Seq<char>, high: Seq<char>|
            {
                &&& #[trigger] denotes(low, station.low_edge())
                &&& #[trigger] denotes(high, station.high_edge())
                &&& match station {
                    Station::AM(config) => station.command() == "SET mod="@ + "am"@ + " low_cut="@
                        + low + " high_cut="@ + high + " freq="@ + config.freq@,
                    Station::FM(config) => station.command() == "SET mod="@ + "fm"@ + " low_cut="@
                        + low + " high_cut="@ + high + " freq="@ + config.freq@,
                    Station::LSB(config) => station.command() == "SET mod="@ + "lsb"@ + " low_cut="@
                        + low + " high_cut="@ + high + " freq="@ + config.freq@,
                    Station::USB(config) => station.command() == "SET mod="@ + "usb"@ + " low_cut="@
                        + low + " high_cut="@ + high + " freq="@ + config.freq@,
                }
            },
{
    let command = station.command();
    law_numeral_denotes(station.low_edge());
    law_numeral_denotes(station.high_edge());
    assert(reads_tuning(
        command,
        station.mode(),
        station.low_edge(),
        station.high_edge(),
        station.frequency(),
    ));
    if station is AM {
        law_am_band_is_symmetric(station);
        law_am_band_is_as_wide_as_asked(station);
        let edge = station.high_edge();
        assert(reads_tuning(command, "am"@, -edge, edge, station.frequency()));
    }
}

/// In amplitude modulation the pass band is as wide as the bandwidth, up to
/// the fraction that is cut off where it is odd. A negative bandwidth gives the
/// mirror image. In the other modes the edges are those that were given.
pub proof fn law_am_band_is_as_wide_as_asked(station: Station)
    ensures
        ({
            let width = station.high_edge() - station.low_edge();
            match station {
                Station::AM(config) => {
                    &&& config.bandwidth >= 0 ==> config.bandwidth - 1 <= width <= config.bandwidth
                    &&& config.bandwidth < 0 ==> config.bandwidth <= width <= config.bandwidth + 1
                    &&& config.bandwidth % 2 == 0 ==> width == config.bandwidth
                },
                Station::FM(config) | Station::LSB(config) | Station::USB(config) => {
                    &&& station.low_edge() == config.low_cut
                    &&& station.high_edge() == config.high_cut
                },
            }
        }),
{
}

/// Half of a number is found again by doubling it, up to the fraction that is
/// cut off toward zero.
pub proof fn law_half_is_cut_toward_zero(n: int)
    ensures
        n >= 0 ==> 0 <= n - 2 * half(n) <= 1,
        half(-n) == -half(n),
{
}

/// Only an amplitude-modulated station with the least bandwidth of all cannot
/// be tuned to.
pub proof fn law_nearly_every_station_is_tunable(station: Station)
    ensures
        station.tunable() <==> !(station is AM && station->AM_0.bandwidth == i32::MIN),
{
}

/// In amplitude modulation the pass band is symmetric about the frequency.
pub proof fn law_am_band_is_symmetric(station: Station)
    requires
        station is AM,
    ensures
        station.low_edge() == -station.high_edge(),
{
}

} // verus!
