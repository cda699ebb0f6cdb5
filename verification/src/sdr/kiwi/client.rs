//! A client of a receiver's sound socket: what it knows of the receiver, how
//! it reacts to what the receiver sends, and the commands it sends.

use vstd::prelude::*;
use vstd::string::*;

use crate::sdr::kiwi::audio::{
    announcement, announces_audio, is_announcement, is_well_formed, lemma_announcement_is_one,
    is_capped_value, parse_audio_init, rate_in, rate_of, AudioInitError,
};
use crate::sdr::kiwi::frame::{
    decode_frame, frame_of, law_sound_round_trip, law_text_round_trip, sound_frame, text_frame,
    FrameError, FrameModel, ServerFrame, SoundModel,
};
use crate::sdr::{agc_command, switch_str, switch_text, AgcConfig, Station};

verus! {

/// How many blocks of sound may wait to be fetched.
pub const SOUND_BUFFER: usize = 3;

/// What can go wrong with a receiver.
#[derive(Debug)]
pub enum KiwiSdrError {
    ConnectionError(String),
    SendError(String),
    ConnectionClosed,
    CannotBuild(String),
}

/// What an error says.
pub enum KiwiSdrErrorModel {
    ConnectionError(Seq<char>),
    SendError(Seq<char>),
    ConnectionClosed,
    CannotBuild(Seq<char>),
}

impl View for KiwiSdrError {
    type V = KiwiSdrErrorModel;

    open spec fn view(&self) -> KiwiSdrErrorModel {
        match self {
            KiwiSdrError::ConnectionError(text) => KiwiSdrErrorModel::ConnectionError(text@),
            KiwiSdrError::SendError(text) => KiwiSdrErrorModel::SendError(text@),
            KiwiSdrError::ConnectionClosed => KiwiSdrErrorModel::ConnectionClosed,
            KiwiSdrError::CannotBuild(text) => KiwiSdrErrorModel::CannotBuild(text@),
        }
    }
}

/// Measurements of the received signal.
#[derive(Clone, Copy, Debug, PartialEq, Eq, Structural)]
pub struct KiwiSdrStats {
    /// The received signal strength in tenths of a dBm.
    pub rssi_tenths: i32,
}

/// A client of a receiver's sound socket.
#[derive(Debug)]
pub struct KiwiSdrSndClient {
    name: String,
    stats: KiwiSdrStats,
    sample_rate: u32,
    cancelled: bool,
    listening: bool,
}

/// What a client knows.
#[verifier::ext_equal]
pub struct ClientModel {
    pub name: Seq<char>,
    pub stats: KiwiSdrStats,
    pub sample_rate: u32,
    /// Whether the receiver has closed the connection.
    pub cancelled: bool,
    /// Whether the receiver's messages are still taken in.
    pub listening: bool,
}

impl View for KiwiSdrSndClient {
    type V = ClientModel;

    closed spec fn view(&self) -> ClientModel {
        ClientModel {
            name: self.name@,
            stats: self.stats,
            sample_rate: self.sample_rate,
            cancelled: self.cancelled,
            listening: self.listening,
        }
    }
}

impl Clone for KiwiSdrSndClient {
    fn clone(&self) -> (copy: Self)
        ensures
            copy@ == self@,
    {
        KiwiSdrSndClient {
            name: self.name.clone(),
            stats: self.stats,
            sample_rate: self.sample_rate,
            cancelled: self.cancelled,
            listening: self.listening,
        }
    }
}

/// What a receiver sends.
pub enum ServerMessage {
    /// Nothing that could be read; the reason is given.
    Failure(String),
    Ping,
    Binary(Vec<u8>),
    Close,
    /// A message of another kind, which is of no concern.
    Other,
}

/// What a receiver's message holds.
pub enum MessageModel {
    Failure(Seq<char>),
    Ping,
    Binary(Seq<u8>),
    Close,
    Other,
}

impl View for ServerMessage {
    type V = MessageModel;

    open spec fn view(&self) -> MessageModel {
        match self {
            ServerMessage::Failure(reason) => MessageModel::Failure(reason@),
            ServerMessage::Ping => MessageModel::Ping,
            ServerMessage::Binary(data) => MessageModel::Binary(data@),
            ServerMessage::Close => MessageModel::Close,
            ServerMessage::Other => MessageModel::Other,
        }
    }
}

/// What has to be done about a message.
pub enum Reaction {
    /// Send a command to the receiver.
    Send(String),
    /// Wake the one that waits for the start.
    NotifyStart,
    /// Hand samples to the one that waits for sound.
    Deliver(Vec<i16>),
    /// Tell everybody that the connection is closed.
    Cancel,
}

/// What a reaction holds.
pub enum ReactionModel {
    Send(Seq<char>),
    NotifyStart,
    Deliver(Seq<i16>),
    Cancel,
}

impl View for Reaction {
    type V = ReactionModel;

    open spec fn view(&self) -> ReactionModel {
        match self {
            Reaction::Send(command) => ReactionModel::Send(command@),
            Reaction::NotifyStart => ReactionModel::NotifyStart,
            Reaction::Deliver(samples) => ReactionModel::Deliver(samples@),
            Reaction::Cancel => ReactionModel::Cancel,
        }
    }
}

/// What each of several reactions holds.
pub open spec fn reaction_list(reactions: Seq<Reaction>) -> Seq<ReactionModel> {
    reactions.map_values(|r: Reaction| r@)
}

/// Why a message cannot be handled.
#[derive(Debug, Clone, Copy, PartialEq, Eq, Structural)]
pub enum MessageError {
    Frame(FrameError),
    Audio(AudioInitError),
}

/// The answer to the announcement of the audio parameters.
pub open spec fn rate_reply() -> Seq<char> {
    "SET AR OK in=12000 out=44100"@
}

/// The command that opens the squelch.
pub open spec fn squelch_reply() -> Seq<char> {
    "SET squelch=0 param=0.00"@
}

/// The signal strength that a reading of the signal meter stands for: tenths
/// of a dBm above -127 dBm.
pub open spec fn stats_of(smeter: u16) -> KiwiSdrStats {
    KiwiSdrStats { rssi_tenths: (smeter - 1270) as i32 }
}

/// What a client knows once it has stopped listening.
pub open spec fn deafened(client: ClientModel) -> ClientModel {
    ClientModel { listening: false, ..client }
}

/// What a client knows after an announcement, given what the reading of its
/// rate came to, and how it reacts to it. A client that has stopped listening
/// takes nothing in.
pub open spec fn after_rate(client: ClientModel, rate: Result<u32, AudioInitError>) -> Result<
    (ClientModel, Seq<ReactionModel>),
    AudioInitError,
> {
    if !client.listening {
        Ok((client, seq![]))
    } else {
        match rate {
            Ok(r) => Ok(
                (
                    ClientModel { sample_rate: r, ..client },
                    seq![
                        ReactionModel::Send(rate_reply()),
                        ReactionModel::Send(squelch_reply()),
                        ReactionModel::NotifyStart,
                    ],
                ),
            ),
            Err(error) => Err(error),
        }
    }
}

/// What a client knows after a frame, and how it reacts to it. A client that
/// has stopped listening takes nothing in.
pub open spec fn after_frame(client: ClientModel, frame: FrameModel) -> Result<
    (ClientModel, Seq<ReactionModel>),
    AudioInitError,
> {
    if !client.listening {
        Ok((client, seq![]))
    } else {
        match frame {
            FrameModel::Text(text) => {
                if is_announcement(text) {
                    after_rate(client, rate_in(text))
                } else {
                    Ok((client, seq![]))
                }
            },
            FrameModel::Sound(block) => Ok(
                (
                    ClientModel { stats: stats_of(block.smeter), ..client },
                    seq![ReactionModel::Deliver(block.samples)],
                ),
            ),
            FrameModel::Unknown => Ok((client, seq![])),
        }
    }
}

/// What a client knows after a message, and how it reacts to it. A client that
/// has stopped listening takes nothing in.
pub open spec fn after_message(client: ClientModel, message: MessageModel) -> Result<
    (ClientModel, Seq<ReactionModel>),
    MessageError,
> {
    if !client.listening {
        Ok((client, seq![]))
    } else {
        match message {
            MessageModel::Binary(data) => match frame_of(data) {
                Ok(frame) => match after_frame(client, frame) {
                    Ok(step) => Ok(step),
                    Err(error) => Err(MessageError::Audio(error)),
                },
                Err(error) => Err(MessageError::Frame(error)),
            },
            MessageModel::Close => Ok(
                (ClientModel { cancelled: true, ..client }, seq![ReactionModel::Cancel]),
            ),
            MessageModel::Failure(_) | MessageModel::Ping | MessageModel::Other => Ok(
                (client, seq![]),
            ),
        }
    }
}

/// Whether a message can be handled: it is no frame that cannot be decoded and
/// no announcement without a rate.
pub open spec fn can_be_handled(message: MessageModel) -> bool {
    match message {
        MessageModel::Binary(data) => match frame_of(data) {
            Ok(FrameModel::Text(text)) => is_announcement(text) ==> rate_in(text) is Ok,
            Ok(_) => true,
            Err(_) => false,
        },
        _ => true,
    }
}

/// Whether a client that listens is still listening when it comes to a
/// message: all those in front of it can be handled.
pub open spec fn is_reached(messages: Seq<MessageModel>, i: int) -> bool {
    &&& 0 <= i < messages.len()
    &&& forall|j: int| 0 <= j < i ==> can_be_handled(#[trigger] messages[j])
}

/// What a client knows after several messages, where all its answers could be
/// sent. The first that cannot be handled ends the listening, and none behind
/// it is taken in.
pub open spec fn after_messages(client: ClientModel, messages: Seq<MessageModel>) -> ClientModel
    decreases messages.len(),
{
    if messages.len() == 0 {
        client
    } else {
        let before = after_messages(client, messages.drop_last());
        match after_message(before, messages.last()) {
            Ok((after, _)) => after,
            Err(_) => deafened(before),
        }
    }
}

/// The blocks of samples that reactions hand on.
pub open spec fn deliveries(reactions: Seq<ReactionModel>) -> Seq<Seq<i16>>
    decreases reactions.len(),
{
    if reactions.len() == 0 {
        seq![]
    } else {
        deliveries(reactions.drop_last()) + match reactions.last() {
            ReactionModel::Deliver(samples) => seq![samples],
            _ => seq![],
        }
    }
}

/// The blocks of samples that a client hands on over several messages.
pub open spec fn delivered(client: ClientModel, messages: Seq<MessageModel>) -> Seq<Seq<i16>>
    decreases messages.len(),
{
    if messages.len() == 0 {
        seq![]
    } else {
        let earlier = messages.drop_last();
        delivered(client, earlier) + match after_message(
            after_messages(client, earlier),
            messages.last(),
        ) {
            Ok((_, reactions)) => deliveries(reactions),
            Err(_) => seq![],
        }
    }
}

/// The block of samples in a message, if it holds one.
pub open spec fn sound_in(message: MessageModel) -> Seq<Seq<i16>> {
    match message {
        MessageModel::Binary(data) => match frame_of(data) {
            Ok(FrameModel::Sound(block)) => seq![block.samples],
            _ => seq![],
        },
        _ => seq![],
    }
}

/// The blocks of samples in those messages that have only such in front of
/// them as can be handled, in the order in which they were sent.
pub open spec fn sound_sent(messages: Seq<MessageModel>) -> Seq<Seq<i16>>
    decreases messages.len(),
{
    if messages.len() == 0 {
        seq![]
    } else {
        sound_sent(messages.drop_last()) + if is_reached(messages, messages.len() - 1) {
            sound_in(messages.last())
        } else {
            seq![]
        }
    }
}

/// Whether a message is an announcement of the audio parameters.
pub open spec fn announces_start(message: MessageModel) -> bool {
    match message {
        MessageModel::Binary(data) => match frame_of(data) {
            Ok(FrameModel::Text(text)) => is_announcement(text),
            _ => false,
        },
        _ => false,
    }
}

/// The command that switches compression.
pub open spec fn compression_command(compression: bool) -> Seq<char> {
    "SET compression="@ + switch_text(compression)
}

/// The command that gives the listener's name.
pub open spec fn callsign_command(callsign: Seq<char>) -> Seq<char> {
    "SET ident_user="@ + callsign
}

/// The command that gives the listener's location.
pub open spec fn location_command(location: Seq<char>) -> Seq<char> {
    "SET geoloc="@ + location
}

/// The command that keeps the connection open.
pub open spec fn keepalive_command() -> Seq<char> {
    "SET keepalive"@
}

/// Whether a command consists of a text and another one behind it.
pub open spec fn is_word_before(command: Seq<char>, word: Seq<char>, rest: Seq<char>) -> bool {
    &&& command.len() == word.len() + rest.len()
    &&& command.take(word.len() as int) == word
    &&& command.skip(word.len() as int) == rest
}

/// Whether nothing has changed and nothing is to be done.
pub open spec fn is_idle<E>(
    before: ClientModel,
    after: ClientModel,
    reactions: Result<Vec<Reaction>, E>,
) -> bool {
    after == before && reactions is Ok && reactions->Ok_0@.len() == 0
}

/// Whether a client has taken in what the reading of an announced rate came
/// to: a rate is kept, answered by two commands and followed by the notice of
/// the start; without one the listening ends; and one that has ended stays so.
pub open spec fn starts_with_rate<E>(
    before: ClientModel,
    after: ClientModel,
    rate: Result<u32, AudioInitError>,
    reactions: Result<Vec<Reaction>, E>,
) -> bool {
    if !before.listening {
        is_idle(before, after, reactions)
    } else {
        match rate {
            Ok(r) => {
                &&& after == (ClientModel { sample_rate: r, ..before })
                &&& reactions is Ok && reactions->Ok_0@.len() == 3
                &&& reactions->Ok_0@[0] matches Reaction::Send(command) && command@
                    == "SET AR OK in=12000 out=44100"@
                &&& reactions->Ok_0@[1] matches Reaction::Send(command) && command@
                    == "SET squelch=0 param=0.00"@
                &&& reactions->Ok_0@[2] is NotifyStart
            },
            Err(_) => reactions is Err && after == (ClientModel { listening: false, ..before }),
        }
    }
}

impl KiwiSdrSndClient {
    /// A client of a receiver that has sent nothing yet.
    pub(crate) fn fresh(name: String) -> (client: Self)
        ensures
            client@ == fresh_client(name@),
    {
        KiwiSdrSndClient {
            name,
            stats: KiwiSdrStats { rssi_tenths: 0 },
            sample_rate: 12000,
            cancelled: false,
            listening: true,
        }
    }

    /// The name that the client was given.
    pub fn name(&self) -> (name: &str)
        ensures
            name@ == self@.name,
    {
        self.name.as_str()
    }

    /// Takes an announcement in, given what the reading of its rate came to.
    /// Failure ends the listening and changes nothing else.
    pub fn on_announcement(&mut self, rate: Result<u32, AudioInitError>) -> (reactions: Result<
        Vec<Reaction>,
        AudioInitError,
    >)
        ensures
            match (reactions, after_rate(old(self)@, rate)) {
                (Ok(list), Ok((client, expected))) => final(self)@ == client && reaction_list(list@)
                    == expected,
                (Err(error), Err(expected)) => final(self)@ == deafened(old(self)@) && error
                    == expected,
                _ => false,
            },
            starts_with_rate(old(self)@, final(self)@, rate, reactions),
            old(self)@.listening && rate is Err ==> reactions is Err && reactions->Err_0
                == rate->Err_0,
    {
        let mut reactions: Vec<Reaction> = Vec::new();
        if !self.listening {
            assert(reaction_list(reactions@) =~= seq![]);
            return Ok(reactions);
        }
        match rate {
            Ok(r) => {
                self.sample_rate = r;
                reactions.push(Reaction::Send("SET AR OK in=12000 out=44100".to_owned()));
                reactions.push(Reaction::Send("SET squelch=0 param=0.00".to_owned()));
                reactions.push(Reaction::NotifyStart);
                assert(reaction_list(reactions@) =~= seq![
                    ReactionModel::Send(rate_reply()),
                    ReactionModel::Send(squelch_reply()),
                    ReactionModel::NotifyStart,
                ]);
                Ok(reactions)
            },
            Err(error) => {
                self.listening = false;
                Err(error)
            },
        }
    }

    /// Takes a frame in. Failure ends the listening and changes nothing else. A
    /// well-formed announcement sets the sample rate to the one it gives.
    pub fn on_frame(&mut self, frame: ServerFrame) -> (reactions: Result<
        Vec<Reaction>,
        AudioInitError,
    >)
        ensures
            match (reactions, after_frame(old(self)@, frame@)) {
                (Ok(list), Ok((client, expected))) => final(self)@ == client && reaction_list(list@)
                    == expected,
                (Err(error), Err(expected)) => final(self)@ == deafened(old(self)@) && error
                    == expected,
                _ => false,
            },
            !old(self)@.listening ==> is_idle(old(self)@, final(self)@, reactions),
            old(self)@.listening ==> match frame {
                ServerFrame::Sound(block) => {
                    &&& reactions is Ok && reactions->Ok_0@.len() == 1
                    &&& reactions->Ok_0@[0] matches Reaction::Deliver(samples) && samples@
                        == block.samples@
                    &&& final(self)@.stats.rssi_tenths + 1270 == block.smeter
                    &&& final(self)@ == (ClientModel { stats: final(self)@.stats, ..old(self)@ })
                },
                ServerFrame::Text(text) => if "audio_init"@.is_prefix_of(text@) {
                    &&& starts_with_rate(old(self)@, final(self)@, rate_in(text@), reactions)
                    &&& reactions is Err ==> reactions->Err_0 == rate_in(text@)->Err_0
                } else {
                    is_idle(old(self)@, final(self)@, reactions)
                },
                ServerFrame::Unknown => is_idle(old(self)@, final(self)@, reactions),
            },
            forall|
                init: Seq<char>,
                first_gap: Seq<char>,
                digits: Seq<char>,
                second_gap: Seq<char>,
                sample: Seq<char>,
            |
                old(self)@.listening && frame@ == FrameModel::Text(
                    #[trigger] announcement(init, first_gap, digits, second_gap, sample),
                ) && is_well_formed(init, first_gap, digits, second_gap, sample) ==> reactions is Ok
                    && final(self)@.sample_rate == rate_of(digits) && is_capped_value(
                    final(self)@.sample_rate,
                    digits,
                ),
    {
        proof {
            assert forall|
                init: Seq<char>,
                first_gap: Seq<char>,
                digits: Seq<char>,
                second_gap: Seq<char>,
                sample: Seq<char>,
            | is_announcement(
                #[trigger] announcement(init, first_gap, digits, second_gap, sample),
            ) by {
                lemma_announcement_is_one(init, first_gap, digits, second_gap, sample);
            }
        }
        let mut reactions: Vec<Reaction> = Vec::new();
        if !self.listening {
            assert(reaction_list(reactions@) =~= seq![]);
            return Ok(reactions);
        }
        match frame {
            ServerFrame::Text(text) => {
                if announces_audio(text.as_str()) {
                    let rate = parse_audio_init(text.as_str());
                    return self.on_announcement(rate);
                } else {
                    assert(reaction_list(reactions@) =~= seq![]);
                }
            },
            ServerFrame::Sound(block) => {
                self.stats = KiwiSdrStats { rssi_tenths: block.smeter as i32 - 1270 };
                reactions.push(Reaction::Deliver(block.samples));
                assert(reaction_list(reactions@) =~= seq![ReactionModel::Deliver(block@.samples)]);
            },
            ServerFrame::Unknown => {
                assert(reaction_list(reactions@) =~= seq![]);
            },
        }
        Ok(reactions)
    }

    /// Takes a message in. Failure ends the listening and changes nothing else.
    /// A well-formed announcement sets the sample rate to the one it gives.
    pub fn on_message(&mut self, message: ServerMessage) -> (reactions: Result<
        Vec<Reaction>,
        MessageError,
    >)
        ensures
            match (reactions, after_message(old(self)@, message@)) {
                (Ok(list), Ok((client, expected))) => final(self)@ == client && reaction_list(list@)
                    == expected,
                (Err(error), Err(expected)) => final(self)@ == deafened(old(self)@) && error
                    == expected,
                _ => false,
            },
            !old(self)@.listening ==> is_idle(old(self)@, final(self)@, reactions),
            old(self)@.listening ==> match message {
                ServerMessage::Close => {
                    &&& reactions is Ok && reactions->Ok_0@.len() == 1
                    &&& reactions->Ok_0@[0] is Cancel
                    &&& final(self)@.cancelled
                    &&& final(self)@ == (ClientModel { cancelled: true, ..old(self)@ })
                },
                ServerMessage::Failure(_) | ServerMessage::Ping | ServerMessage::Other => is_idle(
                    old(self)@,
                    final(self)@,
                    reactions,
                ),
                ServerMessage::Binary(data) => match frame_of(data@) {
                    Err(error) => {
                        &&& reactions == Err::<Vec<Reaction>, MessageError>(
                            MessageError::Frame(error),
                        )
                        &&& final(self)@ == (ClientModel { listening: false, ..old(self)@ })
                    },
                    Ok(FrameModel::Sound(block)) => {
                        &&& reactions is Ok && reactions->Ok_0@.len() == 1
                        &&& reactions->Ok_0@[0] matches Reaction::Deliver(samples) && samples@
                            == block.samples
                        &&& final(self)@.stats.rssi_tenths + 1270 == block.smeter
                        &&& final(self)@ == (ClientModel {
                            stats: final(self)@.stats,
                            ..old(self)@
                        })
                    },
                    Ok(FrameModel::Text(text)) => if "audio_init"@.is_prefix_of(text) {
                        &&& starts_with_rate(old(self)@, final(self)@, rate_in(text), reactions)
                        &&& reactions is Err ==> reactions->Err_0 == MessageError::Audio(
                            rate_in(text)->Err_0,
                        )
                    } else {
                        is_idle(old(self)@, final(self)@, reactions)
                    },
                    Ok(FrameModel::Unknown) => is_idle(old(self)@, final(self)@, reactions),
                },
            },
            forall|
                separator: u8,
                init: Seq<char>,
                first_gap: Seq<char>,
                digits: Seq<char>,
                second_gap: Seq<char>,
                sample: Seq<char>,
            |
                old(self)@.listening && message@ == MessageModel::Binary(
                    #[trigger] text_frame(
                        separator,
                        announcement(init, first_gap, digits, second_gap, sample),
                    ),
                ) && is_well_formed(init, first_gap, digits, second_gap, sample) ==> reactions is Ok
                    && final(self)@.sample_rate == rate_of(digits) && is_capped_value(
                    final(self)@.sample_rate,
                    digits,
                ),
    {
        proof {
            assert forall|separator: u8, text: Seq<char>|
                frame_of(#[trigger] text_frame(separator, text)) == Ok::<FrameModel, FrameError>(
                    FrameModel::Text(text),
                ) by {
                law_text_round_trip(separator, text);
            }
        }
        let mut reactions: Vec<Reaction> = Vec::new();
        if !self.listening {
            assert(reaction_list(reactions@) =~= seq![]);
            return Ok(reactions);
        }
        match message {
            ServerMessage::Binary(data) => {
                match decode_frame(data.as_slice()) {
                    Ok(frame) => match self.on_frame(frame) {
                        Ok(list) => {
                            return Ok(list);
                        },
                        Err(error) => {
                            return Err(MessageError::Audio(error));
                        },
                    },
                    Err(error) => {
                        self.listening = false;
                        return Err(MessageError::Frame(error));
                    },
                }
            },
            ServerMessage::Close => {
                self.cancelled = true;
                reactions.push(Reaction::Cancel);
                assert(reaction_list(reactions@) =~= seq![ReactionModel::Cancel]);
            },
            ServerMessage::Failure(_) | ServerMessage::Ping | ServerMessage::Other => {
                assert(reaction_list(reactions@) =~= seq![]);
            },
        }
        Ok(reactions)
    }

    /// Notes that an answer to the receiver could not be sent, which ends the
    /// listening.
    pub fn answer_failed(&mut self)
        ensures
            final(self)@ == deafened(old(self)@),
            final(self)@ == (ClientModel { listening: false, ..old(self)@ }),
    {
        self.listening = false;
    }

    /// The command that applies gain control settings.
    pub fn configure_agc(&self, config: AgcConfig) -> (command: String)
        ensures
            command@ == agc_command(config@),
    {
        config.to_string()
    }

    /// The command that tunes to a station.
    pub fn tune(&self, freq: Station) -> (command: String)
        requires
            freq.tunable(),
        ensures
            command@ == freq.command(),
    {
        freq.to_message()
    }

    /// The command that switches compression.
    pub fn set_compression(&self, compression: bool) -> (command: String)
        ensures
            command@ == compression_command(compression),
            compression ==> command@ == "SET compression="@ + "1"@,
            !compression ==> command@ == "SET compression="@ + "0"@,
    {
        let mut out: String = "SET compression=".to_owned();
        out.append(switch_str(compression));
        out
    }

    /// The command that gives the listener's name.
    pub fn set_callsign(&self, callsign: &str) -> (command: String)
        ensures
            command@ == callsign_command(callsign@),
            is_word_before(command@, "SET ident_user="@, callsign@),
    {
        proof {
            law_listener_is_named_in_full(callsign@, callsign@);
        }
        let mut out: String = "SET ident_user=".to_owned();
        out.append(callsign);
        out
    }

    /// The command that gives the listener's location.
    pub fn set_location(&self, location: &str) -> (command: String)
        ensures
            command@ == location_command(location@),
            is_word_before(command@, "SET geoloc="@, location@),
    {
        proof {
            law_listener_is_named_in_full(location@, location@);
        }
        let mut out: String = "SET geoloc=".to_owned();
        out.append(location);
        out
    }

    /// The command that keeps the connection open.
    pub fn send_keepalive(&self) -> (command: String)
        ensures
            command@ == keepalive_command(),
            command@ == "SET keepalive"@,
    {
        "SET keepalive".to_owned()
    }

    /// The command that is due when the time for one has come: none any more
    /// once the connection is closed.
    pub fn keepalive_due(&self) -> (command: Option<String>)
        ensures
            command is None <==> self@.cancelled,
            command matches Some(c) ==> c@ == keepalive_command() && c@ == "SET keepalive"@,
    {
        if self.cancelled {
            None
        } else {
            Some(self.send_keepalive())
        }
    }

    /// What the sending of a command came to, given the reason if it failed.
    pub fn command_sent(outcome: Result<(), String>) -> (result: Result<(), KiwiSdrError>)
        ensures
            result is Ok <==> outcome is Ok,
            result matches Err(error) ==> error@ == KiwiSdrErrorModel::ConnectionError(
                outcome->Err_0@,
            ),
    {
        match outcome {
            Ok(()) => Ok(()),
            Err(reason) => Err(KiwiSdrError::ConnectionError(reason)),
        }
    }

    /// What waiting for sound came to, given what was received; nothing more
    /// comes once the connection is gone.
    pub fn get_sound_data(received: Option<Vec<i16>>) -> (result: Result<Vec<i16>, KiwiSdrError>)
        ensures
            match received {
                Some(samples) => result == Ok::<Vec<i16>, KiwiSdrError>(samples),
                None => result is Err && result->Err_0@ == KiwiSdrErrorModel::ConnectionClosed,
            },
    {
        match received {
            Some(samples) => Ok(samples),
            None => Err(KiwiSdrError::ConnectionClosed),
        }
    }

    /// The latest measurements.
    pub fn get_stats(&self) -> (stats: Result<KiwiSdrStats, KiwiSdrError>)
        ensures
            stats == Ok::<KiwiSdrStats, KiwiSdrError>(self@.stats),
    {
        Ok(self.stats)
    }

    /// The rate of the samples, per second.
    pub fn get_sample_rate(&self) -> (rate: Result<u32, KiwiSdrError>)
        ensures
            rate == Ok::<u32, KiwiSdrError>(self@.sample_rate),
    {
        Ok(self.sample_rate)
    }

    /// Whether the receiver has closed the connection.
    pub fn is_cancelled(&self) -> (cancelled: bool)
        ensures
            cancelled == self@.cancelled,
    {
        self.cancelled
    }

    /// Whether the receiver's messages are still taken in.
    pub fn is_listening(&self) -> (listening: bool)
        ensures
            listening == self@.listening,
    {
        self.listening
    }
}

/// What a client knows of a receiver that has sent nothing yet.
pub open spec fn fresh_client(name: Seq<char>) -> ClientModel {
    ClientModel {
        name,
        stats: KiwiSdrStats { rssi_tenths: 0 },
        sample_rate: 12000,
        cancelled: false,
        listening: true,
    }
}

/// A client of a receiver that has sent nothing yet listens, is not closed, has
/// the name that it was given and the usual rate, and has measured nothing.
pub proof fn law_fresh_client_has_heard_nothing(name: Seq<char>)
    ensures
        fresh_client(name).name == name,
        fresh_client(name).sample_rate == 12000,
        fresh_client(name).stats.rssi_tenths == 0,
        !fresh_client(name).cancelled,
        fresh_client(name).listening,
{
}

/// The signal strength in tenths of a dBm, counted from -127 dBm, is the
/// reading of the meter in the latest block. So it rises and falls with the
/// reading, by a tenth of a dBm for each step.
pub proof fn law_strength_follows_the_meter(client: ClientModel, a: SoundModel, b: SoundModel)
    requires
        client.listening,
    ensures
        ({
            let first = after_frame(client, FrameModel::Sound(a));
            let second = after_frame(client, FrameModel::Sound(b));
            &&& first is Ok && second is Ok
            &&& first->Ok_0.0.stats.rssi_tenths + 1270 == a.smeter
            &&& second->Ok_0.0.stats.rssi_tenths - first->Ok_0.0.stats.rssi_tenths == b.smeter
                - a.smeter
            &&& stats_of(a.smeter).rssi_tenths + 1270 == a.smeter
        }),
{
}

/// The rate of a client is the one that the last announcement gave, whatever it
/// was before.
pub proof fn law_announced_rate_is_kept(client: ClientModel, rate: u32, text: Seq<char>)
    requires
        client.listening,
        "audio_init"@.is_prefix_of(text),
        rate_in(text) == Ok::<u32, AudioInitError>(rate),
    ensures
        ({
            let after = after_frame(client, FrameModel::Text(text));
            &&& after is Ok
            &&& after->Ok_0.0.sample_rate == rate
            &&& after->Ok_0.0 == (ClientModel { sample_rate: rate, ..client })
            &&& after->Ok_0.1 == seq![
                ReactionModel::Send("SET AR OK in=12000 out=44100"@),
                ReactionModel::Send("SET squelch=0 param=0.00"@),
                ReactionModel::NotifyStart,
            ]
            &&& after_rate(client, Ok(rate)) == after
        }),
{
}

/// A message that is no frame changes nothing, unless it closes the
/// connection. Neither does a frame that is neither sound nor an announcement.
/// What changes is the strength by sound alone, the rate by an announcement
/// alone, and whether the connection is closed by its closing alone.
pub proof fn law_each_message_changes_one_thing(client: ClientModel, message: MessageModel)
    requires
        client.listening,
        after_message(client, message) is Ok,
    ensures
        ({
            let (after, reactions) = after_message(client, message)->Ok_0;
            match message {
                MessageModel::Close => {
                    &&& after == (ClientModel { cancelled: true, ..client })
                    &&& reactions == seq![ReactionModel::Cancel]
                },
                MessageModel::Binary(data) => {
                    &&& frame_of(data) is Ok
                    &&& match frame_of(data)->Ok_0 {
                        FrameModel::Sound(block) => {
                            &&& after == (ClientModel { stats: after.stats, ..client })
                            &&& after.stats.rssi_tenths + 1270 == block.smeter
                            &&& reactions == seq![ReactionModel::Deliver(block.samples)]
                        },
                        FrameModel::Text(text) => {
                            &&& after == (ClientModel { sample_rate: after.sample_rate, ..client })
                            &&& "audio_init"@.is_prefix_of(text) ==> rate_in(text) == Ok::<
                                u32,
                                AudioInitError,
                            >(after.sample_rate)
                            &&& !"audio_init"@.is_prefix_of(text) ==> after == client && reactions
                                == Seq::<ReactionModel>::empty()
                        },
                        FrameModel::Unknown => after == client && reactions == Seq::<
                            ReactionModel,
                        >::empty(),
                    }
                },
                _ => after == client && reactions == Seq::<ReactionModel>::empty(),
            }
        }),
{
}

/// The error of a message that cannot be handled is the one of its frame or,
/// behind an announcement, the one of its rate. No other message fails.
pub proof fn law_failure_says_why(client: ClientModel, message: MessageModel)
    requires
        client.listening,
    ensures
        match message {
            MessageModel::Binary(data) => match frame_of(data) {
                Err(error) => after_message(client, message) == Err::<
                    (ClientModel, Seq<ReactionModel>),
                    MessageError,
                >(MessageError::Frame(error)),
                Ok(FrameModel::Text(text)) => "audio_init"@.is_prefix_of(text) && rate_in(text)
                    is Err ==> after_message(client, message) == Err::<
                    (ClientModel, Seq<ReactionModel>),
                    MessageError,
                >(MessageError::Audio(rate_in(text)->Err_0)),
                Ok(_) => after_message(client, message) is Ok,
            },
            _ => after_message(client, message) is Ok,
        },
        deafened(client) == (ClientModel { listening: false, ..client }),
        after_message(deafened(client), message) == Ok::<
            (ClientModel, Seq<ReactionModel>),
            MessageError,
        >((deafened(client), Seq::<ReactionModel>::empty())),
{
}

/// The listener's name and location stand in their commands whole, behind
/// nothing but the words of the command. So two of them never make the same
/// command.
pub proof fn law_listener_is_named_in_full(a: Seq<char>, b: Seq<char>)
    ensures
        callsign_command(a).len() == 15 + a.len(),
        callsign_command(a).take(15) == "SET ident_user="@,
        callsign_command(a).skip(15) == a,
        location_command(a).len() == 11 + a.len(),
        location_command(a).take(11) == "SET geoloc="@,
        location_command(a).skip(11) == a,
        callsign_command(a) == callsign_command(b) ==> a == b,
        location_command(a) == location_command(b) ==> a == b,
        "SET ident_user="@.len() == 15,
        "SET geoloc="@.len() == 11,
{
    reveal_strlit("SET ident_user=");
    reveal_strlit("SET geoloc=");
    assert(callsign_command(a).take(15) =~= "SET ident_user="@);
    assert(callsign_command(a).skip(15) =~= a);
    assert(callsign_command(b).skip(15) =~= b);
    assert(location_command(a).take(11) =~= "SET geoloc="@);
    assert(location_command(a).skip(11) =~= a);
    assert(location_command(b).skip(11) =~= b);
}

/// Compression is switched on by a one and off by a zero, and the commands
/// that depend on nothing are always the same.
pub proof fn law_fixed_commands(compression: bool)
    ensures
        compression_command(true) == "SET compression=1"@,
        compression_command(false) == "SET compression=0"@,
        keepalive_command() == "SET keepalive"@,
        rate_reply() == "SET AR OK in=12000 out=44100"@,
        squelch_reply() == "SET squelch=0 param=0.00"@,
        compression_command(compression).last() == '1' <==> compression,
{
    reveal_strlit("SET compression=");
    reveal_strlit("SET compression=1");
    reveal_strlit("SET compression=0");
    reveal_strlit("1");
    reveal_strlit("0");
    assert(compression_command(true) =~= "SET compression=1"@);
    assert(compression_command(false) =~= "SET compression=0"@);
}

/// Reactions and messages are seen as they are, one for one.
pub proof fn law_reactions_are_seen(reactions: Seq<Reaction>, i: int)
    requires
        0 <= i < reactions.len(),
    ensures
        reaction_list(reactions).len() == reactions.len(),
        match reactions[i] {
            Reaction::Send(command) => reaction_list(reactions)[i] == ReactionModel::Send(command@),
            Reaction::NotifyStart => reaction_list(reactions)[i] == ReactionModel::NotifyStart,
            Reaction::Deliver(samples) => reaction_list(reactions)[i] == ReactionModel::Deliver(
                samples@,
            ),
            Reaction::Cancel => reaction_list(reactions)[i] == ReactionModel::Cancel,
        },
{
}

/// Three blocks of sound may wait to be fetched.
pub proof fn law_three_blocks_may_wait()
    ensures
        SOUND_BUFFER == 3,
{
}

/// A client that listens fails on exactly those messages that cannot be
/// handled.
pub proof fn law_failure_depends_on_the_message(client: ClientModel, message: MessageModel)
    requires
        client.listening,
    ensures
        after_message(client, message) is Ok <==> can_be_handled(message),
{
}

/// A client goes on listening exactly as long as every message can be handled.
pub proof fn law_first_failure_ends_listening(client: ClientModel, messages: Seq<MessageModel>)
    ensures
        after_messages(client, messages).listening == (client.listening && forall|i: int|
            0 <= i < messages.len() ==> can_be_handled(#[trigger] messages[i])),
    decreases messages.len(),
{
    if messages.len() > 0 {
        let earlier = messages.drop_last();
        law_first_failure_ends_listening(client, earlier);
        let before = after_messages(client, earlier);
        if before.listening {
            law_failure_depends_on_the_message(before, messages.last());
        }
        assert(forall|i: int|
            0 <= i < earlier.len() ==> #[trigger] messages[i] == earlier[i]);
    }
}

/// Once the listening has ended, later messages change nothing and bring no
/// sound.
pub proof fn law_nothing_follows_a_failure(
    client: ClientModel,
    earlier: Seq<MessageModel>,
    later: Seq<MessageModel>,
)
    requires
        !after_messages(client, earlier).listening,
    ensures
        after_messages(client, earlier + later) == after_messages(client, earlier),
        delivered(client, earlier + later) == delivered(client, earlier),
    decreases later.len(),
{
    if later.len() == 0 {
        assert(earlier + later =~= earlier);
    } else {
        law_nothing_follows_a_failure(client, earlier, later.drop_last());
        assert((earlier + later).drop_last() =~= earlier + later.drop_last());
    }
}

/// A connection is closed by the receiver's closing it, where the client still
/// listens then, and by nothing else, and never opens again.
pub proof fn law_closing_is_final(client: ClientModel, messages: Seq<MessageModel>)
    ensures
        after_messages(client, messages).cancelled == (client.cancelled || client.listening
            && exists|i: int| #[trigger]
            is_reached(messages, i) && messages[i] == MessageModel::Close),
    decreases messages.len(),
{
    if messages.len() > 0 {
        let earlier = messages.drop_last();
        let n = messages.len() - 1;
        law_closing_is_final(client, earlier);
        law_first_failure_ends_listening(client, earlier);
        assert(forall|i: int|
            0 <= i < n ==> #[trigger] messages[i] == earlier[i]);
        assert forall|i: int| i < n implies #[trigger] is_reached(messages, i) == is_reached(
            earlier,
            i,
        ) by {
            assert(forall|j: int|
                0 <= j < i < n ==> #[trigger] messages[j] == earlier[j]);
        }
        assert(is_reached(messages, n) == forall|i: int|
            0 <= i < n ==> can_be_handled(#[trigger] earlier[i]));
        if exists|i: int| #[trigger]
            is_reached(earlier, i) && earlier[i] == MessageModel::Close {
            let i = choose|i: int| #[trigger]
                is_reached(earlier, i) && earlier[i] == MessageModel::Close;
            assert(is_reached(messages, i) && messages[i] == MessageModel::Close);
        }
        if exists|i: int| #[trigger]
            is_reached(messages, i) && messages[i] == MessageModel::Close {
            let i = choose|i: int| #[trigger]
                is_reached(messages, i) && messages[i] == MessageModel::Close;
            assert(i < n ==> is_reached(earlier, i) && earlier[i] == MessageModel::Close);
        }
    }
}

/// No message renames a client.
pub proof fn law_name_is_kept(client: ClientModel, messages: Seq<MessageModel>)
    ensures
        after_messages(client, messages).name == client.name,
    decreases messages.len(),
{
    if messages.len() > 0 {
        law_name_is_kept(client, messages.drop_last());
    }
}

/// A block of sound is delivered as it was sent and sets the signal strength;
/// the rest of the client stays as it was.
pub proof fn law_sound_is_delivered(client: ClientModel, block: SoundModel)
    requires
        client.listening,
    ensures
        after_message(client, MessageModel::Binary(sound_frame(block))) == Ok::<
            (ClientModel, Seq<ReactionModel>),
            MessageError,
        >(
            (
                ClientModel { stats: stats_of(block.smeter), ..client },
                seq![ReactionModel::Deliver(block.samples)],
            ),
        ),
{
    law_sound_round_trip(block);
}

/// A client hands on the sound that it was sent, each block whole, in order
/// and once, up to the first message that cannot be handled.
pub proof fn law_delivered_is_what_was_sent(client: ClientModel, messages: Seq<MessageModel>)
    requires
        client.listening,
    ensures
        delivered(client, messages) == sound_sent(messages),
    decreases messages.len(),
{
    if messages.len() > 0 {
        let earlier = messages.drop_last();
        let before = after_messages(client, earlier);
        law_delivered_is_what_was_sent(client, earlier);
        law_first_failure_ends_listening(client, earlier);
        assert(forall|i: int|
            0 <= i < earlier.len() ==> #[trigger] messages[i] == earlier[i]);
        assert(before.listening == is_reached(messages, messages.len() - 1));
        reveal_with_fuel(deliveries, 4);
        if let Ok((_, reactions)) = after_message(before, messages.last()) {
            assert(before.listening ==> deliveries(reactions) =~= sound_in(messages.last()));
        }
    }
}

/// Blocks of sound come through as they were sent, one after the other.
pub proof fn law_blocks_come_through(client: ClientModel, blocks: Seq<SoundModel>)
    requires
        client.listening,
    ensures
        delivered(
            client,
            blocks.map_values(|block: SoundModel| MessageModel::Binary(sound_frame(block))),
        ) == blocks.map_values(|block: SoundModel| block.samples),
    decreases blocks.len(),
{
    let frames = blocks.map_values(|block: SoundModel| MessageModel::Binary(sound_frame(block)));
    law_delivered_is_what_was_sent(client, frames);
    assert forall|i: int| 0 <= i < blocks.len() implies can_be_handled(#[trigger] frames[i])
        && sound_in(frames[i]) == seq![blocks[i].samples] by {
        law_sound_round_trip(blocks[i]);
    }
    if blocks.len() > 0 {
        let earlier = blocks.drop_last();
        law_blocks_come_through(client, earlier);
        law_delivered_is_what_was_sent(
            client,
            earlier.map_values(|block: SoundModel| MessageModel::Binary(sound_frame(block))),
        );
        assert(frames.drop_last() =~= earlier.map_values(
            |block: SoundModel| MessageModel::Binary(sound_frame(block)),
        ));
        assert(is_reached(frames, frames.len() - 1));
        assert(sound_sent(frames) =~= earlier.map_values(
            |block: SoundModel| block.samples,
        ).push(blocks.last().samples));
    }
}

/// The start is notified exactly on an announcement of the audio parameters,
/// behind the two commands that answer it. Nothing else changes the sample
/// rate, and an announcement changes nothing else.
pub proof fn law_start_follows_the_replies(client: ClientModel, message: MessageModel)
    requires
        client.listening,
        after_message(client, message) is Ok,
    ensures
        ({
            let (after, reactions) = after_message(client, message)->Ok_0;
            &&& reactions.contains(ReactionModel::NotifyStart) <==> announces_start(message)
            &&& announces_start(message) ==> reactions == seq![
                ReactionModel::Send(rate_reply()),
                ReactionModel::Send(squelch_reply()),
                ReactionModel::NotifyStart,
            ]
            &&& after.sample_rate != client.sample_rate ==> announces_start(message)
            &&& announces_start(message) ==> after == (ClientModel {
                sample_rate: after.sample_rate,
                ..client
            })
        }),
{
    let (after, reactions) = after_message(client, message)->Ok_0;
    if reactions.len() == 3 {
        assert(reactions[2] == ReactionModel::NotifyStart);
    }
}

} // verus!
