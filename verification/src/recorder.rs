//! A configured receiver, and a recorder that holds at most one client of it.

use vstd::prelude::*;
use vstd::string::*;

use crate::outside::{parsed_url, quote_text, quoted_text};
use crate::sdr::kiwi::client::{ClientModel, KiwiSdrError, KiwiSdrErrorModel, KiwiSdrSndClient};
use crate::sdr::kiwi::opening::{
    begins_at, open_any, open_in, opening_at, opening_result, opens_at, opens_on_server,
    stays_on_server_of, ClientError, SndOpening,
};
use crate::sdr::option_client;
use crate::text::option_text;

verus! {

/// The kinds of receivers that can be recorded.
#[derive(Debug, Clone, Copy, PartialEq, Eq, Structural)]
pub enum WebSdrScraperType {
    KiwiSDR,
}

/// A configured receiver.
#[derive(Debug)]
pub struct WebSdrConfig {
    pub scraper_type: WebSdrScraperType,
    pub name: String,
    pub endpoint: String,
    pub password: Option<String>,
    pub frequency: i32,
    pub bandwidth: i32,
}

impl WebSdrConfig {
    /// Begins to open a client of the receiver, in a given session. The address
    /// is refused exactly where it is no URL. With one that has a server this
    /// succeeds, and the socket is on that same server.
    pub fn create_client_in(&self, session: i32) -> (opening: Result<SndOpening, ClientError>)
        ensures
            opening_result(opening) == opening_at(
                self.endpoint@,
                self.name@,
                option_text(self.password),
                session as int,
            ),
            parsed_url(self.endpoint@) is Err <==> opening is Err && opening->Err_0 is InvalidEndpoint,
            parsed_url(self.endpoint@) is Ok && session >= 0 ==> opens_on_server(
                parsed_url(self.endpoint@)->Ok_0,
                session as int,
                opening_result(opening),
            ),
            begins_at(
                self.endpoint@,
                self.name@,
                option_text(self.password),
                session as int,
                opening,
            ),
    {
        open_in(self.endpoint.as_str(), self.name.as_str(), &self.password, session)
    }

    /// Begins to open a client of the receiver, in a session that is picked at
    /// random. The address is refused exactly where it is no URL. With one that
    /// has a server this succeeds, and the socket is on that same server.
    pub fn create_client(&self) -> (opening: Result<SndOpening, ClientError>)
        ensures
            opens_at(
                self.endpoint@,
                self.name@,
                option_text(self.password),
                opening_result(opening),
            ),
            parsed_url(self.endpoint@) is Err <==> opening is Err && opening->Err_0 is InvalidEndpoint,
            parsed_url(self.endpoint@) is Ok ==> stays_on_server_of(
                parsed_url(self.endpoint@)->Ok_0,
                opening_result(opening),
            ),
            exists|session: int|
                0 <= session < 10000 && #[trigger] begins_at(
                    self.endpoint@,
                    self.name@,
                    option_text(self.password),
                    session,
                    opening,
                ),
    {
        open_any(self.endpoint.as_str(), self.name.as_str(), &self.password)
    }
}

/// Why a recorder cannot get a client.
#[derive(Debug)]
pub enum RecorderError {
    SdrError(String),
    ExistsError,
}

/// What an error says.
pub enum RecorderErrorModel {
    SdrError(Seq<char>),
    ExistsError,
}

impl View for RecorderError {
    type V = RecorderErrorModel;

    open spec fn view(&self) -> RecorderErrorModel {
        match self {
            RecorderError::SdrError(text) => RecorderErrorModel::SdrError(text@),
            RecorderError::ExistsError => RecorderErrorModel::ExistsError,
        }
    }
}

/// How an error of a receiver is written: its kind, and in brackets its
/// quoted text.
pub open spec fn error_text(error: KiwiSdrErrorModel) -> Seq<char> {
    match error {
        KiwiSdrErrorModel::ConnectionError(text) => "ConnectionError("@ + quoted_text(text) + ")"@,
        KiwiSdrErrorModel::SendError(text) => "SendError("@ + quoted_text(text) + ")"@,
        KiwiSdrErrorModel::ConnectionClosed => "ConnectionClosed"@,
        KiwiSdrErrorModel::CannotBuild(text) => "CannotBuild("@ + quoted_text(text) + ")"@,
    }
}

/// The kind of an error, up to its opening bracket, with its quoted text and
/// the closing bracket behind it.
pub fn bracketed(kind: &str, quoted: &str) -> (text: String)
    ensures
        text@ == kind@ + quoted@ + ")"@,
{
    let mut out: String = kind.to_owned();
    out.append(quoted);
    out.append(")");
    out
}

/// No value of `String` can be written in a specification, so what `from` gives
/// is stated by its view, in its own contract.
impl vstd::std_specs::convert::FromSpecImpl<KiwiSdrError> for RecorderError {
    open spec fn obeys_from_spec() -> bool {
        false
    }

    open spec fn from_spec(error: KiwiSdrError) -> RecorderError {
        arbitrary()
    }
}

impl From<KiwiSdrError> for RecorderError {
    /// The error of a recorder whose receiver failed.
    fn from(error: KiwiSdrError) -> (result: Self)
        ensures
            result@ == RecorderErrorModel::SdrError(error_text(error@)),
            result is SdrError,
            match error {
                KiwiSdrError::ConnectionError(text) => result->SdrError_0@ == "ConnectionError("@
                    + quoted_text(text@) + ")"@,
                KiwiSdrError::SendError(text) => result->SdrError_0@ == "SendError("@
                    + quoted_text(text@) + ")"@,
                KiwiSdrError::ConnectionClosed => result->SdrError_0@ == "ConnectionClosed"@,
                KiwiSdrError::CannotBuild(text) => result->SdrError_0@ == "CannotBuild("@
                    + quoted_text(text@) + ")"@,
            },
    {
        let text = match &error {
            KiwiSdrError::ConnectionError(text) => bracketed(
                "ConnectionError(",
                quote_text(text.as_str()).as_str(),
            ),
            KiwiSdrError::SendError(text) => bracketed(
                "SendError(",
                quote_text(text.as_str()).as_str(),
            ),
            KiwiSdrError::ConnectionClosed => "ConnectionClosed".to_owned(),
            KiwiSdrError::CannotBuild(text) => bracketed(
                "CannotBuild(",
                quote_text(text.as_str()).as_str(),
            ),
        };
        RecorderError::SdrError(text)
    }
}

/// A recorder of a configured receiver.
pub struct SDRRecorder {
    config: WebSdrConfig,
    sdr: Option<KiwiSdrSndClient>,
}

/// What is known of a recorder.
#[verifier::ext_equal]
pub struct RecorderModel {
    pub config: WebSdrConfig,
    pub sdr: Option<ClientModel>,
}

impl View for SDRRecorder {
    type V = RecorderModel;

    closed spec fn view(&self) -> RecorderModel {
        RecorderModel { config: self.config, sdr: option_client(self.sdr) }
    }
}

/// What the outcome of opening a client holds.
pub open spec fn client_result(result: Result<KiwiSdrSndClient, KiwiSdrError>) -> Result<
    ClientModel,
    KiwiSdrErrorModel,
> {
    match result {
        Ok(client) => Ok(client@),
        Err(error) => Err(error@),
    }
}

/// What the outcome of getting a client holds.
pub open spec fn respawn_result(result: Result<(), RecorderError>) -> Result<
    (),
    RecorderErrorModel,
> {
    match result {
        Ok(()) => Ok(()),
        Err(error) => Err(error@),
    }
}

/// What a recorder is after a client has been opened for it, and what comes of
/// it: a recorder with a client stays as it is.
pub open spec fn after_respawn(
    recorder: RecorderModel,
    opened: Result<ClientModel, KiwiSdrErrorModel>,
) -> (RecorderModel, Result<(), RecorderErrorModel>) {
    if recorder.sdr is Some {
        (recorder, Err(RecorderErrorModel::ExistsError))
    } else {
        match opened {
            Ok(client) => (RecorderModel { sdr: Some(client), ..recorder }, Ok(())),
            Err(error) => (recorder, Err(RecorderErrorModel::SdrError(error_text(error)))),
        }
    }
}

impl SDRRecorder {
    /// A recorder without a client.
    pub fn new(config: WebSdrConfig) -> (recorder: Self)
        ensures
            recorder@ == (RecorderModel { config, sdr: None }),
    {
        Self { config, sdr: None }
    }

    /// The receiver to open a client of, unless there is a client already.
    pub fn begin_respawn(&self) -> (config: Result<&WebSdrConfig, RecorderError>)
        ensures
            match config {
                Ok(c) => self@.sdr is None && *c == self@.config,
                Err(error) => self@.sdr is Some && error@ == RecorderErrorModel::ExistsError,
            },
    {
        if self.sdr.is_some() {
            return Err(RecorderError::ExistsError);
        }
        Ok(&self.config)
    }

    /// Takes the client that was opened, unless there is one already or the
    /// opening failed.
    pub fn respawn(&mut self, opened: Result<KiwiSdrSndClient, KiwiSdrError>) -> (result: Result<
        (),
        RecorderError,
    >)
        ensures
            (final(self)@, respawn_result(result)) == after_respawn(
                old(self)@,
                client_result(opened),
            ),
            old(self)@.sdr is Some ==> final(self)@ == old(self)@ && result is Err
                && result->Err_0 is ExistsError,
            old(self)@.sdr is None ==> match opened {
                Ok(client) => result is Ok && final(self)@ == (RecorderModel {
                    sdr: Some(client@),
                    ..old(self)@
                }),
                Err(_) => final(self)@ == old(self)@ && result is Err && result->Err_0 is SdrError,
            },
    {
        if self.sdr.is_some() {
            return Err(RecorderError::ExistsError);
        }
        match opened {
            Ok(client) => {
                self.sdr = Some(client);
                Ok(())
            },
            Err(error) => Err(RecorderError::from(error)),
        }
    }
}

/// Once a recorder has a client it keeps that one: each further attempt is
/// refused, whatever was opened for it.
pub proof fn law_client_is_kept(
    recorder: RecorderModel,
    client: ClientModel,
    later: Result<ClientModel, KiwiSdrErrorModel>,
)
    requires
        recorder.sdr is None,
    ensures
        ({
            let (filled, first) = after_respawn(recorder, Ok(client));
            &&& first is Ok
            &&& filled.sdr == Some(client)
            &&& after_respawn(filled, later) == (
                filled,
                Err::<(), RecorderErrorModel>(RecorderErrorModel::ExistsError),
            )
        }),
{
}

/// A recorder gets the client that was opened for it, if it has none, and is
/// otherwise left alone; its receiver is never changed. It succeeds exactly
/// where it had no client and one was opened.
pub proof fn law_recorder_gets_the_client(
    recorder: RecorderModel,
    opened: Result<ClientModel, KiwiSdrErrorModel>,
)
    ensures
        ({
            let (after, result) = after_respawn(recorder, opened);
            &&& after.config == recorder.config
            &&& result is Ok <==> recorder.sdr is None && opened is Ok
            &&& result is Ok ==> after.sdr == Some(opened->Ok_0)
            &&& result is Err ==> after == recorder
            &&& result is Err && result->Err_0 is ExistsError <==> recorder.sdr is Some
        }),
{
}

/// The error of a receiver is told by its kind and, in brackets, by its text as
/// it is quoted; a closed connection has no text.
pub proof fn law_error_is_told_in_full(text: Seq<char>)
    ensures
        error_text(KiwiSdrErrorModel::ConnectionClosed) == "ConnectionClosed"@,
        error_text(KiwiSdrErrorModel::ConnectionError(text)) == "ConnectionError("@ + quoted_text(
            text,
        ) + ")"@,
        error_text(KiwiSdrErrorModel::SendError(text)) == "SendError("@ + quoted_text(text)
            + ")"@,
        error_text(KiwiSdrErrorModel::CannotBuild(text)) == "CannotBuild("@ + quoted_text(text)
            + ")"@,
{
}

/// A recorder whose receiver failed can try again as if it never had.
pub proof fn law_failure_leaves_recorder(recorder: RecorderModel, error: KiwiSdrErrorModel)
    ensures
        after_respawn(recorder, Err(error)).0 == recorder,
        after_respawn(recorder, Err(error)).1 is Err,
{
}

} // verus!
