//! How a client comes about: the builder that gathers what is needed, and the
//! steps from there to an open sound socket.

use vstd::prelude::*;
use vstd::string::*;

use crate::outside::{is_located, joined_url, parsed_url, random_below, server_text};
use crate::sdr::kiwi::client::{
    fresh_client, ClientModel, KiwiSdrError, KiwiSdrErrorModel, KiwiSdrSndClient,
};
use crate::sdr::kiwi::endpoint::{endpoint_result, sound_path, Endpoint};
use crate::text::option_text;

verus! {

/// What is needed for a client.
pub struct KiwiSdrBuilderConfig {
    pub endpoint: Endpoint,
    pub password: Option<String>,
    pub name: Option<String>,
}

/// Gathers what is needed for a client.
pub struct KiwiSdrBuilder {
    config: KiwiSdrBuilderConfig,
}

/// What has been gathered for a client.
#[verifier::ext_equal]
pub struct ConfigModel {
    pub endpoint: Seq<char>,
    pub password: Option<Seq<char>>,
    pub name: Option<Seq<char>>,
}

impl View for KiwiSdrBuilderConfig {
    type V = ConfigModel;

    open spec fn view(&self) -> ConfigModel {
        ConfigModel {
            endpoint: self.endpoint@,
            password: option_text(self.password),
            name: option_text(self.name),
        }
    }
}

impl View for KiwiSdrBuilder {
    type V = ConfigModel;

    closed spec fn view(&self) -> ConfigModel {
        self.config@
    }
}

/// The command that logs in, with `#` where there is no password.
pub open spec fn login_command(password: Option<Seq<char>>) -> Seq<char> {
    match password {
        Some(p) => "SET auth t=kiwi p="@ + p,
        None => "SET auth t=kiwi p=#"@,
    }
}

/// Whether a command logs in with a password, which stands whole behind the
/// first eighteen characters, or with a single `#` where there is none.
pub open spec fn is_login(command: Seq<char>, password: Option<Seq<char>>) -> bool {
    match password {
        Some(p) => {
            &&& command.len() == 18 + p.len()
            &&& command.take(18) == "SET auth t=kiwi p="@
            &&& command.skip(18) == p
        },
        None => command == "SET auth t=kiwi p=#"@,
    }
}

/// The password stands in the login whole, behind eighteen fixed characters,
/// and nothing stands behind it. So two passwords never give the same login,
/// and only the password `#` gives that of a client without one.
pub proof fn law_login_carries_the_password(p: Seq<char>, q: Seq<char>)
    ensures
        login_command(Some(p)).len() == 18 + p.len(),
        login_command(Some(p)).take(18) == "SET auth t=kiwi p="@,
        login_command(Some(p)).skip(18) == p,
        login_command(Some(p)) == login_command(Some(q)) <==> p == q,
        login_command(None) == "SET auth t=kiwi p=#"@,
        login_command(Some(p)) == login_command(None) <==> p == seq!['#'],
        "SET auth t=kiwi p="@.len() == 18,
{
    reveal_strlit("SET auth t=kiwi p=");
    reveal_strlit("SET auth t=kiwi p=#");
    let words = "SET auth t=kiwi p="@;
    assert(login_command(Some(p)).take(18) =~= words);
    assert(login_command(Some(p)).skip(18) =~= p);
    assert(login_command(Some(q)).skip(18) =~= q);
    assert(login_command(None) =~= words + seq!['#']);
    assert(login_command(None).skip(18) =~= seq!['#']);
}

proof fn lemma_login_is_one(password: Option<Seq<char>>)
    ensures
        is_login(login_command(password), password),
{
    if let Some(p) = password {
        law_login_carries_the_password(p, p);
    }
}

impl KiwiSdrBuilderConfig {
    /// The command that logs in.
    pub fn login_message(&self) -> (command: String)
        ensures
            command@ == login_command(self@.password),
            is_login(command@, option_text(self.password)),
    {
        proof {
            lemma_login_is_one(self@.password);
        }
        match &self.password {
            Some(password) => {
                let mut out: String = "SET auth t=kiwi p=".to_owned();
                out.append(password.as_str());
                out
            },
            None => "SET auth t=kiwi p=#".to_owned(),
        }
    }
}

/// Why a client cannot be had.
#[derive(Debug)]
pub enum ClientError {
    /// The receiver's address is no URL; the reason is given.
    InvalidEndpoint(String),
    /// The receiver's address has no sound socket; the reason is given.
    NoSoundEndpoint(String),
    /// Something went wrong with the receiver.
    Kiwi(KiwiSdrError),
}

/// What an error says.
pub enum ClientErrorModel {
    InvalidEndpoint(Seq<char>),
    NoSoundEndpoint(Seq<char>),
    Kiwi(KiwiSdrErrorModel),
}

impl View for ClientError {
    type V = ClientErrorModel;

    open spec fn view(&self) -> ClientErrorModel {
        match self {
            ClientError::InvalidEndpoint(reason) => ClientErrorModel::InvalidEndpoint(reason@),
            ClientError::NoSoundEndpoint(reason) => ClientErrorModel::NoSoundEndpoint(reason@),
            ClientError::Kiwi(error) => ClientErrorModel::Kiwi(error@),
        }
    }
}

/// How far the opening of a sound socket has come.
#[derive(Debug, Clone, Copy, PartialEq, Eq, Structural)]
pub enum OpeningPhase {
    Connecting,
    LoggingIn,
}

/// A sound socket that is being opened.
pub struct SndOpening {
    phase: OpeningPhase,
    endpoint: Endpoint,
    login: String,
    name: String,
}

/// What is known of a sound socket that is being opened.
#[verifier::ext_equal]
pub struct OpeningModel {
    pub phase: OpeningPhase,
    pub endpoint: Seq<char>,
    pub login: Seq<char>,
    pub name: Seq<char>,
}

impl View for SndOpening {
    type V = OpeningModel;

    closed spec fn view(&self) -> OpeningModel {
        OpeningModel {
            phase: self.phase,
            endpoint: self.endpoint@,
            login: self.login@,
            name: self.name@,
        }
    }
}

/// The next thing to do to open a sound socket.
pub enum OpeningAction {
    /// Connect to a URL.
    Connect(String),
    /// Send a command.
    Send(String),
}

/// What the next thing to do is.
pub enum OpeningActionModel {
    Connect(Seq<char>),
    Send(Seq<char>),
}

impl View for OpeningAction {
    type V = OpeningActionModel;

    open spec fn view(&self) -> OpeningActionModel {
        match self {
            OpeningAction::Connect(url) => OpeningActionModel::Connect(url@),
            OpeningAction::Send(command) => OpeningActionModel::Send(command@),
        }
    }
}

/// Where the opening of a sound socket has got to.
pub enum OpeningStep {
    /// There is more to do.
    Continue(SndOpening),
    /// The socket is open.
    Ready(KiwiSdrSndClient),
}

/// What a step has led to.
pub enum OpeningStepModel {
    Continue(OpeningModel),
    Ready(ClientModel),
}

impl View for OpeningStep {
    type V = OpeningStepModel;

    open spec fn view(&self) -> OpeningStepModel {
        match self {
            OpeningStep::Continue(opening) => OpeningStepModel::Continue(opening@),
            OpeningStep::Ready(client) => OpeningStepModel::Ready(client@),
        }
    }
}

/// The number of sessions among which one is picked.
pub const SESSIONS: i32 = 10000;

/// The error for a client without a name.
pub open spec fn no_name() -> ClientErrorModel {
    ClientErrorModel::Kiwi(KiwiSdrErrorModel::CannotBuild("No name provided"@))
}

/// The opening with which a configuration begins, given what the search for
/// the address of the sound socket came to.
pub open spec fn opening_with(config: ConfigModel, sound: Result<Seq<char>, Seq<char>>) -> Result<
    OpeningModel,
    ClientErrorModel,
> {
    match config.name {
        None => Err(no_name()),
        Some(name) => match sound {
            Ok(endpoint) => Ok(
                OpeningModel {
                    phase: OpeningPhase::Connecting,
                    endpoint,
                    login: login_command(config.password),
                    name,
                },
            ),
            Err(reason) => Err(ClientErrorModel::NoSoundEndpoint(reason)),
        },
    }
}

/// The opening with which a configuration begins, in a given session.
pub open spec fn opening_of(config: ConfigModel, session: int) -> Result<
    OpeningModel,
    ClientErrorModel,
> {
    opening_with(config, joined_url(config.endpoint, sound_path(session)))
}

/// What the outcome of beginning to open a socket holds.
pub open spec fn opening_result(result: Result<SndOpening, ClientError>) -> Result<
    OpeningModel,
    ClientErrorModel,
> {
    match result {
        Ok(opening) => Ok(opening@),
        Err(error) => Err(error@),
    }
}

/// Whether an address is a URL of a server, which its scheme and its authority
/// give, and of no file.
pub open spec fn has_server(endpoint: Seq<char>, scheme: Seq<char>, authority: Seq<char>) -> bool {
    &&& parsed_url(endpoint) is Ok
    &&& is_located(parsed_url(endpoint)->Ok_0, scheme, authority)
}

/// Whether an outcome is a success wherever the address has a server, with the
/// sound socket of a session on that same server.
pub open spec fn opens_on_server(
    endpoint: Seq<char>,
    session: int,
    outcome: Result<OpeningModel, ClientErrorModel>,
) -> bool {
    forall|scheme: Seq<char>, authority: Seq<char>| #[trigger]
        has_server(endpoint, scheme, authority) ==> outcome is Ok && outcome->Ok_0.endpoint
            == server_text(scheme, authority) + sound_path(session)
}

/// Whether an outcome is a success wherever the address has a server, with the
/// sound socket of whatever session on that same server.
pub open spec fn stays_on_server_of(
    endpoint: Seq<char>,
    outcome: Result<OpeningModel, ClientErrorModel>,
) -> bool {
    forall|scheme: Seq<char>, authority: Seq<char>| #[trigger]
        has_server(endpoint, scheme, authority) ==> outcome is Ok && server_text(
            scheme,
            authority,
        ).is_prefix_of(outcome->Ok_0.endpoint)
}

/// Whether an outcome is the one that some session gives, with an address that
/// ends in that session's path, and that is on the same server where there is
/// a name and a server.
pub open spec fn opens_some_session(
    config: ConfigModel,
    outcome: Result<OpeningModel, ClientErrorModel>,
) -> bool {
    exists|session: int|
        {
            &&& 0 <= session < SESSIONS
            &&& outcome == #[trigger] opening_of(config, session)
            &&& outcome matches Ok(opening) ==> sound_path(session).is_suffix_of(opening.endpoint)
            &&& config.name is Some ==> opens_on_server(config.endpoint, session, outcome)
        }
}

/// Whether an outcome is that of opening a receiver with an address that is a
/// URL, in some session: an opening with the receiver's name and password at
/// the joined address or, where there is none, the reason for that.
pub open spec fn begins_in(
    url: Seq<char>,
    name: Seq<char>,
    password: Option<Seq<char>>,
    session: int,
    outcome: Result<SndOpening, ClientError>,
) -> bool {
    match outcome {
        Ok(opening) => {
            &&& joined_url(url, sound_path(session)) == Ok::<Seq<char>, Seq<char>>(
                opening@.endpoint,
            )
            &&& opening@.phase is Connecting
            &&& opening@.name == name
            &&& is_login(opening@.login, password)
        },
        Err(ClientError::NoSoundEndpoint(why)) => joined_url(url, sound_path(session)) == Err::<
            Seq<char>,
            Seq<char>,
        >(why@),
        Err(_) => false,
    }
}

/// Whether an outcome is that of opening the receiver at an address, in some
/// session.
pub open spec fn begins_at(
    endpoint: Seq<char>,
    name: Seq<char>,
    password: Option<Seq<char>>,
    session: int,
    outcome: Result<SndOpening, ClientError>,
) -> bool {
    match parsed_url(endpoint) {
        Ok(url) => begins_in(url, name, password, session, outcome),
        Err(reason) => outcome matches Err(ClientError::InvalidEndpoint(why)) && why@ == reason,
    }
}

/// What is to be done next in an opening.
pub open spec fn opening_action(opening: OpeningModel) -> OpeningActionModel {
    match opening.phase {
        OpeningPhase::Connecting => OpeningActionModel::Connect(opening.endpoint),
        OpeningPhase::LoggingIn => OpeningActionModel::Send(opening.login),
    }
}

/// Where an opening gets to when its next thing has been done, or has failed
/// for a reason.
pub open spec fn opening_step(opening: OpeningModel, outcome: Result<(), Seq<char>>) -> Result<
    OpeningStepModel,
    KiwiSdrErrorModel,
> {
    match (opening.phase, outcome) {
        (OpeningPhase::Connecting, Ok(())) => Ok(
            OpeningStepModel::Continue(
                OpeningModel { phase: OpeningPhase::LoggingIn, ..opening },
            ),
        ),
        (OpeningPhase::Connecting, Err(reason)) => Err(KiwiSdrErrorModel::ConnectionError(reason)),
        (OpeningPhase::LoggingIn, Ok(())) => Ok(OpeningStepModel::Ready(fresh_client(opening.name))),
        (OpeningPhase::LoggingIn, Err(reason)) => Err(KiwiSdrErrorModel::SendError(reason)),
    }
}

/// What an outcome with a reason holds.
pub open spec fn outcome_text(outcome: Result<(), String>) -> Result<(), Seq<char>> {
    match outcome {
        Ok(()) => Ok(()),
        Err(reason) => Err(reason@),
    }
}

/// What the outcome of a step holds.
pub open spec fn step_result(result: Result<OpeningStep, KiwiSdrError>) -> Result<
    OpeningStepModel,
    KiwiSdrErrorModel,
> {
    match result {
        Ok(step) => Ok(step@),
        Err(error) => Err(error@),
    }
}

impl KiwiSdrBuilder {
    /// A builder with nothing but the receiver's address.
    pub fn new(endpoint: Endpoint) -> (builder: Self)
        ensures
            builder@ == (ConfigModel { endpoint: endpoint@, password: None, name: None }),
    {
        Self { config: KiwiSdrBuilderConfig { endpoint, password: None, name: None } }
    }

    /// The builder with another password, or with none.
    pub fn with_password(self, password: Option<&str>) -> (builder: Self)
        ensures
            builder@ == (ConfigModel {
                password: match password {
                    Some(p) => Some(p@),
                    None => None,
                },
                ..self@
            }),
    {
        let mut config = self.config;
        config.password = match password {
            Some(p) => Some(p.to_owned()),
            None => None,
        };
        Self { config }
    }

    /// The builder with another name.
    pub fn with_name(self, name: &str) -> (builder: Self)
        ensures
            builder@ == (ConfigModel { name: Some(name@), ..self@ }),
    {
        let mut config = self.config;
        config.name = Some(name.to_owned());
        Self { config }
    }

    /// Begins to open the sound socket of a given session. With a name and an
    /// address that has an authority and is no file, that succeeds, and the
    /// socket is on the same server.
    pub fn build_snd_in(self, session: i32) -> (opening: Result<SndOpening, ClientError>)
        ensures
            opening_result(opening) == opening_of(self@, session as int),
            opening is Ok && session >= 0 ==> sound_path(session as int).is_suffix_of(
                opening->Ok_0@.endpoint,
            ),
            self@.name is Some && session >= 0 ==> opens_on_server(
                self@.endpoint,
                session as int,
                opening_result(opening),
            ),
            match self@.name {
                Some(name) => begins_in(
                    self@.endpoint,
                    name,
                    self@.password,
                    session as int,
                    opening,
                ),
                None => opening matches Err(ClientError::Kiwi(KiwiSdrError::CannotBuild(why)))
                    && why@ == "No name provided"@,
            },
    {
        let sound = self.config.endpoint.sound(session);
        KiwiSdrSndClient::from_builder(self.config, sound)
    }

    /// Begins to open the sound socket of a session that is picked at random.
    /// With a name and an address that has an authority and is no file, that
    /// succeeds, and the socket is on the same server.
    pub fn build_snd(self) -> (opening: Result<SndOpening, ClientError>)
        ensures
            opens_some_session(self@, opening_result(opening)),
            self@.name is None <==> opening_result(opening) == Err::<
                OpeningModel,
                ClientErrorModel,
            >(no_name()),
            self@.name is Some ==> stays_on_server_of(self@.endpoint, opening_result(opening)),
            match self@.name {
                Some(name) => exists|session: int|
                    0 <= session < 10000 && #[trigger] begins_in(
                        self@.endpoint,
                        name,
                        self@.password,
                        session,
                        opening,
                    ),
                None => opening matches Err(ClientError::Kiwi(KiwiSdrError::CannotBuild(why)))
                    && why@ == "No name provided"@,
            },
    {
        let session: i32 = random_below(SESSIONS);
        let ghost config = self@;
        let opening = self.build_snd_in(session);
        assert(opening_result(opening) == opening_of(config, session as int));
        assert(config.name matches Some(name) ==> begins_in(
            config.endpoint,
            name,
            config.password,
            session as int,
            opening,
        ));
        opening
    }
}

impl KiwiSdrSndClient {
    /// Begins to open a sound socket, given what the search for its address
    /// came to.
    pub fn from_builder(config: KiwiSdrBuilderConfig, sound: Result<Endpoint, String>) -> (opening:
        Result<SndOpening, ClientError>)
        ensures
            opening_result(opening) == opening_with(config@, endpoint_result(sound)),
            match (config.name, sound) {
                (None, _) => opening matches Err(ClientError::Kiwi(KiwiSdrError::CannotBuild(why)))
                    && why@ == "No name provided"@,
                (Some(_), Err(reason)) => opening matches Err(ClientError::NoSoundEndpoint(why))
                    && why@ == reason@,
                (Some(name), Ok(endpoint)) => {
                    &&& opening is Ok
                    &&& opening->Ok_0@.phase is Connecting
                    &&& opening->Ok_0@.endpoint == endpoint.url@
                    &&& opening->Ok_0@.name == name@
                    &&& is_login(opening->Ok_0@.login, option_text(config.password))
                },
            },
    {
        let login: String = config.login_message();
        match config.name {
            None => Err(
                ClientError::Kiwi(KiwiSdrError::CannotBuild("No name provided".to_owned())),
            ),
            Some(name) => match sound {
                Ok(endpoint) => Ok(
                    SndOpening { phase: OpeningPhase::Connecting, endpoint, login, name },
                ),
                Err(reason) => Err(ClientError::NoSoundEndpoint(reason)),
            },
        }
    }
}

/// A builder with a name and, where there is one, a password, given what the
/// reading of the receiver's address came to.
pub fn named_builder(
    endpoint: Result<Endpoint, String>,
    name: &str,
    password: &Option<String>,
) -> (builder: Result<KiwiSdrBuilder, ClientError>)
    ensures
        match (builder, endpoint) {
            (Ok(b), Ok(url)) => b@ == named_config(url@, name@, option_text(*password)) && b@ == (
            ConfigModel {
                endpoint: url.url@,
                password: match password {
                    Some(p) => Some(p@),
                    None => None,
                },
                name: Some(name@),
            }),
            (Err(error), Err(reason)) => error@ == ClientErrorModel::InvalidEndpoint(reason@),
            _ => false,
        },
{
    match endpoint {
        Ok(url) => {
            let builder = KiwiSdrBuilder::new(url).with_name(name);
            match password {
                Some(p) => Ok(builder.with_password(Some(p.as_str()))),
                None => Ok(builder.with_password(None)),
            }
        },
        Err(reason) => Err(ClientError::InvalidEndpoint(reason)),
    }
}

/// A configuration with a name.
pub open spec fn named_config(
    url: Seq<char>,
    name: Seq<char>,
    password: Option<Seq<char>>,
) -> ConfigModel {
    ConfigModel { endpoint: url, password, name: Some(name) }
}

/// The opening for the receiver at an address, in a given session.
pub open spec fn opening_at(
    endpoint: Seq<char>,
    name: Seq<char>,
    password: Option<Seq<char>>,
    session: int,
) -> Result<OpeningModel, ClientErrorModel> {
    match parsed_url(endpoint) {
        Ok(url) => opening_of(named_config(url, name, password), session),
        Err(reason) => Err(ClientErrorModel::InvalidEndpoint(reason)),
    }
}

/// Whether an outcome is the one that some session gives for the receiver at
/// an address.
pub open spec fn opens_at(
    endpoint: Seq<char>,
    name: Seq<char>,
    password: Option<Seq<char>>,
    outcome: Result<OpeningModel, ClientErrorModel>,
) -> bool {
    match parsed_url(endpoint) {
        Ok(url) => opens_some_session(named_config(url, name, password), outcome),
        Err(reason) => outcome == Err::<OpeningModel, ClientErrorModel>(
            ClientErrorModel::InvalidEndpoint(reason),
        ),
    }
}

/// Begins to open a client of the receiver at an address, in a given session.
/// The address is refused exactly where it is no URL. With one that has a
/// server this succeeds, and the socket is on that same server.
pub fn open_in(endpoint: &str, name: &str, password: &Option<String>, session: i32) -> (opening:
    Result<SndOpening, ClientError>)
    ensures
        opening_result(opening) == opening_at(
            endpoint@,
            name@,
            option_text(*password),
            session as int,
        ),
        parsed_url(endpoint@) is Err <==> opening is Err && opening->Err_0 is InvalidEndpoint,
        parsed_url(endpoint@) is Ok && session >= 0 ==> opens_on_server(
            parsed_url(endpoint@)->Ok_0,
            session as int,
            opening_result(opening),
        ),
        begins_at(endpoint@, name@, option_text(*password), session as int, opening),
{
    match named_builder(Endpoint::parse(endpoint), name, password) {
        Ok(builder) => builder.build_snd_in(session),
        Err(error) => Err(error),
    }
}

/// Begins to open a client of the receiver at an address, in a session that is
/// picked at random. The address is refused exactly where it is no URL. With one
/// that has a server this succeeds, and the socket is on that same server.
pub fn open_any(endpoint: &str, name: &str, password: &Option<String>) -> (opening: Result<
    SndOpening,
    ClientError,
>)
    ensures
        opens_at(endpoint@, name@, option_text(*password), opening_result(opening)),
        parsed_url(endpoint@) is Err <==> opening is Err && opening->Err_0 is InvalidEndpoint,
        parsed_url(endpoint@) is Ok ==> stays_on_server_of(
            parsed_url(endpoint@)->Ok_0,
            opening_result(opening),
        ),
        exists|session: int|
            0 <= session < 10000 && #[trigger] begins_at(
                endpoint@,
                name@,
                option_text(*password),
                session,
                opening,
            ),
{
    match named_builder(Endpoint::parse(endpoint), name, password) {
        Ok(builder) => {
            let ghost config = builder@;
            let opening = builder.build_snd();
            proof {
                let session = choose|session: int|
                    0 <= session < 10000 && #[trigger] begins_in(
                        config.endpoint,
                        name@,
                        config.password,
                        session,
                        opening,
                    );
                assert(begins_at(endpoint@, name@, option_text(*password), session, opening));
            }
            opening
        },
        Err(error) => {
            let opening = Err(error);
            assert(begins_at(endpoint@, name@, option_text(*password), 0, opening));
            opening
        },
    }
}

impl SndOpening {
    /// What is to be done next.
    pub fn action(&self) -> (action: OpeningAction)
        ensures
            action@ == opening_action(self@),
            match self@.phase {
                OpeningPhase::Connecting => action matches OpeningAction::Connect(url) && url@
                    == self@.endpoint,
                OpeningPhase::LoggingIn => action matches OpeningAction::Send(command) && command@
                    == self@.login,
            },
    {
        match self.phase {
            OpeningPhase::Connecting => OpeningAction::Connect(self.endpoint.as_str().to_owned()),
            OpeningPhase::LoggingIn => OpeningAction::Send(self.login.clone()),
        }
    }

    /// Goes on when the next thing has been done, or has failed for a reason.
    pub fn advance(self, outcome: Result<(), String>) -> (step: Result<OpeningStep, KiwiSdrError>)
        ensures
            step_result(step) == opening_step(self@, outcome_text(outcome)),
            match (self@.phase, outcome) {
                (OpeningPhase::Connecting, Ok(())) => step matches Ok(OpeningStep::Continue(next))
                    && next@ == (OpeningModel { phase: OpeningPhase::LoggingIn, ..self@ }),
                (OpeningPhase::Connecting, Err(reason)) => step matches Err(
                    KiwiSdrError::ConnectionError(why),
                ) && why@ == reason@,
                (OpeningPhase::LoggingIn, Ok(())) => {
                    &&& step matches Ok(OpeningStep::Ready(client))
                    &&& client@.name == self@.name
                    &&& client@.sample_rate == 12000
                    &&& client@.stats.rssi_tenths == 0
                    &&& client@.listening
                    &&& !client@.cancelled
                },
                (OpeningPhase::LoggingIn, Err(reason)) => step matches Err(
                    KiwiSdrError::SendError(why),
                ) && why@ == reason@,
            },
    {
        match self.phase {
            OpeningPhase::Connecting => match outcome {
                Ok(()) => Ok(
                    OpeningStep::Continue(
                        SndOpening {
                            phase: OpeningPhase::LoggingIn,
                            endpoint: self.endpoint,
                            login: self.login,
                            name: self.name,
                        },
                    ),
                ),
                Err(reason) => Err(KiwiSdrError::ConnectionError(reason)),
            },
            OpeningPhase::LoggingIn => match outcome {
                Ok(()) => Ok(OpeningStep::Ready(KiwiSdrSndClient::fresh(self.name))),
                Err(reason) => Err(KiwiSdrError::SendError(reason)),
            },
        }
    }
}

/// Without a name nothing is opened, whatever the address is; without an
/// address of the sound socket nothing is opened either, for the reason for
/// which there is none. Otherwise the first thing is to connect to it, with the
/// login and the name as configured.
pub proof fn law_opening_needs_a_name_and_an_address(
    config: ConfigModel,
    sound: Result<Seq<char>, Seq<char>>,
)
    ensures
        match (config.name, sound) {
            (None, _) => opening_with(config, sound) == Err::<OpeningModel, ClientErrorModel>(
                ClientErrorModel::Kiwi(KiwiSdrErrorModel::CannotBuild("No name provided"@)),
            ),
            (Some(_), Err(reason)) => opening_with(config, sound) == Err::<
                OpeningModel,
                ClientErrorModel,
            >(ClientErrorModel::NoSoundEndpoint(reason)),
            (Some(name), Ok(url)) => opening_with(config, sound) matches Ok(opening) && {
                &&& opening_action(opening) == OpeningActionModel::Connect(url)
                &&& opening.phase is Connecting
                &&& opening.name == name
                &&& match config.password {
                    Some(p) => opening.login.skip(18) == p && opening.login.take(18)
                        == "SET auth t=kiwi p="@ && opening.login.len() == 18 + p.len(),
                    None => opening.login == "SET auth t=kiwi p=#"@,
                }
            },
        },
{
    lemma_login_is_one(config.password);
}

/// An opening connects first and logs in then. What fails first is the error,
/// with the reason that was given for it: that of the connection, or that of
/// the sending.
pub proof fn law_first_failure_ends_the_opening(opening: OpeningModel, reason: Seq<char>)
    ensures
        match opening.phase {
            OpeningPhase::Connecting => {
                &&& opening_action(opening) == OpeningActionModel::Connect(opening.endpoint)
                &&& opening_step(opening, Err(reason)) == Err::<
                    OpeningStepModel,
                    KiwiSdrErrorModel,
                >(KiwiSdrErrorModel::ConnectionError(reason))
                &&& opening_step(opening, Ok(())) == Ok::<OpeningStepModel, KiwiSdrErrorModel>(
                    OpeningStepModel::Continue(
                        OpeningModel { phase: OpeningPhase::LoggingIn, ..opening },
                    ),
                )
            },
            OpeningPhase::LoggingIn => {
                &&& opening_action(opening) == OpeningActionModel::Send(opening.login)
                &&& opening_step(opening, Err(reason)) == Err::<
                    OpeningStepModel,
                    KiwiSdrErrorModel,
                >(KiwiSdrErrorModel::SendError(reason))
                &&& opening_step(opening, Ok(())) matches Ok(OpeningStepModel::Ready(client))
                    && client.name == opening.name
            },
        },
{
}

/// A receiver is opened at the address that its own address and the path of
/// the session make together, under its name and with its password; where its
/// address is no URL it is refused for that reason.
pub proof fn law_receiver_is_opened_at_its_address(
    endpoint: Seq<char>,
    name: Seq<char>,
    password: Option<Seq<char>>,
    session: int,
)
    ensures
        match parsed_url(endpoint) {
            Err(reason) => opening_at(endpoint, name, password, session) == Err::<
                OpeningModel,
                ClientErrorModel,
            >(ClientErrorModel::InvalidEndpoint(reason)),
            Ok(url) => match joined_url(url, sound_path(session)) {
                Err(reason) => opening_at(endpoint, name, password, session) == Err::<
                    OpeningModel,
                    ClientErrorModel,
                >(ClientErrorModel::NoSoundEndpoint(reason)),
                Ok(sound) => opening_at(endpoint, name, password, session) matches Ok(opening) && {
                    &&& opening.endpoint == sound
                    &&& opening.name == name
                    &&& opening.phase is Connecting
                    &&& is_login(opening.login, password)
                },
            },
        },
{
    lemma_login_is_one(password);
}

/// Whatever session is picked, the receiver is opened under its name, with its
/// password, at the address of one of the ten thousand sessions; or there is no
/// such address.
pub proof fn law_some_session_is_opened(
    endpoint: Seq<char>,
    name: Seq<char>,
    password: Option<Seq<char>>,
    outcome: Result<OpeningModel, ClientErrorModel>,
)
    requires
        opens_at(endpoint, name, password, outcome),
    ensures
        match (parsed_url(endpoint), outcome) {
            (Ok(url), Ok(opening)) => {
                &&& opening.name == name
                &&& is_login(opening.login, password)
                &&& exists|session: int|
                    0 <= session < 10000 && joined_url(url, #[trigger] sound_path(session)) == Ok::<
                        Seq<char>,
                        Seq<char>,
                    >(opening.endpoint)
            },
            (Ok(url), Err(error)) => exists|session: int|
                0 <= session < 10000 && joined_url(url, #[trigger] sound_path(session)) is Err
                    && error == ClientErrorModel::NoSoundEndpoint(
                    joined_url(url, sound_path(session))->Err_0,
                ),
            (Err(reason), _) => outcome == Err::<OpeningModel, ClientErrorModel>(
                ClientErrorModel::InvalidEndpoint(reason),
            ),
        },
{
    if let Ok(url) = parsed_url(endpoint) {
        let config = named_config(url, name, password);
        let session = choose|session: int|
            {
                &&& 0 <= session < SESSIONS
                &&& outcome == #[trigger] opening_of(config, session)
                &&& outcome matches Ok(opening) ==> sound_path(session).is_suffix_of(
                    opening.endpoint,
                )
                &&& config.name is Some ==> opens_on_server(config.endpoint, session, outcome)
            };
        lemma_login_is_one(password);
        assert(outcome == opening_of(config, session));
    }
}

/// A session that is picked is one of ten thousand.
pub proof fn law_ten_thousand_sessions()
    ensures
        SESSIONS == 10000,
{
}

/// A socket that opens without failure connects to the session's address, then
/// logs in with the configured password, and is then a client with the
/// configured name.
pub proof fn law_opening_logs_in(config: ConfigModel, session: int)
    requires
        opening_of(config, session) is Ok,
    ensures
        ({
            let first = opening_of(config, session)->Ok_0;
            let connected = opening_step(first, Ok(()));
            let second = connected->Ok_0->Continue_0;
            &&& joined_url(config.endpoint, sound_path(session)) matches Ok(url)
            &&& opening_action(first) == OpeningActionModel::Connect(url)
            &&& connected is Ok && connected->Ok_0 is Continue
            &&& opening_action(second) == OpeningActionModel::Send(login_command(config.password))
            &&& config.name matches Some(name)
            &&& opening_step(second, Ok(())) == Ok::<OpeningStepModel, KiwiSdrErrorModel>(
                OpeningStepModel::Ready(fresh_client(name)),
            )
        }),
{
}

} // verus!
