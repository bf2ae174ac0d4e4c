//! The system in its two stages: before and after its configuration has
//! been read. Only an initialized system can start a pass.

use crate::registry::{projects_view, Registry, SourceProject};
use crate::sync::{SyncPass, SyncPassView};
use crate::views::{option_view, result_view};
use std::sync::Arc;
use vstd::prelude::*;
use vstd::string::*;

verus! {

pub type RefType<T> = Arc<T>;

/// The system's own section of the configuration.
#[derive(Debug, PartialEq, Eq)]
pub struct HorSystemConfiguration {
    github_personal_token: String,
}

impl View for HorSystemConfiguration {
    type V = Seq<char>;

    /// The personal token that the configuration names.
    closed spec fn view(&self) -> Seq<char> {
        self.github_personal_token@
    }
}

impl HorSystemConfiguration {
    /// The configuration that names `github_personal_token`.
    pub fn new(github_personal_token: String) -> (config: HorSystemConfiguration)
        ensures
            config@ == github_personal_token@,
    {
        HorSystemConfiguration { github_personal_token }
    }

    /// The personal token that the configuration names.
    pub fn github_personal_token(&self) -> (token: &String)
        ensures
            token@ == self@,
    {
        &self.github_personal_token
    }
}

/// Why the system's section could not be taken out of the configuration.
#[derive(Debug, PartialEq, Eq)]
pub enum ConfigParseErr {
    /// The configuration has no section for the system.
    NoKey,
    /// The section is there but cannot be read.
    Invalid { reason: String },
}

/// Mathematical model of a [`ConfigParseErr`].
pub enum ConfigParseErrView {
    NoKey,
    Invalid { reason: Seq<char> },
}

impl View for ConfigParseErr {
    type V = ConfigParseErrView;

    open spec fn view(&self) -> ConfigParseErrView {
        match self {
            ConfigParseErr::NoKey => ConfigParseErrView::NoKey,
            ConfigParseErr::Invalid { reason } => ConfigParseErrView::Invalid { reason: reason@ },
        }
    }
}

/// Why the system could not be initialized.
#[derive(Debug, PartialEq, Eq)]
#[non_exhaustive]
pub enum HorSystemInitializationError {
    /// The configuration could not be loaded.
    ConfigRs(String),
    /// The system's section of the configuration could not be read.
    ConfigParse(ConfigParseErr),
    /// The client of the provider could not be built.
    Octo(String),
}

/// Mathematical model of a [`HorSystemInitializationError`].
pub enum HorSystemInitializationErrorView {
    ConfigRs(Seq<char>),
    ConfigParse(ConfigParseErrView),
    Octo(Seq<char>),
}

impl View for HorSystemInitializationError {
    type V = HorSystemInitializationErrorView;

    open spec fn view(&self) -> HorSystemInitializationErrorView {
        match self {
            HorSystemInitializationError::ConfigRs(reason) => {
                HorSystemInitializationErrorView::ConfigRs(reason@)
            },
            HorSystemInitializationError::ConfigParse(error) => {
                HorSystemInitializationErrorView::ConfigParse(error@)
            },
            HorSystemInitializationError::Octo(reason) => HorSystemInitializationErrorView::Octo(
                reason@,
            ),
        }
    }
}

impl HorSystemInitializationErrorView {
    /// The error in words.
    pub open spec fn message(self) -> Seq<char> {
        match self {
            HorSystemInitializationErrorView::ConfigRs(_) => "config.rs error"@,
            HorSystemInitializationErrorView::ConfigParse(_) => "unable to parse configuration"@,
            HorSystemInitializationErrorView::Octo(_) => {
                "an error occurred while initializing Octocrab"@
            },
        }
    }
}

impl HorSystemInitializationError {
    /// The error in words. The cause that the error carries is not part of
    /// them.
    pub fn message(&self) -> (text: String)
        ensures
            text@ == self@.message(),
    {
        match self {
            HorSystemInitializationError::ConfigRs(_) => String::from_str("config.rs error"),
            HorSystemInitializationError::ConfigParse(_) => String::from_str(
                "unable to parse configuration",
            ),
            HorSystemInitializationError::Octo(_) => String::from_str(
                "an error occurred while initializing Octocrab",
            ),
        }
    }
}

/// How the client of the provider is to authenticate.
#[derive(Debug, PartialEq, Eq)]
pub enum Credentials {
    /// Without credentials.
    Anonymous,
    /// With a personal token.
    PersonalToken(String),
}

/// Mathematical model of [`Credentials`].
pub enum CredentialsView {
    Anonymous,
    PersonalToken(Seq<char>),
}

impl View for Credentials {
    type V = CredentialsView;

    open spec fn view(&self) -> CredentialsView {
        match self {
            Credentials::Anonymous => CredentialsView::Anonymous,
            Credentials::PersonalToken(token) => CredentialsView::PersonalToken(token@),
        }
    }
}

impl Clone for Credentials {
    fn clone(&self) -> (copy: Credentials)
        ensures
            copy == *self,
    {
        match self {
            Credentials::Anonymous => Credentials::Anonymous,
            Credentials::PersonalToken(token) => Credentials::PersonalToken(token.clone()),
        }
    }
}

/// The credentials that follow from the system's section of the
/// configuration: its personal token where there is a section, none where
/// there is not.
pub open spec fn credentials_for(config: Option<Seq<char>>) -> CredentialsView {
    match config {
        Some(token) => CredentialsView::PersonalToken(token),
        None => CredentialsView::Anonymous,
    }
}

/// What the attempt to take the system's section out of the configuration
/// means for the system: a section gives its token, a missing section is no
/// error and gives no credentials, and any other error stands.
pub open spec fn credentials_from(
    extracted: Result<Seq<char>, ConfigParseErrView>,
) -> Result<CredentialsView, HorSystemInitializationErrorView> {
    match extracted {
        Ok(token) => Ok(credentials_for(Some(token))),
        Err(ConfigParseErrView::NoKey) => Ok(credentials_for(None)),
        Err(error) => Err(HorSystemInitializationErrorView::ConfigParse(error)),
    }
}

/// The state of a system whose configuration has not been read yet.
pub struct UninitializedState<CP> {
    config_provider: CP,
}

/// The state of a system whose configuration has been read.
pub struct InitializedState {
    credentials: Credentials,
}

impl Clone for InitializedState {
    fn clone(&self) -> (copy: InitializedState)
        ensures
            copy == *self,
    {
        InitializedState { credentials: self.credentials.clone() }
    }
}

/// The system: a registry of projects, and the state that tells how far
/// initialization has come.
pub struct HorSystem<State, R: Registry + ?Sized = dyn Registry> {
    registry: RefType<R>,
    state: State,
}

impl<State, R: Registry + ?Sized> HorSystem<State, R> {
    /// The projects of the system's registry, in registry order.
    pub closed spec fn projects(&self) -> Seq<SourceProject> {
        self.registry.projects()
    }

    /// The registry that the system reads its projects from.
    pub fn registry(&self) -> (registry: &RefType<R>)
        ensures
            registry.projects() == self.projects(),
    {
        &self.registry
    }
}

impl<CP, R: Registry + ?Sized> HorSystem<UninitializedState<CP>, R> {
    /// The source of configuration that the system was made with.
    pub closed spec fn provider(&self) -> CP {
        self.state.config_provider
    }

    /// Makes a system over `registry` that will read its configuration
    /// from `config_provider`. This always succeeds.
    pub fn new(registry: RefType<R>, config_provider: CP) -> (system: Result<
        Self,
        HorSystemInitializationError,
    >)
        ensures
            system matches Ok(made) && made.projects() == registry.projects() && made.provider()
                == config_provider,
    {
        Ok(HorSystem { registry, state: UninitializedState { config_provider } })
    }

    /// The source of configuration that the system was made with.
    pub fn config_provider(&self) -> (provider: &CP)
        ensures
            *provider == self.provider(),
    {
        &self.state.config_provider
    }

    /// Initializes the system from `extracted`, the outcome of taking the
    /// system's section out of its configuration.
    ///
    /// A missing section is no error: the system then works without
    /// credentials. Any other error ends initialization.
    pub fn init(self, extracted: Result<HorSystemConfiguration, ConfigParseErr>) -> (system: Result<
        HorSystem<InitializedState, R>,
        HorSystemInitializationError,
    >)
        ensures
            credentials_from(result_view(extracted)) == initialized_view(system),
            system matches Ok(ready) ==> ready.projects() == self.projects(),
    {
        let config = match extracted {
            Ok(config) => Some(config),
            Err(error) => match error {
                ConfigParseErr::NoKey => None,
                error => return Err(HorSystemInitializationError::ConfigParse(error)),
            },
        };
        Ok(self.mediate(config))
    }

    /// Settles the credentials: the personal token of `config` where there
    /// is one, none where there is not.
    pub fn mediate(self, config: Option<HorSystemConfiguration>) -> (ready: HorSystem<
        InitializedState,
        R,
    >)
        ensures
            ready.credentials_view() == credentials_for(option_view(config)),
            ready.projects() == self.projects(),
    {
        let credentials = match config {
            Some(section) => Credentials::PersonalToken(section.github_personal_token),
            None => Credentials::Anonymous,
        };
        HorSystem { registry: self.registry, state: InitializedState { credentials } }
    }
}

/// The outcome of initialization, by the credentials that it settled on or
/// by the model of its error.
pub open spec fn initialized_view<R: Registry + ?Sized>(
    system: Result<HorSystem<InitializedState, R>, HorSystemInitializationError>,
) -> Result<CredentialsView, HorSystemInitializationErrorView> {
    match system {
        Ok(ready) => Ok(ready.credentials_view()),
        Err(error) => Err(error@),
    }
}

impl<R: Registry + ?Sized> HorSystem<InitializedState, R> {
    /// The credentials that initialization settled on.
    pub closed spec fn credentials_view(&self) -> CredentialsView {
        self.state.credentials@
    }

    /// The credentials with which the client of the provider is to be
    /// built.
    pub fn credentials(&self) -> (credentials: &Credentials)
        ensures
            credentials@ == self.credentials_view(),
    {
        &self.state.credentials
    }

    /// Starts one pass over the projects of the registry, in registry
    /// order. The pass hands out the requests to perform; see [`SyncPass`].
    pub fn sync(&self) -> (pass: SyncPass<'_>)
        ensures
            pass@ == SyncPassView::begin(projects_view(self.projects())),
            pass@.well_formed(),
    {
        SyncPass::begin(self.registry.get_projects())
    }
}

impl<R: Registry + ?Sized> Clone for HorSystem<InitializedState, R> {
    /// The copy shares the registry and has the same credentials.
    fn clone(&self) -> (copy: HorSystem<InitializedState, R>)
        ensures
            copy.projects() == self.projects(),
            copy.credentials_view() == self.credentials_view(),
    {
        HorSystem { registry: self.registry.clone(), state: self.state.clone() }
    }
}

} // verus!
