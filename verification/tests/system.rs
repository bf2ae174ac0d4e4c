use hor_core::registry::file::FileBasedRegistry;
use hor_core::registry::githubapp::GithubAppRegistry;
use hor_core::registry::{GithubProject, Registry, SourceProject};
use hor_core::remote::RemoteRequest;
use hor_core::sync::SyncError;
use hor_core::system::{
    ConfigParseErr, Credentials, HorSystem, HorSystemConfiguration, HorSystemInitializationError,
    InitializedState, RefType,
};

fn projects() -> Vec<SourceProject> {
    vec![
        SourceProject::Github(GithubProject {
            owner: "acme".to_string(),
            repo: "widgets".to_string(),
            env: "deployment".to_string(),
        }),
        SourceProject::Other { kind: "gitlab".to_string() },
    ]
}

fn ready(
    extracted: Result<HorSystemConfiguration, ConfigParseErr>,
) -> Result<HorSystem<InitializedState>, HorSystemInitializationError> {
    let registry: RefType<dyn Registry> = RefType::new(FileBasedRegistry::from_projects(projects()));
    HorSystem::new(registry, "local").and_then(|system| system.init(extracted))
}

#[test]
fn the_github_app_registry_starts_out_empty() {
    let registry = GithubAppRegistry::default();
    assert!(registry.get_projects().is_empty());
}

#[test]
fn the_file_based_registry_keeps_the_order_of_its_projects() {
    let registry = FileBasedRegistry::from_projects(projects());
    assert_eq!(registry.get_projects(), &projects());
}

#[test]
fn a_new_system_holds_its_registry_and_its_provider() {
    let registry = RefType::new(FileBasedRegistry::from_projects(projects()));
    let system = match HorSystem::new(registry, 7u8) {
        Ok(system) => system,
        Err(error) => panic!("{}", error.message()),
    };
    assert_eq!(*system.config_provider(), 7u8);
    assert_eq!(system.registry().get_projects(), &projects());
}

#[test]
fn a_configuration_gives_its_personal_token() {
    let config = HorSystemConfiguration::new("SECRET-REDACTED".to_string());
    assert_eq!(config.github_personal_token(), "SECRET-REDACTED");
    let system = ready(Ok(config)).ok().unwrap();
    assert_eq!(system.credentials(), &Credentials::PersonalToken("SECRET-REDACTED".to_string()));
}

#[test]
fn a_missing_section_gives_no_credentials() {
    let system = ready(Err(ConfigParseErr::NoKey)).ok().unwrap();
    assert_eq!(system.credentials(), &Credentials::Anonymous);
}

#[test]
fn an_unreadable_section_ends_initialization() {
    let unreadable = ConfigParseErr::Invalid { reason: "missing field".to_string() };
    match ready(Err(unreadable)) {
        Ok(_) => panic!("initialized from an unreadable section"),
        Err(error) => {
            assert_eq!(
                error,
                HorSystemInitializationError::ConfigParse(ConfigParseErr::Invalid {
                    reason: "missing field".to_string()
                })
            );
            assert_eq!(error.message(), "unable to parse configuration".to_string());
        }
    }
}

#[test]
fn mediate_settles_the_credentials() {
    let registry = RefType::new(GithubAppRegistry::default());
    let system = HorSystem::new(registry, ()).ok().unwrap();
    let system = system.mediate(Some(HorSystemConfiguration::new("token".to_string())));
    assert_eq!(system.credentials(), &Credentials::PersonalToken("token".to_string()));
    let registry = RefType::new(GithubAppRegistry::default());
    let system = HorSystem::new(registry, ()).ok().unwrap().mediate(None);
    assert_eq!(system.credentials(), &Credentials::Anonymous);
}

#[test]
fn an_initialized_system_starts_passes_over_its_registry() {
    let system = ready(Err(ConfigParseErr::NoKey)).ok().unwrap();
    let pass = system.sync();
    assert_eq!(
        pass.pending(),
        Some(RemoteRequest::GetRepository {
            owner: "acme".to_string(),
            repo: "widgets".to_string()
        })
    );
    let registry = RefType::new(FileBasedRegistry::from_projects(vec![SourceProject::Other {
        kind: "gitlab".to_string(),
    }]));
    let system = HorSystem::new(registry, ()).ok().unwrap().mediate(None);
    assert_eq!(
        system.sync().result(),
        Some(Err(SyncError::UnsupportedProjectKind { index: 0, kind: "gitlab".to_string() }))
    );
    let system = HorSystem::new(RefType::new(GithubAppRegistry::default()), ())
        .ok()
        .unwrap()
        .mediate(None);
    assert_eq!(system.sync().result(), Some(Ok(())));
}

#[test]
fn a_cloned_system_shares_the_registry_and_keeps_the_credentials() {
    let system = ready(Ok(HorSystemConfiguration::new("token".to_string()))).ok().unwrap();
    let copy = system.clone();
    assert_eq!(copy.credentials(), system.credentials());
    assert_eq!(copy.registry().get_projects(), system.registry().get_projects());
}

#[test]
fn initialization_errors_speak_in_words() {
    assert_eq!(
        HorSystemInitializationError::ConfigRs("no such file".to_string()).message(),
        "config.rs error".to_string()
    );
    assert_eq!(
        HorSystemInitializationError::ConfigParse(ConfigParseErr::NoKey).message(),
        "unable to parse configuration".to_string()
    );
    assert_eq!(
        HorSystemInitializationError::Octo("no roots".to_string()).message(),
        "an error occurred while initializing Octocrab".to_string()
    );
}

#[test]
fn projects_clone_to_equal_projects() {
    for project in projects() {
        assert_eq!(project.clone(), project);
    }
}
