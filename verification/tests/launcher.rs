use oxide_launcher::error::Error;
use oxide_launcher::yggdrasil::Authenticate;
use oxide_launcher::{default_launcher_dir, EnvVars, Launcher, LauncherBuilder, Platform};

fn env(appdata: Option<&str>, home: Option<&str>) -> EnvVars {
    EnvVars {
        appdata: appdata.map(|s| s.to_string()),
        home: home.map(|s| s.to_string()),
    }
}

fn stub_response() -> oxide_launcher::yggdrasil::AuthenticationResponse {
    let body = "{\"accessToken\":\"AT\",\"clientToken\":\"CT\",\
                \"selectedProfile\":{\"id\":\"abc123\",\"name\":\"Steve\"}}";
    Authenticate::process_response(Ok(body.to_string())).unwrap()
}

#[test]
fn default_dir_on_other_platforms_uses_home() {
    let d = default_launcher_dir(&Platform::Other, &env(None, Some("/home/u"))).unwrap();
    assert_eq!(d, "/home/u/.minecraft");
}

#[test]
fn default_dir_on_macos_uses_application_support() {
    let d = default_launcher_dir(&Platform::MacOs, &env(None, Some("/Users/u"))).unwrap();
    assert_eq!(d, "/Users/u/Library/Application Support/.minecraft");
}

#[test]
fn default_dir_on_windows_uses_appdata() {
    let d = default_launcher_dir(&Platform::Windows, &env(Some("C:/Users/u/AppData"), None))
        .unwrap();
    assert_eq!(d, "C:/Users/u/AppData/.minecraft");
}

#[test]
fn missing_environment_variable_is_fatal() {
    assert!(matches!(
        default_launcher_dir(&Platform::Other, &env(Some("ignored"), None)),
        Err(Error::MissingEnvVar)
    ));
    assert!(matches!(
        default_launcher_dir(&Platform::Windows, &env(None, Some("ignored"))),
        Err(Error::MissingEnvVar)
    ));
}

#[test]
fn build_without_override_applies_platform_default() {
    let launcher = LauncherBuilder::new(&stub_response())
        .build(&Platform::Other, &env(None, Some("/home/u")))
        .unwrap();
    assert_eq!(launcher.launcher_directory, "/home/u/.minecraft");
}

#[test]
fn build_with_override_ignores_platform_and_environment() {
    let launcher = LauncherBuilder::new(&stub_response())
        .launcher_directory("/opt/games/mc".to_string())
        .build(&Platform::Windows, &env(None, None))
        .unwrap();
    assert_eq!(launcher.launcher_directory, "/opt/games/mc");
}

#[test]
fn build_without_override_and_without_home_fails() {
    let r = LauncherBuilder::new(&stub_response()).build(&Platform::Other, &env(None, None));
    assert!(matches!(r, Err(Error::MissingEnvVar)));
}

#[test]
fn end_to_end_stub_transport_to_launch_config() {
    let resp = stub_response();
    let launcher = Launcher::builder(&resp)
        .launcher_directory("/tmp/mc".to_string())
        .build(&Platform::Other, &env(None, None))
        .unwrap();
    assert_eq!(launcher.access_token, "AT");
    assert_eq!(launcher.client_token.as_deref(), Some("CT"));
    assert_eq!(launcher.profile.id, "abc123");
    assert_eq!(launcher.profile.name, "Steve");
    assert!(!launcher.profile.legacy);
    assert!(!launcher.profile.demo);
    assert_eq!(launcher.launcher_directory, "/tmp/mc");
}

#[test]
fn builder_copies_tokens_and_selected_profile() {
    let launcher = Launcher::builder(&stub_response())
        .build(&Platform::MacOs, &env(None, Some("/Users/u")))
        .unwrap();
    assert_eq!(launcher.access_token, "AT");
    assert_eq!(launcher.client_token.as_deref(), Some("CT"));
    assert_eq!(
        launcher.launcher_directory,
        "/Users/u/Library/Application Support/.minecraft"
    );
}
