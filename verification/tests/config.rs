use pls::config::{resolve_setting, ConfigError, Configuration};
use pls::model::SessionType;
use pls::request::RequestCmd;

#[test]
fn flag_wins_over_environment_and_file() {
    let got = resolve_setting(
        Some(String::from("http://flag")),
        Some(String::from("http://env")),
        Some(String::from("http://file")),
    );
    assert_eq!(got, Ok(String::from("http://flag")));
}

#[test]
fn environment_wins_over_file() {
    let got = resolve_setting(None, Some(String::from("http://env")), Some(String::from("http://file")));
    assert_eq!(got, Ok(String::from("http://env")));
}

#[test]
fn file_is_the_last_resort() {
    let got = resolve_setting(None, None, Some(String::from("http://file")));
    assert_eq!(got, Ok(String::from("http://file")));
}

#[test]
fn nothing_configured_is_an_error() {
    let got = resolve_setting(None, None, None);
    assert_eq!(got, Err(ConfigError {}));
    assert_eq!(
        ConfigError {}.describe(),
        "the api-key and server url must be provided via command line, env variable, or configuartion file"
    );
}

#[test]
fn configuration_holds_both_values() {
    let c = Configuration { server: String::from("http://tautulli"), key: String::from("k") };
    assert_eq!(c.server, "http://tautulli");
    assert_eq!(c.key, "k");
}

#[test]
fn command_wire_names() {
    assert_eq!(RequestCmd::GetActivity.as_str(), "get_activity");
    assert_eq!(RequestCmd::GetHistory.as_str(), "get_history");
}

#[test]
fn session_type_descriptions() {
    assert_eq!(SessionType::Secure.describe(), "Secure");
    assert_eq!(SessionType::Insecure.describe(), "Insecure");
}
