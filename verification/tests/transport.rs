use joku::roku::{
    check_status, method_for, App, Apps, Config, EncodeError, HttpMethod, LaunchParams,
    RokuClient, RokuCommand, RokuDevice, SearchParams, TransportError,
};
use joku::{config_file, config_path, urlify};
use reqwest::Url;

fn no_apps() -> Apps {
    Apps { apps: vec![] }
}

fn config(addr: &str) -> Config {
    Config { device: RokuDevice { name: "Den".to_string(), addr: addr.to_string() }, apps: vec![] }
}

#[test]
fn urlify_joins_the_path_to_the_base() {
    let base = Url::parse("http://192.168.1.20:8060").unwrap();
    let url = urlify(&base, &RokuCommand::Home, &no_apps()).unwrap();
    assert_eq!(url.as_str(), "http://192.168.1.20:8060/keypress/Home");
}

#[test]
fn urlify_carries_the_query() {
    let base = Url::parse("http://192.168.1.20:8060/").unwrap();
    let search = SearchParams {
        keyword: "a b".to_string(),
        kind: Some("movie".to_string()),
        title: None,
        season: None,
        launch: None,
        provider: None,
        provider_id: None,
    };
    let url = urlify(&base, &RokuCommand::Search(search), &no_apps()).unwrap();
    assert_eq!(url.as_str(), "http://192.168.1.20:8060/search/browse?keyword=a%20b&type=movie");
}

#[test]
fn urlify_keeps_discover_off_the_wire() {
    let base = Url::parse("http://192.168.1.20:8060").unwrap();
    assert_eq!(urlify(&base, &RokuCommand::Discover, &no_apps()).err(), Some(TransportError::NotSendable));
}

#[test]
fn urlify_reports_why_a_command_has_no_path() {
    let base = Url::parse("http://192.168.1.20:8060").unwrap();
    let launch = RokuCommand::Launch(LaunchParams { app: "hulu".to_string(), link: None });
    assert_eq!(
        urlify(&base, &launch, &no_apps()).err(),
        Some(TransportError::Encode(EncodeError::UnknownApp("hulu".to_string())))
    );
}

#[test]
fn urlify_reports_a_base_that_takes_no_path() {
    let base = Url::parse("mailto:someone@example.com").unwrap();
    assert_eq!(urlify(&base, &RokuCommand::Home, &no_apps()).err(), Some(TransportError::BadAddress));
}

#[test]
fn client_is_made_from_the_address_of_the_device() {
    let client = RokuClient::try_from_config(&config("192.168.1.20:8060")).unwrap();
    assert_eq!(client.base().as_str(), "http://192.168.1.20:8060/");
    let v6 = RokuClient::try_from_config(&config("[fe80::1]:8060")).unwrap();
    assert_eq!(v6.base().as_str(), "http://[fe80::1]:8060/");
}

#[test]
fn client_refuses_an_address_that_is_none() {
    assert_eq!(RokuClient::try_from_config(&config("no address:x")).err(), Some(TransportError::BadAddress));
}

#[test]
fn client_plans_the_request() {
    let client = RokuClient::new(Url::parse("http://10.0.0.7:8060").unwrap());
    let apps = Apps {
        apps: vec![App {
            id: "837".to_string(),
            kind: "appl".to_string(),
            version: "2.0".to_string(),
            name: "YouTube".to_string(),
        }],
    };
    let (method, url) = client.request(&RokuCommand::VolumeUp, &apps).unwrap();
    assert_eq!(method, HttpMethod::Post);
    assert_eq!(url.as_str(), "http://10.0.0.7:8060/keypress/VolumeUp");
    let (method, url) = client.request(&RokuCommand::ListApps, &apps).unwrap();
    assert_eq!(method, HttpMethod::Get);
    assert_eq!(url.as_str(), "http://10.0.0.7:8060/query/apps");
    let launch = RokuCommand::Launch(LaunchParams {
        app: "youtube".to_string(),
        link: Some("https://youtu.be/watch?v=XYZ".to_string()),
    });
    let (method, url) = client.request(&launch, &apps).unwrap();
    assert_eq!(method, HttpMethod::Post);
    assert_eq!(url.as_str(), "http://10.0.0.7:8060/launch/837?contentId=XYZ");
    assert_eq!(client.request(&RokuCommand::Discover, &apps).err(), Some(TransportError::NotSendable));
}

#[test]
fn queries_are_got_and_controls_are_posted() {
    assert_eq!(method_for(&RokuCommand::DeviceInfo), HttpMethod::Get);
    assert_eq!(method_for(&RokuCommand::ListApps), HttpMethod::Get);
    assert_eq!(method_for(&RokuCommand::Home), HttpMethod::Post);
    assert_eq!(method_for(&RokuCommand::PowerOff), HttpMethod::Post);
    assert_eq!(method_for(&RokuCommand::Discover), HttpMethod::Post);
}

#[test]
fn only_the_two_hundreds_are_a_success() {
    assert_eq!(check_status(200), Ok(()));
    assert_eq!(check_status(204), Ok(()));
    assert_eq!(check_status(299), Ok(()));
    assert_eq!(check_status(199), Err(TransportError::Status(199)));
    assert_eq!(check_status(300), Err(TransportError::Status(300)));
    assert_eq!(check_status(404), Err(TransportError::Status(404)));
    assert_eq!(check_status(0), Err(TransportError::Status(0)));
}

#[test]
fn config_lies_below_the_home_directory() {
    assert_eq!(config_path("/home/j"), "/home/j/.config/joku");
    assert_eq!(config_file("/home/j"), "/home/j/.config/joku/config.toml");
}

#[test]
fn config_path_adds_no_second_separator() {
    assert_eq!(config_file("/home/j/"), "/home/j/.config/joku/config.toml");
    assert_eq!(config_file("/"), "/.config/joku/config.toml");
    assert_eq!(config_file(""), ".config/joku/config.toml");
}

#[test]
fn config_path_is_what_the_path_type_joins() {
    for home in ["/home/j", "/home/j/", "", "/", "rel"] {
        let joined = std::path::PathBuf::from(home).join(".config").join("joku").join("config.toml");
        assert_eq!(config_file(home), joined.to_str().unwrap());
    }
}
