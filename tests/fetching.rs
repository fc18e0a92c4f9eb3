use rust_weather::fetch::{check_status, ConfigError, FetchClient, FetchError};
use rust_weather::provider::{Provider, SchemaVariant, TemperatureUnit};
use rust_weather::shell::AppShell;

fn provider() -> Provider {
    Provider {
        base_url: "https://api.openweathermap.org/data/2.5/weather".to_string(),
        query_param: "q".to_string(),
        key_param: "appid".to_string(),
        units_param: Some(("units".to_string(), "imperial".to_string())),
        unit: TemperatureUnit::Fahrenheit,
        schema: SchemaVariant::Current,
    }
}

fn client() -> FetchClient {
    FetchClient::new(provider(), Some("KEY".to_string())).unwrap()
}

fn url_for(q: &str) -> String {
    format!(
        "https://api.openweathermap.org/data/2.5/weather?q={}&appid=KEY&units=imperial",
        q
    )
}

type Record = (String, i32);

fn placeholder() -> Record {
    (String::new(), 0)
}

#[test]
fn status_in_two_hundreds_is_accepted() {
    assert_eq!(check_status(200), Ok(()));
    assert_eq!(check_status(299), Ok(()));
}

#[test]
fn status_outside_two_hundreds_is_http_error() {
    assert_eq!(check_status(500), Err(FetchError::HttpStatusError(500)));
    assert_eq!(check_status(199), Err(FetchError::HttpStatusError(199)));
    assert_eq!(check_status(300), Err(FetchError::HttpStatusError(300)));
    assert_eq!(check_status(404), Err(FetchError::HttpStatusError(404)));
}

#[test]
fn missing_api_key_is_missing_configuration() {
    assert_eq!(
        FetchClient::new(provider(), None),
        Err(ConfigError::MissingConfiguration)
    );
}

#[test]
fn empty_api_key_is_missing_configuration() {
    assert_eq!(
        FetchClient::new(provider(), Some(String::new())),
        Err(ConfigError::MissingConfiguration)
    );
}

#[test]
fn client_builds_url_with_its_key() {
    let c = client();
    assert_eq!(c.url_for("Portland"), url_for("Portland"));
    assert_eq!(c.provider(), &provider());
}

#[test]
fn initial_state_shows_nothing() {
    let mut shell: AppShell<Record> = AppShell::new(client(), placeholder());
    assert!(!shell.is_data_ready());
    assert!(!shell.is_fetching());
    assert!(!shell.is_submit_requested());
    assert_eq!(shell.query(), "");
    assert_eq!(shell.shown_record(), None);
    assert_eq!(shell.record(), &placeholder());
    assert_eq!(shell.observe(), None);
}

#[test]
fn submit_starts_exactly_one_fetch() {
    let mut shell: AppShell<Record> = AppShell::new(client(), placeholder());
    shell.set_query("Portland".to_string());
    shell.submit();
    assert!(shell.is_submit_requested());
    assert_eq!(shell.observe(), Some(url_for("Portland")));
    assert!(shell.is_fetching());
    assert!(!shell.is_submit_requested());
    assert_eq!(shell.observe(), None);
}

#[test]
fn empty_query_may_be_submitted() {
    let mut shell: AppShell<Record> = AppShell::new(client(), placeholder());
    shell.submit();
    assert_eq!(shell.observe(), Some(url_for("")));
}

#[test]
fn query_is_captured_when_fetch_starts() {
    let mut shell: AppShell<Record> = AppShell::new(client(), placeholder());
    shell.set_query("Salem".to_string());
    shell.submit();
    let url = shell.observe();
    shell.set_query("Eugene".to_string());
    assert_eq!(url, Some(url_for("Salem")));
    assert_eq!(shell.query(), "Eugene");
}

#[test]
fn successful_fetch_shows_new_record() {
    let mut shell: AppShell<Record> = AppShell::new(client(), placeholder());
    shell.set_query("Portland".to_string());
    shell.submit();
    shell.observe();
    shell.settle(Ok(("Portland".to_string(), 68)));
    assert!(shell.is_data_ready());
    assert!(!shell.is_fetching());
    assert_eq!(shell.shown_record(), Some(&("Portland".to_string(), 68)));
}

#[test]
fn submit_while_fetching_waits_for_settle() {
    let mut shell: AppShell<Record> = AppShell::new(client(), placeholder());
    shell.set_query("Boise".to_string());
    shell.submit();
    assert_eq!(shell.observe(), Some(url_for("Boise")));
    shell.set_query("Reno".to_string());
    shell.submit();
    shell.submit();
    assert_eq!(shell.observe(), None);
    assert!(shell.is_submit_requested());
    shell.settle(Err(FetchError::NetworkError("offline".to_string())));
    assert_eq!(shell.observe(), Some(url_for("Reno")));
    assert_eq!(shell.observe(), None);
}

#[test]
fn http_500_keeps_previous_record_and_ready_flag() {
    let mut shell: AppShell<Record> = AppShell::new(client(), placeholder());
    shell.set_query("Portland".to_string());
    shell.submit();
    shell.observe();
    shell.settle(Ok(("Portland".to_string(), 68)));
    shell.set_query("Nowhere".to_string());
    shell.submit();
    shell.observe();
    shell.settle(Err(FetchError::HttpStatusError(500)));
    assert!(shell.is_data_ready());
    assert_eq!(shell.shown_record(), Some(&("Portland".to_string(), 68)));
}

#[test]
fn failure_before_any_data_keeps_placeholder_hidden() {
    let mut shell: AppShell<Record> = AppShell::new(client(), placeholder());
    shell.submit();
    shell.observe();
    shell.settle(Err(FetchError::DecodeError("missing field `name`".to_string())));
    assert!(!shell.is_data_ready());
    assert_eq!(shell.shown_record(), None);
    assert_eq!(shell.record(), &placeholder());
    assert_eq!(shell.client(), &client());
}
