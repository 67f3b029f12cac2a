use ddlogs::config::Config;
use ddlogs::error::DdLogsError;

fn config(api_key: Option<&str>, app_key: Option<&str>, site: Option<&str>) -> Config {
    Config {
        api_key: api_key.map(String::from),
        app_key: app_key.map(String::from),
        site: site.map(String::from),
    }
}

fn s(text: &str) -> Option<String> {
    Some(String::from(text))
}

#[test]
fn default_config_is_empty() {
    let c = Config::default();
    assert_eq!(c.api_key, None);
    assert_eq!(c.app_key, None);
    assert_eq!(c.site, None);
}

#[test]
fn load_without_file_or_environment_is_empty() {
    let c = Config::load(None, None, None, None);
    assert_eq!(c.api_key, None);
    assert_eq!(c.app_key, None);
    assert_eq!(c.site, None);
}

#[test]
fn load_keeps_the_stored_settings() {
    let c = Config::load(Some(config(Some("k"), Some("a"), Some("datadoghq.eu"))), None, None, None);
    assert_eq!(c.api_key, s("k"));
    assert_eq!(c.app_key, s("a"));
    assert_eq!(c.site, s("datadoghq.eu"));
}

#[test]
fn load_lets_the_environment_win() {
    let stored = config(Some("file-api"), Some("file-app"), Some("file-site"));
    let c = Config::load(Some(stored), s("env-api"), None, s("env-site"));
    assert_eq!(c.api_key, s("env-api"));
    assert_eq!(c.app_key, s("file-app"));
    assert_eq!(c.site, s("env-site"));
}

#[test]
fn load_from_the_environment_alone() {
    let c = Config::load(None, s("env-api"), s("env-app"), None);
    assert_eq!(c.api_key, s("env-api"));
    assert_eq!(c.app_key, s("env-app"));
    assert_eq!(c.site, None);
}

#[test]
fn load_takes_an_empty_setting_from_the_environment() {
    let c = Config::load(Some(config(Some("k"), None, None)), s(""), None, None);
    assert_eq!(c.api_key, s(""));
}

#[test]
fn answers_are_trimmed() {
    let c = Config::from_answers("  abc123 \n", "\tdef456\r\n", " us5.datadoghq.com\n");
    assert_eq!(c.api_key, s("abc123"));
    assert_eq!(c.app_key, s("def456"));
    assert_eq!(c.site, s("us5.datadoghq.com"));
}

#[test]
fn an_empty_site_answer_means_the_default_site() {
    let c = Config::from_answers("k\n", "a\n", "\n");
    assert_eq!(c.site, s("datadoghq.com"));
    let c = Config::from_answers("k\n", "a\n", "   \t ");
    assert_eq!(c.site, s("datadoghq.com"));
    let c = Config::from_answers("k", "a", "");
    assert_eq!(c.site, s("datadoghq.com"));
}

#[test]
fn empty_key_answers_are_kept_as_empty_keys() {
    let c = Config::from_answers("\n", "  \n", "\n");
    assert_eq!(c.api_key, s(""));
    assert_eq!(c.app_key, s(""));
    assert!(c.has_credentials());
}

#[test]
fn answers_keep_inner_whitespace() {
    let c = Config::from_answers(" a b \n", "c\u{a0}", "\u{3000}x y\u{2003}");
    assert_eq!(c.api_key, s("a b"));
    assert_eq!(c.app_key, s("c"));
    assert_eq!(c.site, s("x y"));
}

#[test]
fn trimmed_answers_are_taken_as_they_are() {
    let c = Config::from_trimmed_answers("k", "a", "datadoghq.eu");
    assert_eq!(c.api_key, s("k"));
    assert_eq!(c.app_key, s("a"));
    assert_eq!(c.site, s("datadoghq.eu"));
    let c = Config::from_trimmed_answers(" k ", "", "");
    assert_eq!(c.api_key, s(" k "));
    assert_eq!(c.app_key, s(""));
    assert_eq!(c.site, s("datadoghq.com"));
    let c = Config::from_trimmed_answers("k", "a", " ");
    assert_eq!(c.site, s(" "));
}

#[test]
fn credentials_need_both_keys() {
    assert!(config(Some("k"), Some("a"), None).has_credentials());
    assert!(!config(None, Some("a"), Some("x")).has_credentials());
    assert!(!config(Some("k"), None, Some("x")).has_credentials());
    assert!(!config(None, None, None).has_credentials());
}

#[test]
fn check_credentials_reports_a_missing_key() {
    assert!(config(Some("k"), Some("a"), None).check_credentials().is_ok());
    assert!(matches!(
        config(None, Some("a"), None).check_credentials(),
        Err(DdLogsError::MissingCredentials)
    ));
    assert!(matches!(
        config(Some("k"), None, None).check_credentials(),
        Err(DdLogsError::MissingCredentials)
    ));
    assert!(matches!(
        config(None, None, Some("site")).check_credentials(),
        Err(DdLogsError::MissingCredentials)
    ));
}

#[test]
fn client_settings_with_everything_present() {
    let settings = config(Some("k"), Some("a"), Some("datadoghq.eu")).client_settings();
    assert_eq!(settings.auth_keys.len(), 2);
    assert_eq!(settings.auth_keys[0].name, "apiKeyAuth");
    assert_eq!(settings.auth_keys[0].key, "k");
    assert_eq!(settings.auth_keys[0].prefix, "");
    assert_eq!(settings.auth_keys[1].name, "appKeyAuth");
    assert_eq!(settings.auth_keys[1].key, "a");
    assert_eq!(settings.auth_keys[1].prefix, "");
    assert_eq!(settings.server_variables.len(), 1);
    assert_eq!(settings.server_variables[0].name, "site");
    assert_eq!(settings.server_variables[0].value, "datadoghq.eu");
}

#[test]
fn client_settings_leave_out_what_is_missing() {
    let settings = config(None, Some("a"), None).client_settings();
    assert_eq!(settings.auth_keys.len(), 1);
    assert_eq!(settings.auth_keys[0].name, "appKeyAuth");
    assert_eq!(settings.auth_keys[0].key, "a");
    assert!(settings.server_variables.is_empty());
    let settings = config(Some("k"), None, None).client_settings();
    assert_eq!(settings.auth_keys.len(), 1);
    assert_eq!(settings.auth_keys[0].name, "apiKeyAuth");
    let settings = config(None, None, None).client_settings();
    assert!(settings.auth_keys.is_empty());
    assert!(settings.server_variables.is_empty());
}

#[test]
fn answers_without_surrounding_whitespace_are_kept_as_typed() {
    let c = Config::from_answers("abc 123", "d\te", "eu.example.com");
    assert_eq!(c.api_key, s("abc 123"));
    assert_eq!(c.app_key, s("d\te"));
    assert_eq!(c.site, s("eu.example.com"));
}
