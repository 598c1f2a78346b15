use leptos_ssr_first::api::error::{return_early, ApiError};
use leptos_ssr_first::layout::server_message::{
    count_placeholders, MessageOfTheDay, MessageOfTheDayLevel, ServerMessageOfTheDay,
};
use leptos_ssr_first::model::language::Language;
use leptos_ssr_first::model::user::{Language as UserLanguage, User};
use leptos_ssr_first::server_utils::configuration::DatabaseSettings;
use leptos_ssr_first::utils::{
    get_lang_from_browser, get_login_data_from_session_storage, set_lang_to_i18n,
    set_login_data_to_session_storage, text_eq,
};

#[test]
fn error_messages() {
    assert_eq!(ApiError::InvalidCredentials.message(), "Invalid username or password");
    assert_eq!(ApiError::Unauthorized.message(), "Unauthorized");
    assert_eq!(ApiError::DbError("boom".to_string()).message(), "Database error: boom");
    assert_eq!(ApiError::DBConnectionError.message(), "No DB connection");
    assert_eq!(ApiError::UnexpectedError("odd".to_string()).message(), "odd");
    assert_eq!(ApiError::Expired.message(), "Session expired");
}

#[test]
fn early_return_envelope() {
    let r = return_early(ApiError::Expired);
    assert_eq!(r.error, Some(ApiError::Expired));
    assert_eq!(r.expires_at, 0);
    assert_eq!(r.token, "");
}

#[test]
fn connection_string_format() {
    let d = DatabaseSettings {
        username: "app".to_string(),
        password: "pw".to_string(),
        host: "db.local".to_string(),
        port: 5432,
        database_name: "sessions".to_string(),
    };
    assert_eq!(d.connection_string(), "postgres://app:pw@db.local:5432/sessions");
}

#[test]
fn login_data_entries() {
    let e = set_login_data_to_session_storage("tok", -1700000000);
    assert_eq!(
        e,
        vec![
            ("token".to_string(), "tok".to_string()),
            ("expires".to_string(), "-1700000000".to_string())
        ]
    );
    let e = set_login_data_to_session_storage("", i64::MIN);
    assert_eq!(e[1].1, "-9223372036854775808");
    let e = set_login_data_to_session_storage("", 0);
    assert_eq!(e[1].1, "0");
}

#[test]
fn languages() {
    assert_eq!(set_lang_to_i18n("de"), Language::De);
    assert_eq!(set_lang_to_i18n("en"), Language::En);
    assert_eq!(set_lang_to_i18n("fr"), Language::En);
    assert_eq!(Language::from("de"), Language::De);
    assert_eq!(Language::from("xx"), Language::En);
    assert_eq!(Language::from("de".to_string()), Language::De);
    assert_eq!(Language::De.as_str(), "de");
    assert_eq!(Language::En.to_string(), "en");
    assert_eq!(Language::default(), Language::En);
    assert_eq!(UserLanguage::De.to_string(), "de");
    assert_eq!(UserLanguage::default(), UserLanguage::En);
    assert!(text_eq("abc", "abc"));
    assert!(!text_eq("abc", "abd"));
    assert!(!text_eq("abc", "ab"));
}

#[test]
fn user_fields() {
    let u = User::new("Ann".to_string(), "de".to_string(), "t".to_string(), 5);
    assert_eq!(u.name, "Ann");
    assert_eq!(u.expires, 5);
}

#[test]
fn alert_classes() {
    assert_eq!(MessageOfTheDayLevel::Info.to_alert_class(), "text-center alert alert-info");
    assert_eq!(MessageOfTheDayLevel::Warn.to_alert_class(), "text-center alert alert-warning");
    assert_eq!(MessageOfTheDayLevel::Error.to_alert_class(), "text-center alert alert-danger");
    assert_eq!(MessageOfTheDayLevel::default(), MessageOfTheDayLevel::Info);
}

#[test]
fn placeholders() {
    assert_eq!(count_placeholders(""), 0);
    assert_eq!(count_placeholders("{} to our application!"), 1);
    assert_eq!(count_placeholders("{}{}"), 2);
    assert_eq!(count_placeholders("{{}}"), 1);
    assert_eq!(count_placeholders("{ }"), 0);
}

#[test]
fn message_of_the_day_checks_placeholders() {
    let m = MessageOfTheDay::new("{} to our application!".to_string(), vec!["Welcome".to_string()]);
    assert!(m.is_ok());
    let e = MessageOfTheDay::new("{} and {}".to_string(), vec!["one".to_string()]).unwrap_err();
    assert_eq!(e, "Message placeholder count (2) does not match emphasized array length (1)");
}

#[test]
fn localized_message() {
    let de = MessageOfTheDay::new("Hallo".to_string(), vec![]).unwrap();
    let en = MessageOfTheDay::new("Hello".to_string(), vec![]).unwrap();
    let motd = ServerMessageOfTheDay { enabled: true, level: MessageOfTheDayLevel::Warn, de, en };
    assert_eq!(motd.localized("de").message, "Hallo");
    assert_eq!(motd.localized("en").message, "Hello");
    assert_eq!(motd.localized("").message, "Hello");
}

#[test]
fn login_data_round_trip() {
    let entries = set_login_data_to_session_storage("tok", 1_700_003_600);
    let back = get_login_data_from_session_storage(
        Some(entries[0].1.clone()),
        Some(entries[1].1.clone()),
    );
    assert_eq!(back, Some(("tok".to_string(), 1_700_003_600)));
    assert_eq!(get_login_data_from_session_storage(None, Some("5".to_string())), None);
    assert_eq!(get_login_data_from_session_storage(Some("t".to_string()), None), None);
    assert_eq!(
        get_login_data_from_session_storage(Some("t".to_string()), Some("soon".to_string())),
        None
    );
    assert_eq!(
        get_login_data_from_session_storage(Some("t".to_string()), Some("-42".to_string())),
        Some(("t".to_string(), -42))
    );
}

#[test]
fn browser_language_choice() {
    assert_eq!(get_lang_from_browser(Some("de".to_string()), Some("en-US".to_string())), Some("de".to_string()));
    assert_eq!(get_lang_from_browser(None, Some("de-DE".to_string())), Some("de".to_string()));
    assert_eq!(get_lang_from_browser(None, Some("e".to_string())), Some("e".to_string()));
    assert_eq!(get_lang_from_browser(None, None), None);
}
