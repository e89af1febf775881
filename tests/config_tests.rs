use wa_ai_adapter::headers::{parse_allowed_ids, parse_bool_header, split_allowed_ids};
use wa_ai_adapter::settings::{
    bool_setting, parse_switch, text_setting, u16_setting, u32_setting, url_setting, ConfigError,
};

#[test]
fn allowed_ids_are_split_and_trimmed() {
    assert_eq!(
        split_allowed_ids(" 999@c.us , 111@c.us,,  "),
        vec!["999@c.us".to_string(), "111@c.us".to_string()]
    );
    assert_eq!(split_allowed_ids("a"), vec!["a".to_string()]);
    assert_eq!(split_allowed_ids(""), Vec::<String>::new());
    assert_eq!(split_allowed_ids(",,"), Vec::<String>::new());
    assert_eq!(split_allowed_ids("\ta b\t,c"), vec!["a b".to_string(), "c".to_string()]);
}

#[test]
fn empty_allowed_ids_header_means_no_list() {
    assert_eq!(parse_allowed_ids(" , "), None);
    assert_eq!(parse_allowed_ids("x"), Some(vec!["x".to_string()]));
}

#[test]
fn boolean_header_values() {
    assert_eq!(parse_bool_header("true"), Some(true));
    assert_eq!(parse_bool_header("1"), Some(true));
    assert_eq!(parse_bool_header("false"), Some(false));
    assert_eq!(parse_bool_header("0"), Some(false));
    assert_eq!(parse_bool_header("TRUE"), None);
    assert_eq!(parse_bool_header("yes"), None);
}

#[test]
fn switch_settings_ignore_case() {
    assert_eq!(bool_setting("K", Some("TRUE".to_string()), false), Ok(true));
    assert_eq!(bool_setting("K", Some("No".to_string()), true), Ok(false));
    assert_eq!(bool_setting("K", Some("Y".to_string()), false), Ok(true));
    assert_eq!(bool_setting("K", None, true), Ok(true));
    assert_eq!(
        bool_setting("SUMMARIZE_SYSTEM_MESSAGES", Some("maybe".to_string()), false),
        Err(ConfigError::Other("Invalid bool for SUMMARIZE_SYSTEM_MESSAGES: maybe".to_string()))
    );
    assert_eq!(parse_switch("yes"), Some(true));
    assert_eq!(parse_switch("YES"), None);
}

#[test]
fn number_settings() {
    assert_eq!(u32_setting("TOP_K", None, 5), Ok(5));
    assert_eq!(u32_setting("TOP_K", Some("12".to_string()), 5), Ok(12));
    assert_eq!(u32_setting("TOP_K", Some("+7".to_string()), 5), Ok(7));
    assert_eq!(
        u32_setting("TOP_K", Some("-1".to_string()), 5),
        Err(ConfigError::InvalidNumber { name: "TOP_K".to_string(), value: "-1".to_string() })
    );
    assert_eq!(u16_setting("APP_PORT", Some("8080".to_string()), 1), Ok(8080));
    assert_eq!(
        u16_setting("APP_PORT", Some("70000".to_string()), 1),
        Err(ConfigError::InvalidNumber {
            name: "APP_PORT".to_string(),
            value: "70000".to_string()
        })
    );
}

#[test]
fn text_and_url_settings() {
    assert_eq!(text_setting(None, "0.0.0.0"), "0.0.0.0");
    assert_eq!(text_setting(Some("h".to_string()), "0.0.0.0"), "h");
    assert_eq!(
        url_setting("AI_BASE_URL", None).map(|u| u.to_string()),
        Err(ConfigError::MissingVar("AI_BASE_URL".to_string()))
    );
    assert_eq!(
        url_setting("AI_BASE_URL", Some("not a url".to_string())).map(|u| u.to_string()),
        Err(ConfigError::InvalidUrl {
            name: "AI_BASE_URL".to_string(),
            value: "not a url".to_string()
        })
    );
    assert_eq!(
        url_setting("AI_BASE_URL", Some("http://localhost:8000".to_string())).map(|u| u.to_string()),
        Ok("http://localhost:8000/".to_string())
    );
}
