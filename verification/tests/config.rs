use transaction_simulator::config::{load_config, non_empty, parse_port, Config, ConfigError};

fn with_fork_url(value: Option<&str>) -> Config {
    load_config(None, value.map(|v| v.to_string()), None, None).unwrap()
}

fn with_etherscan_key(value: Option<&str>) -> Config {
    load_config(None, None, value.map(|v| v.to_string()), None).unwrap()
}

fn with_api_key(value: Option<&str>) -> Config {
    load_config(None, None, None, value.map(|v| v.to_string())).unwrap()
}

#[test]
#[should_panic(expected = "PORT must be a valid u16.")]
fn test_config_port_number() {
    load_config(Some("not a number".to_string()), None, None, None)
        .expect("PORT must be a valid u16.");
}

#[test]
fn test_config_fork_url() {
    let config = with_fork_url(Some("a"));
    assert_eq!(config.fork_url, Some("a".to_string()));

    let config = with_fork_url(Some(""));
    assert_eq!(config.fork_url, None);

    let config = with_fork_url(None);
    assert_eq!(config.fork_url, None);
}

#[test]
fn test_config_etherscan_key() {
    let config = with_etherscan_key(Some("a"));
    assert_eq!(config.etherscan_key, Some("a".to_string()));

    let config = with_etherscan_key(Some(""));
    assert_eq!(config.etherscan_key, None);

    let config = with_etherscan_key(None);
    assert_eq!(config.etherscan_key, None);
}

#[test]
fn test_config_api_key() {
    let config = with_api_key(Some("a"));
    assert_eq!(config.api_key, Some("a".to_string()));

    let config = with_api_key(Some(""));
    assert_eq!(config.api_key, None);

    let config = with_api_key(None);
    assert_eq!(config.api_key, None);
}

#[test]
fn config_defaults() {
    let config = load_config(None, None, None, None).unwrap();
    assert_eq!(
        config,
        Config {
            port: 8080,
            fork_url: None,
            etherscan_key: None,
            api_key: None,
            max_request_size: 16384,
        }
    );
}

#[test]
fn config_takes_every_setting() {
    let config = load_config(
        Some("3000".to_string()),
        Some("http://localhost:8545".to_string()),
        Some("key".to_string()),
        Some("secret".to_string()),
    )
    .unwrap();
    assert_eq!(config.port, 3000);
    assert_eq!(config.fork_url, Some("http://localhost:8545".to_string()));
    assert_eq!(config.etherscan_key, Some("key".to_string()));
    assert_eq!(config.api_key, Some("secret".to_string()));
    assert_eq!(config.max_request_size, 16 * 1024);
}

#[test]
fn config_invalid_port_is_an_error() {
    assert_eq!(
        load_config(Some("not a number".to_string()), None, None, None),
        Err(ConfigError::InvalidPort)
    );
    assert_eq!(
        load_config(Some("".to_string()), None, None, None),
        Err(ConfigError::InvalidPort)
    );
    assert_eq!(
        load_config(Some("65536".to_string()), Some("a".to_string()), None, None),
        Err(ConfigError::InvalidPort)
    );
}

#[test]
fn parse_port_accepts_what_u16_accepts() {
    let texts = [
        "0", "1", "80", "8080", "65535", "65536", "99999", "+1", "+", "", "-1", " 1", "1 ",
        "0x50", "00080", "12a", "+065535", "++1", "184467440737095516160", "٣",
        "115792089237316195423570985008687907853269984665640564039457584007913129639936",
    ];
    for text in texts {
        assert_eq!(parse_port(text), text.parse::<u16>().ok(), "{:?}", text);
    }
}

#[test]
fn parse_port_values() {
    assert_eq!(parse_port("8080"), Some(8080));
    assert_eq!(parse_port("65535"), Some(65535));
    assert_eq!(parse_port("+443"), Some(443));
    assert_eq!(parse_port("65536"), None);
    assert_eq!(parse_port("not a number"), None);
}

#[test]
fn non_empty_drops_only_the_empty_text() {
    assert_eq!(non_empty(Some("".to_string())), None);
    assert_eq!(non_empty(Some(" ".to_string())), Some(" ".to_string()));
    assert_eq!(non_empty(None), None);
}
