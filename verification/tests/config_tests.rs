use echo_bench::config::{
    choose_addr, endpoint_from_parts, parse_mode, Config, ConfigurationError, Endpoint,
    Ipv4Address, LoopVariant, Mode,
};

fn host() -> Ipv4Address {
    Ipv4Address { o0: 10, o1: 4, o2: 0, o3: 7 }
}

#[test]
fn the_two_mode_words_parse() {
    assert_eq!(parse_mode("server".as_bytes()), Ok(Mode::Server));
    assert_eq!(parse_mode("client".as_bytes()), Ok(Mode::Client));
}

#[test]
fn every_other_mode_word_is_unknown() {
    assert_eq!(parse_mode("peer".as_bytes()), Err(ConfigurationError::UnknownMode));
    assert_eq!(parse_mode("Server".as_bytes()), Err(ConfigurationError::UnknownMode));
    assert_eq!(parse_mode("servers".as_bytes()), Err(ConfigurationError::UnknownMode));
    assert_eq!(parse_mode("".as_bytes()), Err(ConfigurationError::UnknownMode));
}

#[test]
fn endpoint_needs_a_host() {
    assert_eq!(
        endpoint_from_parts(None, Some(12345)),
        Err(ConfigurationError::InvalidAddress)
    );
}

#[test]
fn endpoint_needs_a_port_in_range() {
    assert_eq!(endpoint_from_parts(Some(host()), None), Err(ConfigurationError::InvalidPort));
    assert_eq!(endpoint_from_parts(Some(host()), Some(0)), Err(ConfigurationError::InvalidPort));
    assert_eq!(endpoint_from_parts(Some(host()), Some(-1)), Err(ConfigurationError::InvalidPort));
    assert_eq!(
        endpoint_from_parts(Some(host()), Some(65536)),
        Err(ConfigurationError::InvalidPort)
    );
    assert_eq!(
        endpoint_from_parts(Some(host()), Some(12345)),
        Ok(Endpoint { host: host(), port: 12345 })
    );
    assert_eq!(
        endpoint_from_parts(Some(host()), Some(65535)),
        Ok(Endpoint { host: host(), port: 65535 })
    );
}

#[test]
fn the_preferred_endpoint_wins_when_present() {
    let a = Endpoint { host: host(), port: 1 };
    let b = Endpoint { host: host(), port: 2 };
    assert_eq!(choose_addr(Some(a), Some(b)), Some(a));
    assert_eq!(choose_addr(Some(a), None), Some(a));
    assert_eq!(choose_addr(None, Some(b)), Some(b));
    assert_eq!(choose_addr(None, None), None);
}

#[test]
fn validation_rejects_port_zero_and_narrow_payloads() {
    let good = Config {
        mode: Mode::Server,
        endpoint: Endpoint { host: host(), port: 12345 },
        payload_size: 8,
        iterations: Some(100),
        variant: LoopVariant::Closed,
    };
    assert!(good.validate());

    let port_zero = Config { endpoint: Endpoint { host: host(), port: 0 }, ..good };
    assert!(!port_zero.validate());

    let narrow = Config { payload_size: 7, ..good };
    assert!(!narrow.validate());

    let continuous = Config { iterations: None, variant: LoopVariant::Open, ..good };
    assert!(continuous.validate());
}
