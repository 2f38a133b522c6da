use solar_monitor::tesla_powerwall::{
    FetchDecision, PowerwallApi, PowerwallApiError, TokenDecision, WaitDecision,
    normalize_battery_level,
};

#[test]
fn missing_address_is_a_configuration_error() {
    assert!(matches!(
        PowerwallApi::new(None),
        Err(PowerwallApiError::Env)
    ));
    let api = PowerwallApi::new(Some("192.168.0.50".to_string())).unwrap();
    assert_eq!(api.ip_address(), "192.168.0.50");
}

#[test]
fn connectivity_wait_gives_up_after_three_hundred_attempts() {
    let probes = vec![false; 300];
    let (attempts, slept, outcome) = PowerwallApi::run_connectivity_wait(&probes);
    assert_eq!(attempts, 300);
    assert_eq!(slept, 299 * 200);
    assert_eq!(outcome, Err(PowerwallApiError::Connectivity));
}

#[test]
fn connectivity_wait_stops_at_first_success() {
    let mut probes = vec![false; 300];
    probes[2] = true;
    let (attempts, slept, outcome) = PowerwallApi::run_connectivity_wait(&probes);
    assert_eq!(attempts, 3);
    assert_eq!(slept, 2 * 200);
    assert_eq!(outcome, Ok(()));
}

#[test]
fn wait_step_decisions() {
    assert_eq!(
        PowerwallApi::wait_for_connection(1, true),
        WaitDecision::Ready
    );
    assert_eq!(
        PowerwallApi::wait_for_connection(1, false),
        WaitDecision::RetryAfterMillis(200)
    );
    assert_eq!(
        PowerwallApi::wait_for_connection(299, false),
        WaitDecision::RetryAfterMillis(200)
    );
    assert_eq!(
        PowerwallApi::wait_for_connection(300, false),
        WaitDecision::GiveUp
    );
}

#[test]
fn token_is_cached_once_and_invalidated_on_first_rejection() {
    let mut api = PowerwallApi::new(Some("gw".to_string())).unwrap();
    assert_eq!(api.token_request(false), TokenDecision::NeedLogin);
    let granted = api.on_login_response(true, Some("secret-token".to_string()));
    assert_eq!(granted, Ok("secret-token".to_string()));
    assert_eq!(
        api.token_request(false),
        TokenDecision::UseCached("secret-token".to_string())
    );
    // A forced refresh ignores the cache.
    assert_eq!(api.token_request(true), TokenDecision::NeedLogin);
    // First authorization failure discards the cached token, one retry.
    assert_eq!(api.on_fetch_status(401, false), FetchDecision::RetryAfterLogin);
    assert_eq!(api.token_request(false), TokenDecision::NeedLogin);
    // A second authorization failure is fatal.
    assert_eq!(
        api.on_fetch_status(401, true),
        FetchDecision::Fatal(PowerwallApiError::Auth)
    );
}

#[test]
fn login_failure_is_fatal() {
    let mut api = PowerwallApi::new(Some("gw".to_string())).unwrap();
    assert_eq!(
        api.on_login_response(false, Some("ignored".to_string())),
        Err(PowerwallApiError::Auth)
    );
    assert_eq!(api.on_login_response(true, None), Err(PowerwallApiError::Auth));
    assert_eq!(api.token_request(false), TokenDecision::NeedLogin);
}

#[test]
fn successful_response_is_used_and_odd_status_is_fatal() {
    let mut api = PowerwallApi::new(Some("gw".to_string())).unwrap();
    assert_eq!(api.on_fetch_status(200, false), FetchDecision::UseBody);
    assert_eq!(api.on_fetch_status(200, true), FetchDecision::UseBody);
    assert_eq!(
        api.on_fetch_status(500, false),
        FetchDecision::Fatal(PowerwallApiError::UnexpectedStatus(500))
    );
}

#[test]
fn battery_level_normalization_values() {
    // The gateway reserves a 5% floor: level = (raw - 5%) / 0.95, truncated,
    // in hundredths of a percent.
    assert_eq!(normalize_battery_level(0), -526);
    assert_eq!(normalize_battery_level(500), 0);
    assert_eq!(normalize_battery_level(9500), 9473);
    assert_eq!(normalize_battery_level(10000), 10000);
    assert_eq!(normalize_battery_level(6200), 6000);
}
