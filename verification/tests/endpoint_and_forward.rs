use logfwd::config::OutboundConfig;
use logfwd::endpoint::endpoint_url;
use logfwd::sink::plan_forward;

#[test]
fn endpoint_url_exact_composition() {
    let url = endpoint_url("logger.seungjin.net", "myhost", "mykey");
    assert_eq!(url, "https://logger.seungjin.net/myhost/mykey");
}

#[test]
fn endpoint_url_other_inputs() {
    let url = endpoint_url("example.org", "box-7", "svc/web");
    assert_eq!(url, "https://example.org/box-7/svc/web");
}

#[test]
fn config_carries_fields_unchanged() {
    let c = OutboundConfig::new(
        String::from("logger.seungjin.net"),
        String::from("mykey"),
        String::from("myhost"),
        String::from("k0"),
    );
    assert_eq!(c.remote_host, "logger.seungjin.net");
    assert_eq!(c.key, "mykey");
    assert_eq!(c.hostname, "myhost");
    assert_eq!(c.auth_key, "k0");
}

#[test]
fn forward_call_captures_exact_endpoint() {
    // A stub sink is just the prepared request itself: the fields it would
    // be called with.
    let c = OutboundConfig::new(
        String::from("logger.seungjin.net"),
        String::from("mykey"),
        String::from("myhost"),
        String::from("k1"),
    );
    let req = plan_forward(&c, String::from("hello\n"));
    assert_eq!(req.endpoint, "https://logger.seungjin.net/myhost/mykey");
    assert_eq!(req.auth_key, "k1");
    assert_eq!(req.body, "hello\n");
}
