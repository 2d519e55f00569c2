use crypto::mac::Mac;
use webhook_relay::config::{get_server_port, Config, ConfigError};
use webhook_relay::dispatch::{auth_str, dispatch, index, travis_request};
use webhook_relay::event::{decode, PushEvent};
use webhook_relay::relay::handle_webhook;
use webhook_relay::response::{json_message, ErrorKind, ServerMessage};

fn sign_header(secret: &[u8], body: &[u8]) -> Vec<u8> {
    let mut mac = crypto::hmac::Hmac::new(crypto::sha1::Sha1::new(), secret);
    mac.input(body);
    let result = mac.result();
    let hex = webhook_relay::hex::bytes_to_hex(result.code().to_vec());
    let mut h = b"sha1=".to_vec();
    h.extend_from_slice(hex.as_bytes());
    h
}

fn decoded_ref(body: &[u8]) -> Option<Vec<u8>> {
    match decode(body) {
        Ok(ev) => Some(ev.reference),
        Err(_) => None,
    }
}

#[test]
fn test_decode_simple_object() {
    assert_eq!(
        decoded_ref(b"{\"ref\":\"refs/heads/master\"}"),
        Some(b"refs/heads/master".to_vec())
    );
}

#[test]
fn test_decode_ignores_other_members() {
    let body = b"{ \"before\": \"abc\", \"count\": 12, \"flag\": true, \"ref\" : \"refs/heads/dev\", \"after\": null }";
    assert_eq!(decoded_ref(body), Some(b"refs/heads/dev".to_vec()));
}

#[test]
fn test_decode_skips_nested_values() {
    let body = b"{\"pusher\":{\"name\":\"it\",\"ids\":[1,2,{\"x\":[]}]},\"commits\":[\"a\",\"b\"],\"ref\":\"refs/heads/master\"}";
    assert_eq!(decoded_ref(body), Some(b"refs/heads/master".to_vec()));
}

#[test]
fn test_decode_unescapes_ref() {
    let body = b"{\"note\":\"a \\\"quoted\\\" key\",\"ref\":\"a\\\\b\\\"c\\n\"}";
    assert_eq!(decoded_ref(body), Some(b"a\\b\"c\n".to_vec()));
}

#[test]
fn test_decode_malformed() {
    assert_eq!(decoded_ref(b""), None);
    assert_eq!(decoded_ref(b"hello_world"), None);
    assert_eq!(decoded_ref(b"{}"), None);
    assert_eq!(decoded_ref(b"{\"reference\":\"refs/heads/master\"}"), None);
    assert_eq!(decoded_ref(b"{\"ref\":42}"), None);
    assert_eq!(decoded_ref(b"{\"ref\":\"unterminated"), None);
    assert_eq!(decoded_ref(b"[\"ref\",\"refs/heads/master\"]"), None);
}

#[test]
fn test_dispatch_iff_ref_ends_with_master() {
    let url = b"https://api.travis-ci.org/repo/19145006/requests";
    let token = b"tok";
    let trigger = |r: &[u8]| {
        let ev = PushEvent { reference: r.to_vec() };
        dispatch(&ev, url, token).is_some()
    };
    assert!(trigger(b"refs/heads/master"));
    assert!(!trigger(b"refs/heads/develop"));
    assert!(trigger(b"refs/heads/not-master"));
    assert!(!trigger(b"refs/heads/masterful"));
    assert!(trigger(b"master"));
    assert!(!trigger(b""));
}

#[test]
fn test_trigger_request_fields() {
    let req = travis_request(b"https://api.travis-ci.org/repo/19145006/requests", b"s3cret");
    assert_eq!(req.url, b"https://api.travis-ci.org/repo/19145006/requests".to_vec());
    assert_eq!(req.api_version, 3);
    assert_eq!(req.authorization, b"token s3cret".to_vec());
    assert_eq!(req.content_type, b"application/json".to_vec());
    assert_eq!(
        req.body,
        b"{\"message\":\"API Request triggered by zigbee2mqtt update\",\"branch\":\"master\"}"
            .to_vec()
    );
}

#[test]
fn test_auth_str() {
    assert_eq!(auth_str(b"ablkjdfsoiuwre"), b"token ablkjdfsoiuwre".to_vec());
}

#[test]
fn test_handle_webhook_missing_header_rejected() {
    let r = handle_webhook(None, b"{\"ref\":\"refs/heads/master\"}", b"SUPERS3CR3T");
    assert!(matches!(r, Err(ErrorKind::Unauthorized)));
}

#[test]
fn test_handle_webhook_bad_signature_rejected() {
    let body = b"{\"ref\":\"refs/heads/master\"}";
    let mut header = sign_header(b"SUPERS3CR3T", body);
    let n = header.len();
    header[n - 1] = if header[n - 1] == b'0' { b'1' } else { b'0' };
    let r = handle_webhook(Some(&header), body, b"SUPERS3CR3T");
    assert!(matches!(r, Err(ErrorKind::Unauthorized)));
}

#[test]
fn test_handle_webhook_malformed_body_is_not_auth_failure() {
    let body = b"hello_world";
    let header = sign_header(b"SUPERS3CR3T", body);
    let r = handle_webhook(Some(&header), body, b"SUPERS3CR3T");
    assert!(matches!(r, Err(ErrorKind::InternalError)));
}

#[test]
fn test_handle_webhook_admits_and_decodes() {
    let body = b"{\"ref\":\"refs/heads/master\"}";
    let header = sign_header(b"SUPERS3CR3T", body);
    let r = handle_webhook(Some(&header), body, b"SUPERS3CR3T");
    match r {
        Ok(ev) => assert_eq!(ev.reference, b"refs/heads/master".to_vec()),
        Err(_) => panic!("admitted request must decode"),
    }
}

#[test]
fn test_index_messages() {
    let url = b"https://api.travis-ci.org/repo/19145006/requests";
    let on_master = PushEvent { reference: b"refs/heads/master".to_vec() };
    let on_dev = PushEvent { reference: b"refs/heads/develop".to_vec() };

    let sent = index(&on_master, Some(true), url);
    assert!(sent.e.is_none());
    assert_eq!(
        sent.message,
        b"PushEvent on branch master found, request sent to https://api.travis-ci.org/repo/19145006/requests".to_vec()
    );

    let skipped = index(&on_dev, None, url);
    assert!(skipped.e.is_none());
    assert_eq!(skipped.message, b"PushEvent is not for master branch".to_vec());

    let failed = index(&on_master, Some(false), url);
    assert!(matches!(failed.e, Some(ErrorKind::InternalError)));
}

#[test]
fn test_respond_to_statuses() {
    let (code, body) = ServerMessage::success(b"done".to_vec()).respond_to();
    assert_eq!(code, 200);
    assert_eq!(body, b"{\"message\":\"done\"}".to_vec());

    let (code, body) = ServerMessage::error(ErrorKind::Unauthorized).respond_to();
    assert_eq!(code, 401);
    assert_eq!(body, b"{\"message\":\"authentication failed\"}".to_vec());

    let (code, body) = ServerMessage::error(ErrorKind::InternalError).respond_to();
    assert_eq!(code, 500);
    assert_eq!(body, b"{\"message\":\"internal server error\"}".to_vec());
}

#[test]
fn test_json_message_escapes() {
    assert_eq!(
        json_message(b"a \"b\" \\ c\n\x01"),
        b"{\"message\":\"a \\\"b\\\" \\\\ c\\n\\u0001\"}".to_vec()
    );
}

#[test]
fn test_get_server_port() {
    assert_eq!(get_server_port(None), 8080);
    assert_eq!(get_server_port(Some(b"9000")), 9000);
    assert_eq!(get_server_port(Some(b"+123")), 123);
    assert_eq!(get_server_port(Some(b"0")), 0);
    assert_eq!(get_server_port(Some(b"")), 8080);
    assert_eq!(get_server_port(Some(b"+")), 8080);
    assert_eq!(get_server_port(Some(b"abc")), 8080);
    assert_eq!(get_server_port(Some(b"65535")), 65535);
    assert_eq!(get_server_port(Some(b"65536")), 8080);
    assert_eq!(get_server_port(Some(b"-1")), 8080);
}

#[test]
fn test_config_requires_all_values() {
    let r = Config::new(None, Some(b"t".to_vec()), Some(b"u".to_vec()), None);
    assert!(matches!(r, Err(ConfigError::MissingSecret)));
    let r = Config::new(Some(b"s".to_vec()), None, Some(b"u".to_vec()), None);
    assert!(matches!(r, Err(ConfigError::MissingToken)));
    let r = Config::new(Some(b"s".to_vec()), Some(b"t".to_vec()), None, None);
    assert!(matches!(r, Err(ConfigError::MissingUrl)));
    let r = Config::new(
        Some(b"s".to_vec()),
        Some(b"t".to_vec()),
        Some(b"u".to_vec()),
        Some(b"8088".to_vec()),
    );
    match r {
        Ok(c) => {
            assert_eq!(c.secret, b"s".to_vec());
            assert_eq!(c.token, b"t".to_vec());
            assert_eq!(c.travis_url, b"u".to_vec());
            assert_eq!(c.port, 8088);
        },
        Err(_) => panic!("all values present"),
    }
}

#[test]
fn test_full_pipeline_success() {
    // End to end: an authenticated push to master is dispatched and the
    // response names the configured trigger URL.
    let secret = b"SUPERS3CR3T".to_vec();
    let url = b"https://api.travis-ci.org/repo/19145006/requests".to_vec();
    let body = b"{\"ref\":\"refs/heads/master\"}";
    let header = sign_header(&secret, body);

    let ev = match handle_webhook(Some(&header), body, &secret) {
        Ok(ev) => ev,
        Err(_) => panic!("request must be admitted and decode"),
    };
    let req = dispatch(&ev, &url, b"tok");
    assert!(req.is_some());
    let msg = index(&ev, Some(true), &url);
    let (code, response_body) = msg.respond_to();
    assert_eq!(code, 200);
    let text = String::from_utf8(response_body).unwrap();
    assert!(text.contains("https://api.travis-ci.org/repo/19145006/requests"));
}
