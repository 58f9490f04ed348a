use uomi_host::config::{
    default_ipfs_gateway, default_retry_attempts, default_timeout, ApiConfig, IpfsConfig, ModelConfig,
    UomiConfig,
};
use uomi_host::message::{prepare_request, process_messages, system_message, Message};
use uomi_host::text::{decimal_string, utf8_text};

fn msg(role: &str, content: &str) -> Message {
    Message { role: role.to_string(), content: content.to_string() }
}

#[test]
fn system_message_has_system_role() {
    let m = system_message("Your name is UOMI Agent".to_string());
    assert_eq!(m.role, "system");
    assert_eq!(m.content, "Your name is UOMI Agent");
}

#[test]
fn process_messages_prepends() {
    let r = process_messages(msg("system", "s"), vec![msg("user", "hi"), msg("assistant", "yo")]);
    let roles: Vec<&str> = r.iter().map(|m| m.role.as_str()).collect();
    assert_eq!(roles, vec!["system", "user", "assistant"]);
    assert_eq!(r[1].content, "hi");
    assert_eq!(process_messages(msg("system", "s"), vec![]).len(), 1);
}

#[test]
fn prepare_request_keeps_bytes() {
    assert_eq!(prepare_request("{\"messages\": []}"), b"{\"messages\": []}".to_vec());
    assert_eq!(prepare_request("é"), vec![0xc3, 0xa9]);
    assert_eq!(prepare_request(""), Vec::<u8>::new());
}

#[test]
fn defaults_match_the_schema() {
    assert_eq!(default_timeout(), 30000);
    assert_eq!(default_retry_attempts(), 3);
    assert_eq!(default_ipfs_gateway(), "https://ipfs.io/ipfs");
    let api = ApiConfig::with_defaults();
    assert_eq!((api.timeout_ms, api.retry_attempts, api.headers.len()), (30000, 3, 0));
    let ipfs = IpfsConfig::with_defaults();
    assert_eq!((ipfs.gateway.as_str(), ipfs.timeout_ms), ("https://ipfs.io/ipfs", 30000));
}

#[test]
fn decimal_rendering() {
    assert_eq!(decimal_string(0), "0");
    assert_eq!(decimal_string(7), "7");
    assert_eq!(decimal_string(999), "999");
    assert_eq!(decimal_string(-12), "-12");
    assert_eq!(decimal_string(i32::MIN), "-2147483648");
    assert_eq!(decimal_string(i32::MAX), "2147483647");
}

#[test]
fn utf8_decoding() {
    assert_eq!(utf8_text("héllo".as_bytes()), Some("héllo".to_string()));
    assert_eq!(utf8_text(&[0xff, 0xfe]), None);
}

#[test]
fn find_model_by_decimal_key() {
    let model = |n: &str| ModelConfig { name: n.to_string(), url: None, api_key: None };
    let cfg = UomiConfig {
        local_file_path: "input.txt".to_string(),
        api: ApiConfig::with_defaults(),
        models: vec![("1".to_string(), model("a")), ("-3".to_string(), model("b")), ("10".to_string(), model("c"))],
        ipfs: IpfsConfig::with_defaults(),
    };
    assert_eq!(cfg.find_model(1), Some(0));
    assert_eq!(cfg.find_model(-3), Some(1));
    assert_eq!(cfg.find_model(10), Some(2));
    assert_eq!(cfg.find_model(999), None);
    assert_eq!(cfg.find_model(0), None);
}
