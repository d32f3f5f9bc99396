use veles_casper::client::{CasperClient, CasperClientError, RequestCounter};
use veles_casper::client::initialize_request_id;
use veles_casper::node_address::{is_missing_account_error, normalize_node_address};

#[test]
fn test_normalize_node_address_empty() {
    assert_eq!(normalize_node_address(""), None);
    assert_eq!(normalize_node_address("   "), None);
}

#[test]
fn test_normalize_node_address_trailing_slash() {
    assert_eq!(
        normalize_node_address("http://localhost:11101/"),
        Some("http://localhost:11101".to_string())
    );
}

#[test]
fn test_normalize_node_address_rpc_suffix() {
    assert_eq!(
        normalize_node_address("http://localhost:11101/rpc"),
        Some("http://localhost:11101".to_string())
    );
    assert_eq!(
        normalize_node_address("http://localhost:11101/rpc/"),
        Some("http://localhost:11101".to_string())
    );
}

#[test]
fn test_normalize_node_address_clean() {
    assert_eq!(
        normalize_node_address("http://localhost:11101"),
        Some("http://localhost:11101".to_string())
    );
}

#[test]
fn test_normalize_node_address_only_rpc() {
    assert_eq!(normalize_node_address("/rpc"), None);
    assert_eq!(normalize_node_address("rpc"), Some("rpc".into()));
}

#[test]
fn test_is_missing_account_error_code() {
    assert!(is_missing_account_error(-32075, ""));
    assert!(!is_missing_account_error(-32076, ""));
}

#[test]
fn test_is_missing_account_error_message() {
    assert!(is_missing_account_error(0, "Failed to get account"));
    assert!(is_missing_account_error(0, "Account not found"));
    assert!(is_missing_account_error(0, "No such account"));
    assert!(is_missing_account_error(0, "does not exist"));
    assert!(is_missing_account_error(0, "missing account"));
    assert!(is_missing_account_error(0, "ACCOUNT NOT FOUND"));
    assert!(!is_missing_account_error(0, "other error"));
}

#[test]
fn test_next_rpc_id_increments() {
    let mut counter = RequestCounter::new();
    let id1 = counter.next_id();
    let id2 = counter.next_id();
    let id3 = counter.next_id();

    assert_ne!(id1, id2);
    assert_ne!(id2, id3);
}

#[test]
fn test_casper_client_new_empty_endpoints() {
    let result = CasperClient::new("testnet", &Vec::<String>::new());
    assert!(matches!(
        result,
        Err(CasperClientError::MissingRpcEndpoints)
    ));
}

#[test]
fn test_casper_client_new_filters_empty() {
    let endpoints = vec!["".to_string(), "  ".to_string(), "/rpc".to_string()];
    let result = CasperClient::new("testnet", &endpoints);
    assert!(matches!(
        result,
        Err(CasperClientError::MissingRpcEndpoints)
    ));
}

#[test]
fn test_casper_client_new_success() {
    let endpoints = vec!["http://localhost:11101".to_string()];
    let client = CasperClient::new("testnet", &endpoints).expect("should create client");
    assert_eq!(client.network_name(), "testnet");
    assert_eq!(client.rpc_endpoint(), "http://localhost:11101");
}

#[test]
fn test_casper_client_new_normalizes_endpoints() {
    let endpoints = vec![
        "http://localhost:11101/rpc/".to_string(),
        "http://other:8888/".to_string(),
        "".to_string(),
    ];
    let client = CasperClient::new("testnet", &endpoints).expect("should create client");
    assert_eq!(client.rpc_endpoint(), "http://localhost:11101");
}

#[test]
fn test_casper_client_error_display() {
    let error = CasperClientError::MissingRpcEndpoints;
    assert_eq!(error.message(), "no RPC endpoints configured");

    let error = CasperClientError::BalanceOverflow;
    assert_eq!(error.message(), "balance value exceeds u64 range");

    let error = CasperClientError::MissingStateRootHash;
    assert_eq!(error.message(), "missing state root hash in response");

    let error = CasperClientError::MissingNetworkName;
    assert_eq!(error.message(), "missing network name in chainspec");
}

#[test]
fn normalize_strips_space_and_repeated_slashes() {
    assert_eq!(
        normalize_node_address("  http://node:7777///  "),
        Some("http://node:7777".to_string())
    );
    assert_eq!(
        normalize_node_address("http://node:7777//rpc//"),
        Some("http://node:7777".to_string())
    );
    assert_eq!(normalize_node_address("///"), None);
    assert_eq!(normalize_node_address("//rpc"), None);
    assert_eq!(
        normalize_node_address("http://node/rpc/rpc"),
        Some("http://node/rpc".to_string())
    );
}

#[test]
fn missing_account_needs_code_or_words() {
    assert!(is_missing_account_error(-32075, "other error"));
    assert!(is_missing_account_error(7, "value is MISSING here"));
    assert!(!is_missing_account_error(0, ""));
    assert!(!is_missing_account_error(0, "account found"));
}

#[test]
fn request_ids_follow_the_counter() {
    let mut counter = RequestCounter::new();
    assert_eq!(counter.next_id(), 0);
    assert_eq!(counter.next_id(), 1);
    initialize_request_id(&mut counter, 41);
    assert_eq!(counter.next_id(), 41);
    assert_eq!(counter.next_id(), 42);
    initialize_request_id(&mut counter, u16::MAX);
    assert_eq!(counter.next_id(), u16::MAX);
    assert_eq!(counter.next_id(), 0);
}

#[test]
fn client_keeps_every_plain_endpoint_in_order() {
    let endpoints = vec![
        " ".to_string(),
        "http://a/rpc".to_string(),
        "http://b/".to_string(),
    ];
    let client = CasperClient::new("net", &endpoints).unwrap();
    assert_eq!(client.rpc_endpoint(), "http://a");
    assert_eq!(client.network_name(), "net");
}

fn white_space(c: char) -> bool {
    matches!(
        c,
        '\u{9}'..='\u{d}'
            | ' '
            | '\u{85}'
            | '\u{a0}'
            | '\u{1680}'
            | '\u{2000}'..='\u{200a}'
            | '\u{2028}'
            | '\u{2029}'
            | '\u{202f}'
            | '\u{205f}'
            | '\u{3000}'
    )
}

#[test]
fn white_space_is_what_is_trimmed() {
    for code in 0..=0x10ffffu32 {
        let Some(c) = char::from_u32(code) else {
            continue;
        };
        assert_eq!(white_space(c), c.is_whitespace(), "U+{code:04X}");
        if c == '/' {
            continue;
        }
        let around = format!("{c}x{c}");
        let expected = if white_space(c) { "x".to_string() } else { around.clone() };
        assert_eq!(normalize_node_address(&around), Some(expected), "U+{code:04X}");
    }
    assert_eq!(normalize_node_address("/x/"), Some("/x".to_string()));
    assert_eq!(normalize_node_address("\u{3000}\t \n"), None);
}
