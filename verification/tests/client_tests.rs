use soroban_rpc::responses::{Cost, SimulateTransactionResponse};
use soroban_rpc::simulate::resolve_simulation_response;
use soroban_rpc::strutil::{str_eq, u32_to_dec_string};
use soroban_rpc::{Client, Error};

fn simulation(error: Option<&str>) -> SimulateTransactionResponse {
    SimulateTransactionResponse {
        footprint: "fp".to_string(),
        cost: Cost {
            cpu_insns: "17".to_string(),
            mem_bytes: "42".to_string(),
        },
        error: error.map(str::to_string),
    }
}

#[test]
fn client_keeps_the_base_url() {
    let c = Client::new("http://localhost:8000");
    assert_eq!(c.base_url(), "http://localhost:8000");
}

#[test]
fn simulation_without_error_passes_through() {
    let r = resolve_simulation_response(simulation(None)).unwrap();
    assert_eq!(r.footprint, "fp");
    assert_eq!(r.cost.cpu_insns, "17");
    assert_eq!(r.cost.mem_bytes, "42");
    assert!(r.error.is_none());
}

#[test]
fn simulation_error_field_becomes_a_domain_failure() {
    match resolve_simulation_response(simulation(Some("host error"))) {
        Err(Error::TransactionSimulationFailed(m)) => assert_eq!(m, "host error"),
        _ => panic!("expected a simulation failure"),
    }
}

#[test]
fn decimal_rendering_matches_the_standard_one() {
    assert_eq!(u32_to_dec_string(0), "0");
    assert_eq!(u32_to_dec_string(7), "7");
    assert_eq!(u32_to_dec_string(10), "10");
    assert_eq!(u32_to_dec_string(100), "100");
    assert_eq!(u32_to_dec_string(4096), "4096");
    assert_eq!(u32_to_dec_string(u32::MAX), "4294967295");
    for n in [0u32, 1, 9, 10, 99, 12345, 1000000] {
        assert_eq!(u32_to_dec_string(n), n.to_string());
    }
}

#[test]
fn string_equality_is_exact() {
    assert!(str_eq("pending", "pending"));
    assert!(!str_eq("pending", "Pending"));
    assert!(!str_eq("pending", "pendin"));
    assert!(!str_eq("", "a"));
    assert!(str_eq("", ""));
}

#[test]
fn error_messages_render_as_the_taxonomy_says() {
    assert_eq!(
        Error::Xdr("bad length".to_string()).message(),
        "xdr processing error: bad length"
    );
    assert_eq!(
        Error::JsonRpc("connection refused".to_string()).message(),
        "jsonrpc error: connection refused"
    );
    assert_eq!(
        Error::Serde("missing field".to_string()).message(),
        "json decoding error: missing field"
    );
    assert_eq!(
        Error::TransactionSubmissionFailed.message(),
        "transaction submission failed"
    );
    assert_eq!(
        Error::UnexpectedTransactionStatus("unknown".to_string()).message(),
        "expected transaction status: unknown"
    );
    assert_eq!(
        Error::TransactionSubmissionTimeout.message(),
        "transaction submission timeout"
    );
    assert_eq!(
        Error::TransactionSimulationFailed("budget".to_string()).message(),
        "transaction simulation failed: budget"
    );
}
