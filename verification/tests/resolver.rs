use sqs_forwarder::resolver::QueueHandle;
use sqs_forwarder::resolver::ResolutionError;
use sqs_forwarder::resolver::resolve_handle;

#[test]
fn a_returned_location_resolves_to_that_handle() {
    let lookup: Result<Option<String>, String> =
        Ok(Some("https://queue.example/123/orders".to_string()));
    assert_eq!(
        resolve_handle(lookup),
        Ok(QueueHandle { url: "https://queue.example/123/orders".to_string() })
    );
}

#[test]
fn resolution_is_stable_for_equal_lookups() {
    let first = resolve_handle(Ok(Some("https://queue.example/123/orders.fifo".to_string())));
    let second = resolve_handle(Ok(Some("https://queue.example/123/orders.fifo".to_string())));
    assert_eq!(first, second);
    assert!(first.is_ok());
}

#[test]
fn a_failed_lookup_resolves_to_a_lookup_error() {
    let lookup: Result<Option<String>, String> = Err("no such queue".to_string());
    assert_eq!(
        resolve_handle(lookup),
        Err(ResolutionError::LookupFailed("no such queue".to_string()))
    );
}

#[test]
fn a_missing_location_resolves_to_no_url() {
    let lookup: Result<Option<String>, String> = Ok(None);
    assert_eq!(resolve_handle(lookup), Err(ResolutionError::NoUrl));
}

#[test]
fn an_empty_location_resolves_to_no_url() {
    let lookup: Result<Option<String>, String> = Ok(Some(String::new()));
    assert_eq!(resolve_handle(lookup), Err(ResolutionError::NoUrl));
}

#[test]
fn errors_describe_themselves() {
    assert_eq!(
        ResolutionError::LookupFailed("denied".to_string()).describe(),
        "queue resolution failed: denied"
    );
    assert_eq!(
        ResolutionError::NoUrl.describe(),
        "queue resolution returned no queue location"
    );
}
