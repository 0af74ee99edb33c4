use esplora_client::{AsyncClient, Builder, DefaultSleeper, DEFAULT_MAX_RETRIES};
use std::collections::HashMap;

#[test]
fn client_from_builder() {
    let builder = Builder::new("https://blockstream.info/api")
        .header("User-Agent".to_string(), "test".to_string())
        .max_retries(3);
    let client: AsyncClient<DefaultSleeper> = AsyncClient::from_builder(builder).unwrap();
    assert_eq!(client.url(), "https://blockstream.info/api");
    assert_eq!(client.max_retries(), 3);
    assert_eq!(client.headers().get("User-Agent").map(String::as_str), Some("test"));
}

#[test]
fn client_from_url_and_headers() {
    let mut headers = HashMap::new();
    headers.insert("A".to_string(), "1".to_string());
    let client: AsyncClient = AsyncClient::from_client("http://localhost:3000".to_string(), headers.clone());
    assert_eq!(client.url(), "http://localhost:3000");
    assert_eq!(client.max_retries(), DEFAULT_MAX_RETRIES);
    assert_eq!(client.headers(), &headers);
}

#[test]
fn builder_header_replaces_same_name() {
    let b = Builder::new("x").header("k".to_string(), "1".to_string()).header("k".to_string(), "2".to_string());
    assert_eq!(b.headers.len(), 1);
    assert_eq!(b.headers["k"], "2");
    assert_eq!(b.max_retries, DEFAULT_MAX_RETRIES);
}
