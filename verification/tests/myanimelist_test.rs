use nenechi::myanimelist::{
    after_attempt, compact_search_query, Client, ClientError, RetryDecision, SendOutcome,
    MAX_SEARCH_QUERY_LENGTH,
};

#[test]
fn long_search_queries_keep_the_beginning_and_end() {
    let client = Client::new("client-id").unwrap();
    let name = format!("{}{}", "a".repeat(50), "b".repeat(30));

    let query = client.search_anime_request(&name).unwrap();

    assert_eq!(query.chars().count(), MAX_SEARCH_QUERY_LENGTH);
    assert_eq!(query, format!("{} {}", "a".repeat(40), "b".repeat(23)));
}

#[test]
fn search_query_limit_respects_unicode_boundaries() {
    let client = Client::new("client-id").unwrap();
    let name = format!("{}{}", "本".repeat(50), "語".repeat(30));

    let query = client.search_anime_request(&name).unwrap();

    assert_eq!(query, format!("{} {}", "本".repeat(40), "語".repeat(23)));
}

#[test]
fn short_search_queries_are_sent_trimmed_and_unchanged() {
    let client = Client::new("client-id").unwrap();
    assert_eq!("K-On!", client.search_anime_request("  K-On!  ").unwrap());
    assert_eq!("K-On!", compact_search_query("K-On!"));
    assert_eq!(Err(ClientError::EmptySearchQuery), client.search_anime_request("   "));
}

#[test]
fn refuses_empty_and_unsendable_client_ids() {
    assert!(matches!(Client::new(""), Err(ClientError::EmptyApiKey)));
    match Client::new("bad\nid") {
        Err(ClientError::InvalidApiKey(message)) => {
            assert_eq!("failed to parse header value", message)
        },
        other => panic!("unexpected result: {:?}", other),
    }
    assert_eq!("client-id", Client::new("client-id").unwrap().api_key());
}

#[test]
fn builds_the_api_addresses() {
    let client = Client::new("client-id").unwrap();
    assert_eq!("anime/30831", Client::anime_path(30831));
    assert_eq!(
        "https://api.myanimelist.net/v2/anime/30831",
        client.request_url("//anime/30831")
    );
}

#[test]
fn judges_response_statuses() {
    let client = Client::new("client-id").unwrap();
    assert_eq!(Ok(()), client.check_response_error(200));
    assert_eq!(
        Err(ClientError::InvalidApiKey(
            "403 Forbidden (expired access tokens or invalid access tokens)".to_string()
        )),
        client.check_response_error(403)
    );
    assert_eq!(
        Err(ClientError::Http("400 Bad Request (invalid parameters)".to_string())),
        client.check_response_error(400)
    );
    assert_eq!(
        Err(ClientError::Http("503 Service Unavailable".to_string())),
        client.check_response_error(503)
    );
}

#[test]
fn retries_failures_with_growing_waits_until_the_last_attempt() {
    assert_eq!(
        RetryDecision::RetryAfter(3),
        after_attempt(1, &SendOutcome::Failed("timeout".to_string()))
    );
    assert_eq!(RetryDecision::RetryAfter(9), after_attempt(3, &SendOutcome::Responded(500)));
    assert_eq!(RetryDecision::Accept, after_attempt(2, &SendOutcome::Responded(200)));
    assert_eq!(RetryDecision::Accept, after_attempt(4, &SendOutcome::Responded(500)));
    assert_eq!(
        RetryDecision::Fail(ClientError::Http("timeout".to_string())),
        after_attempt(4, &SendOutcome::Failed("timeout".to_string()))
    );
}

#[test]
fn reports_client_errors() {
    assert_eq!("la API key no puede estar vacía", ClientError::EmptyApiKey.to_string());
}
