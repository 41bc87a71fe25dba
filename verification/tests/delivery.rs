use chat_hub::delivery::{send_result, SendError};

#[test]
fn success_status_means_delivered() {
    assert_eq!(send_result(Ok((true, "200 OK".to_string()))), Ok(()));
    assert_eq!(send_result(Ok((true, String::new()))), Ok(()));
}

#[test]
fn other_status_means_not_delivered() {
    assert_eq!(
        send_result(Ok((false, "403 Forbidden".to_string()))),
        Err(SendError::ApiStatus("403 Forbidden".to_string()))
    );
    assert_eq!(send_result(Ok((false, String::new()))), Err(SendError::ApiStatus(String::new())));
}

#[test]
fn no_answer_means_not_delivered() {
    assert_eq!(
        send_result(Err("connection refused".to_string())),
        Err(SendError::Network("connection refused".to_string()))
    );
}

#[test]
fn send_errors_read_as_sentences() {
    assert_eq!(SendError::Network("timed out".to_string()).describe(), "Network error: timed out");
    assert_eq!(
        SendError::ApiStatus("500 Internal Server Error".to_string()).describe(),
        "API error: Status code 500 Internal Server Error"
    );
}
