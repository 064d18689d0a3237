use communicator::client::{delivery_result, DiscordRpcClient};
use communicator::error::DiscordRpcError;
use communicator::models::Activity;
use communicator::session::ClientCommand;

#[test]
fn test_client_creation() {
    let client = DiscordRpcClient::new("test_client_id");
    assert_eq!(client.client_id(), "test_client_id");
}

#[test]
fn requests_of_the_client() {
    let client = DiscordRpcClient::new("1");
    let a = Activity {
        details: None,
        state: Some("Idle".to_string()),
        timestamps: None,
        assets: None,
        party: None,
        secrets: None,
        instance: None,
    };
    assert_eq!(client.set_activity(a.clone()), ClientCommand::SetActivity(a));
    assert_eq!(client.clear_activity(), ClientCommand::ClearActivity);
    assert_eq!(client.disconnect(), ClientCommand::Disconnect);
}

#[test]
fn undelivered_request_is_not_connected() {
    assert!(delivery_result(true).is_ok());
    assert!(matches!(delivery_result(false), Err(DiscordRpcError::NotConnected)));
}

#[test]
fn outside_errors_convert() {
    let io = std::io::Error::new(std::io::ErrorKind::UnexpectedEof, "eof");
    assert!(matches!(DiscordRpcError::from(io), DiscordRpcError::IoError(_)));
    let json = serde_json::from_str::<serde_json::Value>("{").unwrap_err();
    assert!(matches!(DiscordRpcError::from(json), DiscordRpcError::SerializationError(_)));
}
