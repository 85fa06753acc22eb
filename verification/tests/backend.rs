use transmission_rss::backend::{
    get_client, submission, AddedOrDuplicate, BackendAccess, BasicAuth, RpcError, RpcReply,
    SubmissionOutcome,
};
use transmission_rss::config::{Config, Notification, Persistence, Transmission};

fn reply(result: &str, arguments: AddedOrDuplicate) -> Result<RpcReply, String> {
    Ok(RpcReply { result: result.to_string(), arguments })
}

#[test]
fn added_torrent_is_an_addition() {
    let r = submission(reply(
        "success",
        AddedOrDuplicate::TorrentAdded { hash_string: Some("abc123".to_string()) },
    ));
    assert_eq!(r, Ok(SubmissionOutcome::Added("abc123".to_string())));
}

#[test]
fn known_torrent_is_a_duplicate() {
    let r = submission(reply(
        "success",
        AddedOrDuplicate::TorrentDuplicate { hash_string: Some("abc123".to_string()) },
    ));
    assert_eq!(r, Ok(SubmissionOutcome::Duplicate("abc123".to_string())));
}

#[test]
fn failed_call_is_a_transport_error() {
    let r = submission(Err("connection refused".to_string()));
    assert_eq!(r, Err(RpcError::Transport("connection refused".to_string())));
}

#[test]
fn other_result_is_a_rejection() {
    let r = submission(reply("invalid or corrupt torrent file", AddedOrDuplicate::Error));
    assert_eq!(r, Err(RpcError::Rejected("invalid or corrupt torrent file".to_string())));
    let r = submission(reply(
        "Success",
        AddedOrDuplicate::TorrentAdded { hash_string: Some("abc123".to_string()) },
    ));
    assert_eq!(r, Err(RpcError::Rejected("Success".to_string())));
}

#[test]
fn success_without_a_torrent_is_a_rejection() {
    let r = submission(reply("success", AddedOrDuplicate::Error));
    assert_eq!(r, Err(RpcError::Rejected("success".to_string())));
    let r = submission(reply("success", AddedOrDuplicate::TorrentAdded { hash_string: None }));
    assert_eq!(r, Err(RpcError::Rejected("success".to_string())));
    let r = submission(reply("success", AddedOrDuplicate::TorrentDuplicate { hash_string: None }));
    assert_eq!(r, Err(RpcError::Rejected("success".to_string())));
}

#[test]
fn client_settings_come_from_the_config() {
    let cfg = Config {
        persistence: Persistence { path: "./db".to_string() },
        transmission: Transmission {
            url: "http://localhost:9091/transmission/rpc".to_string(),
            username: "admin".to_string(),
            password: "pw".to_string(),
        },
        rss_list: Vec::new(),
        notification: Notification { telegram: None, feishu: None },
    };
    assert_eq!(
        get_client(&cfg),
        BackendAccess {
            url: "http://localhost:9091/transmission/rpc".to_string(),
            basic_auth: BasicAuth { user: "admin".to_string(), password: "pw".to_string() },
        }
    );
}
