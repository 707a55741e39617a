use slack_uploader::commit::commit_annotation;
use slack_uploader::commit::commit_note_or_empty;
use slack_uploader::commit::format_commit_annotation;
use slack_uploader::commit::resolve_annotation;
use slack_uploader::commit::CommitRecord;
use slack_uploader::slack_message::handle_message_response;
use slack_uploader::slack_client::SlackClient;

fn record() -> CommitRecord {
    CommitRecord {
        id: "a1b2c3d".to_string(),
        author_name: Some("Ada".to_string()),
        author_email: Some("ada@example.com".to_string()),
        message: Some("fix the build".to_string()),
    }
}

#[test]
fn disabled_annotation_is_empty() {
    assert_eq!(commit_annotation(false, &Some(record())), "");
    assert_eq!(commit_annotation(false, &None), "");
    assert_eq!(resolve_annotation(false), "");
}

#[test]
fn enabled_annotation_without_repository_is_placeholder() {
    assert_eq!(commit_annotation(true, &None), "Unable to retrieve commit message");
}

#[test]
fn annotation_block_format() {
    assert_eq!(
        format_commit_annotation(&record()),
        "🔑 *Commit ID*: a1b2c3d\n👤 *Author*: Ada <ada@example.com>\n✉️ *Message*: \nfix the build"
    );
}

#[test]
fn annotation_block_substitutes_placeholders() {
    let rec = CommitRecord {
        id: "a1b2c3d".to_string(),
        author_name: None,
        author_email: None,
        message: None,
    };
    assert_eq!(
        format_commit_annotation(&rec),
        "🔑 *Commit ID*: a1b2c3d\n👤 *Author*: Unknown <Unknown>\n✉️ *Message*: \nNo commit message"
    );
}

#[test]
fn resolving_against_the_real_working_directory_never_aborts() {
    // Whatever the working directory holds, resolution degrades gracefully.
    let resolved = resolve_annotation(true);
    assert!(
        resolved == "Unable to retrieve commit message" || resolved.contains("*Commit ID*")
    );
    let note = commit_note_or_empty();
    assert!(note.is_empty() || note.contains("*Commit ID*"));
}

#[test]
fn message_response_confirmed() {
    assert!(handle_message_response(200, Some(true), None).is_ok());
}

#[test]
fn message_response_refused_by_body() {
    assert_eq!(
        handle_message_response(200, Some(false), Some("channel_not_found".to_string()))
            .unwrap_err(),
        "failed to send message: channel_not_found"
    );
    assert_eq!(
        handle_message_response(200, None, None).unwrap_err(),
        "failed to send message: Unknown error"
    );
}

#[test]
fn message_response_http_failure() {
    assert_eq!(
        handle_message_response(503, Some(true), None).unwrap_err(),
        "Slack API request failed with status 503"
    );
}

#[test]
fn message_payload_addresses_the_client_channel() {
    let client = SlackClient::new(&"tok".to_string(), &"C77".to_string());
    let payload = client.send_message(&"hello there".to_string());
    assert_eq!(payload.channel, "C77");
    assert_eq!(payload.text, "hello there");
}
