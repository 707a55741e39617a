use slack_uploader::slack_client::SlackClient;
use slack_uploader::slack_response::CompleteUploadResponse;
use slack_uploader::slack_response::UploadURLResponse;
use slack_uploader::slack_response::UploadedFile;
use slack_uploader::slack_upload::compose_comment;
use slack_uploader::slack_upload::compose_title;
use slack_uploader::slack_upload::run_delivery;
use slack_uploader::slack_upload::start_delivery;
use slack_uploader::slack_upload::DeliveryAction;
use slack_uploader::slack_upload::DeliveryEvent;
use slack_uploader::slack_upload::DeliveryState;
use slack_uploader::slack_upload::Uploader;

fn request(path: &str, new_name: Option<&str>) -> Uploader {
    let builder = Uploader::builder()
        .token("SECRET-REDACTED".to_string())
        .channel("C123".to_string())
        .message("nightly build".to_string())
        .build_path(path.to_string());
    let builder = match new_name {
        Some(n) => builder.new_name(n.to_string()),
        None => builder,
    };
    builder.build()
}

fn granted_slot() -> DeliveryEvent {
    DeliveryEvent::Slot(UploadURLResponse {
        ok: true,
        upload_url: Some("https://files.example/upload/1".to_string()),
        file_id: Some("F42".to_string()),
        error: None,
    })
}

fn finalize_ok() -> DeliveryEvent {
    DeliveryEvent::Finalize(CompleteUploadResponse {
        ok: true,
        file: Some(UploadedFile {
            id: "F42".to_string(),
            name: "app.apk".to_string(),
            title: "nightly-build.apk".to_string(),
            mimetype: "application/octet-stream".to_string(),
            size: 1024,
            url_private: "https://files.example/private/F42".to_string(),
        }),
        error: None,
    })
}

#[test]
fn builder_sets_every_field() {
    let u = request("builds/app.apk", Some("nightly-build"));
    assert_eq!(u.token, "SECRET-REDACTED");
    assert_eq!(u.channel, "C123");
    assert_eq!(u.message, "nightly build");
    assert_eq!(u.build_path, "builds/app.apk");
    assert_eq!(u.new_name.as_deref(), Some("nightly-build"));
    assert!(!u.show_commit_message);
}

#[test]
fn client_configures_upload_request() {
    let client = SlackClient::new(&"tok".to_string(), &"C9".to_string());
    let u = client.upload_file(
        "hello".to_string(),
        "a/b.ipa".to_string(),
        "renamed".to_string(),
        true,
    );
    assert_eq!(u.token, "tok");
    assert_eq!(u.channel, "C9");
    assert_eq!(u.message, "hello");
    assert_eq!(u.build_path, "a/b.ipa");
    assert_eq!(u.new_name.as_deref(), Some("renamed"));
    assert!(u.show_commit_message);
}

#[test]
fn start_delivery_names_the_artifact() {
    let u = request("builds/app.apk", None);
    let (state, slot) = start_delivery(&u, 1024);
    assert!(matches!(state, DeliveryState::AwaitingSlot));
    assert_eq!(slot.filename, "app.apk");
    assert_eq!(slot.length, 1024);
}

#[test]
fn title_uses_name_override_and_old_extension() {
    let u = request("app.apk", Some("nightly-build"));
    assert_eq!(compose_title(&u), "nightly-build.apk");
}

#[test]
fn title_defaults_to_file_name() {
    let u = request("builds/app.apk", None);
    assert_eq!(compose_title(&u), "app.apk.apk");
}

#[test]
fn comment_joins_message_and_annotation() {
    assert_eq!(
        compose_comment(&"msg".to_string(), &"anno".to_string()),
        "msg\nanno"
    );
    assert_eq!(compose_comment(&"msg".to_string(), &String::new()), "msg\n");
}

#[test]
fn successful_delivery_runs_all_three_steps() {
    let u = request("app.apk", Some("nightly-build"));
    let events = vec![granted_slot(), DeliveryEvent::Transfer(200), finalize_ok()];
    let (state, actions) = run_delivery(&u, &String::new(), events);
    assert_eq!(actions.len(), 3);
    match &actions[0] {
        DeliveryAction::Transfer { upload_url } => {
            assert_eq!(upload_url, "https://files.example/upload/1");
        }
        _ => panic!("first action must be the byte transfer"),
    }
    match &actions[1] {
        DeliveryAction::Finalize { file_id, title, channel, comment } => {
            assert_eq!(file_id, "F42");
            assert_eq!(title, "nightly-build.apk");
            assert_eq!(channel, "C123");
            assert_eq!(comment, "nightly build\n");
        }
        _ => panic!("second action must be the finalize call"),
    }
    assert!(matches!(actions[2], DeliveryAction::Stop));
    match state {
        DeliveryState::Done { file } => {
            let file = file.expect("file metadata was sent");
            assert_eq!(file.id, "F42");
            assert_eq!(file.size, 1024);
        }
        _ => panic!("delivery must end done"),
    }
}

#[test]
fn refused_slot_stops_everything() {
    let u = request("app.apk", None);
    let refusal = DeliveryEvent::Slot(UploadURLResponse {
        ok: false,
        upload_url: None,
        file_id: None,
        error: Some("invalid_auth".to_string()),
    });
    let events = vec![refusal, DeliveryEvent::Transfer(200), finalize_ok()];
    let (state, actions) = run_delivery(&u, &String::new(), events);
    assert!(actions.iter().all(|a| matches!(a, DeliveryAction::Stop)));
    match state {
        DeliveryState::Failed { error } => {
            assert_eq!(error, "Failed to get upload URL: invalid_auth");
        }
        _ => panic!("delivery must fail"),
    }
}

#[test]
fn refused_slot_without_error_text_uses_placeholder() {
    let u = request("app.apk", None);
    let refusal = DeliveryEvent::Slot(UploadURLResponse {
        ok: false,
        upload_url: None,
        file_id: None,
        error: None,
    });
    let (state, _) = run_delivery(&u, &String::new(), vec![refusal]);
    match state {
        DeliveryState::Failed { error } => {
            assert_eq!(error, "Failed to get upload URL: Unknown error");
        }
        _ => panic!("delivery must fail"),
    }
}

#[test]
fn missing_upload_url_stops_everything() {
    let u = request("app.apk", None);
    let slot = DeliveryEvent::Slot(UploadURLResponse {
        ok: true,
        upload_url: None,
        file_id: Some("F42".to_string()),
        error: None,
    });
    let events = vec![slot, DeliveryEvent::Transfer(200)];
    let (state, actions) = run_delivery(&u, &String::new(), events);
    assert!(actions.iter().all(|a| matches!(a, DeliveryAction::Stop)));
    match state {
        DeliveryState::Failed { error } => {
            assert_eq!(error, "Missing upload URL in response");
        }
        _ => panic!("delivery must fail"),
    }
}

#[test]
fn missing_file_id_stops_everything() {
    let u = request("app.apk", None);
    let slot = DeliveryEvent::Slot(UploadURLResponse {
        ok: true,
        upload_url: Some("https://files.example/upload/1".to_string()),
        file_id: None,
        error: None,
    });
    let (state, actions) = run_delivery(&u, &String::new(), vec![slot]);
    assert!(actions.iter().all(|a| matches!(a, DeliveryAction::Stop)));
    match state {
        DeliveryState::Failed { error } => {
            assert_eq!(error, "Missing file ID in response");
        }
        _ => panic!("delivery must fail"),
    }
}

#[test]
fn failed_transfer_never_finalizes() {
    let u = request("app.apk", None);
    let events = vec![granted_slot(), DeliveryEvent::Transfer(500), finalize_ok()];
    let (state, actions) = run_delivery(&u, &String::new(), events);
    assert!(matches!(actions[0], DeliveryAction::Transfer { .. }));
    assert!(actions[1..].iter().all(|a| matches!(a, DeliveryAction::Stop)));
    match state {
        DeliveryState::Failed { error } => {
            assert_eq!(error, "File upload failed with status: 500");
        }
        _ => panic!("delivery must fail"),
    }
}

#[test]
fn refused_finalize_reports_remote_error() {
    let u = request("app.apk", None);
    let refusal = DeliveryEvent::Finalize(CompleteUploadResponse {
        ok: false,
        file: None,
        error: Some("invalid_auth".to_string()),
    });
    let events = vec![granted_slot(), DeliveryEvent::Transfer(204), refusal];
    let (state, _) = run_delivery(&u, &String::new(), events);
    match state {
        DeliveryState::Failed { error } => {
            assert_eq!(error, "Failed to complete upload: invalid_auth");
            assert!(error.contains("invalid_auth"));
        }
        _ => panic!("delivery must fail"),
    }
}

#[test]
fn comment_carries_annotation_into_finalize() {
    let u = request("app.apk", None);
    let annotation = "🔑 *Commit ID*: abc".to_string();
    let events = vec![granted_slot(), DeliveryEvent::Transfer(200)];
    let (_, actions) = run_delivery(&u, &annotation, events);
    match &actions[1] {
        DeliveryAction::Finalize { comment, .. } => {
            assert_eq!(comment, "nightly build\n🔑 *Commit ID*: abc");
        }
        _ => panic!("second action must be the finalize call"),
    }
}
