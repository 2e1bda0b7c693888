use worker_preview::target::{KvNamespace, Site, Target};
use worker_preview::upload::notice::{list_tokens, Level, Notice};
use worker_preview::upload::steps::{Command, Report, Stage, Step, Upload};
use worker_preview::upload::{
    choose_strategy, interpret_reply, preview_address, stripped_target, validate, ApiPreview,
    Decoded, Preview, Reply, Strategy, UploadError, V4ApiResponse,
};

fn kv(binding: &str, id: &str) -> KvNamespace {
    KvNamespace { id: id.to_string(), binding: binding.to_string() }
}

fn target(account_id: &str, name: &str, kvs: Option<Vec<KvNamespace>>, site: bool) -> Target {
    Target {
        account_id: account_id.to_string(),
        name: name.to_string(),
        kv_namespaces: kvs,
        site: if site { Some(Site { bucket: "./public".to_string() }) } else { None },
    }
}

fn wrapped(status: u16, id: &str) -> Reply {
    Reply {
        status,
        body: format!("{{\"result\":{{\"preview_id\":\"{}\"}}}}", id),
        decoded: Some(Decoded::Wrapped(V4ApiResponse {
            result: ApiPreview { preview_id: id.to_string() },
        })),
    }
}

fn flat(status: u16, id: &str) -> Reply {
    Reply {
        status,
        body: format!("{{\"id\":\"{}\"}}", id),
        decoded: Some(Decoded::Flat(Preview { id: id.to_string() })),
    }
}

fn undecoded(status: u16, body: &str) -> Reply {
    Reply { status, body: body.to_string(), decoded: None }
}

#[test]
fn validate_accepts_a_complete_target() {
    assert!(validate(&target("acc", "script", None, false)).is_empty());
    assert!(validate(&target("acc", "script", Some(vec![]), true)).is_empty());
    assert!(validate(&target("acc", "script", Some(vec![kv("B", "1"), kv("C", "2")]), false))
        .is_empty());
}

#[test]
fn validate_names_every_missing_field() {
    assert_eq!(validate(&target("", "script", None, false)), vec!["account_id"]);
    assert_eq!(validate(&target("acc", "", None, false)), vec!["name"]);
    assert_eq!(validate(&target("", "", None, false)), vec!["account_id", "name"]);
    assert_eq!(
        validate(&target("acc", "script", Some(vec![kv("", "1")]), false)),
        vec!["kv-namespace binding"]
    );
    assert_eq!(
        validate(&target("acc", "script", Some(vec![kv("B", "")]), false)),
        vec!["kv-namespace id"]
    );
}

#[test]
fn validate_gives_one_token_per_empty_field_in_order() {
    let t = target(
        "",
        "",
        Some(vec![kv("", ""), kv("B", "1"), kv("C", ""), kv("", "4")]),
        false,
    );
    assert_eq!(
        validate(&t),
        vec![
            "account_id",
            "name",
            "kv-namespace binding",
            "kv-namespace id",
            "kv-namespace id",
            "kv-namespace binding",
        ]
    );
}

#[test]
fn strategy_follows_credentials_and_site() {
    assert_eq!(choose_strategy(true, true, false, false).ok(), Some(Strategy::DirectAuthenticated));
    assert_eq!(choose_strategy(true, true, true, false).ok(), Some(Strategy::DirectAuthenticated));
    assert_eq!(choose_strategy(true, true, false, true).ok(), Some(Strategy::SiteSync));
    assert_eq!(choose_strategy(true, true, true, true).ok(), Some(Strategy::SiteSync));
    assert_eq!(choose_strategy(false, true, false, true).ok(), Some(Strategy::Unauthenticated));
    assert_eq!(choose_strategy(false, false, false, false).ok(), Some(Strategy::Unauthenticated));
    assert_eq!(choose_strategy(true, false, false, true).ok(), Some(Strategy::Unauthenticated));
}

#[test]
fn site_preview_is_refused_without_authentication() {
    for (has_credentials, complete, has_site) in [
        (false, true, true),
        (false, true, false),
        (false, false, true),
        (true, false, true),
        (true, false, false),
    ] {
        assert!(matches!(
            choose_strategy(has_credentials, complete, true, has_site),
            Err(UploadError::SitesNeedAuthentication)
        ));
    }
}

#[test]
fn upload_without_credentials_fails_before_any_call_for_a_site() {
    let t = target("acc", "script", None, true);
    let (upload, step) = Upload::begin(&t, false, true, false);
    assert!(matches!(upload.stage, Stage::Finished));
    assert!(matches!(step.command, Command::Return(Err(UploadError::SitesNeedAuthentication))));
    assert_eq!(step.notices, vec![Notice::NoCredentials, Notice::RunningUnauthenticated]);
    let (upload, step) = upload.advance(Report::Replied(flat(200, "abc")));
    assert!(matches!(upload.stage, Stage::Finished));
    assert!(matches!(step.command, Command::Return(Err(UploadError::OutOfOrder))));
}

#[test]
fn upload_with_missing_fields_falls_back() {
    let t = target("", "script", Some(vec![kv("B", "1")]), false);
    let (upload, step) = Upload::begin(&t, true, false, false);
    assert_eq!(
        step.notices,
        vec![Notice::MissingFields, Notice::FallingBack, Notice::KvNamespacesUnsupported]
    );
    assert!(matches!(step.command, Command::Post { strategy: Strategy::Unauthenticated }));
    let (upload, step) = upload.advance(Report::Replied(flat(200, "abc123")));
    assert!(matches!(upload.stage, Stage::Finished));
    match step.command {
        Command::Return(Ok(id)) => assert_eq!(id, "abc123"),
        other => panic!("unexpected command {:?}", other),
    }
}

#[test]
fn upload_with_missing_fields_refuses_a_site_preview() {
    let t = target("acc", "", None, true);
    let (upload, step) = Upload::begin(&t, true, true, true);
    assert!(matches!(upload.stage, Stage::Finished));
    assert_eq!(step.notices, vec![Notice::MissingFields, Notice::FallingBack]);
    assert!(matches!(step.command, Command::Return(Err(UploadError::SitesNeedAuthentication))));
}

#[test]
fn unauthenticated_upload_keeps_quiet_about_absent_namespaces() {
    let t = target("acc", "script", None, false);
    let (_, step) = Upload::begin(&t, false, false, false);
    assert_eq!(step.notices, vec![Notice::NoCredentials, Notice::RunningUnauthenticated]);
    assert!(matches!(step.command, Command::Post { strategy: Strategy::Unauthenticated }));
}

#[test]
fn direct_upload_posts_once() {
    let t = target("acc", "script", Some(vec![kv("B", "1")]), false);
    let (upload, step) = Upload::begin(&t, true, false, true);
    assert!(step.notices.is_empty());
    assert!(matches!(step.command, Command::Post { strategy: Strategy::DirectAuthenticated }));
    let (upload, step) = upload.advance(Report::Replied(wrapped(200, "p-1")));
    assert!(matches!(upload.stage, Stage::Finished));
    assert!(step.notices.is_empty());
    match step.command {
        Command::Return(Ok(id)) => assert_eq!(id, "p-1"),
        other => panic!("unexpected command {:?}", other),
    }
}

fn commands_of_site_upload(stale: bool, verbose: bool) -> (Vec<String>, Vec<Notice>) {
    let t = target("acc", "script", None, true);
    let mut commands = Vec::new();
    let mut notices = Vec::new();
    let (mut upload, mut step): (Upload, Step) = Upload::begin(&t, true, true, verbose);
    loop {
        notices.extend(step.notices.iter().copied());
        let report = match step.command {
            Command::EnsureNamespace => {
                commands.push("ensure".to_string());
                Report::NamespaceReady
            }
            Command::Sync => {
                commands.push("sync".to_string());
                Report::Synced { stale }
            }
            Command::UploadFiles => {
                commands.push("upload".to_string());
                Report::FilesUploaded
            }
            Command::Post { strategy } => {
                commands.push(format!("post {:?}", strategy));
                Report::Replied(wrapped(200, "site-preview"))
            }
            Command::DeleteStale => {
                commands.push("delete".to_string());
                Report::Deleted
            }
            Command::Return(result) => {
                commands.push(format!("return {:?}", result.ok()));
                break;
            }
        };
        let next = upload.advance(report);
        upload = next.0;
        step = next.1;
    }
    (commands, notices)
}

#[test]
fn site_upload_deletes_stale_entries_after_the_upload_was_accepted() {
    let (commands, notices) = commands_of_site_upload(true, true);
    assert_eq!(
        commands,
        vec![
            "ensure",
            "sync",
            "upload",
            "post SiteSync",
            "delete",
            "return Some(\"site-preview\")",
        ]
    );
    assert_eq!(notices, vec![Notice::UploadingFiles, Notice::DeletingStale]);
}

#[test]
fn site_upload_without_stale_entries_deletes_nothing() {
    let (commands, notices) = commands_of_site_upload(false, false);
    assert_eq!(
        commands,
        vec!["ensure", "sync", "upload", "post SiteSync", "return Some(\"site-preview\")"]
    );
    assert!(notices.is_empty());
}

#[test]
fn site_upload_that_is_rejected_deletes_nothing() {
    let t = target("acc", "script", None, true);
    let (upload, _) = Upload::begin(&t, true, false, false);
    let (upload, _) = upload.advance(Report::NamespaceReady);
    let (upload, _) = upload.advance(Report::Synced { stale: true });
    let (upload, step) = upload.advance(Report::FilesUploaded);
    assert!(matches!(step.command, Command::Post { strategy: Strategy::SiteSync }));
    let (upload, step) = upload.advance(Report::Replied(undecoded(500, "boom")));
    assert!(matches!(upload.stage, Stage::Finished));
    match step.command {
        Command::Return(Err(UploadError::Remote { status, body })) => {
            assert_eq!(status, 500);
            assert_eq!(body, "boom");
        }
        other => panic!("unexpected command {:?}", other),
    }
}

#[test]
fn failed_call_ends_the_upload() {
    let t = target("acc", "script", None, true);
    let (upload, _) = Upload::begin(&t, true, false, false);
    let (upload, _) = upload.advance(Report::NamespaceReady);
    let (upload, step) = upload.advance(Report::Failed { message: "no such directory".to_string() });
    assert!(matches!(upload.stage, Stage::Finished));
    match step.command {
        Command::Return(Err(UploadError::Collaborator { message })) => {
            assert_eq!(message, "no such directory")
        }
        other => panic!("unexpected command {:?}", other),
    }
}

#[test]
fn report_out_of_order_ends_the_upload() {
    let t = target("acc", "script", None, true);
    let (upload, _) = Upload::begin(&t, true, false, false);
    let (upload, step) = upload.advance(Report::Deleted);
    assert!(matches!(upload.stage, Stage::Finished));
    assert!(matches!(step.command, Command::Return(Err(UploadError::OutOfOrder))));
}

#[test]
fn reply_is_unwrapped_by_the_shape_of_its_endpoint() {
    assert_eq!(interpret_reply(true, wrapped(200, "a")).unwrap().id, "a");
    assert_eq!(interpret_reply(false, flat(201, "b")).unwrap().id, "b");
    assert_eq!(interpret_reply(false, flat(299, "c")).unwrap().id, "c");
}

#[test]
fn reply_outside_2xx_is_a_remote_error() {
    for status in [0u16, 199, 300, 404, 413, 500, 504, u16::MAX] {
        match interpret_reply(true, wrapped(status, "a")) {
            Err(UploadError::Remote { status: s, body }) => {
                assert_eq!(s, status);
                assert_eq!(body, "{\"result\":{\"preview_id\":\"a\"}}");
            }
            other => panic!("unexpected result {:?}", other),
        }
    }
}

#[test]
fn reply_in_the_wrong_shape_is_a_decode_error() {
    for r in [
        interpret_reply(true, undecoded(200, "<html>")),
        interpret_reply(false, undecoded(200, "<html>")),
        interpret_reply(true, flat(200, "a")),
        interpret_reply(false, wrapped(200, "a")),
        interpret_reply(true, wrapped(200, "")),
        interpret_reply(false, flat(200, "")),
    ] {
        assert!(matches!(r, Err(UploadError::Decode { .. })));
    }
    match interpret_reply(true, undecoded(200, "<html>")) {
        Err(UploadError::Decode { body }) => assert_eq!(body, "<html>"),
        other => panic!("unexpected result {:?}", other),
    }
}

#[test]
fn preview_from_api_preview() {
    let p = Preview::from(ApiPreview { preview_id: "xyz".to_string() });
    assert_eq!(p.id, "xyz");
}

#[test]
fn addresses_of_the_two_endpoints() {
    let t = target("acc42", "my-script", None, false);
    assert_eq!(
        preview_address(Strategy::DirectAuthenticated, &t),
        "https://api.cloudflare.com/client/v4/accounts/acc42/workers/scripts/my-script/preview"
    );
    assert_eq!(
        preview_address(Strategy::SiteSync, &t),
        "https://api.cloudflare.com/client/v4/accounts/acc42/workers/scripts/my-script/preview"
    );
    assert_eq!(
        preview_address(Strategy::Unauthenticated, &t),
        "https://cloudflareworkers.com/script"
    );
}

#[test]
fn token_list_is_written_like_a_debug_list() {
    let none: Vec<&'static str> = vec![];
    assert_eq!(list_tokens(&none), "[]");
    assert_eq!(list_tokens(&vec!["name"]), format!("{:?}", vec!["name"]));
    let three = vec!["account_id", "name", "kv-namespace id"];
    assert_eq!(list_tokens(&three), "[\"account_id\", \"name\", \"kv-namespace id\"]");
    assert_eq!(list_tokens(&three), format!("{:?}", three));
}

#[test]
fn notices_say_what_happens() {
    let t = target("", "", None, false);
    assert_eq!(
        Notice::MissingFields.text(&t),
        "Your wrangler.toml is missing the following fields: [\"account_id\", \"name\"]"
    );
    assert_eq!(Notice::FallingBack.text(&t), "Falling back to unauthenticated preview.");
    assert_eq!(
        Notice::RunningUnauthenticated.text(&t),
        "Running preview without authentication."
    );
    assert_eq!(Notice::UploadingFiles.text(&t), "Uploading updated files...");
    assert_eq!(Notice::DeletingStale.text(&t), "Deleting stale files...");
    assert!(Notice::NoCredentials.text(&t).starts_with("You have not provided"));
    assert!(Notice::KvNamespacesUnsupported.text(&t).starts_with("KV Namespaces are not"));
    assert_eq!(Notice::NoCredentials.level(), Level::Billboard);
    assert_eq!(Notice::MissingFields.level(), Level::Warn);
    assert_eq!(Notice::FallingBack.level(), Level::Warn);
    assert_eq!(Notice::KvNamespacesUnsupported.level(), Level::Warn);
    assert_eq!(Notice::RunningUnauthenticated.level(), Level::Info);
    assert_eq!(Notice::UploadingFiles.level(), Level::Info);
    assert_eq!(Notice::DeletingStale.level(), Level::Info);
}

#[test]
fn guidance_for_known_statuses() {
    let e = UploadError::Remote { status: 413, body: String::new() };
    assert!(e.guidance().unwrap().contains("Payload Too Large"));
    let e = UploadError::Remote { status: 504, body: String::new() };
    assert!(e.guidance().unwrap().contains("Gateway Timeout"));
    let e = UploadError::Remote { status: 500, body: String::new() };
    assert!(e.guidance().is_none());
    assert!(UploadError::Decode { body: String::new() }.guidance().is_none());
    assert!(UploadError::sites_refusal().starts_with("Unauthenticated preview does not work"));
}

#[test]
fn stripping_namespaces_leaves_the_target_alone() {
    let t = target("acc", "script", Some(vec![kv("B", "1")]), true);
    let stripped = t.without_kv_namespaces();
    assert!(stripped.kv_namespaces.is_none());
    assert_eq!(stripped.account_id, "acc");
    assert_eq!(stripped.name, "script");
    assert_eq!(stripped.site.unwrap().bucket, "./public");
    assert_eq!(t.kv_namespaces.as_ref().unwrap().len(), 1);
}

#[test]
fn namespaces_are_stripped_only_without_authentication() {
    let with_kv = target("acc", "script", Some(vec![kv("B", "1")]), false);
    let without_kv = target("acc", "script", None, false);
    let stripped = stripped_target(Strategy::Unauthenticated, &with_kv).unwrap();
    assert!(stripped.kv_namespaces.is_none());
    assert_eq!(stripped.account_id, "acc");
    assert_eq!(stripped.name, "script");
    assert!(stripped_target(Strategy::Unauthenticated, &without_kv).is_none());
    assert!(stripped_target(Strategy::DirectAuthenticated, &with_kv).is_none());
    assert!(stripped_target(Strategy::SiteSync, &with_kv).is_none());
    assert_eq!(with_kv.kv_namespaces.unwrap().len(), 1);
}
