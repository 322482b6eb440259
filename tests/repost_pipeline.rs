use mastodon_repost::{
    finish_post, logout_reply, repost_reply, AccessToken, AttachmentOutcome, ChatCommand,
    FlowError, MastodonInstance, RepostPipeline, RepostRequest, RepostStep, UserId, UserInfo,
};

fn request(urls: &[&str]) -> RepostRequest {
    RepostRequest {
        user_id: UserId::new("9".to_string()),
        message_text: "hello world".to_string(),
        attachment_urls: urls.iter().map(|u| u.to_string()).collect(),
    }
}

fn record() -> Option<UserInfo> {
    Some(UserInfo {
        access_token: AccessToken::new("tok".to_string()),
        instance: MastodonInstance::new("mastodon.social".to_string()),
    })
}

#[test]
fn not_logged_in_fails() {
    let r = RepostPipeline::start(request(&[]), None);
    assert!(matches!(r, Err(FlowError::NotLoggedIn)));
}

#[test]
fn client_bound_to_record() {
    let p = RepostPipeline::start(request(&[]), record()).unwrap();
    assert_eq!(p.client().base, "https://mastodon.social");
    assert_eq!(p.client().access_token.as_str(), "tok");
}

#[test]
fn zero_attachments_posts_text_only() {
    let p = RepostPipeline::start(request(&[]), record()).unwrap();
    match p.first_step() {
        RepostStep::Submit(post) => {
            assert_eq!(post.text, "hello world");
            assert!(post.media_ids.is_empty());
        }
        _ => panic!("expected a text-only post"),
    }
}

#[test]
fn attachments_are_transferred_first() {
    let p = RepostPipeline::start(request(&["https://cdn/a.png", "https://cdn/b.png"]), record()).unwrap();
    match p.first_step() {
        RepostStep::Transfer(urls) => assert_eq!(urls, vec!["https://cdn/a.png", "https://cdn/b.png"]),
        _ => panic!("expected transfers"),
    }
}

#[test]
fn one_failed_upload_of_three_blocks_the_post() {
    let p = RepostPipeline::start(request(&["a", "b", "c"]), record()).unwrap();
    let step = p.after_transfers(vec![
        AttachmentOutcome::Ready("1".to_string()),
        AttachmentOutcome::UploadFailed,
        AttachmentOutcome::Ready("3".to_string()),
    ]);
    assert!(matches!(step, RepostStep::Finished(Err(FlowError::MediaUpload))));
}

#[test]
fn first_observed_failure_wins() {
    let p = RepostPipeline::start(request(&["a", "b"]), record()).unwrap();
    let step = p.after_transfers(vec![AttachmentOutcome::ProcessingFailed, AttachmentOutcome::FetchFailed]);
    assert!(matches!(step, RepostStep::Finished(Err(FlowError::Processing))));
    let step = p.after_transfers(vec![AttachmentOutcome::FetchFailed]);
    assert!(matches!(step, RepostStep::Finished(Err(FlowError::AttachmentFetch))));
}

#[test]
fn all_ready_posts_every_media_id() {
    let p = RepostPipeline::start(request(&["a", "b", "c"]), record()).unwrap();
    let step = p.after_transfers(vec![
        AttachmentOutcome::Ready("m2".to_string()),
        AttachmentOutcome::Ready("m1".to_string()),
        AttachmentOutcome::Ready("m3".to_string()),
    ]);
    match step {
        RepostStep::Submit(post) => {
            assert_eq!(post.text, "hello world");
            assert_eq!(post.media_ids, vec!["m2", "m1", "m3"]);
        }
        _ => panic!("expected a post"),
    }
}

#[test]
fn missing_outcome_blocks_the_post() {
    let p = RepostPipeline::start(request(&["a", "b"]), record()).unwrap();
    let step = p.after_transfers(vec![AttachmentOutcome::Ready("m".to_string())]);
    assert!(matches!(step, RepostStep::Finished(Err(FlowError::AttachmentFetch))));
}

#[test]
fn post_outcomes_and_replies() {
    let ok = finish_post(Ok("https://mastodon.social/@u/1".to_string()));
    assert_eq!(ok.as_ref().unwrap(), "https://mastodon.social/@u/1");
    assert_eq!(
        repost_reply(&ok),
        "We reposted the message for you on your Mastodon account! https://mastodon.social/@u/1"
    );
    let failed = finish_post(Err(()));
    assert!(matches!(failed, Err(FlowError::PostCreation)));
    assert_eq!(
        repost_reply(&failed),
        "We unfortunately couldn't repost the message to your Mastodon account! Couldn't create the post on your Mastodon account."
    );
    assert_eq!(logout_reply(Ok(())), "Successfully removed your login");
    assert_eq!(logout_reply(Err(())), "There was a problem removing your login");
}

#[test]
fn commands_parse_by_name() {
    assert_eq!(ChatCommand::parse("login"), Some(ChatCommand::Login));
    assert_eq!(ChatCommand::parse("logout"), Some(ChatCommand::Logout));
    assert_eq!(ChatCommand::parse("Repost to Mastodon"), Some(ChatCommand::Repost));
    assert_eq!(ChatCommand::parse("other"), None);
    for c in [ChatCommand::Login, ChatCommand::Logout, ChatCommand::Repost] {
        assert_eq!(ChatCommand::parse(c.name()), Some(c));
    }
}
