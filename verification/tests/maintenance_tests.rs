use lemmy_federate::maintenance::{
    activity_expired, after, captcha_answer_expired, is_older_than, is_overwrite_due, user_count,
    BatchProgress, Interval, Schedule, ScheduledPost, ScheduledTask, ACTIVITY_RETENTION_MS,
    CAPTCHA_ANSWER_LIFETIME_MS, DAY_MS, HOUR_MS, TEN_MINUTES_MS,
};
use lemmy_federate::nodeinfo::{
    build_update_instance_form, has_prefix, instance_form, is_alive, nodeinfo_link,
    well_known_url, InstanceForm, NodeInfoSoftware, NodeInfoWellKnownLinks,
    NODEINFO_SCHEMA_PREFIX,
};
use lemmy_federate::site::{get_site, site_cache_policy, GetSiteResponse, MyUserInfo};
use lemmy_federate::tokens::{
    EmailVerification, EmailVerificationForm, EmailVerifications, PasswordResetRequest,
    PasswordResetRequests, TokenError,
    EMAIL_VERIFICATION_LIFETIME_MS, PASSWORD_RESET_LIFETIME_MS,
};

#[test]
fn what_runs_how_often() {
    assert_eq!(TEN_MINUTES_MS, 10 * 60 * 1000);
    assert_eq!(HOUR_MS, 60 * 60 * 1000);
    assert_eq!(DAY_MS, 24 * 60 * 60 * 1000);
    assert_eq!(Interval::TenMinutes.millis(), 600_000);
    assert_eq!(Interval::Hourly.millis(), 3_600_000);
    assert_eq!(Interval::Daily.millis(), 86_400_000);
    assert_eq!(
        Interval::TenMinutes.tasks(),
        vec![
            ScheduledTask::UpdateHotRanks,
            ScheduledTask::DeleteExpiredCaptchaAnswers,
            ScheduledTask::PublishScheduledPosts
        ]
    );
    assert_eq!(
        Interval::Hourly.tasks(),
        vec![
            ScheduledTask::ActiveCounts,
            ScheduledTask::UpdateBannedWhenExpired,
            ScheduledTask::DeleteInstanceBlockWhenExpired
        ]
    );
    assert_eq!(
        Interval::Daily.tasks(),
        vec![
            ScheduledTask::OverwriteDeletedPostsAndComments,
            ScheduledTask::DeleteOldDeniedUsers,
            ScheduledTask::UpdateInstanceSoftware,
            ScheduledTask::ClearOldActivities
        ]
    );
    for interval in [Interval::TenMinutes, Interval::Hourly, Interval::Daily] {
        for task in interval.tasks() {
            assert_eq!(task.interval(), interval);
        }
    }
}

#[test]
fn jobs_run_one_interval_after_the_start_and_then_again() {
    let mut schedule = Schedule::starting(Interval::TenMinutes, 1000);
    assert_eq!(schedule.next_run, 601_000);
    assert!(schedule.run_pending(1000).is_empty());
    assert!(schedule.run_pending(600_999).is_empty());
    assert_eq!(schedule.next_run, 601_000);
    assert_eq!(schedule.run_pending(601_500).len(), 3);
    assert_eq!(schedule.next_run, 1_201_500);
    assert!(schedule.run_pending(601_501).is_empty());
    assert_eq!(schedule.run_pending(1_201_500).len(), 3);
    let mut late = Schedule::starting(Interval::Daily, i64::MAX - 5);
    assert_eq!(late.next_run, i64::MAX);
    assert_eq!(late.run_pending(i64::MAX).len(), 4);
    assert_eq!(after(-10, 30), 20);
    assert_eq!(after(i64::MIN, u64::MAX), i64::MAX);
    assert_eq!(after(0, u64::MAX), i64::MAX);
}

#[test]
fn what_counts_as_old() {
    assert_eq!(CAPTCHA_ANSWER_LIFETIME_MS, 10 * 60 * 1000);
    assert_eq!(ACTIVITY_RETENTION_MS, 7 * 24 * 60 * 60 * 1000);
    assert!(captcha_answer_expired(0, 600_001));
    assert!(!captcha_answer_expired(0, 600_000));
    assert!(!captcha_answer_expired(1, 600_001));
    assert!(activity_expired(1000, 604_801_001));
    assert!(!activity_expired(1000, 604_801_000));
    assert!(!is_older_than(i64::MAX, i64::MIN, i64::MAX));
    assert!(is_older_than(i64::MIN, i64::MAX, i64::MIN));
}

#[test]
fn deleted_text_is_overwritten_once() {
    let replacement = "*Permanently Deleted*".to_string();
    let body = Some("secret".to_string());
    assert!(is_overwrite_due(true, Some(10), 11, &body, &replacement));
    assert!(!is_overwrite_due(false, Some(10), 11, &body, &replacement));
    assert!(!is_overwrite_due(true, Some(11), 11, &body, &replacement));
    assert!(!is_overwrite_due(true, None, 11, &body, &replacement));
    assert!(!is_overwrite_due(true, Some(10), 11, &None, &replacement));
    assert!(!is_overwrite_due(true, Some(10), 11, &Some(replacement.clone()), &replacement));
}

fn scheduled() -> ScheduledPost {
    ScheduledPost {
        scheduled_publish_time_at: Some(100),
        post_deleted: false,
        post_removed: false,
        creator_deleted: false,
        community_removed: false,
        community_deleted: false,
        creator_banned_from_community: false,
        creator_banned_from_site: false,
    }
}

#[test]
fn a_scheduled_post_is_published_when_its_time_has_come() {
    assert!(scheduled().is_publish_due(101));
    assert!(!scheduled().is_publish_due(100));
    assert!(!ScheduledPost { scheduled_publish_time_at: None, ..scheduled() }.is_publish_due(101));
    assert!(!ScheduledPost { post_deleted: true, ..scheduled() }.is_publish_due(101));
    assert!(!ScheduledPost { post_removed: true, ..scheduled() }.is_publish_due(101));
    assert!(!ScheduledPost { creator_deleted: true, ..scheduled() }.is_publish_due(101));
    assert!(!ScheduledPost { community_removed: true, ..scheduled() }.is_publish_due(101));
    assert!(!ScheduledPost { community_deleted: true, ..scheduled() }.is_publish_due(101));
    assert!(!ScheduledPost { creator_banned_from_community: true, ..scheduled() }
        .is_publish_due(101));
    assert!(!ScheduledPost { creator_banned_from_site: true, ..scheduled() }.is_publish_due(101));
}

#[test]
fn the_number_of_users_has_to_fit() {
    assert_eq!(user_count(0), Some(0));
    assert_eq!(user_count(2_147_483_647), Some(i32::MAX));
    assert_eq!(user_count(2_147_483_648), None);
    assert_eq!(user_count(-2_147_483_648), Some(i32::MIN));
    assert_eq!(user_count(-2_147_483_649), None);
}

#[test]
fn a_job_goes_on_until_a_batch_comes_back_empty() {
    let mut progress = BatchProgress::start();
    assert_eq!(progress.next_batch(1000), Some((0, 1000)));
    assert!(!progress.is_done());
    progress.record(&vec![5, 9, 12]);
    assert_eq!(progress.processed_rows, 3);
    assert_eq!(progress.next_batch(1000), Some((12, 1000)));
    progress.record(&vec![20]);
    assert_eq!(progress.processed_rows, 4);
    assert_eq!(progress.next_batch(50), Some((20, 50)));
    progress.record(&Vec::new());
    assert_eq!(progress.processed_rows, 4);
    assert_eq!(progress.next_batch(1000), None);
    assert!(progress.is_done());
    let mut full = BatchProgress { processed_rows: usize::MAX - 1, previous_batch_last_published: Some(0) };
    full.record(&vec![1, 2, 3]);
    assert_eq!(full.processed_rows, usize::MAX);
}

fn link(rel: &str, href: &str) -> NodeInfoWellKnownLinks {
    NodeInfoWellKnownLinks { rel: rel.to_string(), href: href.to_string() }
}

#[test]
fn the_nodeinfo_link_is_the_first_of_version_two() {
    assert_eq!(well_known_url("lemmy.ml"), "https://lemmy.ml/.well-known/nodeinfo");
    assert_eq!(NODEINFO_SCHEMA_PREFIX, "http://nodeinfo.diaspora.software/ns/schema/2.");
    let links = vec![
        link("http://nodeinfo.diaspora.software/ns/schema/1.1", "https://lemmy.ml/nodeinfo/1.1"),
        link("http://nodeinfo.diaspora.software/ns/schema/2.1", "https://lemmy.ml/nodeinfo/2.1"),
        link("http://nodeinfo.diaspora.software/ns/schema/2.0", "https://lemmy.ml/nodeinfo/2.0"),
    ];
    assert_eq!(nodeinfo_link(&links), Some("https://lemmy.ml/nodeinfo/2.1".to_string()));
    assert_eq!(nodeinfo_link(&links[..1].to_vec()), None);
    assert_eq!(nodeinfo_link(&Vec::new()), None);
    assert_eq!(
        nodeinfo_link(&vec![link("http://nodeinfo.diaspora.software/ns/schema/2.", "x")]),
        Some("x".to_string())
    );
    assert_eq!(nodeinfo_link(&vec![link("http://nodeinfo.diaspora.software/ns/schema/2", "x")]), None);
}

#[test]
fn prefixes() {
    for (text, prefix) in [
        ("", ""),
        ("abc", ""),
        ("abc", "ab"),
        ("abc", "abc"),
        ("abc", "abcd"),
        ("abc", "b"),
        ("\u{e9}t\u{e9}", "\u{e9}"),
        ("\u{e9}t\u{e9}", "e"),
        ("", "a"),
    ] {
        assert_eq!(has_prefix(text, prefix), text.starts_with(prefix), "{:?} {:?}", text, prefix);
    }
}

#[test]
fn an_instance_is_dead_if_it_does_not_answer_or_answers_with_an_error() {
    assert!(!is_alive(None));
    for status in [200u16, 204, 301, 399, 600, 100] {
        assert!(is_alive(Some(status)));
    }
    for status in [400u16, 404, 499, 500, 503, 599] {
        assert!(!is_alive(Some(status)));
    }
    assert_eq!(build_update_instance_form("lemmy.ml".to_string(), 5, None, None), None);
    assert_eq!(build_update_instance_form("lemmy.ml".to_string(), 5, Some(502), None), None);
}

#[test]
fn an_instance_that_is_alive_is_written_down() {
    let software =
        NodeInfoSoftware { name: Some("lemmy".to_string()), version: Some("0.19.3".to_string()) };
    assert_eq!(
        build_update_instance_form("lemmy.ml".to_string(), 77, Some(200), Some(software.clone())),
        Some(InstanceForm {
            domain: "lemmy.ml".to_string(),
            software: Some("lemmy".to_string()),
            version: Some("0.19.3".to_string()),
            updated_at: Some(77),
        })
    );
    assert_eq!(
        build_update_instance_form("mastodon.social".to_string(), 77, Some(200), None),
        Some(InstanceForm {
            domain: "mastodon.social".to_string(),
            software: None,
            version: None,
            updated_at: Some(77),
        })
    );
    let partial = NodeInfoSoftware { name: Some("mastodon".to_string()), version: None };
    let form = instance_form("mastodon.social".to_string(), 1, Some(partial));
    assert_eq!(form.software, Some("mastodon".to_string()));
    assert_eq!(form.version, None);
}

fn cached_site() -> GetSiteResponse {
    GetSiteResponse {
        version: "1.0.0".to_string(),
        admins: vec![1],
        all_languages: vec![0, 37],
        discussion_languages: vec![37],
        blocked_urls: vec!["https://spam.example".to_string()],
        tagline: Some("hello".to_string()),
        oauth_providers: Some(vec![4]),
        admin_oauth_providers: Some(vec![4]),
        my_user: None,
    }
}

fn user(admin: bool) -> MyUserInfo {
    MyUserInfo {
        person_id: 2,
        local_user_id: 3,
        admin,
        follows: vec![10],
        moderates: Vec::new(),
        community_blocks: Vec::new(),
        instance_blocks: Vec::new(),
        person_blocks: vec![9],
        discussion_languages: vec![37],
    }
}

#[test]
fn only_administrators_see_the_providers_with_their_secrets() {
    let visitor = get_site(cached_site(), None);
    assert_eq!(visitor.admin_oauth_providers, None);
    assert_eq!(visitor.oauth_providers, Some(vec![4]));
    assert_eq!(visitor.my_user, None);
    assert_eq!(visitor.version, "1.0.0");
    let member = get_site(cached_site(), Some(user(false)));
    assert_eq!(member.admin_oauth_providers, None);
    assert_eq!(member.my_user, Some(user(false)));
    let admin = get_site(cached_site(), Some(user(true)));
    assert_eq!(admin.admin_oauth_providers, Some(vec![4]));
    assert_eq!(admin.my_user, Some(user(true)));
    assert_eq!(admin.blocked_urls, cached_site().blocked_urls);
    let policy = site_cache_policy(1000);
    assert_eq!(policy.max_capacity, Some(1));
    assert_eq!(policy.time_to_live_ms, Some(1000));
}

#[test]
fn test_password_reset() {
    let mut requests = PasswordResetRequests::new();
    let local_user_id = 7;

    // Create password reset token
    let token = "nope";
    let inserted_password_reset_request = PasswordResetRequest::create(&mut requests, local_user_id, token.to_string(), 1000);

    // Read it and verify
    let read_password_reset_request = PasswordResetRequest::read_and_delete(&mut requests, token, 2000).unwrap();
    assert_eq!(inserted_password_reset_request.id, read_password_reset_request.id);
    assert_eq!(
        inserted_password_reset_request.local_user_id,
        read_password_reset_request.local_user_id
    );
    assert_eq!(inserted_password_reset_request.token, read_password_reset_request.token);
    assert_eq!(
        inserted_password_reset_request.published_at,
        read_password_reset_request.published_at
    );

    // Cannot reuse same token again
    let read_password_reset_request = PasswordResetRequest::read_and_delete(&mut requests, token, 2000);
    assert!(read_password_reset_request.is_err());
    assert!(requests.rows.is_empty());
}

#[test]
fn a_password_reset_is_good_for_a_day() {
    assert_eq!(PASSWORD_RESET_LIFETIME_MS, 24 * 60 * 60 * 1000);
    let mut requests = PasswordResetRequests::new();
    let first = PasswordResetRequest::create(&mut requests, 1, "a".to_string(), 1000);
    let second = PasswordResetRequest::create(&mut requests, 2, "b".to_string(), 1000);
    let third = PasswordResetRequest::create(&mut requests, 3, "a".to_string(), 5000);
    assert_eq!((first.id, second.id, third.id), (1, 2, 3));
    // too late for the first, in time for the third
    let read = PasswordResetRequest::read_and_delete(&mut requests, "a", 86_401_000).unwrap();
    assert_eq!(read, third);
    assert_eq!(requests.rows, vec![first.clone(), second.clone()]);
    assert_eq!(PasswordResetRequest::read_and_delete(&mut requests, "a", 86_401_000), Err(TokenError::Deleted));
    assert_eq!(PasswordResetRequest::read_and_delete(&mut requests, "c", 0), Err(TokenError::Deleted));
    assert_eq!(requests.rows, vec![first, second.clone()]);
    assert_eq!(PasswordResetRequest::read_and_delete(&mut requests, "b", 86_400_999), Ok(second));
    assert_eq!(requests.rows.len(), 1);
}

#[test]
fn two_requests_with_one_token_are_redeemed_together() {
    let mut requests = PasswordResetRequests::new();
    let first = PasswordResetRequest::create(&mut requests, 1, "a".to_string(), 1000);
    PasswordResetRequest::create(&mut requests, 2, "a".to_string(), 2000);
    assert_eq!(PasswordResetRequest::read_and_delete(&mut requests, "a", 3000), Ok(first));
    assert!(requests.rows.is_empty());
    assert_eq!(requests.next_id, 3);
}

#[test]
fn an_address_is_verified_within_seven_days() {
    assert_eq!(EMAIL_VERIFICATION_LIFETIME_MS, 7 * 24 * 60 * 60 * 1000);
    let mut tokens = EmailVerifications::new();
    let form = EmailVerificationForm {
        local_user_id: 1,
        email: "a@x.example".to_string(),
        verification_token: "t1".to_string(),
    };
    let created = EmailVerification::create(&mut tokens, form, 1000);
    assert_eq!(created.id, 1);
    assert_eq!(created.published, 1000);
    assert_eq!(EmailVerification::read_for_token(&tokens, "t1", 604_800_999), Ok(created.clone()));
    assert_eq!(EmailVerification::read_for_token(&tokens, "t1", 604_801_000), Err(TokenError::NotFound));
    assert_eq!(EmailVerification::read_for_token(&tokens, "t2", 1000), Err(TokenError::NotFound));
    // reading takes nothing out
    assert_eq!(tokens.rows, vec![created]);
}

#[test]
fn old_tokens_of_a_user_are_deleted() {
    let mut tokens = EmailVerifications::new();
    for (user, token) in [(1, "a"), (2, "b"), (1, "c")] {
        EmailVerification::create(&mut tokens, 
            EmailVerificationForm {
                local_user_id: user,
                email: format!("{}@x.example", user),
                verification_token: token.to_string(),
            },
            0,
        );
    }
    assert_eq!(EmailVerification::delete_old_tokens_for_local_user(&mut tokens, 1), 2);
    assert_eq!(tokens.rows.len(), 1);
    assert_eq!(tokens.rows[0].verification_token, "b");
    assert_eq!(EmailVerification::delete_old_tokens_for_local_user(&mut tokens, 1), 0);
    assert_eq!(EmailVerification::delete_old_tokens_for_local_user(&mut tokens, 2), 1);
    assert!(tokens.rows.is_empty());
}
