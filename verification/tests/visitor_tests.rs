use blog::failed_attempts::{FailedAttemptsBanBo, FailedAttemptsBanCoIdGen};
use blog::cache::CacheIdGenerator;
use blog::time::TimeSpan;
use blog::visitor::{
    new_visitor_record, session_keep_action, SessionKeep, VisitorArticleAccessPermitBo,
    VisitorArticleAccessRecordCoIdGen,
};

#[test]
fn permit_ids_start_with_visitor() {
    let bo = VisitorArticleAccessPermitBo::new("visitor-1");
    assert_eq!(bo.visitor_id(), "visitor-1");
    let id = bo.permit_id("article-9");
    assert_eq!(id, "visitor-1:article-9");
    assert!(id.starts_with(bo.clear_prefix()));
    assert_ne!(bo.permit_id("a"), bo.permit_id("b"));
}

#[test]
fn permit_record_lasts_access_ttl() {
    let bo = VisitorArticleAccessPermitBo::new("v");
    let c = bo.permit_record("a", TimeSpan::from_secs(3_600), 1_000);
    assert_eq!(c.id, "v:a");
    assert_eq!(c.kind, "visitor_article_access_permit");
    assert_eq!(c.created_at, 1_000);
    assert_eq!(c.expires_at, 4_600);
}

#[test]
fn record_id_format() {
    let g = VisitorArticleAccessRecordCoIdGen { visitor_id: "v", article_id: "" };
    assert_eq!(g.generate_id(), "v:");
}

#[test]
fn new_visitor_session() {
    let c = new_visitor_record(String::from("uuid-1"), TimeSpan::from_secs(86_400), 7);
    assert_eq!(c.id, "uuid-1");
    assert_eq!(c.data.visitor_id, "uuid-1");
    assert_eq!(c.kind, "visitor");
    assert_eq!(c.created_at, 7);
    assert_eq!(c.expires_at, 86_407);
}

#[test]
fn session_keep_decisions() {
    let threshold = TimeSpan::from_secs(600);
    assert_eq!(session_keep_action(None, threshold), SessionKeep::Missing);
    assert_eq!(session_keep_action(Some(TimeSpan::from_secs(599)), threshold), SessionKeep::Renew);
    assert_eq!(session_keep_action(Some(TimeSpan::from_secs(600)), threshold), SessionKeep::Renew);
    assert_eq!(session_keep_action(Some(TimeSpan::from_secs(601)), threshold), SessionKeep::Keep);
}

#[test]
fn attempt_record_counts_one() {
    let po = FailedAttemptsBanBo::attempt_record(
        String::from(FailedAttemptsBanBo::SCENE_LOGIN),
        String::from("127.0.0.1"),
        String::from("admin"),
        1_000,
        TimeSpan::from_secs(300),
    );
    assert_eq!(po.scene, "login");
    assert_eq!(po.ip, "127.0.0.1");
    assert_eq!(po.target_id, "admin");
    assert_eq!(po.count, 1);
    assert_eq!(po.created_at, 1_000);
    assert_eq!(po.expires_at, 1_300);
    let sat = FailedAttemptsBanBo::attempt_record(
        String::new(),
        String::new(),
        String::new(),
        i64::MAX,
        TimeSpan::from_secs(1),
    );
    assert_eq!(sat.expires_at, i64::MAX);
}

#[test]
fn ban_after_max_attempts() {
    assert_eq!(FailedAttemptsBanBo::remaining_after(5, 1), (4, false));
    assert_eq!(FailedAttemptsBanBo::remaining_after(5, 4), (1, false));
    assert_eq!(FailedAttemptsBanBo::remaining_after(5, 5), (0, true));
    assert_eq!(FailedAttemptsBanBo::remaining_after(5, 9), (0, true));
    assert_eq!(FailedAttemptsBanBo::remaining_after(0, 0), (0, true));
}

#[test]
fn ban_record_and_id() {
    let scene = FailedAttemptsBanBo::SCENE_ARTICLE_UNLOCK;
    assert_eq!(scene, "article_unlock");
    let c = FailedAttemptsBanBo::ban_record(scene, "10.0.0.1", "art", TimeSpan::from_secs(60), i64::MAX - 10);
    assert_eq!(c.id, "article_unlock:10.0.0.1:art");
    assert_eq!(c.kind, "failed_attempts_ban");
    assert_eq!(c.created_at, i64::MAX - 10);
    assert_eq!(c.expires_at, i64::MAX);
    assert_eq!(FailedAttemptsBanBo::ban_cache_id(scene, "10.0.0.1", "art"), c.id);
    let g = FailedAttemptsBanCoIdGen { scene: "s", ip: "i", target_id: "t" };
    assert_eq!(g.generate_id(), "s:i:t");
}
