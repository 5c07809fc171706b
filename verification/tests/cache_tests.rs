use blog::cache::{remaining_ttl, Cache, CacheBuildError, CacheBuilder, CacheIdGenerator, CacheSetMode};
use blog::time::TimeSpan;
use blog::visitor::{VisitorArticleAccessPermitCo, VisitorArticleAccessPermitCoIdGen, VisitorCo};

#[test]
fn builder_starts_empty() {
    let b = CacheBuilder::new(VisitorArticleAccessPermitCo).unwrap();
    assert!(b.id.is_none());
    assert!(b.expires_at.is_none());
    assert_eq!(b.kind, "visitor_article_access_permit");
}

#[test]
fn build_without_id_fails() {
    let r = Cache::builder(VisitorArticleAccessPermitCo).unwrap().expires_at(10).build();
    assert_eq!(r.err(), Some(CacheBuildError::MissingId));
}

#[test]
fn build_without_expiry_fails() {
    let r = Cache::builder(VisitorArticleAccessPermitCo).unwrap().id(&"abc").build();
    assert_eq!(r.err(), Some(CacheBuildError::MissingExpiresAt));
}

#[test]
fn build_keeps_fields() {
    let c = Cache::builder(VisitorArticleAccessPermitCo).unwrap()
        .created_at(100)
        .id(&String::from("k1"))
        .expires_at(250)
        .build()
        .unwrap();
    assert_eq!(c.id, "k1");
    assert_eq!(c.created_at, 100);
    assert_eq!(c.expires_at, 250);
    assert_eq!(c.kind, "visitor_article_access_permit");
}

#[test]
fn ttl_counts_from_created_at() {
    let c = Cache::builder(VisitorArticleAccessPermitCo).unwrap()
        .created_at(1_000)
        .ttl(TimeSpan::from_secs(60))
        .id(&"x")
        .build()
        .unwrap();
    assert_eq!(c.expires_at, 1_060);
}

#[test]
fn ttl_saturates() {
    let b = Cache::builder(VisitorArticleAccessPermitCo).unwrap()
        .created_at(i64::MAX - 1)
        .ttl(TimeSpan::from_secs(100));
    assert_eq!(b.expires_at, Some(i64::MAX));
}

#[test]
fn self_id_uses_the_data() {
    let c = Cache::builder(VisitorCo { visitor_id: String::from("v-1") }).unwrap()
        .self_id()
        .expires_at(5)
        .build()
        .unwrap();
    assert_eq!(c.id, "v-1");
    assert_eq!(c.kind, "visitor");
    assert_eq!(c.data.visitor_id, "v-1");
}

#[test]
fn id_generator_formats() {
    let g = VisitorArticleAccessPermitCoIdGen { visitor_id: "vis", article_id: "art" };
    assert_eq!(g.generate_id(), "vis:art");
    assert_eq!("plain".generate_id(), "plain");
    assert_eq!(String::from("owned").generate_id(), "owned");
}

#[test]
fn cache_new_sets_kind() {
    let c = Cache::new("id-9", VisitorArticleAccessPermitCo, 3, 4);
    assert_eq!(c.id, "id-9");
    assert_eq!(c.created_at, 3);
    assert_eq!(c.expires_at, 4);
    assert_eq!(c.kind, "visitor_article_access_permit");
}

#[test]
fn expiry_at_given_time() {
    let c = Cache::new("i", VisitorArticleAccessPermitCo, 0, 100);
    assert!(!c.is_expired_at(99));
    assert!(!c.is_expired_at(100));
    assert!(c.is_expired_at(101));
    assert_eq!(c.is_expired(), Some(true));
    let far = Cache::new("j", VisitorArticleAccessPermitCo, 0, i64::MAX);
    assert_eq!(far.is_expired(), Some(false));
}

#[test]
fn remaining_ttl_values() {
    assert_eq!(remaining_ttl(100, 40).map(|d| d.as_secs()), Some(60));
    assert_eq!(remaining_ttl(100, 100), None);
    assert_eq!(remaining_ttl(100, 140), None);
    assert_eq!(remaining_ttl(i64::MAX, -1), None);
    assert_eq!(remaining_ttl(i64::MAX, 0).map(|d| d.as_secs()), Some(i64::MAX as u64));
}

#[test]
fn ttl_read_back_at_same_instant() {
    let now = 5_000;
    let ttl = TimeSpan::from_secs(300);
    let c = Cache::builder(VisitorArticleAccessPermitCo).unwrap().created_at(now).ttl(ttl).id(&"t").build().unwrap();
    assert_eq!(remaining_ttl(c.expires_at, now), Some(ttl));
    assert!(!c.is_expired_at(now));
}

#[test]
fn set_modes() {
    assert!(CacheSetMode::Overwrite.permits_write(true));
    assert!(CacheSetMode::Overwrite.permits_write(false));
    assert!(CacheSetMode::OnlyIfNotExists.permits_write(false));
    assert!(!CacheSetMode::OnlyIfNotExists.permits_write(true));
    assert!(CacheSetMode::OnlyIfExists.permits_write(true));
    assert!(!CacheSetMode::OnlyIfExists.permits_write(false));
}

#[test]
fn builder_at_sets_the_creation_time() {
    let b = CacheBuilder::new_at(VisitorArticleAccessPermitCo, 1_234);
    assert_eq!(b.created_at, 1_234);
    assert!(b.id.is_none());
    assert!(b.expires_at.is_none());
    let c = Cache::builder_at(VisitorArticleAccessPermitCo, -5).ttl(TimeSpan::from_secs(5)).id(&"z").build().unwrap();
    assert_eq!(c.created_at, -5);
    assert_eq!(c.expires_at, 0);
}

#[test]
fn builder_reads_the_clock() {
    let b = Cache::builder(VisitorArticleAccessPermitCo).unwrap();
    assert!(b.created_at > 1_577_836_800 && b.created_at <= 253_402_207_200);
}
