//! Failed attempts (at unlocking an article, at logging in) and the bans
//! that too many of them bring.

use vstd::prelude::*;

use crate::cache::{expiry_after, Cache, CacheData, CacheIdGenerator};
use crate::time::{clamp_i64, TimeSpan, UnixTimestampSecs};
use crate::visitor::lemma_colon_text;

verus! {

/// The row that counts failed attempts of one client at one target.
#[derive(Clone, Debug)]
pub struct FailedAttemptsPo {
    /// The scene of the attempts, such as logging in.
    pub scene: String,
    /// The client's IP address, as text.
    pub ip: String,
    /// The target of the attempts, such as an article.
    pub target_id: String,
    /// Number of failed attempts.
    pub count: u32,
    /// Creation time, in seconds since the epoch.
    pub created_at: i64,
    /// Expiry time, in seconds since the epoch.
    pub expires_at: i64,
}

/// The row that counts failed attempts at unlocking an article.
#[derive(Clone, Debug)]
pub struct ArticleUnlockTryCountPo {
    /// The client's IP address, as text.
    pub ip: String,
    /// Article identifier.
    pub article_id: String,
    /// Number of failed attempts.
    pub count: u32,
    /// Creation time, in seconds since the epoch.
    pub created_at: i64,
    /// Expiry time, in seconds since the epoch.
    pub expires_at: i64,
}

/// The identifier `"{scene}:{ip}:{target_id}"`.
pub open spec fn ban_id(scene: Seq<char>, ip: Seq<char>, target_id: Seq<char>) -> Seq<char> {
    scene + seq![':'] + ip + seq![':'] + target_id
}

/// The cache identifier of a ban of one client from one target.
#[derive(Clone, Copy, Debug)]
pub struct FailedAttemptsBanCoIdGen<'a> {
    /// The scene of the attempts.
    pub scene: &'a str,
    /// The client's IP address, as text.
    pub ip: &'a str,
    /// The target of the attempts.
    pub target_id: &'a str,
}

impl<'a> CacheIdGenerator for FailedAttemptsBanCoIdGen<'a> {
    open spec fn spec_id(&self) -> Seq<char> {
        ban_id(self.scene@, self.ip@, self.target_id@)
    }

    fn generate_id(&self) -> (r: String) {
        proof {
            lemma_colon_text();
        }
        let mut s = self.scene.to_owned();
        s.append(":");
        s.append(self.ip);
        s.append(":");
        s.append(self.target_id);
        s
    }
}

/// A ban of one client from one target.
#[derive(Clone, Copy, Debug, PartialEq, Eq, Structural)]
pub struct FailedAttemptsBanCo;

impl CacheData for FailedAttemptsBanCo {
    open spec fn spec_kind() -> Seq<char> {
        "failed_attempts_ban"@
    }

    fn kind() -> (r: &'static str) {
        "failed_attempts_ban"
    }
}

/// The tries left out of `max_times` after `count` failed attempts.
pub open spec fn remaining_tries(max_times: u32, count: u32) -> u32 {
    if count >= max_times {
        0
    } else {
        (max_times - count) as u32
    }
}

/// Bans that follow failed attempts.
#[derive(Clone, Copy, Debug, PartialEq, Eq, Structural)]
pub struct FailedAttemptsBanBo;

impl FailedAttemptsBanBo {
    /// The scene of unlocking an article.
    pub const SCENE_ARTICLE_UNLOCK: &'static str = "article_unlock";

    /// The scene of logging in.
    pub const SCENE_LOGIN: &'static str = "login";

    /// The row that a first failed attempt at `now` writes: one attempt,
    /// counted until `window` after `now` (saturating at the largest
    /// timestamp).
    pub fn attempt_record(scene: String, ip: String, target_id: String, now: i64, window: TimeSpan) -> (r: FailedAttemptsPo)
        ensures
            r.scene == scene,
            r.ip == ip,
            r.target_id == target_id,
            r.count == 1,
            r.created_at == now,
            r.expires_at == clamp_i64(now + window.spec_secs()),
    {
        let now_ts = UnixTimestampSecs::new(now);
        FailedAttemptsPo {
            scene,
            ip,
            target_id,
            count: 1,
            created_at: now_ts.as_i64(),
            expires_at: now_ts.saturating_add(window).as_i64(),
        }
    }

    /// The tries left out of `max_times` once `count` attempts have failed,
    /// and whether the client is banned for it: exactly when none is left.
    pub fn remaining_after(max_times: u32, count: u32) -> (r: (u32, bool))
        ensures
            r.0 == remaining_tries(max_times, count),
            r.1 == (r.0 == 0),
    {
        let remaining = max_times.saturating_sub(count);
        (remaining, remaining == 0)
    }

    /// The ban record of `ip` from `target_id` in `scene`, created at `now`
    /// and lasting `ban_ttl`.
    pub fn ban_record(
        scene: &str,
        ip: &str,
        target_id: &str,
        ban_ttl: TimeSpan,
        now: i64,
    ) -> (r: Cache<FailedAttemptsBanCo>)
        ensures
            r.id@ == ban_id(scene@, ip@, target_id@),
            r.kind@ == FailedAttemptsBanCo::spec_kind(),
            r.created_at == now,
            r.expires_at == expiry_after(now, ban_ttl),
    {
        let g = FailedAttemptsBanCoIdGen { scene, ip, target_id };
        Cache::builder_at(FailedAttemptsBanCo, now).id(&g).ttl(ban_ttl).build().unwrap()
    }

    /// The cache identifier under which a ban of `ip` from `target_id` in
    /// `scene` is kept.
    pub fn ban_cache_id(scene: &str, ip: &str, target_id: &str) -> (r: String)
        ensures
            r@ == ban_id(scene@, ip@, target_id@),
    {
        let g = FailedAttemptsBanCoIdGen { scene, ip, target_id };
        g.generate_id()
    }
}

/// A client is banned after a failed attempt exactly when its count of
/// failed attempts has reached the allowed maximum, and each further failure
/// leaves no more tries than the one before.
pub proof fn law_ban_at_max_attempts(max_times: u32, count: u32, later: u32)
    ensures
        (remaining_tries(max_times, count) == 0) <==> count >= max_times,
        count <= later ==> remaining_tries(max_times, later) <= remaining_tries(max_times, count),
{
}

} // verus!
