//! Visitors: their session records, the permits that let them read
//! protected articles, and the renewal of their sessions.

use vstd::prelude::*;

use crate::cache::{expiry_after, Cache, CacheData, CacheIdGenerator};
use crate::path::has_prefix;
use crate::time::TimeSpan;

verus! {

/// The text `":"` is the one colon character.
pub proof fn lemma_colon_text()
    ensures
        ":"@ == seq![':'],
{
    reveal_strlit(":");
}

/// The identifier `"{visitor_id}:{article_id}"`.
pub open spec fn visitor_article_id(visitor_id: Seq<char>, article_id: Seq<char>) -> Seq<char> {
    visitor_id + seq![':'] + article_id
}

/// `"{first}:{second}"`.
fn colon_joined(first: &str, second: &str) -> (r: String)
    ensures
        r@ == visitor_article_id(first@, second@),
{
    proof {
        lemma_colon_text();
    }
    let mut s = first.to_owned();
    s.append(":");
    s.append(second);
    s
}

/// The cache identifier of a visitor's permit to read an article.
#[derive(Clone, Copy, Debug)]
pub struct VisitorArticleAccessPermitCoIdGen<'a> {
    /// Visitor identifier.
    pub visitor_id: &'a str,
    /// Article identifier.
    pub article_id: &'a str,
}

impl<'a> CacheIdGenerator for VisitorArticleAccessPermitCoIdGen<'a> {
    open spec fn spec_id(&self) -> Seq<char> {
        visitor_article_id(self.visitor_id@, self.article_id@)
    }

    fn generate_id(&self) -> (r: String) {
        colon_joined(self.visitor_id, self.article_id)
    }
}

/// A visitor's permit to read an article.
#[derive(Clone, Copy, Debug, PartialEq, Eq, Structural)]
pub struct VisitorArticleAccessPermitCo;

impl CacheData for VisitorArticleAccessPermitCo {
    open spec fn spec_kind() -> Seq<char> {
        "visitor_article_access_permit"@
    }

    fn kind() -> (r: &'static str) {
        "visitor_article_access_permit"
    }
}

/// The cache identifier of the record that a visitor has read an article.
#[derive(Clone, Copy, Debug)]
pub struct VisitorArticleAccessRecordCoIdGen<'a> {
    /// Visitor identifier.
    pub visitor_id: &'a str,
    /// Article identifier.
    pub article_id: &'a str,
}

impl<'a> CacheIdGenerator for VisitorArticleAccessRecordCoIdGen<'a> {
    open spec fn spec_id(&self) -> Seq<char> {
        visitor_article_id(self.visitor_id@, self.article_id@)
    }

    fn generate_id(&self) -> (r: String) {
        colon_joined(self.visitor_id, self.article_id)
    }
}

/// The record that a visitor has read an article.
#[derive(Clone, Copy, Debug, PartialEq, Eq, Structural)]
pub struct VisitorArticleAccessRecordCo;

impl CacheData for VisitorArticleAccessRecordCo {
    open spec fn spec_kind() -> Seq<char> {
        "visitor_article_access_record"@
    }

    fn kind() -> (r: &'static str) {
        "visitor_article_access_record"
    }
}

/// A visitor's session, kept in the cache under the visitor's identifier.
#[derive(Clone, Debug)]
pub struct VisitorCo {
    /// Visitor identifier.
    pub visitor_id: String,
}

impl CacheData for VisitorCo {
    open spec fn spec_kind() -> Seq<char> {
        "visitor"@
    }

    fn kind() -> (r: &'static str) {
        "visitor"
    }
}

impl CacheIdGenerator for VisitorCo {
    open spec fn spec_id(&self) -> Seq<char> {
        self.visitor_id@
    }

    fn generate_id(&self) -> (r: String) {
        self.visitor_id.clone()
    }
}

/// The session record of a new visitor, created at `now` and expiring
/// `session_ttl` later.
pub fn new_visitor_record(visitor_id: String, session_ttl: TimeSpan, now: i64) -> (r: Cache<
    VisitorCo,
>)
    ensures
        r.id@ == visitor_id@,
        r.data.visitor_id == visitor_id,
        r.kind@ == VisitorCo::spec_kind(),
        r.created_at == now,
        r.expires_at == expiry_after(now, session_ttl),
{
    let data = VisitorCo { visitor_id };
    Cache::builder_at(data, now).self_id().ttl(session_ttl).build().unwrap()
}

/// What the renewal of a visitor's session does.
#[derive(Clone, Copy, Debug, PartialEq, Eq, Structural)]
pub enum SessionKeep {
    /// The session has expired or is unknown: a new one is needed.
    Missing,
    /// The session is close to its end: its time to live is set anew.
    Renew,
    /// The session has time enough left and is kept as it is.
    Keep,
}

/// What the renewal of a session does, given the time it has left (`None`
/// where it has none) and the threshold under which it is renewed.
pub fn session_keep_action(ttl: Option<TimeSpan>, threshold: TimeSpan) -> (r: SessionKeep)
    ensures
        ttl is None ==> r == SessionKeep::Missing,
        ttl matches Some(t) ==> (r == SessionKeep::Renew <==> t.spec_le(threshold)),
        ttl matches Some(t) ==> (r == SessionKeep::Keep <==> !t.spec_le(threshold)),
{
    match ttl {
        None => SessionKeep::Missing,
        Some(t) => {
            if t.le(&threshold) {
                SessionKeep::Renew
            } else {
                SessionKeep::Keep
            }
        },
    }
}

/// The permits of one visitor to read articles.
#[derive(Clone, Debug)]
pub struct VisitorArticleAccessPermitBo {
    visitor_id: String,
}

impl VisitorArticleAccessPermitBo {
    pub closed spec fn spec_visitor_id(&self) -> Seq<char> {
        self.visitor_id@
    }

    pub fn new(visitor_id: &str) -> (r: Self)
        ensures
            r.spec_visitor_id() == visitor_id@,
    {
        VisitorArticleAccessPermitBo { visitor_id: visitor_id.to_owned() }
    }

    pub fn visitor_id(&self) -> (r: &str)
        ensures
            r@ == self.spec_visitor_id(),
    {
        self.visitor_id.as_str()
    }

    /// The cache identifier of this visitor's permit to read `article_id`.
    pub fn permit_id(&self, article_id: &str) -> (r: String)
        ensures
            r@ == visitor_article_id(self.spec_visitor_id(), article_id@),
    {
        let g = VisitorArticleAccessPermitCoIdGen {
            visitor_id: self.visitor_id.as_str(),
            article_id,
        };
        g.generate_id()
    }

    /// The permit record for `article_id`, created at `now` and lasting
    /// `access_ttl`.
    pub fn permit_record(&self, article_id: &str, access_ttl: TimeSpan, now: i64) -> (r: Cache<
        VisitorArticleAccessPermitCo,
    >)
        ensures
            r.id@ == visitor_article_id(self.spec_visitor_id(), article_id@),
            r.kind@ == VisitorArticleAccessPermitCo::spec_kind(),
            r.created_at == now,
            r.expires_at == expiry_after(now, access_ttl),
    {
        let g = VisitorArticleAccessPermitCoIdGen {
            visitor_id: self.visitor_id.as_str(),
            article_id,
        };
        Cache::builder_at(VisitorArticleAccessPermitCo, now).id(&g).ttl(access_ttl).build().unwrap()
    }

    /// The prefix of the identifiers that clearing this visitor's permits
    /// removes.
    pub fn clear_prefix(&self) -> (r: &str)
        ensures
            r@ == self.spec_visitor_id(),
    {
        self.visitor_id.as_str()
    }
}

/// Every permit of a visitor has an identifier that begins with the
/// visitor's identifier, so that clearing by that prefix removes them all;
/// and one visitor's permits for different articles have different
/// identifiers.
pub proof fn law_permit_ids_under_visitor(visitor_id: Seq<char>, article_id: Seq<char>, other_article: Seq<char>)
    ensures
        has_prefix(visitor_article_id(visitor_id, article_id), visitor_id),
        article_id != other_article ==> visitor_article_id(visitor_id, article_id)
            != visitor_article_id(visitor_id, other_article),
{
    let a = visitor_article_id(visitor_id, article_id);
    let b = visitor_article_id(visitor_id, other_article);
    assert(a.subrange(0, visitor_id.len() as int) =~= visitor_id);
    if article_id != other_article && a == b {
        assert(a.subrange(visitor_id.len() + 1int, a.len() as int) =~= article_id);
        assert(b.subrange(visitor_id.len() + 1int, b.len() as int) =~= other_article);
    }
}

} // verus!
