//! Cache records: their builder, their identifiers and the arithmetic of
//! their expiry.

use vstd::prelude::*;

use crate::time::{
    clamp_i64, max_representable_second, min_representable_second, representable_second,
    timestamp_now, TimeSpan, UnixTimestampSecs,
};

verus! {

/// Data that is kept in the cache under a kind of its own.
pub trait CacheData: Sized {
    /// The kind under which values of this type are stored.
    spec fn spec_kind() -> Seq<char>;

    fn kind() -> (r: &'static str)
        ensures
            r@ == Self::spec_kind(),
    ;
}

/// A value from which a cache identifier is derived.
pub trait CacheIdGenerator {
    /// The identifier that this value stands for.
    spec fn spec_id(&self) -> Seq<char>;

    fn generate_id(&self) -> (r: String)
        ensures
            r@ == self.spec_id(),
    ;
}

impl CacheIdGenerator for String {
    open spec fn spec_id(&self) -> Seq<char> {
        self@
    }

    fn generate_id(&self) -> (r: String) {
        self.clone()
    }
}

impl<'a> CacheIdGenerator for &'a str {
    open spec fn spec_id(&self) -> Seq<char> {
        (*self)@
    }

    fn generate_id(&self) -> (r: String) {
        (*self).to_owned()
    }
}

/// Why a cache record could not be built.
#[derive(Clone, Copy, Debug, PartialEq, Eq, Structural)]
pub enum CacheBuildError {
    MissingId,
    MissingExpiresAt,
}

/// A cache record under construction.
pub struct CacheBuilder<T> {
    /// Identifier of the record.
    pub id: Option<String>,
    /// Creation time, in seconds since the epoch.
    pub created_at: i64,
    /// Expiry time, in seconds since the epoch.
    pub expires_at: Option<i64>,
    /// Kind of the cached data.
    pub kind: String,
    /// The cached data.
    pub data: T,
}

/// A cache record.
pub struct Cache<T> {
    /// Identifier of the record.
    pub id: String,
    /// Creation time, in seconds since the epoch.
    pub created_at: i64,
    /// Expiry time, in seconds since the epoch.
    pub expires_at: i64,
    /// Kind of the cached data.
    pub kind: String,
    /// The cached data.
    pub data: T,
}

/// The expiry time that a time to live gives from a creation time.
pub open spec fn expiry_after(created_at: i64, ttl: TimeSpan) -> int {
    clamp_i64(created_at + ttl.spec_secs())
}

impl<T: CacheData> CacheBuilder<T> {
    /// A builder for `data`, created at `created_at`, with neither
    /// identifier nor expiry.
    pub fn new_at(data: T, created_at: i64) -> (r: Self)
        ensures
            r.id is None,
            r.created_at == created_at,
            r.expires_at is None,
            r.kind@ == T::spec_kind(),
            r.data == data,
    {
        CacheBuilder { id: None, created_at, expires_at: None, kind: T::kind().to_owned(), data }
    }

    /// A builder for `data`, created now by the clock of this machine, with
    /// neither identifier nor expiry: `None` where the clock is set outside
    /// the range of `jiff::Timestamp`.
    pub fn new(data: T) -> (r: Option<Self>)
        ensures
            r matches Some(b) ==> {
                &&& b.id is None
                &&& representable_second(b.created_at as int)
                &&& b.expires_at is None
                &&& b.kind@ == T::spec_kind()
                &&& b.data == data
            },
    {
        match timestamp_now() {
            Some(now) => Some(Self::new_at(data, now)),
            None => None,
        }
    }

    /// Takes the identifier from the data itself.
    pub fn self_id(self) -> (r: Self) where T: CacheIdGenerator
        ensures
            r.id matches Some(id) && id@ == self.data.spec_id(),
            r.created_at == self.created_at,
            r.expires_at == self.expires_at,
            r.kind == self.kind,
            r.data == self.data,
    {
        let id = self.data.generate_id();
        CacheBuilder { id: Some(id), ..self }
    }

    /// Takes the identifier from `id`.
    pub fn id<G: CacheIdGenerator>(self, id: &G) -> (r: Self)
        ensures
            r.id matches Some(s) && s@ == id.spec_id(),
            r.created_at == self.created_at,
            r.expires_at == self.expires_at,
            r.kind == self.kind,
            r.data == self.data,
    {
        let s = id.generate_id();
        CacheBuilder { id: Some(s), ..self }
    }

    pub fn created_at(self, created_at: i64) -> (r: Self)
        ensures
            r.created_at == created_at,
            r.id == self.id,
            r.expires_at == self.expires_at,
            r.kind == self.kind,
            r.data == self.data,
    {
        CacheBuilder { created_at, ..self }
    }

    pub fn expires_at(self, expires_at: i64) -> (r: Self)
        ensures
            r.expires_at == Some(expires_at),
            r.id == self.id,
            r.created_at == self.created_at,
            r.kind == self.kind,
            r.data == self.data,
    {
        CacheBuilder { expires_at: Some(expires_at), ..self }
    }

    /// Sets the expiry `ttl` after the creation time, saturating at the
    /// largest timestamp.
    pub fn ttl(self, ttl: TimeSpan) -> (r: Self)
        ensures
            r.expires_at matches Some(e) && e == expiry_after(self.created_at, ttl),
            r.id == self.id,
            r.created_at == self.created_at,
            r.kind == self.kind,
            r.data == self.data,
    {
        let e = UnixTimestampSecs::new(self.created_at).saturating_add(ttl).as_i64();
        CacheBuilder { expires_at: Some(e), ..self }
    }

    /// The record, once both identifier and expiry are set.
    pub fn build(self) -> (r: Result<Cache<T>, CacheBuildError>)
        ensures
            self.id is None ==> r == Err::<Cache<T>, CacheBuildError>(CacheBuildError::MissingId),
            self.id is Some && self.expires_at is None ==> r == Err::<Cache<T>, CacheBuildError>(
                CacheBuildError::MissingExpiresAt,
            ),
            r matches Ok(c) ==> {
                &&& self.id == Some(c.id)
                &&& self.expires_at == Some(c.expires_at)
                &&& c.created_at == self.created_at
                &&& c.kind@ == T::spec_kind()
                &&& c.data == self.data
            },
            r is Ok <==> (self.id is Some && self.expires_at is Some),
    {
        let id = match self.id {
            Some(id) => id,
            None => return Err(CacheBuildError::MissingId),
        };
        let expires_at = match self.expires_at {
            Some(e) => e,
            None => return Err(CacheBuildError::MissingExpiresAt),
        };
        Ok(Cache { id, created_at: self.created_at, expires_at, kind: T::kind().to_owned(), data: self.data })
    }
}

impl<T: CacheData> Cache<T> {
    /// A builder for `data`, created now by the clock of this machine:
    /// `None` where the clock is set outside the range of `jiff::Timestamp`.
    pub fn builder(data: T) -> (r: Option<CacheBuilder<T>>)
        ensures
            r matches Some(b) ==> {
                &&& b.id is None
                &&& representable_second(b.created_at as int)
                &&& b.expires_at is None
                &&& b.kind@ == T::spec_kind()
                &&& b.data == data
            },
    {
        CacheBuilder::new(data)
    }

    /// A builder for `data`, created at `created_at`.
    pub fn builder_at(data: T, created_at: i64) -> (r: CacheBuilder<T>)
        ensures
            r.id is None,
            r.created_at == created_at,
            r.expires_at is None,
            r.kind@ == T::spec_kind(),
            r.data == data,
    {
        CacheBuilder::new_at(data, created_at)
    }

    pub fn new<G: CacheIdGenerator>(id: G, data: T, created_at: i64, expires_at: i64) -> (r: Self)
        ensures
            r.id@ == id.spec_id(),
            r.created_at == created_at,
            r.expires_at == expires_at,
            r.kind@ == T::spec_kind(),
            r.data == data,
    {
        Cache { id: id.generate_id(), created_at, expires_at, kind: T::kind().to_owned(), data }
    }

    /// Whether the record has expired at the time `now`.
    pub fn is_expired_at(&self, now: i64) -> (r: bool)
        ensures
            r == (now > self.expires_at),
    {
        now > self.expires_at
    }

    /// Whether the record has expired by the clock of this machine: the
    /// answer of `is_expired_at` for the second that the clock reads, `None`
    /// where the clock is set outside the range of `jiff::Timestamp`.
    pub fn is_expired(&self) -> (r: Option<bool>)
        ensures
            r matches Some(b) ==> exists|now: i64| #[trigger]
                representable_second(now as int) && b == (now > self.expires_at),
            self.expires_at >= max_representable_second() ==> r != Some(true),
            self.expires_at < min_representable_second() ==> r != Some(false),
    {
        match timestamp_now() {
            Some(now) => {
                let b = self.is_expired_at(now);
                assert(representable_second(now as int) && b == (now > self.expires_at));
                Some(b)
            },
            None => None,
        }
    }
}

/// The time to live left at `now` to a record that expires at `expires_at`:
/// present while the difference is positive and fits in `i64`.
pub open spec fn spec_remaining_ttl(expires_at: i64, now: i64) -> Option<int> {
    let d = expires_at - now;
    if 0 < d <= i64::MAX {
        Some(d)
    } else {
        None
    }
}

/// The time to live left at `now` to a record that expires at `expires_at`.
pub fn remaining_ttl(expires_at: i64, now: i64) -> (r: Option<TimeSpan>)
    ensures
        r is Some <==> spec_remaining_ttl(expires_at, now) is Some,
        r matches Some(d) ==> {
            &&& spec_remaining_ttl(expires_at, now) == Some(d.spec_secs() as int)
            &&& d.spec_nanos() == 0
        },
{
    match expires_at.checked_sub(now) {
        Some(d) => if d > 0 {
            Some(TimeSpan::from_secs(d as u64))
        } else {
            None
        },
        None => None,
    }
}

/// How a record is written to the cache.
#[derive(Clone, Copy, Debug, PartialEq, Eq, Structural, Hash)]
pub enum CacheSetMode {
    /// Writes whether or not a record of that kind and identifier is present.
    Overwrite,
    /// Writes only where no record of that kind and identifier is present.
    OnlyIfNotExists,
    /// Writes only where a record of that kind and identifier is present.
    OnlyIfExists,
}

impl CacheSetMode {
    /// Whether a write in this mode takes place, given whether a record of
    /// that kind and identifier is present.
    pub fn permits_write(self, present: bool) -> (r: bool)
        ensures
            r == match self {
                CacheSetMode::Overwrite => true,
                CacheSetMode::OnlyIfNotExists => !present,
                CacheSetMode::OnlyIfExists => present,
            },
    {
        match self {
            CacheSetMode::Overwrite => true,
            CacheSetMode::OnlyIfNotExists => !present,
            CacheSetMode::OnlyIfExists => present,
        }
    }
}

/// A time to live set at `now` is read back whole at the same instant: the
/// record then expires `ttl` seconds after `now`, and that much time is
/// left. This holds wherever the expiry does not saturate at the largest
/// timestamp and the span is at least one second and at most `i64::MAX`
/// seconds long.
pub proof fn law_ttl_read_back(now: i64, ttl: TimeSpan)
    requires
        0 < ttl.spec_secs() <= i64::MAX,
        now + ttl.spec_secs() <= i64::MAX,
    ensures
        expiry_after(now, ttl) == now + ttl.spec_secs(),
        spec_remaining_ttl(expiry_after(now, ttl) as i64, now) == Some(ttl.spec_secs() as int),
{
}

/// A record that has time left at `now` has not expired at `now`.
pub proof fn law_time_left_not_expired(expires_at: i64, now: i64)
    ensures
        spec_remaining_ttl(expires_at, now) is Some ==> !(now > expires_at),
        now > expires_at ==> spec_remaining_ttl(expires_at, now) is None,
{
}

} // verus!
