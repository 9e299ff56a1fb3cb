//! The icon cache manager: TTL policy, corruption tolerance, and the
//! rebuild/backoff recovery state machine.
//!
//! The manager owns an optional store handle. While the handle is present
//! (Healthy) a lookup consults the store; on a miss, an expired entry or a
//! corrupt payload it extracts a fresh icon, writes it back and returns it.
//! While the handle is absent the manager is Degraded (fewer than
//! `TRY_LIMIT` failed reopens) or waiting out a backoff window; either way
//! a lookup first runs `force_rebuild` and then extracts directly, without
//! touching the store. Destructive recovery — purging the store's
//! directory — happens only after `TRY_LIMIT` failed reopens and a
//! `REBUILD_BACKOFF_MS` cooldown, so a persistently broken disk cannot
//! cause a purge storm.

use vstd::prelude::*;

use crate::bitmap::{normalize, CanonicalImage, RawBitmap};
use crate::codec;
use crate::codec::{spec_decode_model, CacheEntry};
use crate::store::{store_destroy, store_get, store_open, store_put};
use crate::utils::get_unix_msec;

verus! {

/// Failed reopens tolerated before destructive recovery is considered.
pub const TRY_LIMIT: usize = 3;

/// Cooldown between destructive purge attempts, in milliseconds.
pub const REBUILD_BACKOFF_MS: u64 = 300000;

/// One day in milliseconds; `expire_days` is converted with this factor.
pub const ONE_DAY_MS: u64 = 86400000;

/// A source of raw icon bitmaps, typically a platform-native extraction
/// routine. The caller supplies an implementation; the manager promises
/// nothing about what it returns and copes with every outcome.
pub trait IconSource {
    /// Extracts the icon of the executable at `path`, or fails.
    fn extract(&mut self, path: &str) -> Option<RawBitmap>;
}

/// An entry whose timestamp plus the time-to-live lies strictly before
/// `now` has expired.
pub open spec fn is_expired_spec(timestamp: u64, expire_ms: u64, now: u64) -> bool {
    timestamp + expire_ms < now
}

/// Expiry test, exactly [`is_expired_spec`].
pub fn is_expired(timestamp: u64, expire_ms: u64, now: u64) -> (r: bool)
    ensures
        r == is_expired_spec(timestamp, expire_ms, now),
{
    now > expire_ms && timestamp < now - expire_ms
}

/// Expiry boundary: with time-to-live `expire_ms`, an entry stamped
/// `now - expire_ms - 1` has expired and one stamped `now - expire_ms`
/// has not.
pub proof fn lemma_expiry_boundary(expire_ms: u64, now: u64)
    requires
        now >= expire_ms + 1,
    ensures
        is_expired_spec((now - expire_ms - 1) as u64, expire_ms, now),
        !is_expired_spec((now - expire_ms) as u64, expire_ms, now),
{
}

/// What `force_rebuild` decides before acting.
#[derive(Clone, Copy, Debug, PartialEq, Eq)]
pub enum RebuildAction {
    /// The plain reopen succeeded: become Healthy, reset the try counter.
    Reopened,
    /// Reopen failed with tries to spare: count the failure and back off.
    Backoff,
    /// Reopen failed, the try limit is reached, the cooldown has not
    /// elapsed: change nothing.
    Wait,
    /// Reopen failed, the try limit is reached, the cooldown has elapsed:
    /// purge the store's directory and try opening once more.
    Purge,
}

/// The cooldown window since the last attempt has fully elapsed.
pub open spec fn cooldown_elapsed(last_attempt_ms: u64, now: u64) -> bool {
    now >= last_attempt_ms + REBUILD_BACKOFF_MS
}

/// The recovery decision: from the reopen outcome and the current rebuild
/// state, the action to take and the next try counter and attempt time.
pub open spec fn spec_rebuild_step(open_ok: bool, tries: usize, last_attempt_ms: u64, now: u64) -> (
    RebuildAction,
    usize,
    u64,
) {
    if open_ok {
        (RebuildAction::Reopened, 0usize, now)
    } else if tries < TRY_LIMIT {
        (RebuildAction::Backoff, (tries + 1) as usize, now)
    } else if !cooldown_elapsed(last_attempt_ms, now) {
        (RebuildAction::Wait, tries, last_attempt_ms)
    } else {
        (RebuildAction::Purge, tries, now)
    }
}

/// One decision of the recovery state machine, exactly
/// [`spec_rebuild_step`]. Pure; `force_rebuild` acts on its result.
pub fn rebuild_step(open_ok: bool, tries: usize, last_attempt_ms: u64, now: u64) -> (r: (
    RebuildAction,
    usize,
    u64,
))
    ensures
        r == spec_rebuild_step(open_ok, tries, last_attempt_ms, now),
{
    if open_ok {
        (RebuildAction::Reopened, 0, now)
    } else if tries < TRY_LIMIT {
        (RebuildAction::Backoff, tries + 1, now)
    } else if !(now >= last_attempt_ms && now - last_attempt_ms >= REBUILD_BACKOFF_MS) {
        (RebuildAction::Wait, tries, last_attempt_ms)
    } else {
        (RebuildAction::Purge, tries, now)
    }
}

/// The full effect of one `force_rebuild` call on the rebuild state
/// (healthy?, tries, last attempt time), given the outcome `reopened` of
/// the plain reopen and, should a purge follow, the outcome
/// `reopened_after_purge` of the reopen after it.
pub open spec fn spec_rebuild_transition(
    tries: usize,
    last_attempt_ms: u64,
    now: u64,
    reopened: bool,
    reopened_after_purge: bool,
) -> (bool, usize, u64) {
    let step = spec_rebuild_step(reopened, tries, last_attempt_ms, now);
    if reopened {
        (true, step.1, step.2)
    } else if step.0 is Purge {
        if reopened_after_purge {
            (true, 0usize, step.2)
        } else {
            (false, step.1, step.2)
        }
    } else {
        (false, step.1, step.2)
    }
}

/// Destructive recovery is rate-limited: a purge is decided only after a
/// failed reopen, with the try limit exhausted and the cooldown window
/// fully elapsed.
pub proof fn lemma_purge_rate_limited(open_ok: bool, tries: usize, last_attempt_ms: u64, now: u64)
    ensures
        spec_rebuild_step(open_ok, tries, last_attempt_ms, now).0 is Purge ==> {
            &&& !open_ok
            &&& tries >= TRY_LIMIT
            &&& now >= last_attempt_ms + REBUILD_BACKOFF_MS
        },
{
}

/// The try counter resets to zero whenever an open succeeds, and while the
/// store stays closed it only ever stays or grows by one.
pub proof fn lemma_tries_discipline(
    tries: usize,
    last_attempt_ms: u64,
    now: u64,
    reopened: bool,
    reopened_after_purge: bool,
)
    ensures
        ({
            let t = spec_rebuild_transition(
                tries,
                last_attempt_ms,
                now,
                reopened,
                reopened_after_purge,
            );
            &&& (t.0 ==> t.1 == 0)
            &&& (!t.0 ==> t.1 == tries || t.1 == tries + 1)
        }),
{
}

/// What a stored byte string decides for a lookup at time `now`:
/// `None` means the entry must be refreshed (undecodable, corrupt payload,
/// or expired); `Some(image)` means the entry is served as it is — where
/// `image` may itself be empty, recording an extraction that failed before
/// expiry and is not yet to be retried.
pub open spec fn spec_verdict(bytes: Seq<u8>, now: u64, expire_ms: u64) -> Option<
    Option<(u32, u32, Seq<u8>)>,
> {
    match spec_decode_model(bytes) {
        Err(_) => None,
        Ok((model, corrupt)) => if corrupt {
            None
        } else if is_expired_spec(model.1, expire_ms, now) {
            None
        } else {
            Some(model.0)
        },
    }
}

/// The exec form of a lookup verdict.
pub enum CacheVerdict {
    /// Serve the stored entry's image (possibly none) without extraction.
    Hit(Option<CanonicalImage>),
    /// Extract a fresh icon and overwrite the entry.
    Refresh,
}

/// Judges a stored byte string, exactly [`spec_verdict`].
pub fn evaluate_cached(bytes: &[u8], now: u64, expire_ms: u64) -> (r: CacheVerdict)
    ensures
        r is Refresh <==> spec_verdict(bytes@, now, expire_ms) is None,
        r matches CacheVerdict::Hit(opt) ==> spec_verdict(bytes@, now, expire_ms) == Some(
            match opt {
                Some(img) => Some(img.model()),
                None => None::<(u32, u32, Seq<u8>)>,
            },
        ),
        r matches CacheVerdict::Hit(opt) ==> (opt matches Some(img) ==> img.buffer_exact()),
{
    match codec::decode(bytes) {
        Err(_) => CacheVerdict::Refresh,
        Ok(d) => {
            if d.corrupt {
                CacheVerdict::Refresh
            } else if is_expired(d.entry.timestamp, expire_ms, now) {
                CacheVerdict::Refresh
            } else {
                CacheVerdict::Hit(d.entry.image)
            }
        },
    }
}

/// Extracts an icon from `source` and normalizes it; any failure along the
/// way — extraction or an unsupported pixel format — yields `None`.
pub fn extract_icon<S: IconSource>(path: &str, source: &mut S) -> (r: Option<CanonicalImage>)
    ensures
        r matches Some(img) ==> img.wf(),
{
    match source.extract(path) {
        None => None,
        Some(bm) => match normalize(&bm) {
            Ok(img) => Some(img),
            Err(_) => None,
        },
    }
}

/// Manages icon caching to avoid repeated extraction from executables.
pub struct IconCacheManager {
    db: Option<sled::Db>,
    rebuild_try: usize,
    rebuild_time: u64,
    expire_time: u64,
    cache_dir: String,
}

impl IconCacheManager {
    /// The store handle is present.
    pub closed spec fn healthy(&self) -> bool {
        self.db is Some
    }

    /// Failed reopens since the last successful open.
    pub closed spec fn tries(&self) -> usize {
        self.rebuild_try
    }

    /// When recovery last acted, in epoch milliseconds.
    pub closed spec fn last_attempt_ms(&self) -> u64 {
        self.rebuild_time
    }

    /// The time-to-live of a cache entry, in milliseconds.
    pub closed spec fn expire_ms(&self) -> u64 {
        self.expire_time
    }

    /// The directory the store lives in.
    pub closed spec fn dir(&self) -> Seq<char> {
        self.cache_dir@
    }

    /// The rebuild state as one value: store present?, failed tries, last
    /// attempt time.
    pub open spec fn rebuild_state(&self) -> (bool, usize, u64) {
        (self.healthy(), self.tries(), self.last_attempt_ms())
    }

    /// The try counter never exceeds the limit.
    pub open spec fn wf(&self) -> bool {
        self.tries() <= TRY_LIMIT
    }

    /// Opens (or creates) the store under `cache_dir` and starts with a
    /// fresh rebuild state.
    pub fn new(cache_dir: &str, expire_days: usize) -> (r: Self)
        requires
            expire_days * ONE_DAY_MS <= u64::MAX,
        ensures
            r.wf(),
            r.tries() == 0,
            r.expire_ms() == expire_days * ONE_DAY_MS,
            r.dir() == cache_dir@,
    {
        let db = store_open(cache_dir);
        let now = get_unix_msec();
        IconCacheManager {
            db,
            rebuild_try: 0,
            rebuild_time: now,
            expire_time: (expire_days as u64) * ONE_DAY_MS,
            cache_dir: cache_dir.to_owned(),
        }
    }

    /// Gets an icon from the cache, or extracts it from the executable at
    /// `path`. Cache-layer failures degrade to direct extraction; only a
    /// failed extraction yields `None`.
    pub fn get<S: IconSource>(&mut self, name: &str, path: &str, source: &mut S) -> (r: Option<
        CanonicalImage,
    >)
        requires
            old(self).wf(),
        ensures
            final(self).wf(),
            final(self).expire_ms() == old(self).expire_ms(),
            final(self).dir() == old(self).dir(),
            r matches Some(img) ==> img.buffer_exact(),
            final(self).rebuild_state() == old(self).rebuild_state() || exists|
                now: u64,
                reopened: bool,
                reopened_after_purge: bool,
            |
                final(self).rebuild_state() == spec_rebuild_transition(
                    old(self).tries(),
                    old(self).last_attempt_ms(),
                    now,
                    reopened,
                    reopened_after_purge,
                ),
    {
        if self.db.is_some() {
            let read = {
                let db = self.db.as_ref().unwrap();
                store_get(db, name)
            };
            match read {
                Ok(Some(bytes)) => {
                    let now = get_unix_msec();
                    match evaluate_cached(bytes.as_slice(), now, self.expire_time) {
                        CacheVerdict::Hit(opt) => opt,
                        CacheVerdict::Refresh => self.refresh(name, path, source, now),
                    }
                },
                Ok(None) => {
                    let now = get_unix_msec();
                    self.refresh(name, path, source, now)
                },
                Err(_) => {
                    // Read error: recover, then bypass the cache for this
                    // call only.
                    self.force_rebuild();
                    extract_icon(path, source)
                },
            }
        } else {
            // Not healthy: recover first, then extract directly with no
            // write-back.
            self.force_rebuild();
            extract_icon(path, source)
        }
    }

    /// Extracts a fresh icon, writes it back under `name` stamped `now`
    /// (best effort: write and encode failures are swallowed), and returns
    /// it.
    fn refresh<S: IconSource>(&self, name: &str, path: &str, source: &mut S, now: u64) -> (r:
        Option<CanonicalImage>)
        ensures
            r matches Some(img) ==> img.wf(),
    {
        let image = extract_icon(path, source);
        let entry = CacheEntry { image, timestamp: now };
        if let Some(db) = self.db.as_ref() {
            if let Some(data) = codec::encode(&entry) {
                let _ = store_put(db, name, data.as_slice());
            }
        }
        entry.image
    }

    /// Recovers the store: a plain reopen first; on failure, count and
    /// back off below the try limit; then rate-limit; only then purge the
    /// directory and reopen once.
    pub fn force_rebuild(&mut self)
        requires
            old(self).wf(),
        ensures
            final(self).wf(),
            final(self).expire_ms() == old(self).expire_ms(),
            final(self).dir() == old(self).dir(),
            final(self).healthy() ==> final(self).tries() == 0,
            exists|now: u64, reopened: bool, reopened_after_purge: bool|
                final(self).rebuild_state() == spec_rebuild_transition(
                    old(self).tries(),
                    old(self).last_attempt_ms(),
                    now,
                    reopened,
                    reopened_after_purge,
                ),
    {
        let opened = store_open(self.cache_dir.as_str());
        let now = get_unix_msec();
        let open_ok = opened.is_some();
        let ghost pre = *self;
        let step = rebuild_step(open_ok, self.rebuild_try, self.rebuild_time, now);
        self.rebuild_try = step.1;
        self.rebuild_time = step.2;
        match step.0 {
            RebuildAction::Reopened => {
                self.db = opened;
                proof {
                    assert(self.rebuild_state()
                        == spec_rebuild_transition(
                        pre.tries(),
                        pre.last_attempt_ms(),
                        now,
                        true,
                        false,
                    ));
                }
            },
            RebuildAction::Backoff => {
                self.db = None;
                proof {
                    assert(self.rebuild_state()
                        == spec_rebuild_transition(
                        pre.tries(),
                        pre.last_attempt_ms(),
                        now,
                        false,
                        false,
                    ));
                }
            },
            RebuildAction::Wait => {
                self.db = None;
                proof {
                    assert(self.rebuild_state()
                        == spec_rebuild_transition(
                        pre.tries(),
                        pre.last_attempt_ms(),
                        now,
                        false,
                        false,
                    ));
                }
            },
            RebuildAction::Purge => {
                self.db = None;
                store_destroy(self.cache_dir.as_str());
                match store_open(self.cache_dir.as_str()) {
                    Some(db2) => {
                        self.db = Some(db2);
                        self.rebuild_try = 0;
                        proof {
                            assert(self.rebuild_state()
                                == spec_rebuild_transition(
                                pre.tries(),
                                pre.last_attempt_ms(),
                                now,
                                false,
                                true,
                            ));
                        }
                    },
                    None => {
                        proof {
                            assert(self.rebuild_state()
                                == spec_rebuild_transition(
                                pre.tries(),
                                pre.last_attempt_ms(),
                                now,
                                false,
                                false,
                            ));
                        }
                    },
                }
            },
        }
    }
}

} // verus!
