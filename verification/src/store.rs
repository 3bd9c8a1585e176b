//! The decisions that a store and its drivers make around storage calls:
//! when a value expires, which values a read shows, and how a refused write
//! or a missing delete is reported.

use vstd::prelude::*;

use crate::error::{code_of, ErrorCode, YugenDbError};
use crate::batch::BatchResult;
use crate::key::{message_of, valid_component, validation_outcome, ComponentKind, Key};
use crate::order::{chars_of, starts_with, text_starts_with};
use crate::options::{DeleteOptions, WriteOptions};
use crate::time::{duration_fits_time_delta, fits_time_delta, instant, duration_nanos, timestamp_after, utc_checked_add, utc_now, Duration, Timestamp, NANOS_PER_SEC};
use crate::value::{expired_at, StoredValue, StoredValueView, ValueBytes, ValueMetadata};

verus! {

/// The message of the error reported for a time-to-live that cannot be added
/// to the current time.
pub open spec fn ttl_too_large_message() -> Seq<char> {
    "ttl duration is too large"@
}

/// A time-to-live can be added to `now`: it fits in a time delta, and the
/// sum lies in the supported range of dates. Where it fits and the sum does
/// not, the sum overflows.
pub open spec fn ttl_addable(now: Timestamp, ttl: Option<Duration>) -> bool {
    ttl matches Some(d) ==> (fits_time_delta(d) ==> utc_checked_add(
        now.secs,
        now.nanos,
        d.spec_secs(),
        d.spec_subsec_nanos(),
    ) is Some)
}

/// The expiry time that a write at `now` with time-to-live `ttl` records,
/// where the time-to-live fits in a time delta.
pub open spec fn expiry_after(now: Timestamp, ttl: Duration) -> Timestamp {
    utc_checked_add(now.secs, now.nanos, ttl.spec_secs(), ttl.spec_subsec_nanos()).unwrap()
}

/// Computes the expiry time of a write at `now`: none without a
/// time-to-live, `now` plus the time-to-live with one. A time-to-live that
/// does not fit in a time delta is reported as an invalid value.
pub fn expiry_for(now: Timestamp, ttl: Option<Duration>) -> (expires_at: Result<Option<Timestamp>, YugenDbError>)
    requires
        ttl_addable(now, ttl),
    ensures
        match ttl {
            None => expires_at == Ok::<Option<Timestamp>, YugenDbError>(None),
            Some(d) => if fits_time_delta(d) {
                expires_at == Ok::<Option<Timestamp>, YugenDbError>(Some(expiry_after(now, d)))
            } else {
                expires_at matches Err(e) && code_of(e) == ErrorCode::InvalidValue && message_of(e)
                    == ttl_too_large_message()
            },
        },
        now.nanos < NANOS_PER_SEC ==> (ttl matches Some(d) ==> (expires_at matches Ok(Some(t)) ==> instant(t)
            == instant(now) + duration_nanos(d) && t.nanos < NANOS_PER_SEC)),
{
    match ttl {
        None => Ok(None),
        Some(d) => match timestamp_after(now, d) {
            Some(t) => Ok(Some(t)),
            None => {
                proof {
                    reveal_strlit("ttl duration is too large");
                }
                Err(YugenDbError::invalid_value("ttl duration is too large"))
            },
        },
    }
}

/// Builds the stored value that a write at `now` records: the serialised
/// bytes, the codec's name, `now` as creation and update time, and the expiry
/// that the write options give.
pub fn prepare_value(bytes: ValueBytes, codec_name: &str, now: Timestamp, options: &WriteOptions) -> (value: Result<
    StoredValue,
    YugenDbError,
>)
    requires
        ttl_addable(now, options.ttl),
    ensures
        match options.ttl {
            None => value matches Ok(v) && v@ == (StoredValueView {
                bytes: bytes@,
                codec: codec_name@,
                created_at: now,
                updated_at: now,
                expires_at: None,
            }),
            Some(d) => if fits_time_delta(d) {
                value matches Ok(v) && v@ == (StoredValueView {
                    bytes: bytes@,
                    codec: codec_name@,
                    created_at: now,
                    updated_at: now,
                    expires_at: Some(expiry_after(now, d)),
                })
            } else {
                value matches Err(e) && code_of(e) == ErrorCode::InvalidValue && message_of(e) == ttl_too_large_message()
            },
        },
        now.nanos < NANOS_PER_SEC ==> (options.ttl matches Some(d) ==> (value matches Ok(v) ==> (v@.expires_at matches Some(
            t,
        ) && instant(t) == instant(now) + duration_nanos(d) && t.nanos < NANOS_PER_SEC))),
{
    let expires_at = match expiry_for(now, options.ttl) {
        Ok(t) => t,
        Err(e) => {
            return Err(e);
        },
    };
    let metadata = ValueMetadata::new(codec_name, now, expires_at);
    Ok(StoredValue::new(bytes, metadata))
}

/// Builds the stored value of a write at the current time, as
/// `prepare_value` does at that time. A time-to-live that does not fit in a
/// time delta, or whose sum with the current time leaves the supported range
/// of dates, is reported as an invalid value; no other input fails.
pub fn prepare_value_now(bytes: ValueBytes, codec_name: &str, options: &WriteOptions) -> (value: Result<
    StoredValue,
    YugenDbError,
>)
    ensures
        value matches Ok(v) ==> {
            &&& v@.bytes == bytes@
            &&& v@.codec == codec_name@
            &&& v@.created_at == v@.updated_at
            &&& v@.created_at.nanos < NANOS_PER_SEC
            &&& match options.ttl {
                None => v@.expires_at is None,
                Some(d) => {
                    &&& fits_time_delta(d)
                    &&& ttl_addable(v@.created_at, options.ttl)
                    &&& v@.expires_at == Some(expiry_after(v@.created_at, d))
                    &&& v@.expires_at matches Some(t) && instant(t) == instant(v@.created_at) + duration_nanos(d)
                        && t.nanos < NANOS_PER_SEC
                },
            }
        },
        value matches Err(e) ==> (options.ttl is Some && code_of(e) == ErrorCode::InvalidValue && message_of(e)
            == ttl_too_large_message()),
        value is Err ==> (options.ttl matches Some(d) && (fits_time_delta(d) ==> exists|now: Timestamp|
            now.nanos < NANOS_PER_SEC && !#[trigger] ttl_addable(now, options.ttl))),
        options.ttl matches Some(d) ==> (!fits_time_delta(d) ==> value is Err),
{
    let now = utc_now();
    if let Some(d) = options.ttl {
        if duration_fits_time_delta(&d) && timestamp_after(now, d).is_none() {
            proof {
                reveal_strlit("ttl duration is too large");
                assert(!ttl_addable(now, options.ttl));
            }
            return Err(YugenDbError::invalid_value("ttl duration is too large"));
        }
    }
    prepare_value(bytes, codec_name, now, options)
}

/// Whether a read shows a stored value at `now`.
pub open spec fn shown(value: StoredValueView, allow_expired: bool, now: Timestamp) -> bool {
    allow_expired || !expired_at(value.expires_at, now)
}

/// Keeps a value that a read shows at `now` and drops one that has expired,
/// unless expired values are allowed.
pub fn visible_value(value: Option<StoredValue>, allow_expired: bool, now: Timestamp) -> (shown_value: Option<StoredValue>)
    ensures
        match value {
            Some(v) => if shown(v@, allow_expired, now) {
                shown_value == Some(v)
            } else {
                shown_value is None
            },
            None => shown_value is None,
        },
{
    match value {
        Some(v) => {
            if v.is_expired_at(now) && !allow_expired {
                None
            } else {
                Some(v)
            }
        },
        None => None,
    }
}

/// A value written at `created` with time-to-live `ttl` is shown by a read
/// that does not allow expired values exactly until `ttl` has passed since
/// the write, and always by one that allows them.
pub proof fn law_ttl_window(value: StoredValueView, created: Timestamp, ttl: Duration, later: Timestamp)
    requires
        created.nanos < NANOS_PER_SEC,
        later.nanos < NANOS_PER_SEC,
        value.expires_at matches Some(t) && instant(t) == instant(created) + duration_nanos(ttl) && t.nanos
            < NANOS_PER_SEC,
    ensures
        shown(value, false, later) <==> instant(later) < instant(created) + duration_nanos(ttl),
        shown(value, true, later),
{
}

/// The records that a scan shows at `now`.
pub open spec fn shown_record(include_expired: bool, now: Timestamp) -> spec_fn((Key, StoredValue)) -> bool {
    |record: (Key, StoredValue)| shown(record.1@, include_expired, now)
}

/// Keeps, in order, the scanned records that a scan shows at `now`.
pub fn retain_visible(records: Vec<(Key, StoredValue)>, include_expired: bool, now: Timestamp) -> (kept: Vec<
    (Key, StoredValue),
>)
    ensures
        kept@ == records@.filter(shown_record(include_expired, now)),
{
    let ghost all = records@;
    let ghost keep = shown_record(include_expired, now);
    let mut kept: Vec<(Key, StoredValue)> = Vec::new();
    proof {
        assert(all.take(0).filter(keep) =~= kept@);
    }
    for record in it: records
        invariant
            it.seq() == all,
            keep == shown_record(include_expired, now),
            kept@ == all.take(it.index() as int).filter(keep),
    {
        let ghost i = it.index() as int;
        proof {
            assert(record == all[i]);
            assert(all.take(i + 1).drop_last() =~= all.take(i));
            assert(all.take(i + 1).last() == all[i]);
            reveal_with_fuel(Seq::filter, 1);
        }
        let ghost before = kept@;
        let keep_record = include_expired || !record.1.is_expired_at(now);
        proof {
            assert(keep_record == shown(all[i].1@, include_expired, now));
        }
        if keep_record {
            kept.push(record);
        }
        proof {
            reveal_with_fuel(Seq::filter, 1);
            assert(keep(all[i]) == shown(all[i].1@, include_expired, now));
            assert(all.take(i + 1).filter(keep) == (if keep(all[i]) {
                all.take(i).filter(keep).push(all[i])
            } else {
                all.take(i).filter(keep)
            }));
        }
    }
    proof {
        assert(all.take(all.len() as int) =~= all);
    }
    kept
}

/// Reports the outcome of a write without overwrite: where a live value
/// exists and overwrite is off, a conflict with `message`; otherwise success.
pub fn check_overwrite(live_value_exists: bool, options: &WriteOptions, message: &str) -> (outcome: Result<(), YugenDbError>)
    ensures
        (!options.overwrite && live_value_exists) ==> (outcome matches Err(e) && code_of(e) == ErrorCode::Conflict
            && message_of(e) == message@),
        !(!options.overwrite && live_value_exists) ==> outcome is Ok,
{
    if !options.overwrite && live_value_exists {
        Err(YugenDbError::conflict(message))
    } else {
        Ok(())
    }
}

/// Reports the outcome of a delete that did or did not remove a value: a
/// not-found error with `message` where a value had to exist and none was
/// removed, otherwise whether one was removed.
pub fn delete_result(removed: bool, options: &DeleteOptions, message: &str) -> (outcome: Result<bool, YugenDbError>)
    ensures
        (options.must_exist && !removed) ==> (outcome matches Err(e) && code_of(e) == ErrorCode::NotFound
            && message_of(e) == message@),
        !(options.must_exist && !removed) ==> outcome == Ok::<bool, YugenDbError>(removed),
{
    if options.must_exist && !removed {
        Err(YugenDbError::not_found(message))
    } else {
        Ok(removed)
    }
}

/// Takes the configured driver of a store builder, or reports that a driver
/// is required.
pub fn require_driver<D>(driver: Option<D>) -> (required: Result<D, YugenDbError>)
    ensures
        match driver {
            Some(d) => required == Ok::<D, YugenDbError>(d),
            None => required matches Err(e) && code_of(e) == ErrorCode::InvalidValue && message_of(e)
                == "store driver is required"@,
        },
{
    match driver {
        Some(d) => Ok(d),
        None => {
            proof {
                reveal_strlit("store driver is required");
            }
            Err(YugenDbError::invalid_value("store driver is required"))
        },
    }
}

/// Collects the records of a scan that reads them in key order from a
/// backend: each record offered is kept where its key starts with the
/// scanned prefix and the scan shows it, until as many records as the limit
/// allows have been kept.
pub struct ScanCollector {
    results: Vec<(Key, StoredValue)>,
    prefix: Vec<char>,
    limit: Option<usize>,
    include_expired: bool,
    now: Timestamp,
}

/// The characters of an optional prefix; no prefix is the empty one.
pub open spec fn prefix_chars(prefix: Option<&str>) -> Seq<char> {
    match prefix {
        Some(p) => p@,
        None => Seq::empty(),
    }
}

impl ScanCollector {
    /// Never more records are kept than the limit allows.
    #[verifier::type_invariant]
    spec fn within_limit(self) -> bool {
        self.limit matches Some(n) ==> self.results@.len() <= n
    }

    /// The records kept so far.
    pub closed spec fn kept(&self) -> Seq<(Key, StoredValue)> {
        self.results@
    }

    /// The prefix that kept keys start with.
    pub closed spec fn spec_prefix(&self) -> Seq<char> {
        self.prefix@
    }

    /// The limit of the scan.
    pub closed spec fn spec_limit(&self) -> Option<usize> {
        self.limit
    }

    /// Whether expired records are kept.
    pub closed spec fn spec_include_expired(&self) -> bool {
        self.include_expired
    }

    /// The time against which expiry is judged.
    pub closed spec fn spec_now(&self) -> Timestamp {
        self.now
    }

    /// Whether the limit has been reached.
    pub open spec fn full(&self) -> bool {
        self.spec_limit() matches Some(n) && self.kept().len() >= n
    }

    /// Whether the scan takes a record with key `key_text` and value `value`:
    /// the key starts with the prefix and the value is shown.
    pub open spec fn takes(&self, key_text: Seq<char>, value: StoredValueView) -> bool {
        text_starts_with(key_text, self.spec_prefix()) && shown(value, self.spec_include_expired(), self.spec_now())
    }

    /// Starts an empty collection for keys starting with `prefix`.
    pub fn new(prefix: Option<&str>, limit: Option<usize>, include_expired: bool, now: Timestamp) -> (collector: Self)
        ensures
            collector.kept() == Seq::<(Key, StoredValue)>::empty(),
            collector.spec_prefix() == prefix_chars(prefix),
            collector.spec_limit() == limit,
            collector.spec_include_expired() == include_expired,
            collector.spec_now() == now,
    {
        let prefix = match prefix {
            Some(p) => chars_of(p),
            None => Vec::new(),
        };
        ScanCollector { results: Vec::new(), prefix, limit, include_expired, now }
    }

    /// Offers the next record, read from the backend in key order with its
    /// key as text. Once the limit is reached nothing more is kept and the
    /// scan is complete. Otherwise a record that the scan does not take is
    /// passed over, and the key of one that it takes is validated and the
    /// record kept. Returns whether the scan is complete: the number kept has
    /// reached the limit.
    pub fn offer(&mut self, key_text: String, value: StoredValue) -> (complete: Result<bool, YugenDbError>)
        ensures
            final(self).spec_prefix() == old(self).spec_prefix(),
            final(self).spec_limit() == old(self).spec_limit(),
            final(self).spec_include_expired() == old(self).spec_include_expired(),
            final(self).spec_now() == old(self).spec_now(),
            final(self).spec_limit() matches Some(n) ==> final(self).kept().len() <= n,
            old(self).full() ==> (complete == Ok::<bool, YugenDbError>(true) && final(self).kept() == old(self).kept()),
            !old(self).full() && !old(self).takes(key_text@, value@) ==> (complete == Ok::<bool, YugenDbError>(false)
                && final(self).kept() == old(self).kept()),
            !old(self).full() && old(self).takes(key_text@, value@) ==> validation_outcome(
                ComponentKind::Key,
                key_text@,
                complete,
            ),
            !old(self).full() && old(self).takes(key_text@, value@) && !valid_component(key_text@)
                ==> final(self).kept() == old(self).kept(),
            !old(self).full() && old(self).takes(key_text@, value@) && valid_component(key_text@) ==> {
                &&& final(self).kept().len() == old(self).kept().len() + 1
                &&& final(self).kept().drop_last() == old(self).kept()
                &&& final(self).kept().last().0@ == key_text@
                &&& final(self).kept().last().1 == value
                &&& complete == Ok::<bool, YugenDbError>(final(self).full())
            },
    {
        proof {
            use_type_invariant(&*self);
        }
        if let Some(limit) = self.limit {
            if self.results.len() >= limit {
                return Ok(true);
            }
        }
        let key_chars = chars_of(key_text.as_str());
        if !starts_with(&key_chars, &self.prefix) {
            return Ok(false);
        }
        if value.is_expired_at(self.now) && !self.include_expired {
            return Ok(false);
        }
        let key = match Key::try_from(key_text) {
            Ok(k) => k,
            Err(e) => {
                return Err(e);
            },
        };
        let mut results: Vec<(Key, StoredValue)> = Vec::new();
        std::mem::swap(&mut results, &mut self.results);
        let ghost before = results@;
        results.push((key, value));
        proof {
            assert(results@.drop_last() =~= before);
        }
        let complete = match self.limit {
            Some(limit) => results.len() >= limit,
            None => false,
        };
        self.results = results;
        Ok(complete)
    }

    /// Returns the records kept, in the order they were offered.
    pub fn into_results(self) -> (results: Vec<(Key, StoredValue)>)
        ensures
            results@ == self.kept(),
    {
        self.results
    }
}

/// Counts the operations of a batch that a backend applies one by one.
pub struct BatchTally {
    set_count: usize,
    delete_count: usize,
}

impl View for BatchTally {
    type V = (nat, nat);

    closed spec fn view(&self) -> (nat, nat) {
        (self.set_count as nat, self.delete_count as nat)
    }
}

impl BatchTally {
    /// Starts with no operations counted.
    pub fn new() -> (tally: Self)
        ensures
            tally@ == (0nat, 0nat),
    {
        BatchTally { set_count: 0, delete_count: 0 }
    }

    /// Counts an applied set operation.
    pub fn record_set(&mut self)
        requires
            old(self)@.0 < usize::MAX,
        ensures
            final(self)@ == (old(self)@.0 + 1, old(self)@.1),
    {
        self.set_count = self.set_count + 1;
    }

    /// Counts a delete operation where it removed a value.
    pub fn record_delete(&mut self, removed: bool)
        requires
            old(self)@.1 < usize::MAX,
        ensures
            final(self)@ == (old(self)@.0, if removed { old(self)@.1 + 1 } else { old(self)@.1 }),
    {
        if removed {
            self.delete_count = self.delete_count + 1;
        }
    }

    /// The counts as a batch result.
    pub fn result(&self) -> (result: BatchResult)
        ensures
            result.set_count == self@.0,
            result.delete_count == self@.1,
    {
        BatchResult::new(self.set_count, self.delete_count)
    }
}

} // verus!
