//! The fused state store: the single source of truth for pack telemetry.
//!
//! One writer (the active vendor decoder task) updates the record under
//! exclusive access; every reader takes a whole-record snapshot. An update
//! is all-or-nothing: the record is marked invalid while it runs, and is
//! marked valid again only after the update closure and the safety
//! envelope calculator both succeed. A freshness timestamp is recorded on
//! every completed update, and consumers must treat the record as stale
//! once it is older than their timeout, regardless of the `valid` flag.

use vstd::prelude::*;

use crate::bms::{compute_limits, spec_charge_limit, spec_discharge_limit, Bms, BmsConfig, BmsError};

verus! {

/// The fused battery record plus its freshness timestamp.
pub struct FusedState {
    state: Bms,
    /// Milliseconds-since-boot of the last completed update, if any.
    last_update_ms: Option<u64>,
}

/// The record a successful update commits: the closure's output with the
/// derived limits recomputed and the `valid` flag raised.
pub open spec fn spec_committed(b: Bms) -> Bms {
    Bms {
        charge_max: spec_charge_limit(b, b.config) as u16,
        discharge_max: spec_discharge_limit(b, b.config) as u16,
        valid: true,
        ..b
    }
}

/// The record a failed update leaves behind: the previous record with
/// only the `valid` flag lowered — no telemetry field is partially
/// written.
pub open spec fn spec_rejected(b: Bms) -> Bms {
    Bms { valid: false, ..b }
}

/// Whether a record last updated at `last` is still fresh at `now`.
pub open spec fn spec_fresh(last: Option<u64>, now_ms: u64, timeout_ms: u64) -> bool {
    match last {
        Some(t) => t <= now_ms && now_ms - t <= timeout_ms,
        None => false,
    }
}

impl FusedState {
    pub closed spec fn view(&self) -> Bms {
        self.state
    }

    pub closed spec fn spec_last_update(&self) -> Option<u64> {
        self.last_update_ms
    }

    /// A fresh store: not valid, never updated.
    pub fn new(config: BmsConfig) -> (r: FusedState)
        ensures
            !r@.valid,
            r@.config == config,
            r.spec_last_update() is None,
    {
        FusedState { state: Bms::new(config), last_update_ms: None }
    }

    /// An atomic whole-record snapshot. Readers copy the record out and
    /// release the store at once; they never observe a torn mix of old
    /// and new fields.
    pub fn snapshot(&self) -> (r: Bms)
        ensures
            r == self@,
    {
        self.state
    }

    /// Apply a telemetry update under exclusive access.
    ///
    /// The record is marked invalid, `f` maps the old record to a new
    /// one, and on success the safety envelope calculator runs inline,
    /// the freshness timestamp is set to `now_ms`, and the record is
    /// marked valid. If `f` fails, or it changes the configuration to
    /// one that is not well formed, nothing of its output is kept: the
    /// store holds the old record with `valid == false`, and the
    /// timestamp is unchanged.
    pub fn update<F: FnOnce(Bms) -> Result<Bms, BmsError>>(&mut self, f: F, now_ms: u64) -> (r:
        Result<(), BmsError>)
        requires
            call_requires(f, (spec_rejected(old(self)@),)),
        ensures
            match r {
                Ok(()) => {
                    &&& exists|b: Bms|
                        {
                            &&& call_ensures(f, (spec_rejected(old(self)@),), Ok(b))
                            &&& b.config.wf()
                            &&& final(self)@ == spec_committed(b)
                        }
                    &&& final(self)@.valid
                    &&& final(self).spec_last_update() == Some(now_ms)
                },
                Err(e) => {
                    &&& final(self)@ == spec_rejected(old(self)@)
                    &&& !final(self)@.valid
                    &&& final(self).spec_last_update() == old(self).spec_last_update()
                    &&& (call_ensures(f, (spec_rejected(old(self)@),), Err::<Bms, BmsError>(e)) || (
                    e == BmsError::InvalidConfig && exists|b: Bms|
                        call_ensures(f, (spec_rejected(old(self)@),), Ok::<Bms, BmsError>(b))
                            && !b.config.wf()))
                },
            },
    {
        self.state.valid = false;
        let working = self.state;
        match f(working) {
            Ok(b) => {
                if !b.config.is_wf() {
                    return Err(BmsError::InvalidConfig);
                }
                let limits = compute_limits(&b, &b.config);
                let committed = Bms {
                    charge_max: limits.charge_max,
                    discharge_max: limits.discharge_max,
                    valid: true,
                    ..b
                };
                self.state = committed;
                self.last_update_ms = Some(now_ms);
                proof {
                    assert(self.state == spec_committed(b));
                }
                Ok(())
            },
            Err(e) => Err(e),
        }
    }

    /// The only safe gate for actuation decisions: the record is valid
    /// and its last update is no older than `timeout_ms` at `now_ms`.
    pub fn is_valid_and_fresh(&self, now_ms: u64, timeout_ms: u64) -> (r: bool)
        ensures
            r == (self@.valid && spec_fresh(self.spec_last_update(), now_ms, timeout_ms)),
    {
        let fresh = match self.last_update_ms {
            Some(t) => t <= now_ms && now_ms - t <= timeout_ms,
            None => false,
        };
        self.state.valid && fresh
    }
}

/// Validity gating is all-or-nothing: whatever a completed update did,
/// the stored record is either the committed output of that update
/// (every field from the same cycle, `valid` raised) or the previous
/// record with `valid` lowered and no telemetry field touched — never a
/// torn mix of the two.
pub proof fn lemma_update_untorn(pre: Bms, b: Bms)
    ensures
        spec_committed(b).valid,
        spec_committed(b) == (Bms {
            charge_max: spec_committed(b).charge_max,
            discharge_max: spec_committed(b).discharge_max,
            valid: true,
            ..b
        }),
        !spec_rejected(pre).valid,
        spec_rejected(pre) == (Bms { valid: false, ..pre }),
{
}

/// Staleness is monotonic: once a record's last update is older than the
/// timeout, `is_valid_and_fresh` reports false — whatever the `valid`
/// flag holds — and it keeps reporting false at every later instant
/// until a new update completes.
pub proof fn lemma_monotonic_staleness(
    last: Option<u64>,
    now_ms: u64,
    later_ms: u64,
    timeout_ms: u64,
)
    requires
        now_ms <= later_ms,
    ensures
        last is None ==> !spec_fresh(last, now_ms, timeout_ms),
        match last {
            Some(t) => t <= now_ms && now_ms - t > timeout_ms ==> !spec_fresh(
                last,
                later_ms,
                timeout_ms,
            ),
            None => true,
        },
{
}

} // verus!
