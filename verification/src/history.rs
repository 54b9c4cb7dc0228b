//! The price-history ledger: a fixed ring of daily price snapshots.
//!
//! One slot holds the averaged prices of one sampling window (a day).
//! Samples inside the open window fold in by two-point averaging; when the
//! window has elapsed, an under-sampled day is zeroed out (better absent
//! than misleading) and the oldest slot is overwritten for the new day.
//! Zero price fields mark an invalid day the accrual algorithm must skip.

use vstd::arithmetic::div_mod::{lemma_mod_division_less_than_divisor, lemma_mod_multiples_vanish};
use vstd::pervasive::VecAdditionalExecFns;
use vstd::prelude::*;

use crate::error::LucraErrorCode;
use crate::price::Price;

verus! {

/// Number of snapshot slots the ledger keeps.
pub const PRICE_HISTORY_SLOTS: usize = 30;

/// Minimum spacing between two recorded samples, in seconds.
pub const UNIX_HOUR: i64 = 3_600;

/// Width of one sampling window, in seconds.
pub const UNIX_DAY: i64 = 86_400;

/// Snapshots store prices scaled to this many decimals.
pub const HISTORY_PRICE_DECIMALS: u8 = 6;

/// `10^HISTORY_PRICE_DECIMALS`.
pub const HISTORY_PRICE_SCALE: u128 = 1_000_000;

/// A window closed with fewer samples than this is zeroed out.
pub const MIN_SAMPLES_PER_WINDOW: u32 = 12;

/// A positive multiple of `UNIX_DAY` large enough to shift any `i64`
/// timestamp into the non-negative range.
pub const DAY_ALIGN_OFFSET: i128 = 9_223_372_036_854_806_400;

/// One daily snapshot. A zero price marks an invalid sample.
#[derive(Clone, Copy, Debug, PartialEq, Eq, Structural)]
pub struct HistoricPrice {
    pub date: i64,
    pub sol_price: u64,
    pub sol_decimals: u8,
    pub lucra_price: u64,
    pub lucra_decimals: u8,
}

/// The start of the calendar day containing `t` (floor to a day boundary).
pub open spec fn spec_day_start(t: int) -> int {
    t - t % (UNIX_DAY as int)
}

/// Truncate a timestamp to its day boundary, flooring for negative times.
/// Timestamps of the first representable day, whose boundary the machine
/// word cannot hold, are excluded.
pub fn day_start(t: i64) -> (r: i64)
    requires
        i64::MIN + UNIX_DAY <= t,
    ensures
        r == spec_day_start(t as int),
{
    let shifted: i128 = (t as i128) + DAY_ALIGN_OFFSET;
    let u: u128 = shifted as u128;
    let rem: u128 = u % (UNIX_DAY as u128);
    proof {
        assert(DAY_ALIGN_OFFSET as int == UNIX_DAY as int * 106_751_991_167_301);
        lemma_mod_multiples_vanish(106_751_991_167_301, t as int, UNIX_DAY as int);
        assert(u as int == UNIX_DAY as int * 106_751_991_167_301 + t as int);
        assert(rem as int == t as int % (UNIX_DAY as int));
        lemma_mod_division_less_than_divisor(t as int, UNIX_DAY as int);
    }
    (shifted - rem as i128 - DAY_ALIGN_OFFSET) as i64
}

/// First slot holding a snapshot for `date`, scanning from `i`.
pub open spec fn spec_find_from(s: Seq<HistoricPrice>, date: i64, i: int) -> Option<int>
    decreases s.len() - i,
{
    if i < 0 || i >= s.len() {
        None
    } else if s[i].date == date {
        Some(i)
    } else {
        spec_find_from(s, date, i + 1)
    }
}

/// First slot holding a snapshot for `date`, if any.
pub open spec fn spec_find_by_date(s: Seq<HistoricPrice>, date: i64) -> Option<int> {
    spec_find_from(s, date, 0)
}

/// Argmin of the slot dates over `s[i..]`, ties to the earliest slot,
/// starting from candidate `best`.
pub open spec fn spec_oldest_from(s: Seq<HistoricPrice>, i: int, best: int) -> int
    decreases s.len() - i,
{
    if i < 0 || i >= s.len() {
        best
    } else if 0 <= best < s.len() && s[i].date < s[best].date {
        spec_oldest_from(s, i + 1, i)
    } else {
        spec_oldest_from(s, i + 1, best)
    }
}

/// The slot the ring overwrites next: the first slot with the least date.
pub open spec fn spec_oldest_index(s: Seq<HistoricPrice>) -> int {
    spec_oldest_from(s, 1, 0)
}

/// `floor(p * 10^6)`, the fixed-point form a snapshot stores.
pub open spec fn spec_floor_scaled(p: Price) -> int {
    p.num * HISTORY_PRICE_SCALE / (p.den as int)
}

/// Whether that fixed-point form fits the machine words.
pub open spec fn spec_floor_scaled_fits(p: Price) -> bool {
    p.num * HISTORY_PRICE_SCALE <= u128::MAX && spec_floor_scaled(p) <= u64::MAX
}

/// Two-point average of a stored mantissa with a fresh exact price:
/// `floor((p * 10^6 + stored) / 2)`.
pub open spec fn spec_avg(stored: u64, p: Price) -> int {
    (p.num * HISTORY_PRICE_SCALE + stored * p.den) / (2 * p.den as int)
}

/// Whether that average fits the machine words.
pub open spec fn spec_avg_fits(stored: u64, p: Price) -> bool {
    &&& p.num * HISTORY_PRICE_SCALE <= u128::MAX
    &&& stored * p.den <= u128::MAX
    &&& p.num * HISTORY_PRICE_SCALE + stored * p.den <= u128::MAX
    &&& 2 * p.den <= u128::MAX
    &&& spec_avg(stored, p) <= u64::MAX
}

/// `floor(p * 10^6)` as a 64-bit mantissa.
fn floor_scaled(p: &Price) -> (r: Result<u64, LucraErrorCode>)
    requires
        p.wf(),
    ensures
        r is Ok <==> spec_floor_scaled_fits(*p),
        r is Ok ==> r->Ok_0 == spec_floor_scaled(*p),
        r is Err ==> r->Err_0 == LucraErrorCode::MathError,
{
    let scaled = match p.num.checked_mul(HISTORY_PRICE_SCALE) {
        Some(s) => s,
        None => {
            return Err(LucraErrorCode::MathError);
        },
    };
    let q = scaled / p.den;
    if q > u64::MAX as u128 {
        Err(LucraErrorCode::MathError)
    } else {
        Ok(q as u64)
    }
}

/// Fold a fresh exact price into a stored mantissa by averaging.
fn avg_into(stored: u64, p: &Price) -> (r: Result<u64, LucraErrorCode>)
    requires
        p.wf(),
    ensures
        r is Ok <==> spec_avg_fits(stored, *p),
        r is Ok ==> r->Ok_0 == spec_avg(stored, *p),
        r is Err ==> r->Err_0 == LucraErrorCode::MathError,
{
    let scaled = match p.num.checked_mul(HISTORY_PRICE_SCALE) {
        Some(s) => s,
        None => {
            return Err(LucraErrorCode::MathError);
        },
    };
    let weighted = match (stored as u128).checked_mul(p.den) {
        Some(w) => w,
        None => {
            return Err(LucraErrorCode::MathError);
        },
    };
    let total = match scaled.checked_add(weighted) {
        Some(t) => t,
        None => {
            return Err(LucraErrorCode::MathError);
        },
    };
    let divisor = match p.den.checked_mul(2) {
        Some(d) => d,
        None => {
            return Err(LucraErrorCode::MathError);
        },
    };
    proof {
        assert(p.den * 2 == 2 * p.den);
    }
    let q = total / divisor;
    if q > u64::MAX as u128 {
        Err(LucraErrorCode::MathError)
    } else {
        Ok(q as u64)
    }
}

/// The global bounded time-series of daily prices.
pub struct PriceHistory {
    /// The ring of daily snapshots.
    pub prices: Vec<HistoricPrice>,
    /// Truncated-to-day start of the currently open sampling window.
    pub interval_start: i64,
    /// Samples folded into the current window so far.
    pub update_counter: u32,
    /// Monotonic gate: samples must be spaced by at least an hour.
    pub last_update_timestamp: i64,
}

impl PriceHistory {
    /// The ring always holds exactly its fixed number of slots.
    pub open spec fn wf(self) -> bool {
        self.prices@.len() == PRICE_HISTORY_SLOTS
    }

    /// One-time ledger initialization: all slots empty, the window opens at
    /// the creation time.
    pub fn new(now: i64) -> (r: PriceHistory)
        ensures
            r.wf(),
            r.interval_start == now,
            r.update_counter == 0,
            r.last_update_timestamp == 0,
            forall|i: int|
                0 <= i < PRICE_HISTORY_SLOTS ==> r.prices@[i] == (HistoricPrice {
                    date: 0,
                    sol_price: 0,
                    sol_decimals: 0,
                    lucra_price: 0,
                    lucra_decimals: 0,
                }),
    {
        let mut prices: Vec<HistoricPrice> = Vec::new();
        let mut i: usize = 0;
        while i < PRICE_HISTORY_SLOTS
            invariant
                i == prices@.len() <= PRICE_HISTORY_SLOTS,
                forall|j: int|
                    0 <= j < i ==> prices@[j] == (HistoricPrice {
                        date: 0,
                        sol_price: 0,
                        sol_decimals: 0,
                        lucra_price: 0,
                        lucra_decimals: 0,
                    }),
            decreases PRICE_HISTORY_SLOTS - i,
        {
            prices.push(
                HistoricPrice {
                    date: 0,
                    sol_price: 0,
                    sol_decimals: 0,
                    lucra_price: 0,
                    lucra_decimals: 0,
                },
            );
            i = i + 1;
        }
        PriceHistory { prices, interval_start: now, update_counter: 0, last_update_timestamp: 0 }
    }

    /// First slot holding the snapshot for `date`, if any.
    pub fn find_price_index(&self, date: i64) -> (r: Option<usize>)
        ensures
            r is Some <==> spec_find_by_date(self.prices@, date) is Some,
            r is Some ==> Some(r->0 as int) == spec_find_by_date(self.prices@, date),
            r is Some ==> r->0 < self.prices@.len() && self.prices@[r->0 as int].date == date,
    {
        let n = self.prices.len();
        let mut i: usize = 0;
        while i < n
            invariant
                i <= n == self.prices@.len(),
                spec_find_by_date(self.prices@, date) == spec_find_from(self.prices@, date, i as int),
            decreases n - i,
        {
            if self.prices[i].date == date {
                return Some(i);
            }
            i = i + 1;
        }
        None
    }

    /// The slot the ring overwrites next.
    pub fn oldest_index(&self) -> (r: usize)
        requires
            self.prices@.len() >= 1,
        ensures
            r == spec_oldest_index(self.prices@),
            r < self.prices@.len(),
    {
        let n = self.prices.len();
        let mut best: usize = 0;
        let mut i: usize = 1;
        while i < n
            invariant
                1 <= i <= n == self.prices@.len(),
                best < i,
                spec_oldest_index(self.prices@) == spec_oldest_from(
                    self.prices@,
                    i as int,
                    best as int,
                ),
            decreases n - i,
        {
            if self.prices[i].date < self.prices[best].date {
                best = i;
            }
            i = i + 1;
        }
        best
    }

    /// Record one pair of fresh exact prices at time `now`, per the window
    /// rules. On any error the ledger is unchanged.
    pub fn record_sample(&mut self, now: i64, sol_price: &Price, lucra_price: &Price) -> (r: Result<
        (),
        LucraErrorCode,
    >)
        requires
            old(self).wf(),
            sol_price.wf(),
            lucra_price.wf(),
        ensures
            final(self).wf(),
            r is Err ==> *final(self) == *old(self),
            ({
                let s = *old(self);
                let ivend = s.interval_start + UNIX_DAY;
                let too_soon = s.last_update_timestamp + UNIX_HOUR > now;
                &&& (too_soon ==> r == Err::<(), _>(LucraErrorCode::InsufficientTimePassed))
                &&& (!too_soon && now < s.interval_start ==> r == Err::<(), _>(
                    LucraErrorCode::InvalidState,
                ))
                &&& (!too_soon && s.interval_start <= now <= ivend ==> final(self).spec_in_window_outcome(
                    s,
                    now,
                    *sol_price,
                    *lucra_price,
                    r,
                ))
                &&& (!too_soon && now > ivend ==> final(self).spec_rollover_outcome(
                    s,
                    now,
                    *sol_price,
                    *lucra_price,
                    r,
                ))
            }),
    {
        if (self.last_update_timestamp as i128) + (UNIX_HOUR as i128) > (now as i128) {
            return Err(LucraErrorCode::InsufficientTimePassed);
        }
        let in_window = self.interval_start <= now && (now as i128) <= (self.interval_start
            as i128) + (UNIX_DAY as i128);
        let past_window = (now as i128) > (self.interval_start as i128) + (UNIX_DAY as i128);
        if in_window {
            match self.find_price_index(self.interval_start) {
                Some(i) => {
                    let entry = self.prices[i];
                    let new_sol = avg_into(entry.sol_price, sol_price)?;
                    let new_lucra = avg_into(entry.lucra_price, lucra_price)?;
                    self.prices.set(
                        i,
                        HistoricPrice { sol_price: new_sol, lucra_price: new_lucra, ..entry },
                    );
                },
                None => {
                    let new_sol = floor_scaled(sol_price)?;
                    let new_lucra = floor_scaled(lucra_price)?;
                    self.update_counter = 0;
                    let idx = self.oldest_index();
                    self.prices.set(
                        idx,
                        HistoricPrice {
                            date: self.interval_start,
                            sol_price: new_sol,
                            sol_decimals: HISTORY_PRICE_DECIMALS,
                            lucra_price: new_lucra,
                            lucra_decimals: HISTORY_PRICE_DECIMALS,
                        },
                    );
                },
            }
        } else if past_window {
            let new_sol = floor_scaled(sol_price)?;
            let new_lucra = floor_scaled(lucra_price)?;
            if self.update_counter < MIN_SAMPLES_PER_WINDOW {
                match self.find_price_index(self.interval_start) {
                    Some(j) => {
                        let stale = self.prices[j];
                        self.prices.set(
                            j,
                            HistoricPrice { sol_price: 0, lucra_price: 0, ..stale },
                        );
                    },
                    None => {},
                }
            }
            self.update_counter = 0;
            self.interval_start = day_start(now);
            let idx = self.oldest_index();
            self.prices.set(
                idx,
                HistoricPrice {
                    date: self.interval_start,
                    sol_price: new_sol,
                    sol_decimals: HISTORY_PRICE_DECIMALS,
                    lucra_price: new_lucra,
                    lucra_decimals: HISTORY_PRICE_DECIMALS,
                },
            );
        } else {
            return Err(LucraErrorCode::InvalidState);
        }
        self.update_counter = if self.update_counter == u32::MAX {
            u32::MAX
        } else {
            self.update_counter + 1
        };
        self.last_update_timestamp = now;
        Ok(())
    }

    /// Outcome of a sample landing inside the open window: fold into the
    /// window's slot when it exists, else open the slot in the oldest ring
    /// position with the counter restarted.
    pub open spec fn spec_in_window_outcome(
        self,
        s: PriceHistory,
        now: i64,
        sol: Price,
        lucra: Price,
        r: Result<(), LucraErrorCode>,
    ) -> bool {
        match spec_find_by_date(s.prices@, s.interval_start) {
            Some(i) => {
                let entry = s.prices@[i];
                let fits = spec_avg_fits(entry.sol_price, sol) && spec_avg_fits(
                    entry.lucra_price,
                    lucra,
                );
                &&& (r is Ok <==> fits)
                &&& (r is Err ==> r->Err_0 == LucraErrorCode::MathError)
                &&& (fits ==> self.prices@ == s.prices@.update(
                    i,
                    HistoricPrice {
                        sol_price: spec_avg(entry.sol_price, sol) as u64,
                        lucra_price: spec_avg(entry.lucra_price, lucra) as u64,
                        ..entry
                    },
                ) && self.interval_start == s.interval_start && self.update_counter == (if s
                    .update_counter == u32::MAX {
                    u32::MAX as int
                } else {
                    s.update_counter + 1
                }) && self.last_update_timestamp == now)
            },
            None => {
                let fits = spec_floor_scaled_fits(sol) && spec_floor_scaled_fits(lucra);
                &&& (r is Ok <==> fits)
                &&& (r is Err ==> r->Err_0 == LucraErrorCode::MathError)
                &&& (fits ==> self.prices@ == s.prices@.update(
                    spec_oldest_index(s.prices@),
                    HistoricPrice {
                        date: s.interval_start,
                        sol_price: spec_floor_scaled(sol) as u64,
                        sol_decimals: HISTORY_PRICE_DECIMALS,
                        lucra_price: spec_floor_scaled(lucra) as u64,
                        lucra_decimals: HISTORY_PRICE_DECIMALS,
                    },
                ) && self.interval_start == s.interval_start && self.update_counter == 1
                    && self.last_update_timestamp == now)
            },
        }
    }

    /// Outcome of a sample past the window's end: an under-sampled closed
    /// window is zeroed, then the window advances to the day of `now` and
    /// the oldest ring slot is overwritten with the first sample.
    pub open spec fn spec_rollover_outcome(
        self,
        s: PriceHistory,
        now: i64,
        sol: Price,
        lucra: Price,
        r: Result<(), LucraErrorCode>,
    ) -> bool {
        let fits = spec_floor_scaled_fits(sol) && spec_floor_scaled_fits(lucra);
        let zeroed = if s.update_counter < MIN_SAMPLES_PER_WINDOW {
            match spec_find_by_date(s.prices@, s.interval_start) {
                Some(j) => s.prices@.update(
                    j,
                    HistoricPrice { sol_price: 0, lucra_price: 0, ..s.prices@[j] },
                ),
                None => s.prices@,
            }
        } else {
            s.prices@
        };
        let new_start = spec_day_start(now as int);
        &&& (r is Ok <==> fits)
        &&& (r is Err ==> r->Err_0 == LucraErrorCode::MathError)
        &&& (fits ==> self.prices@ == zeroed.update(
            spec_oldest_index(zeroed),
            HistoricPrice {
                date: new_start as i64,
                sol_price: spec_floor_scaled(sol) as u64,
                sol_decimals: HISTORY_PRICE_DECIMALS,
                lucra_price: spec_floor_scaled(lucra) as u64,
                lucra_decimals: HISTORY_PRICE_DECIMALS,
            },
        ) && self.interval_start == new_start && self.update_counter == 1
            && self.last_update_timestamp == now)
    }
}

} // verus!
