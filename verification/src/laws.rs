//! Facility-wide laws, proved once against the same specification
//! functions the executable contracts are stated over.

use vstd::prelude::*;

use crate::history::{spec_day_start, HistoricPrice};
use crate::loan::MataLoan;
use crate::penalty::{
    spec_accrual_result, spec_accrual_sum, spec_accrual_sum_to, spec_day_contribution,
    spec_day_eligible,
};

verus! {

proof fn lemma_sum_to_push(
    s: Seq<HistoricPrice>,
    e: HistoricPrice,
    loan: MataLoan,
    today: int,
    last_day: int,
    multiplier: int,
    i: int,
)
    requires
        0 <= i <= s.len(),
    ensures
        spec_accrual_sum_to(s.push(e), loan, today, last_day, multiplier, i)
            == spec_accrual_sum_to(s, loan, today, last_day, multiplier, i),
    decreases i,
{
    if i > 0 {
        lemma_sum_to_push(s, e, loan, today, last_day, multiplier, i - 1);
        assert(s.push(e)[i - 1] == s[i - 1]);
    }
}

/// A history day is never charged when its price fields are zeroed (an
/// invalid sample), when its date precedes the loan's creation, or when it
/// is the still-open day: adding such a slot to the ledger leaves the
/// accrual total exactly as it was, for every loan and every ledger.
pub proof fn lemma_skipped_day_charges_nothing(
    s: Seq<HistoricPrice>,
    loan: MataLoan,
    today: int,
    last_day: int,
    multiplier: int,
    e: HistoricPrice,
)
    requires
        e.sol_price == 0 || e.lucra_price == 0 || e.date < loan.loan_creation_date || e.date
            == today,
    ensures
        spec_accrual_sum(s.push(e), loan, today, last_day, multiplier) == spec_accrual_sum(
            s,
            loan,
            today,
            last_day,
            multiplier,
        ),
{
    assert(!spec_day_eligible(e, loan, today, last_day));
    lemma_sum_to_push(s, e, loan, today, last_day, multiplier, s.len() as int);
    assert(s.push(e)[s.len() as int] == e);
    assert(spec_day_contribution(e, loan, today, last_day, multiplier) == 0);
}

proof fn lemma_sum_of_stale_days_is_zero(
    s: Seq<HistoricPrice>,
    loan: MataLoan,
    today: int,
    last_day: int,
    multiplier: int,
    i: int,
)
    requires
        forall|j: int| 0 <= j < s.len() ==> (#[trigger] s[j]).date <= last_day,
        i <= s.len(),
    ensures
        spec_accrual_sum_to(s, loan, today, last_day, multiplier, i) == 0,
    decreases i,
{
    if i > 0 {
        lemma_sum_of_stale_days_is_zero(s, loan, today, last_day, multiplier, i - 1);
        assert(!spec_day_eligible(s[i - 1], loan, today, last_day));
    }
}

/// The accrual algorithm is idempotent: once a run at time `t1` has
/// advanced the loan's processed-days checkpoint to `t1`, a later run over
/// the same ledger finds no eligible day and charges nothing — provided no
/// slot is dated after the day of `t1`, which is every ledger the sampler
/// can produce (it only ever stamps elapsed or current days).
pub proof fn lemma_accrual_idempotent(
    s: Seq<HistoricPrice>,
    loan: MataLoan,
    today: int,
    t1: i64,
    multiplier: int,
)
    requires
        forall|j: int| 0 <= j < s.len() ==> (#[trigger] s[j]).date <= spec_day_start(t1 as int),
        loan.last_day_penalty_was_checked == t1,
        loan.wf(),
    ensures
        spec_accrual_sum(s, loan, today, spec_day_start(t1 as int), multiplier) == 0,
        spec_accrual_result(s, loan, today, spec_day_start(t1 as int), multiplier) == 0,
{
    lemma_sum_of_stale_days_is_zero(
        s,
        loan,
        today,
        spec_day_start(t1 as int),
        multiplier,
        s.len() as int,
    );
}

} // verus!
