//! The expiry scan: which medicines expire within a horizon.

use crate::date::{CivilDate, Date};
use crate::models::{medicine_views, Medicine, MedicineView};
use vstd::prelude::*;

verus! {

/// The horizon of the daily scan, in days.
pub const EXPIRY_HORIZON_DAYS: u32 = 180;

/// The whole days from `today` to `expiry`: negative once the day has passed.
pub open spec fn days_until(expiry: CivilDate, today: CivilDate) -> int {
    expiry.day_number() - today.day_number()
}

/// Whether `expiry` is on or before the day that lies `horizon_days` after
/// `today`.
pub open spec fn expires_within(expiry: CivilDate, today: CivilDate, horizon_days: int) -> bool {
    days_until(expiry, today) <= horizon_days
}

/// Those of `medicines` that expire within the horizon, in their order.
pub open spec fn expiring(medicines: Seq<MedicineView>, today: CivilDate, horizon_days: int) -> Seq<
    MedicineView,
>
    decreases medicines.len(),
{
    if medicines.len() == 0 {
        Seq::empty()
    } else {
        let before = expiring(medicines.drop_last(), today, horizon_days);
        if expires_within(medicines.last().expiry_date, today, horizon_days) {
            before.push(medicines.last())
        } else {
            before
        }
    }
}

/// The scan returns exactly the medicines that expire within the horizon:
/// each medicine that it returns is one of the inventory and expires on or
/// before the last day of the horizon, and each such medicine of the
/// inventory is returned, the one that expires on the last day too.
pub proof fn lemma_expiring_exact(
    medicines: Seq<MedicineView>,
    today: CivilDate,
    horizon_days: int,
)
    ensures
        forall|m: MedicineView| #[trigger]
            expiring(medicines, today, horizon_days).contains(m) <==> medicines.contains(m)
                && expires_within(m.expiry_date, today, horizon_days),
        expiring(medicines, today, horizon_days).len() <= medicines.len(),
    decreases medicines.len(),
{
    let out = expiring(medicines, today, horizon_days);
    if medicines.len() > 0 {
        let front = medicines.drop_last();
        let last = medicines.last();
        let before = expiring(front, today, horizon_days);
        lemma_expiring_exact(front, today, horizon_days);
        assert forall|m: MedicineView| #[trigger]
            out.contains(m) <==> medicines.contains(m) && expires_within(
                m.expiry_date,
                today,
                horizon_days,
            ) by {
            let keep = expires_within(last.expiry_date, today, horizon_days);
            assert(out == if keep {
                before.push(last)
            } else {
                before
            });
            if out.contains(m) {
                let i = choose|i: int| 0 <= i < out.len() && out[i] == m;
                if i < before.len() {
                    assert(before[i] == m);
                    assert(before.contains(m));
                    let j = choose|j: int| 0 <= j < front.len() && front[j] == m;
                    assert(medicines[j] == m);
                } else {
                    assert(m == last);
                    assert(medicines[medicines.len() - 1] == m);
                }
            }
            if medicines.contains(m) && expires_within(m.expiry_date, today, horizon_days) {
                let j = choose|j: int| 0 <= j < medicines.len() && medicines[j] == m;
                if j < front.len() {
                    assert(front[j] == m);
                    assert(front.contains(m));
                    assert(before.contains(m));
                    let i = choose|i: int| 0 <= i < before.len() && before[i] == m;
                    assert(out[i] == m);
                } else {
                    assert(m == last);
                    assert(out[out.len() - 1] == m);
                }
            }
        }
    } else {
        assert forall|m: MedicineView| !(#[trigger] out.contains(m)) && !medicines.contains(m) by {}
    }
}

/// The whole days from `today` until `medicine` expires.
pub fn days_until_expiry(medicine: &Medicine, today: Date) -> (days: i64)
    ensures
        days == days_until(medicine@.expiry_date, today@),
{
    medicine.expiry_date.days_since(today)
}

/// Tells whether `medicine` expires within `horizon_days` of `today`.
pub fn is_expiring(medicine: &Medicine, today: Date, horizon_days: u32) -> (b: bool)
    ensures
        b == expires_within(medicine@.expiry_date, today@, horizon_days as int),
{
    days_until_expiry(medicine, today) <= horizon_days as i64
}

/// Scans `medicines` for those that expire on or before the day that lies
/// `horizon_days` after `today`. Nothing is changed; where none expires, the
/// result is empty.
pub fn scan_expiring(medicines: &Vec<Medicine>, today: Date, horizon_days: u32) -> (found: Vec<
    Medicine,
>)
    ensures
        medicine_views(found@) == expiring(
            medicine_views(medicines@),
            today@,
            horizon_days as int,
        ),
{
    let mut found: Vec<Medicine> = Vec::new();
    let mut i: usize = 0;
    let ghost all = medicine_views(medicines@);
    while i < medicines.len()
        invariant
            i <= medicines.len(),
            all == medicine_views(medicines@),
            medicine_views(found@) == expiring(
                all.subrange(0, i as int),
                today@,
                horizon_days as int,
            ),
        decreases medicines.len() - i,
    {
        let ghost before = medicine_views(found@);
        if is_expiring(&medicines[i], today, horizon_days) {
            found.push(medicines[i].clone());
            assert(medicine_views(found@) =~= before.push(medicines@[i as int]@));
        }
        proof {
            let prefix = all.subrange(0, i + 1);
            assert(prefix.drop_last() =~= all.subrange(0, i as int));
            assert(prefix.last() == medicines@[i as int]@);
        }
        i = i + 1;
    }
    assert(all.subrange(0, medicines.len() as int) =~= all);
    found
}

/// Scans `medicines` for those that expire within the horizon of the daily
/// scan, counted from the day that it is now.
pub fn fetch_expiring_medicines(medicines: &Vec<Medicine>) -> (found: Vec<Medicine>)
    ensures
        exists|today: CivilDate|
            #![trigger today.valid()]
            today.valid() && medicine_views(found@) == expiring(
                medicine_views(medicines@),
                today,
                EXPIRY_HORIZON_DAYS as int,
            ),
{
    let today = Date::today();
    let found = scan_expiring(medicines, today, EXPIRY_HORIZON_DAYS);
    assert(today@.valid() && medicine_views(found@) == expiring(
        medicine_views(medicines@),
        today@,
        EXPIRY_HORIZON_DAYS as int,
    ));
    found
}

} // verus!
