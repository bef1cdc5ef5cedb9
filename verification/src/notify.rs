//! Expiry alerts: the text of one alert, the alerts of one scan, and the
//! report on how the sends went.

use crate::date::{formatted, numeric_pattern, CivilDate, Date};
use crate::expiry::{
    days_until, days_until_expiry, expiring, scan_expiring, EXPIRY_HORIZON_DAYS,
};
use crate::models::{medicine_views, Medicine, MedicineView};
use crate::text::{decimal_text, push_decimal, push_str, string_of};
use crate::utils::{escape_markdown, escaped, format_date};
use vstd::prelude::*;

verus! {

/// The text of the alert for one medicine: its name with the reserved
/// characters escaped, the day it expires, the whole days until then and
/// the units in stock. Once the day has passed, the days are negative.
pub open spec fn alert_text(medicine: MedicineView, today: CivilDate) -> Seq<char> {
    "\u{26a0}\u{fe0f} *Medicine Expiry Alert*\n\n*Name:* `"@ + escaped(medicine.name)
        + "`\n*Expiry Date:* `"@ + formatted(medicine.expiry_date, numeric_pattern())
        + "`\n*Days until expiry:* `"@ + decimal_text(days_until(medicine.expiry_date, today))
        + "`\n*Quantity:* `"@ + decimal_text(medicine.stock)
        + "`\nPlease check and take appropriate action\\."@
}

/// Where in the alert the count of days begins.
pub open spec fn days_offset(medicine: MedicineView) -> int {
    ("\u{26a0}\u{fe0f} *Medicine Expiry Alert*\n\n*Name:* `"@ + escaped(medicine.name)
        + "`\n*Expiry Date:* `"@ + formatted(medicine.expiry_date, numeric_pattern())
        + "`\n*Days until expiry:* `"@).len() as int
}

/// The alert holds the count of the days until the expiry, written in
/// decimal, as one piece.
pub proof fn lemma_alert_holds_days(medicine: MedicineView, today: CivilDate)
    ensures
        ({
            let days = decimal_text(days_until(medicine.expiry_date, today));
            let at = days_offset(medicine);
            &&& 0 <= at
            &&& at + days.len() <= alert_text(medicine, today).len()
            &&& alert_text(medicine, today).subrange(at, at + days.len()) == days
        }),
{
    let days = decimal_text(days_until(medicine.expiry_date, today));
    let at = days_offset(medicine);
    assert(alert_text(medicine, today).subrange(at, at + days.len()) =~= days);
}

/// The alert for `medicine`, as it reads on the day `today`.
pub fn expiry_notification(medicine: &Medicine, today: Date) -> (out: String)
    ensures
        out@ == alert_text(medicine@, today@),
{
    let days = days_until_expiry(medicine, today);
    let name = escape_markdown(medicine.name.as_str());
    let date = format_date(medicine.expiry_date);
    let mut text: Vec<char> = Vec::new();
    push_str(&mut text, "\u{26a0}\u{fe0f} *Medicine Expiry Alert*\n\n*Name:* `");
    push_str(&mut text, name.as_str());
    push_str(&mut text, "`\n*Expiry Date:* `");
    push_str(&mut text, date.as_str());
    push_str(&mut text, "`\n*Days until expiry:* `");
    push_decimal(&mut text, days);
    push_str(&mut text, "`\n*Quantity:* `");
    push_decimal(&mut text, medicine.stock);
    push_str(&mut text, "`\nPlease check and take appropriate action\\.");
    assert(text@ =~= alert_text(medicine@, today@));
    string_of(&text)
}

/// One alert that is to be sent.
#[derive(Debug)]
pub struct Notification {
    /// The medicine that the alert is about.
    pub medicine_id: i64,
    /// The text, with the reserved characters of the payload escaped.
    pub text: String,
}

/// What a [`Notification`] holds.
pub struct NotificationView {
    pub medicine_id: int,
    pub text: Seq<char>,
}

impl View for Notification {
    type V = NotificationView;

    open spec fn view(&self) -> NotificationView {
        NotificationView { medicine_id: self.medicine_id as int, text: self.text@ }
    }
}

/// The alert that is to be sent for `medicine`.
pub open spec fn notification_for(medicine: MedicineView, today: CivilDate) -> NotificationView {
    NotificationView { medicine_id: medicine.id, text: alert_text(medicine, today) }
}

/// The alerts for `items`: one for each, in their order. The sends are
/// independent of each other, so they can be made at the same time.
pub fn notifications(items: &Vec<Medicine>, today: Date) -> (out: Vec<Notification>)
    ensures
        out@.len() == items@.len(),
        forall|i: int|
            0 <= i < items@.len() ==> (#[trigger] out@[i])@ == notification_for(
                items@[i]@,
                today@,
            ),
{
    let mut out: Vec<Notification> = Vec::new();
    let mut i: usize = 0;
    while i < items.len()
        invariant
            i <= items.len(),
            out@.len() == i,
            forall|j: int|
                0 <= j < i ==> (#[trigger] out@[j])@ == notification_for(items@[j]@, today@),
        decreases items.len() - i,
    {
        let text = expiry_notification(&items[i], today);
        out.push(Notification { medicine_id: items[i].id, text });
        i = i + 1;
    }
    out
}

/// The alerts of one scan: one for each of `medicines` that expires within
/// `horizon_days` of `today`, in their order.
pub fn due_notifications(medicines: &Vec<Medicine>, today: Date, horizon_days: u32) -> (out: Vec<
    Notification,
>)
    ensures
        ({
            let due = expiring(medicine_views(medicines@), today@, horizon_days as int);
            &&& out@.len() == due.len()
            &&& forall|i: int|
                0 <= i < due.len() ==> (#[trigger] out@[i])@ == notification_for(due[i], today@)
        }),
{
    let due = scan_expiring(medicines, today, horizon_days);
    let out = notifications(&due, today);
    proof {
        let views = expiring(medicine_views(medicines@), today@, horizon_days as int);
        assert(medicine_views(due@) == views);
        assert forall|i: int| 0 <= i < views.len() implies (#[trigger] out@[i])@
            == notification_for(views[i], today@) by {
            assert(medicine_views(due@)[i] == due@[i]@);
        }
    }
    out
}

/// The alerts of the daily scan, on the day that it is now. The clock
/// decides the day; the horizon is that of the daily scan.
pub fn check_expiring_medicines(medicines: &Vec<Medicine>) -> (out: Vec<Notification>)
    ensures
        exists|today: CivilDate|
            #![trigger today.valid()]
            {
                let due = expiring(medicine_views(medicines@), today, EXPIRY_HORIZON_DAYS as int);
                &&& today.valid()
                &&& out@.len() == due.len()
                &&& forall|i: int|
                    0 <= i < due.len() ==> (#[trigger] out@[i])@ == notification_for(
                        due[i],
                        today,
                    )
            },
{
    let today = Date::today();
    let out = due_notifications(medicines, today, EXPIRY_HORIZON_DAYS);
    proof {
        let due = expiring(medicine_views(medicines@), today@, EXPIRY_HORIZON_DAYS as int);
        assert(today@.valid() && out@.len() == due.len());
    }
    out
}

/// How the send of one alert went.
#[derive(Clone, Copy, Debug, PartialEq, Eq, Structural)]
pub struct SendOutcome {
    /// The medicine that the alert was about.
    pub medicine_id: i64,
    /// Whether the channel took the alert. A send that timed out did not
    /// deliver.
    pub delivered: bool,
}

/// How many of `outcomes` delivered.
pub open spec fn delivered_count(outcomes: Seq<SendOutcome>) -> nat
    decreases outcomes.len(),
{
    if outcomes.len() == 0 {
        0
    } else {
        let last: nat = if outcomes.last().delivered {
            1
        } else {
            0
        };
        delivered_count(outcomes.drop_last()) + last
    }
}

/// The medicines of the `outcomes` that did not deliver, in their order.
pub open spec fn failed_medicines(outcomes: Seq<SendOutcome>) -> Seq<i64>
    decreases outcomes.len(),
{
    if outcomes.len() == 0 {
        Seq::empty()
    } else if outcomes.last().delivered {
        failed_medicines(outcomes.drop_last())
    } else {
        failed_medicines(outcomes.drop_last()).push(outcomes.last().medicine_id)
    }
}

/// The report on one round of alerts.
#[derive(Debug)]
pub struct NotificationReport {
    /// How many alerts were sent.
    pub attempted: usize,
    /// How many of them the channel took.
    pub succeeded: usize,
    /// How many of them it did not take.
    pub failed: usize,
    /// The medicines whose alerts it did not take.
    pub failed_ids: Vec<i64>,
}

/// Every send either delivers or fails, and each failure names its medicine.
pub proof fn lemma_counts(outcomes: Seq<SendOutcome>)
    ensures
        delivered_count(outcomes) + failed_medicines(outcomes).len() == outcomes.len(),
    decreases outcomes.len(),
{
    if outcomes.len() > 0 {
        lemma_counts(outcomes.drop_last());
    }
}

/// Where the sends at the even positions fail and those at the odd positions
/// deliver, half of the alerts, rounded down, are delivered, and the others,
/// half of them rounded up, fail.
pub proof fn lemma_every_second_fails(outcomes: Seq<SendOutcome>)
    requires
        forall|i: int| 0 <= i < outcomes.len() ==> (#[trigger] outcomes[i]).delivered == (i % 2 == 1),
    ensures
        delivered_count(outcomes) == outcomes.len() / 2,
        failed_medicines(outcomes).len() == outcomes.len() - outcomes.len() / 2,
        failed_medicines(outcomes).len() == (outcomes.len() + 1) / 2,
    decreases outcomes.len(),
{
    lemma_counts(outcomes);
    if outcomes.len() > 0 {
        let front = outcomes.drop_last();
        assert forall|i: int| 0 <= i < front.len() implies (#[trigger] front[i]).delivered == (i
            % 2 == 1) by {
            assert(front[i] == outcomes[i]);
        }
        lemma_every_second_fails(front);
        assert(outcomes.last() == outcomes[outcomes.len() - 1]);
    }
}

impl NotificationReport {
    /// Counts the outcomes of the sends of one round. No failure of a send
    /// is passed on: it is counted, and its medicine is listed.
    pub fn tally(outcomes: &Vec<SendOutcome>) -> (report: NotificationReport)
        ensures
            report.attempted == outcomes@.len(),
            report.succeeded == delivered_count(outcomes@),
            report.failed == outcomes@.len() - delivered_count(outcomes@),
            report.failed_ids@ == failed_medicines(outcomes@),
    {
        let mut succeeded: usize = 0;
        let mut failed_ids: Vec<i64> = Vec::new();
        let mut i: usize = 0;
        while i < outcomes.len()
            invariant
                i <= outcomes.len(),
                succeeded == delivered_count(outcomes@.subrange(0, i as int)),
                succeeded <= i,
                failed_ids@ == failed_medicines(outcomes@.subrange(0, i as int)),
            decreases outcomes.len() - i,
        {
            proof {
                let prefix = outcomes@.subrange(0, i + 1);
                assert(prefix.drop_last() =~= outcomes@.subrange(0, i as int));
                assert(prefix.last() == outcomes@[i as int]);
            }
            if outcomes[i].delivered {
                succeeded = succeeded + 1;
            } else {
                failed_ids.push(outcomes[i].medicine_id);
            }
            i = i + 1;
        }
        proof {
            assert(outcomes@.subrange(0, outcomes.len() as int) =~= outcomes@);
            lemma_counts(outcomes@);
        }
        NotificationReport {
            attempted: outcomes.len(),
            succeeded,
            failed: outcomes.len() - succeeded,
            failed_ids,
        }
    }
}

} // verus!
