use pharmacy_bot::date::Date;
use pharmacy_bot::expiry::{
    days_until_expiry, fetch_expiring_medicines, is_expiring, scan_expiring, EXPIRY_HORIZON_DAYS,
};
use pharmacy_bot::models::Medicine;
use pharmacy_bot::notify::{
    check_expiring_medicines, due_notifications, expiry_notification, notifications,
    NotificationReport, SendOutcome,
};

fn date(y: i32, m: u32, d: u32) -> Date {
    Date::from_ymd_opt(y, m, d).unwrap()
}

fn medicine(id: i64, name: &str, stock: i64, expiry: Date) -> Medicine {
    Medicine { id, name: name.to_string(), stock, expiry_date: expiry }
}

fn ids(found: &Vec<Medicine>) -> Vec<i64> {
    found.iter().map(|m| m.id).collect()
}

#[test]
fn the_scan_returns_what_expires_within_the_horizon() {
    let today = date(2025, 1, 1);
    let medicines = vec![
        medicine(1, "expired", 1, date(2024, 12, 1)),
        medicine(2, "far", 1, date(2026, 1, 31)),
        medicine(3, "today", 1, today),
        medicine(4, "last day", 1, date(2025, 6, 30)),
        medicine(5, "day after", 1, date(2025, 7, 1)),
        medicine(6, "soon", 1, date(2025, 1, 11)),
    ];
    assert_eq!(EXPIRY_HORIZON_DAYS, 180);
    let found = scan_expiring(&medicines, today, 180);
    assert_eq!(ids(&found), vec![1, 3, 4, 6]);
    assert_eq!(found[2].name, "last day");
    assert!(is_expiring(&medicines[3], today, 180));
    assert!(!is_expiring(&medicines[4], today, 180));
    assert_eq!(days_until_expiry(&medicines[3], today), 180);
    assert_eq!(days_until_expiry(&medicines[4], today), 181);
    assert_eq!(days_until_expiry(&medicines[0], today), -31);
    assert_eq!(ids(&scan_expiring(&medicines, today, 0)), vec![1, 3]);
    assert_eq!(ids(&scan_expiring(&medicines, today, 181)), vec![1, 3, 4, 5, 6]);
    // the scan reads only
    assert_eq!(medicines.len(), 6);
}

#[test]
fn a_scan_that_finds_nothing_returns_nothing() {
    let today = date(2025, 1, 1);
    assert!(scan_expiring(&vec![], today, 180).is_empty());
    let medicines = vec![medicine(2, "far", 1, date(2026, 1, 31))];
    assert!(scan_expiring(&medicines, today, 180).is_empty());
    assert!(due_notifications(&medicines, today, 180).is_empty());
}

#[test]
fn the_daily_scan_counts_from_today() {
    let medicines = vec![
        medicine(1, "long gone", 1, date(2000, 1, 1)),
        medicine(2, "never", 1, date(9999, 12, 31)),
    ];
    assert_eq!(ids(&fetch_expiring_medicines(&medicines)), vec![1]);
    let alerts = check_expiring_medicines(&medicines);
    assert_eq!(alerts.len(), 1);
    assert_eq!(alerts[0].medicine_id, 1);
    assert_eq!(alerts[0].text, expiry_notification(&medicines[0], Date::today()));
}

#[test]
fn a_medicine_that_expires_in_ten_days_is_found_and_its_alert_says_so() {
    let today = date(2025, 3, 5);
    let expiry = date(2025, 3, 15);
    let medicines = vec![medicine(1, "Aspirin", 5, expiry)];
    let found = scan_expiring(&medicines, today, 180);
    assert_eq!(ids(&found), vec![1]);
    let text = expiry_notification(&found[0], today);
    assert!(text.contains("`10`"));
    assert_eq!(
        text,
        "\u{26a0}\u{fe0f} *Medicine Expiry Alert*\n\n*Name:* `Aspirin`\n*Expiry Date:* `15-03-2025`\n*Days until expiry:* `10`\n*Quantity:* `5`\nPlease check and take appropriate action\\."
    );
}

#[test]
fn an_alert_escapes_the_name_and_nothing_else() {
    let today = date(2025, 3, 20);
    let m = medicine(9, "Co-codamol (30/500)", 12, date(2025, 3, 15));
    assert_eq!(
        expiry_notification(&m, today),
        "\u{26a0}\u{fe0f} *Medicine Expiry Alert*\n\n*Name:* `Co\\-codamol \\(30/500\\)`\n*Expiry Date:* `15-03-2025`\n*Days until expiry:* `-5`\n*Quantity:* `12`\nPlease check and take appropriate action\\."
    );
}

#[test]
fn each_item_gets_one_alert() {
    let today = date(2025, 1, 1);
    let medicines = vec![
        medicine(4, "A", 1, date(2025, 1, 2)),
        medicine(2, "B", 2, date(2025, 1, 3)),
        medicine(7, "C", 3, date(2026, 1, 1)),
    ];
    let all = notifications(&medicines, today);
    assert_eq!(all.len(), 3);
    for (alert, m) in all.iter().zip(medicines.iter()) {
        assert_eq!(alert.medicine_id, m.id);
        assert_eq!(alert.text, expiry_notification(m, today));
    }
    let due = due_notifications(&medicines, today, 180);
    assert_eq!(due.iter().map(|n| n.medicine_id).collect::<Vec<i64>>(), vec![4, 2]);
    assert!(due[1].text.contains("*Days until expiry:* `2`"));
    assert!(notifications(&vec![], today).is_empty());
}

fn every_second_fails(n: usize) -> Vec<SendOutcome> {
    (0..n).map(|i| SendOutcome { medicine_id: 100 + i as i64, delivered: i % 2 == 1 }).collect()
}

#[test]
fn where_every_second_send_fails_half_are_delivered() {
    let report = NotificationReport::tally(&every_second_fails(5));
    assert_eq!(report.attempted, 5);
    assert_eq!(report.succeeded, 2);
    assert_eq!(report.failed, 3);
    assert_eq!(report.failed_ids, vec![100, 102, 104]);
    let report = NotificationReport::tally(&every_second_fails(4));
    assert_eq!((report.attempted, report.succeeded, report.failed), (4, 2, 2));
    assert_eq!(report.failed_ids, vec![100, 102]);
    let report = NotificationReport::tally(&every_second_fails(1));
    assert_eq!((report.attempted, report.succeeded, report.failed), (1, 0, 1));
}

#[test]
fn the_report_counts_every_send() {
    let report = NotificationReport::tally(&vec![]);
    assert_eq!((report.attempted, report.succeeded, report.failed), (0, 0, 0));
    assert!(report.failed_ids.is_empty());
    let outcomes = vec![
        SendOutcome { medicine_id: 3, delivered: true },
        SendOutcome { medicine_id: 1, delivered: false },
        SendOutcome { medicine_id: 2, delivered: true },
        SendOutcome { medicine_id: 1, delivered: false },
    ];
    let report = NotificationReport::tally(&outcomes);
    assert_eq!((report.attempted, report.succeeded, report.failed), (4, 2, 2));
    assert_eq!(report.failed_ids, vec![1, 1]);
    let all = vec![SendOutcome { medicine_id: 3, delivered: true }; 7];
    let report = NotificationReport::tally(&all);
    assert_eq!((report.attempted, report.succeeded, report.failed), (7, 7, 0));
}
