use pharmacy_bot::date::Date;
use pharmacy_bot::models::{Medicine, Order};
use pharmacy_bot::order::{reply, reserve, OrderConfirmation, OrderError};
use pharmacy_bot::selector::{contains_folded, MedicineSelector};
use pharmacy_bot::store::{place_order, simplified_selector, Pharmacy, SIMPLIFIED_QUANTITY};

fn date(y: i32, m: u32, d: u32) -> Date {
    Date::from_ymd_opt(y, m, d).unwrap()
}

fn medicine(id: i64, name: &str, stock: i64) -> Medicine {
    Medicine { id, name: name.to_string(), stock, expiry_date: date(2026, 1, 31) }
}

fn pharmacy(rows: Vec<Medicine>) -> Pharmacy {
    let mut p = Pharmacy::new();
    for row in rows {
        assert!(p.add_medicine(row));
    }
    p
}

fn stock_of(p: &Pharmacy, id: i64) -> i64 {
    p.medicines().iter().find(|m| m.id == id).unwrap().stock
}

#[test]
fn two_orders_for_three_of_five_one_succeeds() {
    let mut p = pharmacy(vec![medicine(1, "Aspirin", 5)]);
    let now = date(2025, 1, 1);
    let a = p.place_order("userA", &MedicineSelector::Id(1), 3, now);
    let b = p.place_order("userB", &MedicineSelector::Id(1), 3, now);
    let confirmation = a.unwrap();
    assert_eq!(confirmation.quantity, 3);
    assert_eq!(confirmation.medicine_name, "Aspirin");
    assert_eq!(confirmation.order_id, 1);
    assert_eq!(b.unwrap_err(), OrderError::InsufficientStock);
    assert_eq!(stock_of(&p, 1), 2);
    assert_eq!(p.orders().len(), 1);
    let order = &p.orders()[0];
    assert_eq!(order.id, 1);
    assert_eq!(order.user_id, "userA");
    assert_eq!(order.medicine_id, 1);
    assert_eq!(order.quantity, 3);
    assert_eq!(order.status, "pending");
    assert_eq!(order.created_at, now);
}

#[test]
fn an_order_for_more_than_is_in_stock_changes_nothing() {
    let mut p = pharmacy(vec![medicine(1, "Aspirin", 5), medicine(2, "Ibuprofen", 0)]);
    let now = date(2025, 1, 1);
    assert_eq!(
        p.place_order("u", &MedicineSelector::Id(1), 6, now).unwrap_err(),
        OrderError::InsufficientStock
    );
    assert_eq!(
        p.place_order("u", &MedicineSelector::Id(2), 1, now).unwrap_err(),
        OrderError::InsufficientStock
    );
    assert_eq!(
        p.place_order("u", &MedicineSelector::Id(1), i64::MAX, now).unwrap_err(),
        OrderError::InsufficientStock
    );
    assert_eq!(stock_of(&p, 1), 5);
    assert_eq!(stock_of(&p, 2), 0);
    assert!(p.orders().is_empty());
    // the failure can be repeated: it is the same each time
    assert_eq!(
        p.place_order("u", &MedicineSelector::Id(1), 6, now).unwrap_err(),
        OrderError::InsufficientStock
    );
    assert_eq!(stock_of(&p, 1), 5);
}

#[test]
fn an_order_for_all_that_is_in_stock_succeeds() {
    let mut p = pharmacy(vec![medicine(1, "Aspirin", 5)]);
    assert!(p.place_order("u", &MedicineSelector::Id(1), 5, date(2025, 1, 1)).is_ok());
    assert_eq!(stock_of(&p, 1), 0);
    assert_eq!(
        p.place_order("u", &MedicineSelector::Id(1), 1, date(2025, 1, 1)).unwrap_err(),
        OrderError::InsufficientStock
    );
}

#[test]
fn an_order_for_a_medicine_that_is_not_there_adds_no_order() {
    let mut p = pharmacy(vec![medicine(1, "Aspirin", 5)]);
    let now = date(2025, 1, 1);
    assert_eq!(
        p.place_order("u", &MedicineSelector::Id(7), 1, now).unwrap_err(),
        OrderError::MedicineNotFound
    );
    assert_eq!(
        p.place_order("u", &MedicineSelector::Name("morphine".to_string()), 1, now).unwrap_err(),
        OrderError::MedicineNotFound
    );
    assert!(p.orders().is_empty());
    assert_eq!(stock_of(&p, 1), 5);
    let mut empty = Pharmacy::new();
    assert_eq!(
        empty.place_order("u", &MedicineSelector::Id(1), 1, now).unwrap_err(),
        OrderError::MedicineNotFound
    );
}

#[test]
fn orders_never_sell_more_than_was_in_stock() {
    let mut p = pharmacy(vec![medicine(1, "Aspirin", 10), medicine(2, "Ibuprofen", 4)]);
    let now = date(2025, 1, 1);
    let quantities = [3, 4, 2, 5, 1, 1, 7, 1];
    let mut sold = 0;
    let mut placed = 0;
    for (i, q) in quantities.iter().enumerate() {
        let user = format!("user{}", i);
        if p.place_order(&user, &MedicineSelector::Id(1), *q, now).is_ok() {
            sold += q;
            placed += 1;
        }
        assert!(sold <= 10);
        assert_eq!(stock_of(&p, 1), 10 - sold);
        assert_eq!(stock_of(&p, 2), 4);
    }
    // 3 + 4 + 2 succeed, 5 fails, 1 succeeds, then nothing is left
    assert_eq!(sold, 10);
    assert_eq!(placed, 4);
    assert_eq!(p.orders().len(), 4);
    let ids: Vec<i64> = p.orders().iter().map(|o| o.id).collect();
    assert_eq!(ids, vec![1, 2, 3, 4]);
    let total: i64 = p.orders().iter().map(|o| o.quantity).sum();
    assert_eq!(total, 10);
}

#[test]
fn a_name_selects_the_first_medicine_that_holds_it() {
    let mut p = pharmacy(vec![
        medicine(1, "Aspirin", 5),
        medicine(2, "Acetaminophen 500mg", 5),
        medicine(3, "ACETAMINOPHEN forte", 5),
    ]);
    let placed = p
        .place_order("u", &MedicineSelector::Name("acetaminophen".to_string()), 2, date(2025, 1, 1))
        .unwrap();
    assert_eq!(placed.medicine_name, "Acetaminophen 500mg");
    assert_eq!(stock_of(&p, 2), 3);
    assert_eq!(stock_of(&p, 3), 5);
    assert_eq!(p.find(&MedicineSelector::Name("FORTE".to_string())), Some(2));
    assert_eq!(p.find(&MedicineSelector::Name("".to_string())), Some(0));
    assert_eq!(p.find(&MedicineSelector::Name("aspirins".to_string())), None);
    assert_eq!(p.find(&MedicineSelector::Id(3)), Some(2));
    assert_eq!(p.find(&MedicineSelector::Id(4)), None);
}

#[test]
fn folding_is_for_the_letters_a_to_z_only() {
    assert!(contains_folded("Paracetamol", "CETA"));
    assert!(contains_folded("PARACETAMOL", "mol"));
    assert!(contains_folded("abc", ""));
    assert!(contains_folded("", ""));
    assert!(!contains_folded("", "a"));
    assert!(!contains_folded("ab", "abc"));
    assert!(!contains_folded("Ärztin", "ärztin"));
    assert!(contains_folded("Ärztin", "ÄRZTIN"));
    assert!(!contains_folded("a[b", "a{b"));
    assert!(!contains_folded("a@b", "a`b"));
}

#[test]
fn the_simplified_order_is_for_two_of_acetaminophen() {
    assert_eq!(SIMPLIFIED_QUANTITY, 2);
    let selector = simplified_selector();
    assert!(selector.names(&medicine(1, "Acetaminophen", 1)));
    assert!(!selector.names(&medicine(1, "Aspirin", 1)));
    let mut p = pharmacy(vec![medicine(4, "Extra Acetaminophen", 2)]);
    let placed = place_order(&mut p, "42", &selector, SIMPLIFIED_QUANTITY).unwrap();
    assert_eq!(placed.order_id, 1);
    assert_eq!(stock_of(&p, 4), 0);
    assert_eq!(p.orders()[0].created_at, Date::today());
    assert_eq!(
        place_order(&mut p, "42", &selector, SIMPLIFIED_QUANTITY).unwrap_err(),
        OrderError::InsufficientStock
    );
}

#[test]
fn a_ledger_that_is_full_takes_no_order() {
    let mut p = pharmacy(vec![medicine(1, "Aspirin", 5)]);
    let last = Order {
        id: i64::MAX,
        user_id: "old".to_string(),
        medicine_id: 1,
        quantity: 1,
        status: "Delivered".to_string(),
        created_at: date(2023, 5, 15),
    };
    assert!(p.record_order(last));
    assert_eq!(
        p.place_order("u", &MedicineSelector::Id(1), 1, date(2025, 1, 1)).unwrap_err(),
        OrderError::PersistenceError
    );
    assert_eq!(stock_of(&p, 1), 5);
    assert_eq!(p.orders().len(), 1);
}

#[test]
fn order_identifiers_go_on_after_the_last() {
    let mut p = pharmacy(vec![medicine(1, "Aspirin", 5)]);
    let earlier = Order {
        id: 41,
        user_id: "old".to_string(),
        medicine_id: 1,
        quantity: 1,
        status: "Shipped".to_string(),
        created_at: date(2023, 5, 15),
    };
    assert!(p.record_order(earlier.clone()));
    assert!(!p.record_order(earlier));
    let placed = p.place_order("u", &MedicineSelector::Id(1), 1, date(2025, 1, 1)).unwrap();
    assert_eq!(placed.order_id, 42);
}

#[test]
fn the_store_takes_only_rows_that_fit() {
    let mut p = Pharmacy::new();
    assert!(p.add_medicine(medicine(1, "Aspirin", 0)));
    assert!(!p.add_medicine(medicine(1, "Other", 3)));
    assert!(!p.add_medicine(medicine(2, "Negative", -1)));
    assert_eq!(p.medicines().len(), 1);
    assert!(p.has_medicine(1));
    assert!(!p.has_medicine(2));
    let order = |id: i64, medicine_id: i64, quantity: i64| Order {
        id,
        user_id: "u".to_string(),
        medicine_id,
        quantity,
        status: "pending".to_string(),
        created_at: date(2024, 1, 1),
    };
    assert!(!p.record_order(order(0, 1, 1)));
    assert!(!p.record_order(order(1, 2, 1)));
    assert!(!p.record_order(order(1, 1, 0)));
    assert!(p.record_order(order(5, 1, 1)));
    assert!(!p.record_order(order(5, 1, 1)));
    assert!(!p.record_order(order(4, 1, 1)));
    assert!(p.record_order(order(6, 1, 1)));
    assert_eq!(p.orders().len(), 2);
}

#[test]
fn from_rows_takes_a_state_and_nothing_else() {
    let order = |id: i64, medicine_id: i64, quantity: i64| Order {
        id,
        user_id: "u".to_string(),
        medicine_id,
        quantity,
        status: "pending".to_string(),
        created_at: date(2024, 1, 1),
    };
    let medicines = vec![medicine(1, "A", 1), medicine(2, "B", 0)];
    let loaded = Pharmacy::from_rows(&medicines, &vec![order(1, 2, 1), order(3, 1, 9)]).unwrap();
    assert_eq!(loaded.medicines().len(), 2);
    assert_eq!(loaded.orders().len(), 2);
    assert_eq!(loaded.orders()[1].quantity, 9);
    assert!(Pharmacy::from_rows(&medicines, &vec![]).is_some());
    assert!(Pharmacy::from_rows(&vec![], &vec![]).is_some());
    assert!(Pharmacy::from_rows(&vec![medicine(1, "A", 1), medicine(1, "B", 1)], &vec![]).is_none());
    assert!(Pharmacy::from_rows(&vec![medicine(1, "A", -1)], &vec![]).is_none());
    assert!(Pharmacy::from_rows(&medicines, &vec![order(2, 1, 1), order(2, 1, 1)]).is_none());
    assert!(Pharmacy::from_rows(&medicines, &vec![order(2, 1, 1), order(1, 1, 1)]).is_none());
    assert!(Pharmacy::from_rows(&medicines, &vec![order(0, 1, 1)]).is_none());
    assert!(Pharmacy::from_rows(&medicines, &vec![order(1, 3, 1)]).is_none());
    assert!(Pharmacy::from_rows(&medicines, &vec![order(1, 1, 0)]).is_none());
}

#[test]
fn reserve_tells_what_is_left() {
    assert_eq!(reserve(&medicine(1, "A", 5), 3), Ok(2));
    assert_eq!(reserve(&medicine(1, "A", 5), 5), Ok(0));
    assert_eq!(reserve(&medicine(1, "A", 5), 6), Err(OrderError::InsufficientStock));
    assert_eq!(reserve(&medicine(1, "A", 0), 1), Err(OrderError::InsufficientStock));
}

#[test]
fn the_requester_reads_what_became_of_the_order() {
    let confirmation =
        OrderConfirmation { order_id: 17, medicine_name: "Acetaminophen".to_string(), quantity: 2 };
    assert_eq!(
        confirmation.message(),
        "Your order for Acetaminophen (x2) has been placed. Order ID: 17"
    );
    assert_eq!(OrderError::MedicineNotFound.message(), "Medicine not found");
    assert_eq!(OrderError::InsufficientStock.message(), "Insufficient stock");
    assert_eq!(OrderError::PersistenceError.message(), "Failed to create order");
    assert_eq!(reply(&Err(OrderError::InsufficientStock)), "Insufficient stock");
    assert_eq!(
        reply(&Ok(confirmation)),
        "Your order for Acetaminophen (x2) has been placed. Order ID: 17"
    );
}

#[test]
fn a_copy_of_a_row_holds_what_the_row_holds() {
    let m = medicine(3, "Lisinopril", 400);
    let c = m.clone();
    assert_eq!((c.id, c.name.as_str(), c.stock, c.expiry_date), (3, "Lisinopril", 400, m.expiry_date));
}
