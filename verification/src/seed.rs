//! The rows that a new database is filled with.

use crate::date::{valid_ymd, CivilDate, Date};
use crate::models::{medicine_views, order_views, Medicine, MedicineView, Order, OrderView};
use crate::order::PharmacyView;
use crate::store::{views_of, Pharmacy};
use vstd::prelude::*;

verus! {

/// A medicine of the inventory, written as one row.
pub open spec fn medicine_row(
    id: int,
    name: Seq<char>,
    stock: int,
    year: int,
    month: int,
    day: int,
) -> MedicineView {
    MedicineView { id, name, stock, expiry_date: CivilDate { year, month, day } }
}

/// An order of the ledger, written as one row.
pub open spec fn order_row(
    id: int,
    user_id: Seq<char>,
    medicine_id: int,
    quantity: int,
    status: Seq<char>,
    year: int,
    month: int,
    day: int,
) -> OrderView {
    OrderView {
        id,
        user_id,
        medicine_id,
        quantity,
        status,
        created_at: CivilDate { year, month, day },
    }
}

/// The medicines that a new database is filled with.
pub open spec fn seed_medicines() -> Seq<MedicineView> {
    seq![
        medicine_row(1, "Aspirin"@, 500, 2025, 6, 30),
        medicine_row(2, "Amoxicillin"@, 300, 2024, 12, 31),
        medicine_row(3, "Lisinopril"@, 400, 2025, 3, 15),
        medicine_row(4, "Levothyroxine"@, 250, 2026, 1, 31),
        medicine_row(5, "Metformin"@, 350, 2025, 9, 30),
        medicine_row(6, "Amlodipine"@, 200, 2024, 11, 30),
        medicine_row(7, "Omeprazole"@, 450, 2025, 7, 31),
        medicine_row(8, "Albuterol"@, 150, 2026, 4, 30),
        medicine_row(9, "Gabapentin"@, 300, 2025, 5, 31),
        medicine_row(10, "Metoprolol"@, 275, 2024, 10, 31),
    ]
}

/// The orders that a new database is filled with.
pub open spec fn seed_orders() -> Seq<OrderView> {
    seq![
        order_row(1, "user123"@, 1, 2, "Delivered"@, 2023, 5, 15),
        order_row(2, "patient456"@, 3, 1, "Shipped"@, 2023, 6, 2),
        order_row(3, "customer789"@, 2, 3, "Processed"@, 2023, 6, 10),
        order_row(4, "client101"@, 5, 1, "Pending"@, 2023, 6, 12),
        order_row(5, "user123"@, 7, 2, "Delivered"@, 2023, 5, 20),
        order_row(6, "patient456"@, 4, 1, "Shipped"@, 2023, 6, 5),
        order_row(7, "customer789"@, 6, 2, "Processed"@, 2023, 6, 11),
        order_row(8, "client101"@, 8, 1, "Pending"@, 2023, 6, 13),
        order_row(9, "user123"@, 9, 3, "Delivered"@, 2023, 5, 25),
        order_row(10, "patient456"@, 10, 1, "Shipped"@, 2023, 6, 7),
    ]
}

fn medicine(id: i64, name: &str, stock: i64, year: i32, month: u32, day: u32) -> (row: Medicine)
    requires
        valid_ymd(year as int, month as int, day as int),
    ensures
        row@ == medicine_row(id as int, name@, stock as int, year as int, month as int, day as int),
{
    let expiry_date = Date::from_ymd_opt(year, month, day).unwrap();
    Medicine { id, name: name.to_owned(), stock, expiry_date }
}

fn order(
    id: i64,
    user_id: &str,
    medicine_id: i64,
    quantity: i64,
    status: &str,
    year: i32,
    month: u32,
    day: u32,
) -> (row: Order)
    requires
        valid_ymd(year as int, month as int, day as int),
    ensures
        row@ == order_row(
            id as int,
            user_id@,
            medicine_id as int,
            quantity as int,
            status@,
            year as int,
            month as int,
            day as int,
        ),
{
    let created_at = Date::from_ymd_opt(year, month, day).unwrap();
    Order {
        id,
        user_id: user_id.to_owned(),
        medicine_id,
        quantity,
        status: status.to_owned(),
        created_at,
    }
}

/// The seed rows make up a state: the identifiers of the medicines differ,
/// no stock is negative, and each order is for a positive quantity of one
/// of the medicines.
pub proof fn lemma_seed_is_a_state()
    ensures
        (PharmacyView { medicines: seed_medicines(), orders: seed_orders() }).wf(),
{
    let state = PharmacyView { medicines: seed_medicines(), orders: seed_orders() };
    assert forall|i: int| 0 <= i < state.orders.len() implies state.has_medicine(
        (#[trigger] state.orders[i]).medicine_id,
    ) by {
        let id = state.orders[i].medicine_id;
        assert(1 <= id <= 10);
        assert(state.medicines[id - 1].id == id);
    }
}

/// The medicines and the orders that a new database is filled with.
pub fn get_seed_data() -> (rows: (Vec<Medicine>, Vec<Order>))
    ensures
        medicine_views(rows.0@) == seed_medicines(),
        order_views(rows.1@) == seed_orders(),
        views_of(rows.0@, rows.1@).wf(),
{
    let mut medicines: Vec<Medicine> = Vec::new();
    medicines.push(medicine(1, "Aspirin", 500, 2025, 6, 30));
    medicines.push(medicine(2, "Amoxicillin", 300, 2024, 12, 31));
    medicines.push(medicine(3, "Lisinopril", 400, 2025, 3, 15));
    medicines.push(medicine(4, "Levothyroxine", 250, 2026, 1, 31));
    medicines.push(medicine(5, "Metformin", 350, 2025, 9, 30));
    medicines.push(medicine(6, "Amlodipine", 200, 2024, 11, 30));
    medicines.push(medicine(7, "Omeprazole", 450, 2025, 7, 31));
    medicines.push(medicine(8, "Albuterol", 150, 2026, 4, 30));
    medicines.push(medicine(9, "Gabapentin", 300, 2025, 5, 31));
    medicines.push(medicine(10, "Metoprolol", 275, 2024, 10, 31));
    let mut orders: Vec<Order> = Vec::new();
    orders.push(order(1, "user123", 1, 2, "Delivered", 2023, 5, 15));
    orders.push(order(2, "patient456", 3, 1, "Shipped", 2023, 6, 2));
    orders.push(order(3, "customer789", 2, 3, "Processed", 2023, 6, 10));
    orders.push(order(4, "client101", 5, 1, "Pending", 2023, 6, 12));
    orders.push(order(5, "user123", 7, 2, "Delivered", 2023, 5, 20));
    orders.push(order(6, "patient456", 4, 1, "Shipped", 2023, 6, 5));
    orders.push(order(7, "customer789", 6, 2, "Processed", 2023, 6, 11));
    orders.push(order(8, "client101", 8, 1, "Pending", 2023, 6, 13));
    orders.push(order(9, "user123", 9, 3, "Delivered", 2023, 5, 25));
    orders.push(order(10, "patient456", 10, 1, "Shipped", 2023, 6, 7));
    proof {
        assert(medicine_views(medicines@) =~= seed_medicines());
        assert(order_views(orders@) =~= seed_orders());
        lemma_seed_is_a_state();
    }
    (medicines, orders)
}

/// The state of a new database: the seed rows, loaded.
pub fn seeded_pharmacy() -> (pharmacy: Pharmacy)
    ensures
        pharmacy@ == (PharmacyView { medicines: seed_medicines(), orders: seed_orders() }),
        pharmacy@.wf(),
{
    let (medicines, orders) = get_seed_data();
    Pharmacy::from_rows(&medicines, &orders).unwrap()
}

} // verus!
