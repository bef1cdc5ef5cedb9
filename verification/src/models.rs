//! The rows of the inventory store and of the order ledger.

use crate::date::{CivilDate, Date};
use vstd::prelude::*;

verus! {

/// A medicine in the inventory.
#[derive(Debug)]
pub struct Medicine {
    pub id: i64,
    pub name: String,
    pub stock: i64,
    pub expiry_date: Date,
}

/// What a [`Medicine`] holds.
pub struct MedicineView {
    pub id: int,
    pub name: Seq<char>,
    pub stock: int,
    pub expiry_date: CivilDate,
}

impl View for Medicine {
    type V = MedicineView;

    open spec fn view(&self) -> MedicineView {
        MedicineView {
            id: self.id as int,
            name: self.name@,
            stock: self.stock as int,
            expiry_date: self.expiry_date@,
        }
    }
}

impl MedicineView {
    /// The medicine with another count in stock.
    pub open spec fn with_stock(self, stock: int) -> MedicineView {
        MedicineView { stock, ..self }
    }
}

impl Clone for Medicine {
    fn clone(&self) -> (copy: Medicine)
        ensures
            copy == *self,
    {
        Medicine {
            id: self.id,
            name: self.name.clone(),
            stock: self.stock,
            expiry_date: self.expiry_date,
        }
    }
}

/// An order in the ledger.
#[derive(Debug)]
pub struct Order {
    pub id: i64,
    pub user_id: String,
    pub medicine_id: i64,
    pub quantity: i64,
    pub status: String,
    pub created_at: Date,
}

/// What an [`Order`] holds.
pub struct OrderView {
    pub id: int,
    pub user_id: Seq<char>,
    pub medicine_id: int,
    pub quantity: int,
    pub status: Seq<char>,
    pub created_at: CivilDate,
}

impl View for Order {
    type V = OrderView;

    open spec fn view(&self) -> OrderView {
        OrderView {
            id: self.id as int,
            user_id: self.user_id@,
            medicine_id: self.medicine_id as int,
            quantity: self.quantity as int,
            status: self.status@,
            created_at: self.created_at@,
        }
    }
}

impl Clone for Order {
    fn clone(&self) -> (copy: Order)
        ensures
            copy == *self,
    {
        Order {
            id: self.id,
            user_id: self.user_id.clone(),
            medicine_id: self.medicine_id,
            quantity: self.quantity,
            status: self.status.clone(),
            created_at: self.created_at,
        }
    }
}

/// What the medicines of a list hold, in their order.
pub open spec fn medicine_views(medicines: Seq<Medicine>) -> Seq<MedicineView> {
    medicines.map_values(|m: Medicine| m@)
}

/// What the orders of a list hold, in their order.
pub open spec fn order_views(orders: Seq<Order>) -> Seq<OrderView> {
    orders.map_values(|o: Order| o@)
}

/// The status of an order that was placed and not yet handled.
pub open spec fn pending() -> Seq<char> {
    "pending"@
}

} // verus!
