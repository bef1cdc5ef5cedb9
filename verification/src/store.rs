//! The inventory store and the order ledger, held in memory.

use crate::date::{CivilDate, Date};
use crate::models::{medicine_views, order_views, Medicine, Order, OrderView};
use crate::order::{
    request_on, reserve, ConfirmationView, OrderConfirmation, OrderError, PharmacyView,
};
use crate::selector::{first_selected, first_selected_from, MedicineSelector, SelectorView};
use vstd::prelude::*;

verus! {

/// The medicines of the inventory and the orders of the ledger. Orders are
/// only ever added, and stock only changes when an order is placed.
pub struct Pharmacy {
    medicines: Vec<Medicine>,
    orders: Vec<Order>,
}

/// The state that holds these medicines and these orders.
pub open spec fn views_of(medicines: Seq<Medicine>, orders: Seq<Order>) -> PharmacyView {
    PharmacyView {
        medicines: medicine_views(medicines),
        orders: order_views(orders),
    }
}

impl View for Pharmacy {
    type V = PharmacyView;

    closed spec fn view(&self) -> PharmacyView {
        views_of(self.medicines@, self.orders@)
    }
}

impl Pharmacy {
    #[verifier::type_invariant]
    closed spec fn well_formed(self) -> bool {
        self@.wf()
    }

    /// An inventory without medicines and a ledger without orders.
    pub fn new() -> (pharmacy: Pharmacy)
        ensures
            pharmacy@.wf(),
            pharmacy@.medicines.len() == 0,
            pharmacy@.orders.len() == 0,
    {
        Pharmacy { medicines: Vec::new(), orders: Vec::new() }
    }

    /// The state that holds the given rows, where they make up a state: no
    /// two medicines with one identifier, no negative stock, and orders with
    /// positive and growing identifiers, each for a positive quantity of
    /// one of the medicines.
    pub fn from_rows(medicines: &Vec<Medicine>, orders: &Vec<Order>) -> (loaded: Option<Pharmacy>)
        ensures
            loaded is Some <==> views_of(medicines@, orders@).wf(),
            loaded matches Some(pharmacy) ==> pharmacy@ == views_of(medicines@, orders@),
    {
        let ghost rows = views_of(medicines@, orders@);
        let mut pharmacy = Pharmacy::new();
        let mut i: usize = 0;
        while i < medicines.len()
            invariant
                i <= medicines.len(),
                rows == views_of(medicines@, orders@),
                pharmacy@.wf(),
                pharmacy@.orders.len() == 0,
                pharmacy@.medicines == rows.medicines.subrange(0, i as int),
            decreases medicines.len() - i,
        {
            let ghost before = pharmacy@;
            let added = pharmacy.add_medicine(medicines[i].clone());
            if !added {
                proof {
                    if medicines[i as int].stock >= 0 {
                        let id = medicines[i as int].id as int;
                        let k = choose|k: int|
                            0 <= k < before.medicines.len() && #[trigger] before.medicines[k].id
                                == id;
                        assert(rows.medicines[k].id == rows.medicines[i as int].id);
                    } else {
                        assert(rows.medicines[i as int].stock < 0);
                    }
                }
                return None;
            }
            i = i + 1;
            assert(pharmacy@.medicines =~= rows.medicines.subrange(0, i as int));
            assert(pharmacy@.orders =~= before.orders);
        }
        assert(rows.medicines.subrange(0, medicines.len() as int) =~= rows.medicines);
        let mut j: usize = 0;
        while j < orders.len()
            invariant
                j <= orders.len(),
                rows == views_of(medicines@, orders@),
                pharmacy@.wf(),
                pharmacy@.medicines == rows.medicines,
                pharmacy@.orders == rows.orders.subrange(0, j as int),
            decreases orders.len() - j,
        {
            let ghost before = pharmacy@;
            let recorded = pharmacy.record_order(orders[j].clone());
            if !recorded {
                proof {
                    let order = rows.orders[j as int];
                    if order.quantity > 0 && before.has_medicine(order.medicine_id) {
                        if j > 0 {
                            assert(before.orders.last() == rows.orders[j - 1]);
                            assert(rows.orders[j - 1].id >= rows.orders[j as int].id);
                        } else {
                            assert(rows.orders[0].id < 1);
                        }
                    } else if order.quantity > 0 {
                        assert(!rows.has_medicine(order.medicine_id));
                    }
                }
                return None;
            }
            j = j + 1;
            assert(pharmacy@.orders =~= rows.orders.subrange(0, j as int));
        }
        assert(rows.orders.subrange(0, orders.len() as int) =~= rows.orders);
        assert(pharmacy@ == rows);
        Some(pharmacy)
    }

    /// The medicines, in the order in which they were added.
    pub fn medicines(&self) -> (medicines: &Vec<Medicine>)
        ensures
            medicine_views(medicines@) == self@.medicines,
            self@.wf(),
    {
        proof {
            use_type_invariant(self);
        }
        &self.medicines
    }

    /// The orders, the oldest first.
    pub fn orders(&self) -> (orders: &Vec<Order>)
        ensures
            order_views(orders@) == self@.orders,
            self@.wf(),
    {
        proof {
            use_type_invariant(self);
        }
        &self.orders
    }

    /// Tells whether some medicine of the inventory has the identifier `id`.
    pub fn has_medicine(&self, id: i64) -> (b: bool)
        ensures
            b == self@.has_medicine(id as int),
    {
        let mut i: usize = 0;
        while i < self.medicines.len()
            invariant
                i <= self.medicines.len(),
                forall|j: int| 0 <= j < i ==> (#[trigger] self@.medicines[j]).id != id,
            decreases self.medicines.len() - i,
        {
            if self.medicines[i].id == id {
                assert(self@.medicines[i as int].id == id);
                return true;
            }
            i = i + 1;
        }
        false
    }

    /// Adds a medicine to the inventory. A medicine whose identifier is
    /// already in the inventory, or whose stock is negative, is not added.
    pub fn add_medicine(&mut self, medicine: Medicine) -> (added: bool)
        ensures
            added == (!old(self)@.has_medicine(medicine.id as int) && medicine.stock >= 0),
            added ==> final(self)@.medicines == old(self)@.medicines.push(medicine@),
            !added ==> final(self)@.medicines == old(self)@.medicines,
            final(self)@.orders == old(self)@.orders,
            final(self)@.wf(),
    {
        proof {
            use_type_invariant(&*self);
        }
        if medicine.stock < 0 || self.has_medicine(medicine.id) {
            return false;
        }
        let ghost before = self@;
        let (mut medicines, orders) = self.take();
        medicines.push(medicine);
        proof {
            before.lemma_with_medicine_wf(medicine@);
            assert(views_of(medicines@, orders@).medicines =~= before.medicines.push(medicine@));
            assert(views_of(medicines@, orders@) == before.with_medicine(medicine@));
        }
        self.put(medicines, orders);
        true
    }

    /// Adds an order that was placed earlier to the end of the ledger. It is
    /// taken where its identifier is above that of the last order, its
    /// quantity is positive and its medicine is in the inventory.
    pub fn record_order(&mut self, order: Order) -> (recorded: bool)
        ensures
            recorded == (order.id >= old(self)@.next_order_id() && order.quantity > 0 && old(
                self,
            )@.has_medicine(order.medicine_id as int)),
            recorded ==> final(self)@.orders == old(self)@.orders.push(order@),
            !recorded ==> final(self)@.orders == old(self)@.orders,
            final(self)@.medicines == old(self)@.medicines,
            final(self)@.wf(),
    {
        proof {
            use_type_invariant(&*self);
        }
        let n = self.orders.len();
        if n > 0 && order.id <= self.orders[n - 1].id {
            return false;
        }
        if n == 0 && order.id < 1 {
            return false;
        }
        if order.quantity <= 0 || !self.has_medicine(order.medicine_id) {
            return false;
        }
        let ghost before = self@;
        let (medicines, mut orders) = self.take();
        orders.push(order);
        proof {
            before.lemma_with_order_wf(order@);
            assert(views_of(medicines@, orders@).orders =~= before.orders.push(order@));
            assert(views_of(medicines@, orders@) == before.with_order(order@));
        }
        self.put(medicines, orders);
        true
    }

    /// Places an order: finds the medicine, checks that enough of it is in
    /// stock, lowers the stock and adds a pending order to the ledger. Both
    /// changes are made, or none: an order that fails leaves the state as
    /// it was.
    ///
    /// The call has the state to itself for as long as it runs, so the check
    /// and the two changes are one unit: calls that are made at the same
    /// time take their turns, and each sees what the ones before it did.
    pub fn place_order(
        &mut self,
        requester: &str,
        selector: &MedicineSelector,
        quantity: i64,
        now: Date,
    ) -> (placed: Result<OrderConfirmation, OrderError>)
        requires
            quantity > 0,
        ensures
            ({
                let request = request_on(requester@, selector@, quantity as int, now@);
                &&& final(self)@ == old(self)@.after(request)
                &&& match placed {
                    Ok(confirmation) => old(self)@.outcome(request) == Ok::<
                        ConfirmationView,
                        OrderError,
                    >(confirmation@),
                    Err(error) => old(self)@.outcome(request) == Err::<
                        ConfirmationView,
                        OrderError,
                    >(error),
                }
            }),
            final(self)@.wf(),
    {
        proof {
            use_type_invariant(&*self);
        }
        let ghost before = self@;
        let ghost request = request_on(requester@, selector@, quantity as int, now@);
        let at = match self.find(selector) {
            None => {
                return Err(OrderError::MedicineNotFound);
            },
            Some(at) => at,
        };
        let left = match reserve(&self.medicines[at], quantity) {
            Err(error) => {
                return Err(error);
            },
            Ok(left) => left,
        };
        let n = self.orders.len();
        let order_id: i64 = if n == 0 {
            1
        } else {
            let last = self.orders[n - 1].id;
            if last == i64::MAX {
                return Err(OrderError::PersistenceError);
            }
            last + 1
        };
        let medicine = &self.medicines[at];
        let updated = Medicine {
            id: medicine.id,
            name: medicine.name.clone(),
            stock: left,
            expiry_date: medicine.expiry_date,
        };
        let confirmation = OrderConfirmation {
            order_id,
            medicine_name: medicine.name.clone(),
            quantity,
        };
        let order = Order {
            id: order_id,
            user_id: requester.to_owned(),
            medicine_id: medicine.id,
            quantity,
            status: "pending".to_owned(),
            created_at: now,
        };
        proof {
            assert(before.has_medicine(medicine.id as int)) by {
                assert(before.medicines[at as int].id == medicine.id);
            }
        }
        let (mut medicines, mut orders) = self.take();
        medicines.set(at, updated);
        orders.push(order);
        proof {
            before.lemma_after_wf(request);
            let after = views_of(medicines@, orders@);
            assert(after.medicines =~= before.medicines.update(at as int, updated@));
            assert(after.orders =~= before.orders.push(order@));
            assert(after == before.fulfilled(at as int, request));
        }
        self.put(medicines, orders);
        Ok(confirmation)
    }

    /// Takes the medicines and the orders out, and leaves both empty.
    fn take(&mut self) -> (rows: (Vec<Medicine>, Vec<Order>))
        ensures
            views_of(rows.0@, rows.1@) == old(self)@,
            old(self)@.wf(),
            final(self)@.medicines.len() == 0,
            final(self)@.orders.len() == 0,
    {
        proof {
            use_type_invariant(&*self);
            self@.lemma_without_orders_wf();
        }
        let mut medicines: Vec<Medicine> = Vec::new();
        let mut orders: Vec<Order> = Vec::new();
        assert(views_of(self.medicines@, orders@) == self@.without_orders()) by {
            assert(views_of(self.medicines@, orders@).orders =~= Seq::<OrderView>::empty());
        }
        std::mem::swap(&mut orders, &mut self.orders);
        assert(views_of(medicines@, self.orders@).wf());
        std::mem::swap(&mut medicines, &mut self.medicines);
        (medicines, orders)
    }

    /// Puts medicines and orders into an empty state.
    fn put(&mut self, medicines: Vec<Medicine>, orders: Vec<Order>)
        requires
            old(self)@.medicines.len() == 0,
            old(self)@.orders.len() == 0,
            views_of(medicines@, orders@).wf(),
        ensures
            final(self)@ == views_of(medicines@, orders@),
    {
        proof {
            views_of(medicines@, orders@).lemma_without_orders_wf();
            assert(views_of(medicines@, self.orders@) == views_of(
                medicines@,
                orders@,
            ).without_orders()) by {
                assert(views_of(medicines@, self.orders@).orders =~= Seq::<OrderView>::empty());
            }
        }
        self.medicines = medicines;
        self.orders = orders;
    }

    /// The position of the first medicine that the selector names.
    pub fn find(&self, selector: &MedicineSelector) -> (found: Option<usize>)
        ensures
            found matches Some(at) ==> at < self@.medicines.len() && first_selected(
                self@.medicines,
                selector@,
            ) == Some(at as int),
            found is None ==> first_selected(self@.medicines, selector@) is None,
    {
        let mut at: usize = 0;
        while at < self.medicines.len()
            invariant
                at <= self.medicines.len(),
                first_selected(self@.medicines, selector@) == first_selected_from(
                    self@.medicines,
                    selector@,
                    at as int,
                ),
            decreases self.medicines.len() - at,
        {
            if selector.names(&self.medicines[at]) {
                return Some(at);
            }
            at = at + 1;
        }
        None
    }
}

/// The quantity of the simplified order.
pub const SIMPLIFIED_QUANTITY: i64 = 2;

/// The selector of the simplified order: the first medicine whose name
/// holds `acetaminophen`.
pub fn simplified_selector() -> (selector: MedicineSelector)
    ensures
        selector@ == SelectorView::Name("acetaminophen"@),
{
    MedicineSelector::Name("acetaminophen".to_owned())
}

/// Places an order on the day that it is now. The clock decides the day
/// that the order is dated; all else is as [`Pharmacy::place_order`] states.
pub fn place_order(
    pharmacy: &mut Pharmacy,
    requester: &str,
    selector: &MedicineSelector,
    quantity: i64,
) -> (placed: Result<OrderConfirmation, OrderError>)
    requires
        quantity > 0,
    ensures
        exists|now: CivilDate|
            #![trigger now.valid()]
            {
                &&& now.valid()
                &&& final(pharmacy)@ == old(pharmacy)@.after(
                    request_on(requester@, selector@, quantity as int, now),
                )
                &&& match placed {
                    Ok(confirmation) => old(pharmacy)@.outcome(
                        request_on(requester@, selector@, quantity as int, now),
                    ) == Ok::<ConfirmationView, OrderError>(confirmation@),
                    Err(error) => old(pharmacy)@.outcome(
                        request_on(requester@, selector@, quantity as int, now),
                    ) == Err::<ConfirmationView, OrderError>(error),
                }
            },
        final(pharmacy)@.wf(),
{
    let now = Date::today();
    let ghost before = pharmacy@;
    let placed = pharmacy.place_order(requester, selector, quantity, now);
    assert(now@.valid() && pharmacy@ == before.after(
        request_on(requester@, selector@, quantity as int, now@),
    ));
    placed
}

} // verus!
