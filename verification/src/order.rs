//! Order fulfilment: the rule that decides an order, and what it does to the
//! inventory and to the ledger.

use crate::date::CivilDate;
use crate::models::{pending, Medicine, MedicineView, OrderView};
use crate::selector::{first_selected, lemma_first_selected_from, selects, SelectorView};
use crate::text::{decimal_text, push_decimal, push_str, string_of};
use vstd::prelude::*;

verus! {

/// Why an order was not placed.
#[derive(Clone, Copy, Debug, PartialEq, Eq, Structural)]
pub enum OrderError {
    /// The selector names no medicine of the inventory.
    MedicineNotFound,
    /// The medicine has fewer units in stock than were asked for.
    InsufficientStock,
    /// The ledger could not take the order; nothing was changed.
    PersistenceError,
}

/// What the requester learns of an order that was placed.
#[derive(Debug)]
pub struct OrderConfirmation {
    pub order_id: i64,
    pub medicine_name: String,
    pub quantity: i64,
}

/// What an [`OrderConfirmation`] holds.
pub struct ConfirmationView {
    pub order_id: int,
    pub medicine_name: Seq<char>,
    pub quantity: int,
}

impl View for OrderConfirmation {
    type V = ConfirmationView;

    open spec fn view(&self) -> ConfirmationView {
        ConfirmationView {
            order_id: self.order_id as int,
            medicine_name: self.medicine_name@,
            quantity: self.quantity as int,
        }
    }
}

/// The inventory and the ledger as one state.
pub struct PharmacyView {
    pub medicines: Seq<MedicineView>,
    pub orders: Seq<OrderView>,
}

/// One call for an order.
pub struct Request {
    pub requester: Seq<char>,
    pub selector: SelectorView,
    pub quantity: int,
    pub now: CivilDate,
}

/// The call of `requester` for `quantity` units of what `selector` names,
/// made on the day `now`.
pub open spec fn request_on(
    requester: Seq<char>,
    selector: SelectorView,
    quantity: int,
    now: CivilDate,
) -> Request {
    Request { requester, selector, quantity, now }
}

/// The largest identifier that the ledger can give an order.
pub open spec fn max_order_id() -> int {
    i64::MAX as int
}

impl PharmacyView {
    /// The identifier that the next order gets: one more than that of the
    /// last order, and 1 in an empty ledger.
    pub open spec fn next_order_id(self) -> int {
        if self.orders.len() == 0 {
            1
        } else {
            self.orders.last().id + 1
        }
    }

    /// Whether some medicine of the inventory has the identifier `id`.
    pub open spec fn has_medicine(self, id: int) -> bool {
        exists|i: int| 0 <= i < self.medicines.len() && #[trigger] self.medicines[i].id == id
    }

    /// What holds of every state: no two medicines share an identifier, no
    /// stock is negative, the identifiers of the orders are positive and
    /// grow along the ledger, and every order is for a positive quantity of
    /// a medicine of the inventory.
    pub open spec fn wf(self) -> bool {
        &&& forall|i: int, j: int|
            0 <= i < j < self.medicines.len() ==> #[trigger] self.medicines[i].id
                != #[trigger] self.medicines[j].id
        &&& forall|i: int| 0 <= i < self.medicines.len() ==> #[trigger] self.medicines[i].stock >= 0
        &&& forall|i: int, j: int|
            0 <= i < j < self.orders.len() ==> #[trigger] self.orders[i].id
                < #[trigger] self.orders[j].id
        &&& forall|i: int|
            0 <= i < self.orders.len() ==> (#[trigger] self.orders[i]).quantity > 0
                && self.orders[i].id >= 1 && self.has_medicine(self.orders[i].medicine_id)
    }

    /// The state after an order for `quantity` units of the medicine at the
    /// position `at` was placed: the stock is lower by `quantity`, and the
    /// ledger has one more order, pending, at its end.
    pub open spec fn fulfilled(self, at: int, request: Request) -> PharmacyView {
        PharmacyView {
            medicines: self.medicines.update(
                at,
                self.medicines[at].with_stock(self.medicines[at].stock - request.quantity),
            ),
            orders: self.orders.push(
                OrderView {
                    id: self.next_order_id(),
                    user_id: request.requester,
                    medicine_id: self.medicines[at].id,
                    quantity: request.quantity,
                    status: pending(),
                    created_at: request.now,
                },
            ),
        }
    }

    /// What a call for an order returns.
    pub open spec fn outcome(self, request: Request) -> Result<ConfirmationView, OrderError> {
        match first_selected(self.medicines, request.selector) {
            None => Err(OrderError::MedicineNotFound),
            Some(at) => {
                if self.medicines[at].stock < request.quantity {
                    Err(OrderError::InsufficientStock)
                } else if self.next_order_id() > max_order_id() {
                    Err(OrderError::PersistenceError)
                } else {
                    Ok(
                        ConfirmationView {
                            order_id: self.next_order_id(),
                            medicine_name: self.medicines[at].name,
                            quantity: request.quantity,
                        },
                    )
                }
            },
        }
    }

    /// The state after a call for an order: that of a placed order where the
    /// call succeeds, and the state before it where it fails.
    pub open spec fn after(self, request: Request) -> PharmacyView {
        match first_selected(self.medicines, request.selector) {
            Some(at) if self.outcome(request) is Ok => self.fulfilled(at, request),
            _ => self,
        }
    }
}

impl PharmacyView {
    /// The state without its orders.
    pub open spec fn without_orders(self) -> PharmacyView {
        PharmacyView { medicines: self.medicines, orders: Seq::empty() }
    }

    /// The state with one more medicine at the end of the inventory.
    pub open spec fn with_medicine(self, medicine: MedicineView) -> PharmacyView {
        PharmacyView { medicines: self.medicines.push(medicine), orders: self.orders }
    }

    /// The state with one more order at the end of the ledger.
    pub open spec fn with_order(self, order: OrderView) -> PharmacyView {
        PharmacyView { medicines: self.medicines, orders: self.orders.push(order) }
    }

    /// A state stays well formed when its orders are left out.
    pub proof fn lemma_without_orders_wf(self)
        requires
            self.wf(),
        ensures
            self.without_orders().wf(),
    {
    }

    /// A state stays well formed when a medicine with a new identifier and
    /// no negative stock is added.
    pub proof fn lemma_with_medicine_wf(self, medicine: MedicineView)
        requires
            self.wf(),
            !self.has_medicine(medicine.id),
            medicine.stock >= 0,
        ensures
            self.with_medicine(medicine).wf(),
    {
        let after = self.with_medicine(medicine);
        assert forall|i: int, j: int| 0 <= i < j < after.medicines.len() implies (
        #[trigger] after.medicines[i]).id != (#[trigger] after.medicines[j]).id by {
            if j == self.medicines.len() {
                assert(self.medicines[i].id != medicine.id);
            }
        }
        assert forall|i: int| 0 <= i < after.orders.len() implies (
        #[trigger] after.orders[i]).quantity > 0 && after.orders[i].id >= 1
            && after.has_medicine(after.orders[i].medicine_id) by {
            let id = self.orders[i].medicine_id;
            assert(self.has_medicine(id));
            let k = choose|k: int| 0 <= k < self.medicines.len() && #[trigger] self.medicines[k].id == id;
            assert(after.medicines[k].id == id);
        }
    }

    /// A state stays well formed when an order with a larger identifier, for
    /// a positive quantity of a medicine of the inventory, is added.
    pub proof fn lemma_with_order_wf(self, order: OrderView)
        requires
            self.wf(),
            order.id >= self.next_order_id(),
            order.quantity > 0,
            self.has_medicine(order.medicine_id),
        ensures
            self.with_order(order).wf(),
    {
        let after = self.with_order(order);
        assert forall|i: int, j: int| 0 <= i < j < after.orders.len() implies (
        #[trigger] after.orders[i]).id < (#[trigger] after.orders[j]).id by {
            if j == self.orders.len() {
                if i < self.orders.len() - 1 {
                    assert(self.orders[i].id < self.orders[self.orders.len() - 1].id);
                }
            }
        }
        assert forall|i: int| 0 <= i < after.orders.len() implies (
        #[trigger] after.orders[i]).quantity > 0 && after.orders[i].id >= 1
            && after.has_medicine(after.orders[i].medicine_id) by {
            let id = after.orders[i].medicine_id;
            if i < self.orders.len() {
                assert(self.has_medicine(self.orders[i].medicine_id));
            }
            if self.orders.len() > 0 {
                assert(self.orders[self.orders.len() - 1].id >= 1);
            }
            assert(self.has_medicine(id));
            let k = choose|k: int| 0 <= k < self.medicines.len() && #[trigger] self.medicines[k].id == id;
            assert(after.medicines[k].id == id);
        }
    }

    /// A call for a positive quantity leaves a well-formed state well formed.
    pub proof fn lemma_after_wf(self, request: Request)
        requires
            self.wf(),
            request.quantity > 0,
        ensures
            self.after(request).wf(),
    {
        lemma_first_selected_from(self.medicines, request.selector, 0);
        if let Some(at) = first_selected(self.medicines, request.selector) {
            if self.outcome(request) is Ok {
                let after = self.fulfilled(at, request);
                assert forall|i: int, j: int| 0 <= i < j < after.medicines.len() implies (
                #[trigger] after.medicines[i]).id != (#[trigger] after.medicines[j]).id by {
                    assert(self.medicines[i].id != self.medicines[j].id);
                }
                assert forall|i: int| 0 <= i < after.medicines.len() implies (
                #[trigger] after.medicines[i]).stock >= 0 by {
                    assert(self.medicines[i].stock >= 0);
                }
                assert forall|i: int, j: int| 0 <= i < j < after.orders.len() implies (
                #[trigger] after.orders[i]).id < (#[trigger] after.orders[j]).id by {
                    if j == self.orders.len() {
                        if i < self.orders.len() - 1 {
                            assert(self.orders[i].id < self.orders[self.orders.len() - 1].id);
                        }
                    }
                }
                assert forall|i: int| 0 <= i < after.orders.len() implies (
                #[trigger] after.orders[i]).quantity > 0 && after.orders[i].id >= 1
                    && after.has_medicine(after.orders[i].medicine_id) by {
                    let id = after.orders[i].medicine_id;
                    if self.orders.len() > 0 {
                        assert(self.orders[self.orders.len() - 1].id >= 1);
                    }
                    if i < self.orders.len() {
                        assert(self.has_medicine(self.orders[i].medicine_id));
                        let k = choose|k: int|
                            0 <= k < self.medicines.len() && #[trigger] self.medicines[k].id == id;
                        assert(after.medicines[k].id == id);
                    } else {
                        assert(after.medicines[at].id == id);
                    }
                }
            }
        }
    }
}

impl PharmacyView {
    /// The state after the calls of `requests`, one after the other.
    pub open spec fn after_all(self, requests: Seq<Request>) -> PharmacyView
        decreases requests.len(),
    {
        if requests.len() == 0 {
            self
        } else {
            self.after(requests[0]).after_all(requests.drop_first())
        }
    }

    /// The units of the medicine at the position `at` that the calls of
    /// `requests`, one after the other, sell: the sum of the quantities of
    /// those calls for it that succeed.
    pub open spec fn sold(self, requests: Seq<Request>, at: int) -> int
        decreases requests.len(),
    {
        if requests.len() == 0 {
            0
        } else {
            let first = if self.outcome(requests[0]) is Ok && first_selected(
                self.medicines,
                requests[0].selector,
            ) == Some(at) {
                requests[0].quantity
            } else {
                0
            };
            first + self.after(requests[0]).sold(requests.drop_first(), at)
        }
    }

    /// How many of the calls of `requests`, one after the other, succeed.
    pub open spec fn placed(self, requests: Seq<Request>) -> int
        decreases requests.len(),
    {
        if requests.len() == 0 {
            0
        } else {
            let first: int = if self.outcome(requests[0]) is Ok {
                1
            } else {
                0
            };
            first + self.after(requests[0]).placed(requests.drop_first())
        }
    }

    /// An order and the lowering of the stock go together. A call that
    /// succeeds adds one order, pending and for the quantity asked, which is
    /// no more than was in stock, and lowers the stock of its medicine by
    /// that quantity; a call that fails changes nothing.
    pub proof fn lemma_order_pairs_with_stock(self, request: Request)
        requires
            request.quantity > 0,
        ensures
            self.outcome(request) is Err <==> self.after(request) == self,
            self.outcome(request) is Ok <==> self.after(request).orders.len() == self.orders.len()
                + 1,
            self.outcome(request) is Ok ==> ({
                let at = first_selected(self.medicines, request.selector)->0;
                let order = self.after(request).orders.last();
                &&& 0 <= at < self.medicines.len()
                &&& order.medicine_id == self.medicines[at].id
                &&& order.quantity == request.quantity
                &&& order.quantity <= self.medicines[at].stock
                &&& order.user_id == request.requester
                &&& order.status == pending()
                &&& order.created_at == request.now
                &&& self.after(request).orders.drop_last() == self.orders
                &&& self.after(request).medicines[at].stock == self.medicines[at].stock
                    - request.quantity
            }),
    {
        lemma_first_selected_from(self.medicines, request.selector, 0);
        if self.outcome(request) is Ok {
            let at = first_selected(self.medicines, request.selector)->0;
            let after = self.fulfilled(at, request);
            assert(after.orders.drop_last() =~= self.orders);
            assert(after.orders.len() != self.orders.len());
        }
    }

    /// A call for more than is in stock fails with `InsufficientStock`, and
    /// the state stays as it was.
    pub proof fn lemma_insufficient_stock(self, request: Request, at: int)
        requires
            first_selected(self.medicines, request.selector) == Some(at),
            request.quantity > self.medicines[at].stock,
        ensures
            self.outcome(request) == Err::<ConfirmationView, OrderError>(
                OrderError::InsufficientStock,
            ),
            self.after(request) == self,
    {
    }

    /// A call that names no medicine of the inventory fails with
    /// `MedicineNotFound`, and the state, its ledger included, stays as it was.
    pub proof fn lemma_medicine_not_found(self, request: Request)
        requires
            forall|i: int|
                0 <= i < self.medicines.len() ==> !selects(
                    request.selector,
                    #[trigger] self.medicines[i],
                ),
        ensures
            self.outcome(request) == Err::<ConfirmationView, OrderError>(
                OrderError::MedicineNotFound,
            ),
            self.after(request) == self,
            self.after(request).orders == self.orders,
    {
        lemma_first_selected_from(self.medicines, request.selector, 0);
    }

    /// A call changes at most the stock of the medicine it names: the
    /// inventory keeps its length, and every medicine its identifier, its
    /// name and its expiry date.
    pub proof fn lemma_after_keeps_medicines(self, request: Request)
        ensures
            self.after(request).medicines.len() == self.medicines.len(),
            forall|i: int|
                0 <= i < self.medicines.len() ==> (#[trigger] self.after(request).medicines[i])
                    == self.medicines[i].with_stock(self.after(request).medicines[i].stock),
            forall|i: int|
                0 <= i < self.medicines.len() && first_selected(self.medicines, request.selector)
                    != Some(i) ==> (#[trigger] self.after(request).medicines[i])
                    == self.medicines[i],
    {
        lemma_first_selected_from(self.medicines, request.selector, 0);
    }

    /// No overselling. Whatever calls for positive quantities are made, one
    /// after the other, the units of a medicine that they sell are never more
    /// than were in stock, the stock that is left is what was there less what
    /// was sold, and the ledger has one more order for each call that
    /// succeeded.
    pub proof fn lemma_no_overselling(self, requests: Seq<Request>, at: int)
        requires
            self.wf(),
            0 <= at < self.medicines.len(),
            forall|i: int| 0 <= i < requests.len() ==> (#[trigger] requests[i]).quantity > 0,
        ensures
            self.after_all(requests).wf(),
            self.after_all(requests).medicines.len() == self.medicines.len(),
            0 <= self.sold(requests, at) <= self.medicines[at].stock,
            self.after_all(requests).medicines[at].stock == self.medicines[at].stock - self.sold(
                requests,
                at,
            ),
            self.after_all(requests).orders.len() == self.orders.len() + self.placed(requests),
        decreases requests.len(),
    {
        if requests.len() > 0 {
            let request = requests[0];
            let rest = requests.drop_first();
            let next = self.after(request);
            self.lemma_after_wf(request);
            self.lemma_after_keeps_medicines(request);
            lemma_first_selected_from(self.medicines, request.selector, 0);
            assert forall|i: int| 0 <= i < rest.len() implies (#[trigger] rest[i]).quantity
                > 0 by {
                assert(rest[i] == requests[i + 1]);
            }
            next.lemma_no_overselling(rest, at);
        }
    }
}

/// What is left in stock once `quantity` units are taken from `stock`.
pub open spec fn stock_left(stock: int, quantity: int) -> Result<int, OrderError> {
    if stock < quantity {
        Err(OrderError::InsufficientStock)
    } else {
        Ok(stock - quantity)
    }
}

/// Decides whether `quantity` units of `medicine` can be sold, and tells what
/// is then left in stock. Nothing is changed.
pub fn reserve(medicine: &Medicine, quantity: i64) -> (left: Result<i64, OrderError>)
    requires
        quantity > 0,
    ensures
        match left {
            Ok(n) => stock_left(medicine.stock as int, quantity as int) == Ok::<int, OrderError>(
                n as int,
            ),
            Err(error) => stock_left(medicine.stock as int, quantity as int) == Err::<
                int,
                OrderError,
            >(error),
        },
{
    if medicine.stock < quantity {
        Err(OrderError::InsufficientStock)
    } else {
        Ok(medicine.stock - quantity)
    }
}

/// What the requester reads once an order was placed.
pub open spec fn confirmation_text(confirmation: ConfirmationView) -> Seq<char> {
    "Your order for "@ + confirmation.medicine_name + " (x"@ + decimal_text(
        confirmation.quantity,
    ) + ") has been placed. Order ID: "@ + decimal_text(confirmation.order_id)
}

/// What the requester reads when an order was not placed.
pub open spec fn error_text(error: OrderError) -> Seq<char> {
    match error {
        OrderError::MedicineNotFound => "Medicine not found"@,
        OrderError::InsufficientStock => "Insufficient stock"@,
        OrderError::PersistenceError => "Failed to create order"@,
    }
}

impl OrderConfirmation {
    /// The message for the requester: the medicine, the quantity and the
    /// identifier of the order.
    pub fn message(&self) -> (out: String)
        ensures
            out@ == confirmation_text(self@),
    {
        let mut text: Vec<char> = Vec::new();
        push_str(&mut text, "Your order for ");
        push_str(&mut text, self.medicine_name.as_str());
        push_str(&mut text, " (x");
        push_decimal(&mut text, self.quantity);
        push_str(&mut text, ") has been placed. Order ID: ");
        push_decimal(&mut text, self.order_id);
        assert(text@ =~= confirmation_text(self@));
        string_of(&text)
    }
}

impl OrderError {
    /// The message for the requester. Each kind of failure has its own.
    pub fn message(&self) -> (out: String)
        ensures
            out@ == error_text(*self),
    {
        match self {
            OrderError::MedicineNotFound => "Medicine not found".to_owned(),
            OrderError::InsufficientStock => "Insufficient stock".to_owned(),
            OrderError::PersistenceError => "Failed to create order".to_owned(),
        }
    }
}

/// The message for the requester, whatever became of the order.
pub fn reply(placed: &Result<OrderConfirmation, OrderError>) -> (out: String)
    ensures
        out@ == match placed {
            Ok(confirmation) => confirmation_text(confirmation@),
            Err(error) => error_text(*error),
        },
{
    match placed {
        Ok(confirmation) => confirmation.message(),
        Err(error) => error.message(),
    }
}

} // verus!
