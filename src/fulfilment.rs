use vstd::prelude::*;
use vstd::string::*;
use crate::error::EcomError;
use crate::ident::{Identity, canonical_uuid, mint_id, minted_id, uuid_text_matches};
use crate::states::{Order, OrderStatus, OrderTracking, Payment};

verus! {

/// The records that placing an order touches.
pub struct CreateOrder {
    pub signer: Identity,
    /// The signer's order slot; `None` while no order is live.
    pub order: Option<Order>,
    /// The payment the order is placed against.
    pub payment: Payment,
}

/// An order freshly placed by `signer` at time `now` against `payment_id`.
pub open spec fn is_new_order(
    o: Order,
    signer: Identity,
    payment_id: Seq<char>,
    bump: u8,
    now: i64,
) -> bool {
    &&& o.order_id@ == minted_id(signer@, now)
    &&& o.tracking_id@ == minted_id(signer@, now)
    &&& o.payment_id@ == payment_id
    &&& o.order_status == OrderStatus::Placed
    &&& o.order_tracking == OrderTracking::Booked
    &&& o.created_at == now
    &&& o.updated_at == now
    &&& o.order_bump == bump
}

impl CreateOrder {
    /// Places an order against the payment named by `payment_id`, which must be
    /// the canonical text of the stored payment's id. Every payment status
    /// admits an order.
    pub fn create_order(&mut self, payment_id: String, order_bump: u8, now: i64) -> (r: Result<
        (),
        EcomError,
    >)
        ensures
            old(self).order is Some ==> r == Err::<(), EcomError>(EcomError::RecordAlreadyExists),
            old(self).order is None && payment_id@ != canonical_uuid(old(self).payment.payment_id@)
                ==> r == Err::<(), EcomError>(EcomError::IdentifierMismatch),
            r is Err ==> *final(self) == *old(self),
            r is Ok <==> old(self).order is None && payment_id@ == canonical_uuid(
                old(self).payment.payment_id@,
            ),
            r is Ok ==> final(self).signer == old(self).signer && final(self).payment == old(
                self,
            ).payment && final(self).order is Some && is_new_order(
                final(self).order->0,
                old(self).signer,
                payment_id@,
                order_bump,
                now,
            ),
    {
        if self.order.is_some() {
            return Err(EcomError::RecordAlreadyExists);
        }
        if !uuid_text_matches(payment_id.as_str(), &self.payment.payment_id) {
            return Err(EcomError::IdentifierMismatch);
        }
        let id = mint_id(&self.signer, now);
        self.order = Some(
            Order {
                order_id: id,
                payment_id,
                tracking_id: id,
                order_status: OrderStatus::Placed,
                order_tracking: OrderTracking::Booked,
                created_at: now,
                updated_at: now,
                order_bump,
            },
        );
        Ok(())
    }
}

/// The delivery status a token names, if any.
pub open spec fn tracking_of(token: Seq<char>) -> Option<OrderTracking> {
    if token == "intransit"@ {
        Some(OrderTracking::InTransit)
    } else if token == "shipped"@ {
        Some(OrderTracking::Shipped)
    } else if token == "outfordelivery"@ {
        Some(OrderTracking::OutForDelivery)
    } else if token == "delivered"@ {
        Some(OrderTracking::Delivered)
    } else {
        None
    }
}

/// Whether two texts hold the same characters.
pub fn same_text(a: &str, b: &str) -> (r: bool)
    ensures
        r == (a@ == b@),
{
    let n: usize = a.unicode_len();
    if n != b.unicode_len() {
        return false;
    }
    let mut k: usize = 0;
    while k < n
        invariant
            k <= n,
            n == a@.len(),
            n == b@.len(),
            forall|j: int| 0 <= j < k ==> a@[j] == b@[j],
        decreases n - k,
    {
        if a.get_char(k) != b.get_char(k) {
            return false;
        }
        k = k + 1;
    }
    assert(a@ == b@);
    true
}

/// The delivery status that `token` names, or `UnrecognizedStatusToken`.
pub fn parse_tracking(token: &str) -> (r: Result<OrderTracking, EcomError>)
    ensures
        r matches Ok(t) ==> tracking_of(token@) == Some(t),
        r is Err ==> tracking_of(token@) is None && r == Err::<OrderTracking, EcomError>(
            EcomError::UnrecognizedStatusToken,
        ),
{
    if same_text(token, "intransit") {
        Ok(OrderTracking::InTransit)
    } else if same_text(token, "shipped") {
        Ok(OrderTracking::Shipped)
    } else if same_text(token, "outfordelivery") {
        Ok(OrderTracking::OutForDelivery)
    } else if same_text(token, "delivered") {
        Ok(OrderTracking::Delivered)
    } else {
        Err(EcomError::UnrecognizedStatusToken)
    }
}

/// The records that advancing an order's delivery status touches.
pub struct UpdateOrder {
    pub signer: Identity,
    pub order: Order,
}

impl UpdateOrder {
    /// Sets the delivery status that `status_str` names, whatever the current
    /// one is (no ordering between statuses is enforced), and stamps the order
    /// with `now`.
    pub fn update_tracking_status(&mut self, status_str: String, now: i64) -> (r: Result<
        (),
        EcomError,
    >)
        ensures
            tracking_of(status_str@) is None ==> r == Err::<(), EcomError>(
                EcomError::UnrecognizedStatusToken,
            ) && *final(self) == *old(self),
            tracking_of(status_str@) is Some ==> r is Ok && *final(self) == (UpdateOrder {
                order: Order {
                    order_tracking: tracking_of(status_str@)->0,
                    updated_at: now,
                    ..old(self).order
                },
                ..*old(self)
            }),
    {
        match parse_tracking(status_str.as_str()) {
            Ok(t) => {
                self.order.order_tracking = t;
                self.order.updated_at = now;
                Ok(())
            },
            Err(e) => Err(e),
        }
    }
}

/// The records that retiring an order touches.
pub struct CloseOrder {
    pub signer: Identity,
    pub order: Option<Order>,
}

impl CloseOrder {
    /// Retires the signer's order, whatever its state.
    pub fn close_order(&mut self) -> (r: Result<(), EcomError>)
        ensures
            old(self).order is None ==> r == Err::<(), EcomError>(EcomError::RecordNotFound)
                && *final(self) == *old(self),
            old(self).order is Some ==> r is Ok && final(self).order is None && final(self).signer
                == old(self).signer,
    {
        if self.order.is_none() {
            return Err(EcomError::RecordNotFound);
        }
        self.order = None;
        Ok(())
    }
}

} // verus!
