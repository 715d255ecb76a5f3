use vstd::prelude::*;
use crate::error::EcomError;
use crate::ident::Identity;

verus! {

/// How a payment is settled.
#[derive(Debug, Clone, Copy, PartialEq, Eq, Structural)]
pub enum PaymentMethod {
    /// In the ledger's base currency.
    NativeCurrency,
}

/// Where a payment stands. `Success` is terminal.
#[derive(Debug, Clone, Copy, PartialEq, Eq, Structural)]
pub enum PaymentStatus {
    Pending,
    Success,
}

/// A buyer's committed payment.
#[derive(Debug, Clone, PartialEq, Eq)]
pub struct Payment {
    pub payment_id: [u8; 16],
    pub payment_amount: u64,
    pub product_pubkey: Identity,
    pub payment_method: PaymentMethod,
    pub payment_status: PaymentStatus,
    pub time_stamp: i64,
    pub tx_signature: Option<String>,
    pub payment_bump: u8,
}

/// Where an escrow stands; it only moves forward.
#[derive(Debug, Clone, Copy, PartialEq, Eq, Structural)]
pub enum EscrowStatus {
    SwapPending,
    FundsReceived,
    SwapSuccess,
}

/// Custodial state of one buyer / seller pairing tied to one payment.
#[derive(Debug, Clone, Copy, PartialEq, Eq)]
pub struct Escrow {
    pub owner: Identity,
    pub buyer_pubkey: Identity,
    pub seller_pubkey: Identity,
    pub amount: u64,
    pub release_fund: bool,
    pub time_stamp: i64,
    pub update_timestamp: i64,
    pub escrow_status: EscrowStatus,
    pub escrow_bump: u8,
}

impl Escrow {
    /// The release flag is set exactly while the funds sit in the vault.
    pub open spec fn wf(self) -> bool {
        self.release_fund <==> self.escrow_status == EscrowStatus::FundsReceived
    }
}

/// Position of an escrow status in its forward order.
pub open spec fn escrow_rank(s: EscrowStatus) -> int {
    match s {
        EscrowStatus::SwapPending => 0,
        EscrowStatus::FundsReceived => 1,
        EscrowStatus::SwapSuccess => 2,
    }
}

/// An escrow status stays or advances by exactly one step.
pub open spec fn escrow_step(a: EscrowStatus, b: EscrowStatus) -> bool {
    a == b || escrow_rank(b) == escrow_rank(a) + 1
}

/// A payment status stays or goes from `Pending` to `Success`.
pub open spec fn payment_step(a: PaymentStatus, b: PaymentStatus) -> bool {
    a == b || (a == PaymentStatus::Pending && b == PaymentStatus::Success)
}

/// A payment and the escrow opened against it agree: the payment is settled
/// exactly when the escrow has released its funds.
pub open spec fn linked(p: Payment, e: Escrow) -> bool {
    &&& e.wf()
    &&& (p.payment_status == PaymentStatus::Success <==> e.escrow_status
        == EscrowStatus::SwapSuccess)
}

/// The derivation values that authorize transfers out of the vault.
#[derive(Debug, Clone, Copy, PartialEq, Eq, Structural)]
pub struct VaultState {
    pub vault_bump: u8,
    pub state_bump: u8,
}

/// Fulfilment state of an order.
#[derive(Debug, Clone, Copy, PartialEq, Eq, Structural)]
pub enum OrderStatus {
    Placed,
}

/// Delivery tracking of an order.
#[derive(Debug, Clone, Copy, PartialEq, Eq, Structural)]
pub enum OrderTracking {
    Booked,
    InTransit,
    Shipped,
    OutForDelivery,
    Delivered,
}

/// An order placed against a payment.
#[derive(Debug, Clone, PartialEq, Eq)]
pub struct Order {
    pub order_id: [u8; 16],
    pub payment_id: String,
    pub tracking_id: [u8; 16],
    pub order_status: OrderStatus,
    pub order_tracking: OrderTracking,
    pub created_at: i64,
    pub updated_at: i64,
    pub order_bump: u8,
}

/// A holding address and its balance in base-currency units.
#[derive(Debug, Clone, Copy, PartialEq, Eq)]
pub struct Wallet {
    pub key: Identity,
    pub lamports: u64,
}

/// A movement of base currency that an operation performed.
#[derive(Debug, Clone, Copy, PartialEq, Eq)]
pub struct Transfer {
    pub from: Identity,
    pub to: Identity,
    pub amount: u64,
}

/// Whether `amount` can move from `from` to `to`.
pub open spec fn can_transfer(from: Wallet, to: Wallet, amount: u64) -> bool {
    &&& amount <= from.lamports
    &&& to.lamports + amount <= u64::MAX
}

/// The two balances after `amount` moved from the first to the second.
pub open spec fn after_transfer(from: Wallet, to: Wallet, amount: u64) -> (Wallet, Wallet) {
    (
        Wallet { lamports: (from.lamports - amount) as u64, ..from },
        Wallet { lamports: (to.lamports + amount) as u64, ..to },
    )
}

/// Moves `amount` from one holding address to another, all or nothing.
pub fn transfer(from: &mut Wallet, to: &mut Wallet, amount: u64) -> (r: Result<
    Transfer,
    EcomError,
>)
    ensures
        r is Ok <==> can_transfer(*old(from), *old(to), amount),
        r is Ok ==> (*final(from), *final(to)) == after_transfer(*old(from), *old(to), amount)
            && r == Ok::<Transfer, EcomError>(
            Transfer { from: old(from).key, to: old(to).key, amount },
        ),
        r is Err ==> *final(from) == *old(from) && *final(to) == *old(to) && r == Err::<
            Transfer,
            EcomError,
        >(EcomError::TransferFailed),
{
    if amount > from.lamports || to.lamports > u64::MAX - amount {
        return Err(EcomError::TransferFailed);
    }
    from.lamports = from.lamports - amount;
    to.lamports = to.lamports + amount;
    Ok(Transfer { from: from.key, to: to.key, amount })
}

} // verus!
