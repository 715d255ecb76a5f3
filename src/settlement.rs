use vstd::prelude::*;
use crate::error::EcomError;
use crate::ident::{Identity, mint_id, minted_id};
use crate::states::{
    Escrow, EscrowStatus, Payment, PaymentMethod, PaymentStatus, Transfer, VaultState, Wallet,
    after_transfer, can_transfer, escrow_step, linked, payment_step, transfer,
};

verus! {

/// The records that opening a payment touches.
pub struct CreatePayment {
    pub signer: Identity,
    /// The signer's payment slot; `None` while no payment is live.
    pub payments: Option<Payment>,
}

/// A payment freshly opened by `signer` at time `now`.
pub open spec fn is_new_payment(
    p: Payment,
    signer: Identity,
    amount: u64,
    product: Identity,
    tx_signature: Option<String>,
    bump: u8,
    now: i64,
) -> bool {
    &&& p.payment_id@ == minted_id(signer@, now)
    &&& p.payment_amount == amount
    &&& p.product_pubkey == product
    &&& p.payment_method == PaymentMethod::NativeCurrency
    &&& p.payment_status == PaymentStatus::Pending
    &&& p.time_stamp == now
    &&& p.tx_signature == tx_signature
    &&& p.payment_bump == bump
}

impl CreatePayment {
    /// Opens a pending payment of `payment_amount` for the signer, with an id
    /// minted from the signer and `now`.
    pub fn create_payment(
        &mut self,
        payment_amount: u64,
        product_pubkey: Identity,
        tx_signature: Option<String>,
        payment_bump: u8,
        now: i64,
    ) -> (r: Result<(), EcomError>)
        ensures
            old(self).payments is Some ==> r == Err::<(), EcomError>(
                EcomError::RecordAlreadyExists,
            ) && *final(self) == *old(self),
            old(self).payments is None ==> r is Ok && final(self).signer == old(self).signer
                && final(self).payments is Some && is_new_payment(
                final(self).payments->0,
                old(self).signer,
                payment_amount,
                product_pubkey,
                tx_signature,
                payment_bump,
                now,
            ),
    {
        if self.payments.is_some() {
            return Err(EcomError::RecordAlreadyExists);
        }
        let payment_id = mint_id(&self.signer, now);
        self.payments = Some(
            Payment {
                payment_id,
                payment_amount,
                product_pubkey,
                payment_method: PaymentMethod::NativeCurrency,
                payment_status: PaymentStatus::Pending,
                time_stamp: now,
                tx_signature,
                payment_bump,
            },
        );
        Ok(())
    }
}

/// The records that opening an escrow touches.
pub struct CreateEscrow {
    pub owner: Identity,
    /// The owner's escrow slot; `None` while no escrow is live.
    pub escrow: Option<Escrow>,
    pub payment: Payment,
    /// The owner's vault authorization slot; `None` while no vault is live.
    pub vault_state: Option<VaultState>,
}

/// The arguments of `create_escrow`.
pub struct EscrowTerms {
    pub buyer_pubkey: Identity,
    pub seller_pubkey: Identity,
    pub amount: u64,
    pub escrow_bump: u8,
    pub vault: u8,
    pub vault_state: u8,
}

/// What opening an escrow does: the records afterwards and the result.
pub open spec fn create_escrow_outcome(c: CreateEscrow, t: EscrowTerms, now: i64) -> (
    CreateEscrow,
    Result<(), EcomError>,
) {
    if c.escrow is Some || c.vault_state is Some {
        (c, Err(EcomError::RecordAlreadyExists))
    } else if c.payment.payment_status != PaymentStatus::Pending {
        (c, Err(EcomError::InvalidPaymentState))
    } else if t.amount != c.payment.payment_amount {
        (c, Err(EcomError::InvalidEscrowState))
    } else {
        (
            CreateEscrow {
                escrow: Some(
                    Escrow {
                        owner: c.owner,
                        buyer_pubkey: t.buyer_pubkey,
                        seller_pubkey: t.seller_pubkey,
                        amount: t.amount,
                        release_fund: false,
                        time_stamp: now,
                        update_timestamp: now,
                        escrow_status: EscrowStatus::SwapPending,
                        escrow_bump: t.escrow_bump,
                    },
                ),
                vault_state: Some(VaultState { vault_bump: t.vault, state_bump: t.vault_state }),
                ..c
            },
            Ok(()),
        )
    }
}

impl CreateEscrow {
    /// Opens an escrow against a pending payment and records the vault's
    /// derivation values. The escrow starts in `SwapPending` with no release
    /// authorized. The escrow's `amount` must be the payment's amount; any
    /// other amount is refused with `InvalidEscrowState`.
    pub fn create_escrow(
        &mut self,
        buyer_pubkey: Identity,
        seller_pubkey: Identity,
        amount: u64,
        escrow_bump: u8,
        vault: u8,
        vault_state: u8,
        now: i64,
    ) -> (r: Result<(), EcomError>)
        ensures
            (*final(self), r) == create_escrow_outcome(
                *old(self),
                (EscrowTerms { buyer_pubkey, seller_pubkey, amount, escrow_bump, vault, vault_state }),
                now,
            ),
    {
        if self.escrow.is_some() || self.vault_state.is_some() {
            return Err(EcomError::RecordAlreadyExists);
        }
        match self.payment.payment_status {
            PaymentStatus::Pending => {},
            _ => {
                return Err(EcomError::InvalidPaymentState);
            },
        }
        if amount != self.payment.payment_amount {
            return Err(EcomError::InvalidEscrowState);
        }
        self.escrow = Some(
            Escrow {
                owner: self.owner,
                buyer_pubkey,
                seller_pubkey,
                amount,
                release_fund: false,
                time_stamp: now,
                update_timestamp: now,
                escrow_status: EscrowStatus::SwapPending,
                escrow_bump,
            },
        );
        self.vault_state = Some(VaultState { vault_bump: vault, state_bump: vault_state });
        Ok(())
    }
}

/// The records that funding the vault touches.
pub struct DepositeEscrow {
    pub owner: Identity,
    pub escrow: Escrow,
    pub payment: Payment,
    pub vault_state: VaultState,
    /// The vault's holding address.
    pub vault: Wallet,
    /// The depositor's holding address.
    pub user: Wallet,
}

/// What funding the vault does: the records afterwards and the transfer made.
pub open spec fn deposit_outcome(d: DepositeEscrow, now: i64) -> (
    DepositeEscrow,
    Result<Transfer, EcomError>,
) {
    let amount: u64 = d.payment.payment_amount;
    if d.payment.payment_status != PaymentStatus::Pending {
        (d, Err(EcomError::InvalidPaymentState))
    } else if !can_transfer(d.user, d.vault, amount) {
        (d, Err(EcomError::TransferFailed))
    } else {
        let (user, vault) = after_transfer(d.user, d.vault, amount);
        (
            DepositeEscrow {
                escrow: Escrow {
                    escrow_status: EscrowStatus::FundsReceived,
                    release_fund: true,
                    update_timestamp: now,
                    ..d.escrow
                },
                user,
                vault,
                ..d
            },
            Ok(Transfer { from: d.user.key, to: d.vault.key, amount }),
        )
    }
}

impl DepositeEscrow {
    /// Moves the payment's amount from the depositor into the vault and marks
    /// the escrow funded, with release authorized. Nothing here refuses a
    /// second deposit while the payment is still pending: each call moves the
    /// amount again.
    pub fn deposite_escrow(&mut self, _escrow_bump: u8, now: i64) -> (r: Result<
        Transfer,
        EcomError,
    >)
        ensures
            (*final(self), r) == deposit_outcome(*old(self), now),
    {
        let amount: u64 = self.payment.payment_amount;
        match self.payment.payment_status {
            PaymentStatus::Pending => {},
            _ => {
                return Err(EcomError::InvalidPaymentState);
            },
        }
        let moved = transfer(&mut self.user, &mut self.vault, amount);
        match moved {
            Ok(t) => {
                self.escrow.escrow_status = EscrowStatus::FundsReceived;
                self.escrow.release_fund = true;
                self.escrow.update_timestamp = now;
                Ok(t)
            },
            Err(e) => Err(e),
        }
    }
}

/// The records that releasing the vault's funds to the seller touches.
pub struct WithdrawlEscrow {
    pub owner: Identity,
    /// The seller's holding address.
    pub seller_account: Wallet,
    pub escrow: Escrow,
    pub payment: Payment,
    pub vault_state: VaultState,
    /// The vault's holding address.
    pub vault: Wallet,
}

/// What releasing the funds does: the records afterwards and the transfer made.
pub open spec fn withdraw_outcome(w: WithdrawlEscrow, now: i64) -> (
    WithdrawlEscrow,
    Result<Transfer, EcomError>,
) {
    let amount: u64 = w.payment.payment_amount;
    if w.payment.payment_status != PaymentStatus::Pending || w.payment.payment_method
        != PaymentMethod::NativeCurrency {
        (w, Err(EcomError::InvalidPaymentState))
    } else if !w.escrow.release_fund {
        (w, Err(EcomError::FundsNotReleased))
    } else if !can_transfer(w.vault, w.seller_account, amount) {
        (w, Err(EcomError::TransferFailed))
    } else {
        let (vault, seller_account) = after_transfer(w.vault, w.seller_account, amount);
        (
            WithdrawlEscrow {
                payment: Payment { payment_status: PaymentStatus::Success, ..w.payment },
                escrow: Escrow {
                    escrow_status: EscrowStatus::SwapSuccess,
                    release_fund: false,
                    update_timestamp: now,
                    ..w.escrow
                },
                vault,
                seller_account,
                ..w
            },
            Ok(Transfer { from: w.vault.key, to: w.seller_account.key, amount }),
        )
    }
}

impl WithdrawlEscrow {
    /// Releases the payment's amount from the vault to the seller, settles the
    /// payment and consumes the release authorization.
    pub fn withdrawl_escrow(&mut self, now: i64) -> (r: Result<Transfer, EcomError>)
        ensures
            (*final(self), r) == withdraw_outcome(*old(self), now),
    {
        let amount: u64 = self.payment.payment_amount;
        let pending = match self.payment.payment_status {
            PaymentStatus::Pending => true,
            _ => false,
        };
        let native = match self.payment.payment_method {
            PaymentMethod::NativeCurrency => true,
        };
        if !(pending && native) {
            return Err(EcomError::InvalidPaymentState);
        }
        if !self.escrow.release_fund {
            return Err(EcomError::FundsNotReleased);
        }
        let moved = transfer(&mut self.vault, &mut self.seller_account, amount);
        match moved {
            Ok(t) => {
                self.payment.payment_status = PaymentStatus::Success;
                self.escrow.escrow_status = EscrowStatus::SwapSuccess;
                self.escrow.release_fund = false;
                self.escrow.update_timestamp = now;
                Ok(t)
            },
            Err(e) => Err(e),
        }
    }
}

/// The records that retiring a settlement touches.
pub struct CloseAll {
    /// The closer's holding address, which receives what the vault holds.
    pub signer: Wallet,
    pub payment: Option<Payment>,
    pub escrow: Option<Escrow>,
    pub vault_state: Option<VaultState>,
    /// The vault's holding address.
    pub vault: Wallet,
}

/// What retiring a settlement does: the records afterwards and the amount
/// drained from the vault.
pub open spec fn close_all_outcome(c: CloseAll) -> (CloseAll, Result<u64, EcomError>) {
    if c.payment is None || c.escrow is None || c.vault_state is None {
        (c, Err(EcomError::RecordNotFound))
    } else if !can_transfer(c.vault, c.signer, c.vault.lamports) {
        (c, Err(EcomError::TransferFailed))
    } else {
        let (vault, signer) = after_transfer(c.vault, c.signer, c.vault.lamports);
        (
            CloseAll { signer, payment: None, escrow: None, vault_state: None, vault },
            Ok(c.vault.lamports),
        )
    }
}

impl CloseAll {
    /// Drains the vault's whole balance to the closer and retires the payment,
    /// the escrow and the vault's authorization record, whatever state they
    /// are in. Returns the amount drained.
    pub fn close_all(&mut self) -> (r: Result<u64, EcomError>)
        ensures
            (*final(self), r) == close_all_outcome(*old(self)),
            r is Ok ==> final(self).vault.lamports == 0 && final(self).signer.lamports
                == old(self).signer.lamports + old(self).vault.lamports,
    {
        if self.payment.is_none() || self.escrow.is_none() || self.vault_state.is_none() {
            return Err(EcomError::RecordNotFound);
        }
        let lamports: u64 = self.vault.lamports;
        if lamports > 0 {
            let moved = transfer(&mut self.vault, &mut self.signer, lamports);
            if moved.is_err() {
                return Err(EcomError::TransferFailed);
            }
        }
        self.payment = None;
        self.escrow = None;
        self.vault_state = None;
        Ok(lamports)
    }
}

/// A payment's status never moves backward, and only a withdrawal moves it:
/// opening an escrow and funding the vault leave the payment as it is, and a
/// withdrawal that succeeds takes it from `Pending` to `Success`.
pub proof fn payment_status_only_advances(
    c: CreateEscrow,
    t: EscrowTerms,
    d: DepositeEscrow,
    w: WithdrawlEscrow,
    now: i64,
)
    ensures
        create_escrow_outcome(c, t, now).0.payment == c.payment,
        deposit_outcome(d, now).0.payment == d.payment,
        payment_step(w.payment.payment_status, withdraw_outcome(w, now).0.payment.payment_status),
        withdraw_outcome(w, now).1 is Ok ==> w.payment.payment_status == PaymentStatus::Pending
            && withdraw_outcome(w, now).0.payment.payment_status == PaymentStatus::Success,
        withdraw_outcome(w, now).1 is Err ==> withdraw_outcome(w, now).0 == w,
{
}

/// An escrow's status moves `SwapPending`, `FundsReceived`, `SwapSuccess` in
/// that order, one step at a time and never back, and each operation keeps
/// the escrow in agreement with its payment. An escrow is opened for the
/// payment's amount.
pub proof fn escrow_status_advances_in_order(
    c: CreateEscrow,
    t: EscrowTerms,
    d: DepositeEscrow,
    w: WithdrawlEscrow,
    now: i64,
)
    requires
        linked(d.payment, d.escrow),
        linked(w.payment, w.escrow),
    ensures
        create_escrow_outcome(c, t, now).1 is Ok ==> create_escrow_outcome(
            c,
            t,
            now,
        ).0.escrow->0.escrow_status == EscrowStatus::SwapPending && create_escrow_outcome(
            c,
            t,
            now,
        ).0.escrow->0.amount == c.payment.payment_amount && linked(
            create_escrow_outcome(c, t, now).0.payment,
            create_escrow_outcome(c, t, now).0.escrow->0,
        ),
        escrow_step(d.escrow.escrow_status, deposit_outcome(d, now).0.escrow.escrow_status),
        linked(deposit_outcome(d, now).0.payment, deposit_outcome(d, now).0.escrow),
        escrow_step(w.escrow.escrow_status, withdraw_outcome(w, now).0.escrow.escrow_status),
        linked(withdraw_outcome(w, now).0.payment, withdraw_outcome(w, now).0.escrow),
{
}

/// The withdrawal step that follows a deposit: the same records, with the
/// seller's holding address added.
pub open spec fn withdrawal_after(d: DepositeEscrow, seller: Wallet) -> WithdrawlEscrow {
    WithdrawlEscrow {
        owner: d.owner,
        seller_account: seller,
        escrow: d.escrow,
        payment: d.payment,
        vault_state: d.vault_state,
        vault: d.vault,
    }
}

/// A deposit followed at once by a withdrawal moves exactly the payment's
/// amount from the depositor to the seller and leaves the vault's balance as
/// it was before the deposit.
pub proof fn deposit_then_withdrawal_round_trip(
    d: DepositeEscrow,
    seller: Wallet,
    deposited_at: i64,
    released_at: i64,
)
    requires
        d.payment.payment_status == PaymentStatus::Pending,
        can_transfer(d.user, d.vault, d.payment.payment_amount),
        seller.lamports + d.payment.payment_amount <= u64::MAX,
    ensures
        ({
            let amount: u64 = d.payment.payment_amount;
            let (funded, r1) = deposit_outcome(d, deposited_at);
            let (released, r2) = withdraw_outcome(withdrawal_after(funded, seller), released_at);
            &&& r1 is Ok
            &&& r2 is Ok
            &&& funded.user.lamports == d.user.lamports - amount
            &&& released.seller_account.lamports == seller.lamports + amount
            &&& released.vault.lamports == d.vault.lamports
        }),
{
}

/// A withdrawal before any deposit, on an escrow still in `SwapPending`, fails
/// with `FundsNotReleased` and changes nothing.
pub proof fn withdrawal_before_deposit_fails(w: WithdrawlEscrow, now: i64)
    requires
        linked(w.payment, w.escrow),
        w.escrow.escrow_status == EscrowStatus::SwapPending,
    ensures
        withdraw_outcome(w, now) == (w, Err::<Transfer, EcomError>(EcomError::FundsNotReleased)),
{
}

/// Opening an escrow against a payment that has already succeeded fails with
/// `InvalidPaymentState` and changes nothing.
pub proof fn escrow_against_settled_payment_fails(c: CreateEscrow, t: EscrowTerms, now: i64)
    requires
        c.escrow is None,
        c.vault_state is None,
        c.payment.payment_status == PaymentStatus::Success,
    ensures
        create_escrow_outcome(c, t, now) == (c, Err::<(), EcomError>(
            EcomError::InvalidPaymentState,
        )),
{
}

} // verus!
