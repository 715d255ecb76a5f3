use ecom_escrow::error::EcomError;
use ecom_escrow::ident::{id_from_digest, mint_id, seed_bytes, uuid_text_matches};
use ecom_escrow::settlement::{
    CloseAll, CreateEscrow, CreatePayment, DepositeEscrow, WithdrawlEscrow,
};
use ecom_escrow::states::{
    transfer, Escrow, EscrowStatus, Payment, PaymentMethod, PaymentStatus, Transfer, VaultState,
    Wallet,
};

const OWNER: [u8; 32] = [7u8; 32];
const SELLER: [u8; 32] = [9u8; 32];
const PRODUCT: [u8; 32] = [3u8; 32];
const VAULT: [u8; 32] = [5u8; 32];

fn open_payment(amount: u64, now: i64) -> Payment {
    let mut c = CreatePayment { signer: OWNER, payments: None };
    c.create_payment(amount, PRODUCT, Some("sig".to_string()), 254, now).unwrap();
    c.payments.unwrap()
}

fn open_escrow(payment: Payment, now: i64) -> (Payment, Escrow, VaultState) {
    let amount = payment.payment_amount;
    let mut c = CreateEscrow { owner: OWNER, escrow: None, payment, vault_state: None };
    c.create_escrow(OWNER, SELLER, amount, 253, 252, 251, now).unwrap();
    (c.payment, c.escrow.unwrap(), c.vault_state.unwrap())
}

#[test]
fn create_payment_sets_pending_record() {
    let p = open_payment(500, 1_700_000_000);
    assert_eq!(p.payment_amount, 500);
    assert_eq!(p.payment_status, PaymentStatus::Pending);
    assert_eq!(p.payment_method, PaymentMethod::NativeCurrency);
    assert_eq!(p.time_stamp, 1_700_000_000);
    assert_eq!(p.tx_signature, Some("sig".to_string()));
    assert_eq!(p.payment_bump, 254);
    assert_eq!(p.product_pubkey, PRODUCT);
    assert_eq!(p.payment_id, mint_id(&OWNER, 1_700_000_000));
}

#[test]
fn create_payment_twice_is_refused() {
    let mut c = CreatePayment { signer: OWNER, payments: None };
    c.create_payment(500, PRODUCT, None, 1, 10).unwrap();
    let before = c.payments.clone();
    assert_eq!(
        c.create_payment(900, PRODUCT, None, 1, 11),
        Err(EcomError::RecordAlreadyExists)
    );
    assert_eq!(c.payments, before);
}

#[test]
fn seed_is_identity_then_little_endian_timestamp() {
    let s = seed_bytes(&OWNER, 0x0102030405060708);
    assert_eq!(s.len(), 40);
    assert_eq!(&s[..32], &OWNER[..]);
    assert_eq!(&s[32..], &[8, 7, 6, 5, 4, 3, 2, 1]);
    let neg = seed_bytes(&OWNER, -1);
    assert_eq!(&neg[32..], &[255u8; 8]);
}

#[test]
fn minted_id_is_head_of_digest() {
    let seed = seed_bytes(&OWNER, 42);
    let digest = anchor_lang::solana_program::hash::hash(&seed).to_bytes();
    let id = mint_id(&OWNER, 42);
    assert_eq!(&id[..], &digest[..16]);
    assert_ne!(&id[..], &seed[..16]);
    assert_ne!(mint_id(&OWNER, 42), mint_id(&OWNER, 43));
    assert_ne!(mint_id(&OWNER, 42), mint_id(&SELLER, 42));
}

#[test]
fn canonical_uuid_text() {
    let id: [u8; 16] = [
        0x00, 0x01, 0x02, 0x03, 0x04, 0x05, 0x06, 0x07, 0x08, 0x09, 0x0a, 0x0b, 0x0c, 0x0d, 0xfe,
        0xaf,
    ];
    assert!(uuid_text_matches("00010203-0405-0607-0809-0a0b0c0dfeaf", &id));
    assert!(!uuid_text_matches("00010203-0405-0607-0809-0A0B0C0DFEAF", &id));
    assert!(!uuid_text_matches("000102030405060708090a0b0c0dfeaf", &id));
    assert!(!uuid_text_matches("00010203-0405-0607-0809-0a0b0c0dfeae", &id));
    assert!(!uuid_text_matches("", &id));
}

#[test]
fn create_escrow_starts_pending() {
    let p = open_payment(500, 10);
    let (kept, e, v) = open_escrow(p.clone(), 11);
    assert_eq!(kept, p);
    assert_eq!(e.owner, OWNER);
    assert_eq!(e.buyer_pubkey, OWNER);
    assert_eq!(e.seller_pubkey, SELLER);
    assert_eq!(e.amount, 500);
    assert!(!e.release_fund);
    assert_eq!(e.escrow_status, EscrowStatus::SwapPending);
    assert_eq!(e.time_stamp, 11);
    assert_eq!(e.update_timestamp, 11);
    assert_eq!(e.escrow_bump, 253);
    assert_eq!(v, VaultState { vault_bump: 252, state_bump: 251 });
}

#[test]
fn create_escrow_on_settled_payment_fails() {
    let mut p = open_payment(500, 10);
    p.payment_status = PaymentStatus::Success;
    let mut c = CreateEscrow { owner: OWNER, escrow: None, payment: p, vault_state: None };
    assert_eq!(
        c.create_escrow(OWNER, SELLER, 500, 1, 2, 3, 11),
        Err(EcomError::InvalidPaymentState)
    );
    assert!(c.escrow.is_none());
    assert!(c.vault_state.is_none());
}

#[test]
fn create_escrow_twice_is_refused() {
    let p = open_payment(500, 10);
    let (p, e, v) = open_escrow(p, 11);
    let mut c = CreateEscrow { owner: OWNER, escrow: Some(e), payment: p, vault_state: Some(v) };
    assert_eq!(
        c.create_escrow(OWNER, SELLER, 500, 1, 2, 3, 12),
        Err(EcomError::RecordAlreadyExists)
    );
    assert_eq!(c.escrow, Some(e));
}

fn funded(amount: u64, user: u64, vault: u64) -> (DepositeEscrow, Result<Transfer, EcomError>) {
    let p = open_payment(amount, 10);
    let (p, e, v) = open_escrow(p, 11);
    let mut d = DepositeEscrow {
        owner: OWNER,
        escrow: e,
        payment: p,
        vault_state: v,
        vault: Wallet { key: VAULT, lamports: vault },
        user: Wallet { key: OWNER, lamports: user },
    };
    let r = d.deposite_escrow(253, 12);
    (d, r)
}

#[test]
fn deposit_moves_amount_into_vault() {
    let (d, r) = funded(500, 2_000, 100);
    assert_eq!(r, Ok(Transfer { from: OWNER, to: VAULT, amount: 500 }));
    assert_eq!(d.user.lamports, 1_500);
    assert_eq!(d.vault.lamports, 600);
    assert_eq!(d.escrow.escrow_status, EscrowStatus::FundsReceived);
    assert!(d.escrow.release_fund);
    assert_eq!(d.escrow.update_timestamp, 12);
    assert_eq!(d.payment.payment_status, PaymentStatus::Pending);
}

#[test]
fn deposit_with_short_balance_fails() {
    let (d, r) = funded(500, 499, 100);
    assert_eq!(r, Err(EcomError::TransferFailed));
    assert_eq!(d.user.lamports, 499);
    assert_eq!(d.vault.lamports, 100);
    assert_eq!(d.escrow.escrow_status, EscrowStatus::SwapPending);
    assert!(!d.escrow.release_fund);
}

#[test]
fn deposit_on_settled_payment_fails() {
    let (mut d, _) = funded(500, 2_000, 0);
    d.payment.payment_status = PaymentStatus::Success;
    let before = d.user;
    assert_eq!(d.deposite_escrow(253, 13), Err(EcomError::InvalidPaymentState));
    assert_eq!(d.user, before);
}

fn withdrawal_of(d: &DepositeEscrow, seller: u64) -> WithdrawlEscrow {
    WithdrawlEscrow {
        owner: d.owner,
        seller_account: Wallet { key: SELLER, lamports: seller },
        escrow: d.escrow,
        payment: d.payment.clone(),
        vault_state: d.vault_state,
        vault: d.vault,
    }
}

#[test]
fn deposit_then_withdrawal_round_trip() {
    let (d, r) = funded(500, 2_000, 70);
    assert!(r.is_ok());
    let mut w = withdrawal_of(&d, 30);
    assert_eq!(w.withdrawl_escrow(14), Ok(Transfer { from: VAULT, to: SELLER, amount: 500 }));
    assert_eq!(d.user.lamports, 1_500);
    assert_eq!(w.seller_account.lamports, 530);
    assert_eq!(w.vault.lamports, 70);
    assert_eq!(w.payment.payment_status, PaymentStatus::Success);
    assert_eq!(w.escrow.escrow_status, EscrowStatus::SwapSuccess);
    assert!(!w.escrow.release_fund);
    assert_eq!(w.escrow.update_timestamp, 14);
}

#[test]
fn withdrawal_before_deposit_fails() {
    let p = open_payment(500, 10);
    let (p, e, v) = open_escrow(p, 11);
    let mut w = WithdrawlEscrow {
        owner: OWNER,
        seller_account: Wallet { key: SELLER, lamports: 0 },
        escrow: e,
        payment: p,
        vault_state: v,
        vault: Wallet { key: VAULT, lamports: 10_000 },
    };
    assert_eq!(w.withdrawl_escrow(12), Err(EcomError::FundsNotReleased));
    assert_eq!(w.vault.lamports, 10_000);
    assert_eq!(w.seller_account.lamports, 0);
    assert_eq!(w.payment.payment_status, PaymentStatus::Pending);
}

#[test]
fn second_withdrawal_fails() {
    let (d, _) = funded(500, 2_000, 0);
    let mut w = withdrawal_of(&d, 0);
    assert!(w.withdrawl_escrow(14).is_ok());
    assert_eq!(w.withdrawl_escrow(15), Err(EcomError::InvalidPaymentState));
    assert_eq!(w.seller_account.lamports, 500);
    assert_eq!(w.vault.lamports, 0);
}

#[test]
fn withdrawal_from_short_vault_fails() {
    let (d, _) = funded(500, 2_000, 0);
    let mut w = withdrawal_of(&d, 0);
    w.vault.lamports = 499;
    assert_eq!(w.withdrawl_escrow(14), Err(EcomError::TransferFailed));
    assert_eq!(w.payment.payment_status, PaymentStatus::Pending);
    assert_eq!(w.escrow.escrow_status, EscrowStatus::FundsReceived);
    assert!(w.escrow.release_fund);
}

fn closing(vault: u64, signer: u64) -> CloseAll {
    let (d, _) = funded(500, 2_000, 0);
    CloseAll {
        signer: Wallet { key: OWNER, lamports: signer },
        payment: Some(d.payment),
        escrow: Some(d.escrow),
        vault_state: Some(d.vault_state),
        vault: Wallet { key: VAULT, lamports: vault },
    }
}

#[test]
fn close_all_drains_whole_vault() {
    let mut c = closing(777, 100);
    assert_eq!(c.close_all(), Ok(777));
    assert_eq!(c.vault.lamports, 0);
    assert_eq!(c.signer.lamports, 877);
    assert!(c.payment.is_none());
    assert!(c.escrow.is_none());
    assert!(c.vault_state.is_none());
}

#[test]
fn close_all_on_empty_vault() {
    let mut c = closing(0, 100);
    assert_eq!(c.close_all(), Ok(0));
    assert_eq!(c.signer.lamports, 100);
    assert!(c.payment.is_none());
}

#[test]
fn close_all_without_records_fails() {
    let mut c = closing(777, 100);
    c.escrow = None;
    assert_eq!(c.close_all(), Err(EcomError::RecordNotFound));
    assert_eq!(c.vault.lamports, 777);
    assert!(c.payment.is_some());
}

#[test]
fn close_all_overflow_fails() {
    let mut c = closing(2, u64::MAX - 1);
    assert_eq!(c.close_all(), Err(EcomError::TransferFailed));
    assert_eq!(c.vault.lamports, 2);
    assert!(c.vault_state.is_some());
}

#[test]
fn transfer_moves_or_refuses() {
    let mut a = Wallet { key: OWNER, lamports: 10 };
    let mut b = Wallet { key: SELLER, lamports: u64::MAX - 5 };
    assert_eq!(transfer(&mut a, &mut b, 6), Err(EcomError::TransferFailed));
    assert_eq!(a.lamports, 10);
    assert_eq!(transfer(&mut a, &mut b, 5), Ok(Transfer { from: OWNER, to: SELLER, amount: 5 }));
    assert_eq!(a.lamports, 5);
    assert_eq!(b.lamports, u64::MAX);
    assert_eq!(transfer(&mut b, &mut a, 0), Ok(Transfer { from: SELLER, to: OWNER, amount: 0 }));
}

#[test]
fn id_is_first_half_of_digest() {
    let mut digest = [0u8; 32];
    for (i, b) in digest.iter_mut().enumerate() {
        *b = (i as u8) * 3 + 1;
    }
    let id = id_from_digest(&digest);
    assert_eq!(id, [1, 4, 7, 10, 13, 16, 19, 22, 25, 28, 31, 34, 37, 40, 43, 46]);
}

#[test]
fn create_escrow_for_other_amount_fails() {
    let p = open_payment(500, 10);
    let mut c = CreateEscrow { owner: OWNER, escrow: None, payment: p, vault_state: None };
    assert_eq!(
        c.create_escrow(OWNER, SELLER, 499, 1, 2, 3, 11),
        Err(EcomError::InvalidEscrowState)
    );
    assert!(c.escrow.is_none());
    assert!(c.vault_state.is_none());
    assert_eq!(c.create_escrow(OWNER, SELLER, 500, 1, 2, 3, 11), Ok(()));
    assert_eq!(c.escrow.unwrap().amount, 500);
}
