use schliessfach_manager::calendar::Date;
use schliessfach_manager::model::{BillingPeriod, Locker, PaymentType, Rental};

fn ymd(y: i32, m: u32, d: u32) -> Date {
    Date::from_ymd_opt(y, m, d).expect("valid date")
}

#[test]
fn rental_active_range_checks_dates() {
    let start = Date::from_ymd_opt(2025, 1, 1).expect("start date");
    let end = Date::from_ymd_opt(2025, 1, 31).expect("end date");
    let rental = Rental::new(1, 2, "Max", start, end);

    assert!(rental.is_active_on(start));
    assert!(rental.is_active_on(end));
    assert!(!rental.is_active_on(Date::from_ymd_opt(2024, 12, 31).unwrap()));
    assert!(!rental.is_active_on(Date::from_ymd_opt(2025, 2, 1).unwrap()));
}

#[test]
fn billing_period_roundtrip() {
    assert_eq!(BillingPeriod::from_str("monthly"), BillingPeriod::Monthly);
    assert_eq!(BillingPeriod::from_str("yearly"), BillingPeriod::Yearly);
    assert_eq!(BillingPeriod::Yearly.as_str(), "yearly");
}

#[test]
fn billing_period_unknown_text_is_yearly() {
    assert_eq!(BillingPeriod::from_str("weekly"), BillingPeriod::Yearly);
    assert_eq!(BillingPeriod::Monthly.as_str(), "monthly");
}

#[test]
fn payment_type_roundtrip() {
    assert_eq!(PaymentType::from_str("deposit"), PaymentType::Deposit);
    assert_eq!(PaymentType::from_str("yearly_fee"), PaymentType::YearlyFee);
    assert_eq!(PaymentType::from_str("custom"), PaymentType::Other("custom".into()));
    assert_eq!(PaymentType::Deposit.as_str(), "deposit");
}

#[test]
fn locker_damage_updates_fields() {
    let mut locker = Locker::new(1, "A-01", "Hauptgebäude", "Klein");
    assert!(!locker.is_damaged);

    locker.mark_damaged(Some("Schloss defekt".into()));
    assert!(locker.is_damaged);
    assert_eq!(locker.notes.as_deref(), Some("Schloss defekt"));

    locker.mark_repaired();
    assert!(!locker.is_damaged);
}

#[test]
fn mark_damaged_without_note_keeps_notes() {
    let mut locker = Locker::new(1, "A-01", "Hauptgebäude", "Klein");
    locker.mark_damaged(Some("Tür klemmt".into()));
    locker.mark_damaged(None);
    assert_eq!(locker.notes.as_deref(), Some("Tür klemmt"));
}

#[test]
fn extend_and_close_move_the_end_date() {
    let mut rental = Rental::new(1, 2, "Max", ymd(2025, 1, 1), ymd(2025, 1, 31));
    rental.extend_to(ymd(2025, 1, 15));
    assert_eq!(rental.end_date, ymd(2025, 1, 31));
    rental.extend_to(ymd(2025, 3, 1));
    assert_eq!(rental.end_date, ymd(2025, 3, 1));
    rental.close(ymd(2025, 2, 10));
    assert_eq!(rental.end_date, ymd(2025, 2, 10));
    assert!(rental.deposit_returned);
}
