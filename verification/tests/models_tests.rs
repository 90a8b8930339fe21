use schliessfach_manager::calendar::Date;
use schliessfach_manager::models::locker::HeightCategory;
use schliessfach_manager::models::rental::debt_for_end_date;
use schliessfach_manager::models::{DashboardStats, DebtorInfo, Locker, LocationStats, Payment, PaymentSummary, PaymentType, Rental, TenantType};

fn days_from_today(n: i64) -> Date {
    Date::today().add_days(n).expect("date in range")
}

#[test]
fn test_locker_creation() {
    let locker = Locker::new("A-042", "Hauptgebäude", 100);
    assert_eq!(locker.label, "A-042");
    assert_eq!(locker.location, "Hauptgebäude");
    assert_eq!(locker.height, 100);
    assert!(!locker.is_damaged);
}

#[test]
fn test_locker_damage_flag() {
    let mut locker = Locker::new("A-042", "Test", 100);
    assert!(!locker.is_damaged);

    locker.mark_damaged();
    assert!(locker.is_damaged);

    locker.mark_repaired();
    assert!(!locker.is_damaged);
}

#[test]
fn test_height_category() {
    let low = Locker::new("A-1", "Test", 30);
    assert_eq!(low.height_category(), HeightCategory::Low);

    let mid = Locker::new("A-2", "Test", 100);
    assert_eq!(mid.height_category(), HeightCategory::Middle);

    let high = Locker::new("A-3", "Test", 200);
    assert_eq!(high.height_category(), HeightCategory::High);
}

#[test]
fn height_category_bounds_and_ranges() {
    assert_eq!(Locker::new("x", "y", 50).height_category(), HeightCategory::Low);
    assert_eq!(Locker::new("x", "y", 51).height_category(), HeightCategory::Middle);
    assert_eq!(Locker::new("x", "y", 150).height_category(), HeightCategory::Middle);
    assert_eq!(Locker::new("x", "y", 151).height_category(), HeightCategory::High);
    assert_eq!(Locker::new("x", "y", -5).height_category(), HeightCategory::High);
    assert_eq!(HeightCategory::Low.range(), (0, 50));
    assert_eq!(HeightCategory::Middle.range(), (51, 150));
    assert_eq!(HeightCategory::High.range(), (151, 300));
}

#[test]
fn test_matches_query() {
    let locker = Locker::new("A-042", "Hauptgebäude", 100);
    assert!(locker.matches_query("A-042"));
    assert!(locker.matches_query("haupt"));
    assert!(!locker.matches_query("xyz"));
}

#[test]
fn test_payment_creation() {
    let payment = Payment::new(1, 1000, PaymentType::Deposit, Date::today());
    assert_eq!(payment.rental_id, 1);
    assert_eq!(payment.amount_cents, 1000);
    assert_eq!(payment.payment_type, PaymentType::Deposit);
}

#[test]
fn payment_format_amount_is_euros() {
    let payment = Payment::new(1, 1000, PaymentType::Deposit, Date::today());
    assert_eq!(payment.format_amount(), "10.00 €");
    let refund = Payment::new(1, -1005, PaymentType::DepositReturn, Date::today());
    assert_eq!(refund.format_amount(), "-10.05 €");
}

#[test]
fn test_payment_type() {
    assert_eq!(PaymentType::Deposit.as_str(), "Deposit");
    assert_eq!(PaymentType::Deposit.display_name(), "Pfand");
    assert_eq!(PaymentType::from_str("Deposit"), Some(PaymentType::Deposit));
    assert_eq!(PaymentType::from_str("Invalid"), None);
}

#[test]
fn payment_type_names_roundtrip() {
    for t in [PaymentType::Deposit, PaymentType::Extension, PaymentType::DepositReturn] {
        assert_eq!(PaymentType::from_str(t.as_str()), Some(t));
    }
    assert_eq!(PaymentType::Extension.display_name(), "Verlängerung");
    assert_eq!(PaymentType::DepositReturn.display_name(), "Pfand-Rückgabe");
}

#[test]
fn test_rental_creation() {
    let today = Date::today();
    let rental = Rental::new(1, "max.mustermann", TenantType::Schueler, today, days_from_today(365));

    assert_eq!(rental.locker_id, 1);
    assert_eq!(rental.tenant_username, "max.mustermann");
    assert_eq!(rental.tenant_type, TenantType::Schueler);
    assert!(rental.is_active());
    assert!(!rental.is_overdue());
}

#[test]
fn test_rental_debt_calculation() {
    let rental = Rental::new(1, "user", TenantType::Schueler, days_from_today(-100), days_from_today(100));
    assert_eq!(rental.calculate_debt(), 0);

    let rental = Rental::new(1, "user", TenantType::Schueler, days_from_today(-400), days_from_today(-40));
    assert_eq!(rental.calculate_debt(), 1000);
}

#[test]
fn debt_counts_started_years_of_365_25_days() {
    let end = Date::from_ymd_opt(2020, 1, 1).unwrap();
    let on = |n: i64| end.add_days(n).unwrap();
    assert_eq!(debt_for_end_date(end, end), 0);
    assert_eq!(debt_for_end_date(end, on(1)), 1000);
    assert_eq!(debt_for_end_date(end, on(365)), 1000);
    assert_eq!(debt_for_end_date(end, on(366)), 2000);
    assert_eq!(debt_for_end_date(end, on(730)), 2000);
    assert_eq!(debt_for_end_date(end, on(731)), 3000);
    assert_eq!(debt_for_end_date(end, on(-10)), 0);
}

#[test]
fn test_tenant_type() {
    assert_eq!(TenantType::Schueler.as_str(), "Schüler");
    assert_eq!(TenantType::Lehrer.as_str(), "Lehrer");
    assert_eq!(TenantType::from_str("Schüler"), Some(TenantType::Schueler));
    assert_eq!(TenantType::from_str("Invalid"), None);
}

#[test]
fn test_email() {
    let today = Date::today();
    let rental = Rental::new(1, "max.mustermann", TenantType::Schueler, today, today);
    assert_eq!(rental.email(), "max.mustermann@athenetz.de");
}

#[test]
fn rental_matches_username_or_id() {
    let today = Date::today();
    let mut rental = Rental::new(1, "Max.Mustermann", TenantType::Lehrer, today, today);
    rental.id = 4711;
    assert!(rental.matches_query("muster"));
    assert!(rental.matches_query("471"));
    assert!(!rental.matches_query("anna"));
}

#[test]
fn rental_overdue_and_days_until_expiration_on_a_given_day() {
    let end = Date::from_ymd_opt(2025, 6, 30).unwrap();
    let rental = Rental::new(1, "u", TenantType::Schueler, Date::from_ymd_opt(2025, 1, 1).unwrap(), end);
    let after = end.add_days(3).unwrap();
    assert!(rental.is_overdue_on(after));
    assert!(!rental.is_overdue_on(end));
    assert_eq!(rental.days_until_expiration_on(after), -3);
    assert_eq!(rental.calculate_debt_on(after), 1000);
}

#[test]
fn location_stats_free_lockers() {
    let stats = LocationStats { location: "Test".to_string(), total: 50, occupied: 40, damaged: 2 };
    assert_eq!(stats.free(), 10);
}

#[test]
fn debtor_and_summary_format_euros() {
    let debtor = DebtorInfo {
        username: "test".to_string(),
        email: "test@athenetz.de".to_string(),
        total_debt_cents: 2000,
        tenant_type: TenantType::Schueler,
        days_overdue: 30,
    };
    assert_eq!(debtor.format_debt(), "20.00 €");
    assert_eq!(PaymentSummary::format_cents(1000), "10.00 €");
    assert_eq!(PaymentSummary::format_cents(5), "0.05 €");
    assert_eq!(PaymentSummary::format_cents(-123456), "-1234.56 €");
}

#[test]
fn dashboard_stats_free_lockers() {
    let stats = DashboardStats {
        total_lockers: 100,
        occupied_lockers: 75,
        damaged_lockers: 5,
        damaged_and_occupied: 0,
        locations: vec![],
        expiring_soon: vec![],
        overdue_rentals: vec![],
        total_revenue_cents: 0,
        outstanding_payments_cents: 0,
    };
    assert_eq!(stats.free_lockers(), 25);
}
