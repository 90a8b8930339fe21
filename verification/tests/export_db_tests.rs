use schliessfach_manager::calendar::{Date, Timestamp};
use schliessfach_manager::db::queries::{debtors_from_rows, outstanding_total, payment_summary_from_rows};
use schliessfach_manager::db::seed::{seed_damaged_labels, seed_lockers, seed_payments, seed_rentals, seed_returned_at};
use schliessfach_manager::export::csv::{export, write_locations, write_lockers, write_payments, write_rentals};
use schliessfach_manager::export::markdown::export_content;
use schliessfach_manager::export::{ExportData, ExportMetadata};
use schliessfach_manager::model::{Location, Locker, Payment, PaymentType, Rental};
use schliessfach_manager::models::TenantType;

fn ymd(y: i32, m: u32, d: u32) -> Date {
    Date::from_ymd_opt(y, m, d).unwrap()
}

fn sample_data() -> ExportData {
    let stamp = Timestamp { secs: 1_700_000_000, nanos: 0 };
    let mut locker = Locker::new(7, "A-01", "Hauptgebäude", "Klein");
    locker.created_at = stamp;
    locker.is_damaged = true;
    let mut rental = Rental::new(3, 7, "Max", ymd(2025, 1, 1), ymd(2025, 12, 31));
    rental.created_at = stamp;
    rental.renter_email = Some("max@example.org".into());
    let mut payment = Payment::new(9, 3, 1000, ymd(2025, 1, 2), PaymentType::Deposit);
    payment.created_at = stamp;
    let mut location = Location::new(1, "Hauptgebäude");
    location.created_at = stamp;
    ExportData {
        metadata: ExportMetadata { version: "2.1.0".into(), export_date: "2025-06-01".into(), database_version: "3".into() },
        lockers: vec![locker],
        rentals: vec![rental],
        payments: vec![payment],
        locations: vec![location],
    }
}

#[test]
fn csv_rows_of_the_export() {
    let data = sample_data();
    let stamp = "2023-11-14T22:13:20+00:00";
    assert_eq!(
        write_lockers(&data),
        vec![
            vec!["id", "number", "location", "size", "is_damaged", "notes", "created_at"],
            vec!["7", "A-01", "Hauptgebäude", "Klein", "true", "", stamp],
        ]
    );
    assert_eq!(write_rentals(&data)[1], vec!["3", "7", "Max", "max@example.org", "", "2025-01-01", "2025-12-31", "false", "false", "", stamp]);
    assert_eq!(write_payments(&data)[1], vec!["9", "3", "1000", "2025-01-02", "deposit", "", stamp]);
    assert_eq!(write_locations(&data), vec![vec!["id", "name", "created_at"], vec!["1", "Hauptgebäude", stamp]]);
}

#[test]
fn markdown_report_of_the_export() {
    let report = export_content(&sample_data());
    assert!(report.starts_with("# Schließfach-Manager Export\n\n- Version: 2.1.0\n- Export Datum: 2025-06-01\n- Datenbank-Version: 3\n\n"));
    assert!(report.contains("| 7 | A-01 | Hauptgebäude | Klein | Ja |\n"));
    assert!(report.ends_with("| 3 | 7 | Max | 2025-01-01 → 2025-12-31 |\n"));
}

#[test]
fn payment_summary_takes_each_type_once() {
    let rows = vec![
        ("Deposit".to_string(), 10000, 10),
        ("Extension".to_string(), 5000, 5),
        ("Unknown".to_string(), 777, 1),
        ("DepositReturn".to_string(), -2000, 2),
    ];
    let s = payment_summary_from_rows(&rows);
    assert_eq!((s.deposits_cents, s.extensions_cents, s.deposit_returns_cents), (10000, 5000, -2000));
    assert_eq!((s.deposit_count, s.extension_count, s.deposit_return_count), (10, 5, 2));
    assert_eq!((s.total_cents, s.net_cents), (13000, 13000));
}

#[test]
fn debtors_are_grouped_and_sorted_by_debt() {
    let today = ymd(2025, 6, 1);
    let rows = vec![
        ("anna".to_string(), "Schüler".to_string(), "2025-05-01".to_string()),
        ("bert".to_string(), "Lehrer".to_string(), "2023-01-01".to_string()),
        ("anna".to_string(), "Lehrer".to_string(), "2024-05-01".to_string()),
        ("carl".to_string(), "???".to_string(), "kein Datum".to_string()),
        ("dora".to_string(), "???".to_string(), "2025-05-30".to_string()),
    ];
    let debtors = debtors_from_rows(&rows, today);
    let summary: Vec<(&str, i32, i64, TenantType)> = debtors
        .iter()
        .map(|d| (d.username.as_str(), d.total_debt_cents, d.days_overdue, d.tenant_type))
        .collect();
    assert_eq!(
        summary,
        vec![
            ("anna", 3000, 396, TenantType::Schueler),
            ("bert", 3000, 882, TenantType::Lehrer),
            ("dora", 1000, 2, TenantType::Schueler),
        ]
    );
    assert_eq!(debtors[0].email, "anna@athenetz.de");
}

#[test]
fn outstanding_total_sums_the_debts() {
    let today = ymd(2025, 6, 1);
    let ends = vec!["2025-05-01".to_string(), "2023-01-01".to_string(), "nonsense".to_string(), "2026-01-01".to_string()];
    assert_eq!(outstanding_total(&ends, today), 1000 + 3000);
}

#[test]
fn seed_data_plan() {
    let lockers = seed_lockers();
    assert_eq!(lockers.len(), 150);
    assert_eq!(lockers[0].label, "A-001");
    assert_eq!(lockers[59].label, "A-060");
    assert_eq!((lockers[60].label.as_str(), lockers[60].location), ("B-001", "Turnhalle"));
    assert_eq!((lockers[149].label.as_str(), lockers[149].position, lockers[149].count), ("C-040", 40, 40));
    assert_eq!(seed_damaged_labels(), vec!["A-015", "B-025", "C-010"]);
    let rentals = seed_rentals();
    assert_eq!(rentals.len(), 10);
    assert_eq!(rentals.iter().filter(|r| r.returned).count(), 2);
    assert_eq!((rentals[4].label, rentals[4].end_offset), ("A-042", -35));
}

#[test]
fn seed_payments_follow_the_rental() {
    let rentals = seed_rentals();
    let start = Date::from_ymd_opt(2024, 1, 10).unwrap();
    let end = Date::from_ymd_opt(2025, 1, 10).unwrap();
    let running = seed_payments(rentals[0], 7, start, end);
    assert_eq!(running.len(), 2);
    assert_eq!((running[0].rental_id, running[0].amount_cents, running[0].payment_type.as_str()), (7, 1000, "Deposit"));
    assert_eq!((running[1].amount_cents, running[1].payment_type.as_str(), running[1].payment_date), (1000, "Extension", start));
    let returned = seed_payments(rentals[8], 9, start, end);
    assert_eq!(returned.len(), 3);
    assert_eq!((returned[2].amount_cents, returned[2].payment_type.as_str(), returned[2].payment_date), (-1000, "DepositReturn", end));
    assert!(returned.iter().all(|p| p.id == 0 && p.notes.is_none()));
}

#[test]
fn seed_returned_at_lies_days_back() {
    let rentals = seed_rentals();
    assert_eq!(seed_returned_at(rentals[0], 1_000_000_000), None);
    assert_eq!(rentals[8].end_offset, -100);
    assert_eq!(seed_returned_at(rentals[8], 1_000_000_000), Some(Timestamp { secs: 1_000_000_000 - 100 * 86_400, nanos: 0 }));
}

#[test]
fn export_writes_four_csv_files() {
    let data = sample_data();
    let files = export(&data).unwrap();
    let names: Vec<&str> = files.iter().map(|(n, _)| n.as_str()).collect();
    assert_eq!(names, vec!["lockers.csv", "rentals.csv", "payments.csv", "locations.csv"]);
    let lockers = String::from_utf8(files[0].1.clone()).unwrap();
    assert!(lockers.starts_with("id,number,location,size,is_damaged,notes,created_at\n"));
    assert_eq!(lockers.lines().count(), data.lockers.len() + 1);
}

#[test]
fn clock_dates_count_from_the_unix_epoch() {
    assert_eq!(Date::from_ymd_opt(1970, 1, 1).unwrap().days(), 719163);
    assert_eq!(Date::from_ymd_opt(1, 1, 1).unwrap().days(), 1);
    assert_eq!(Date::from_ymd_opt(2000, 3, 1).unwrap().days(), 730180);
    assert!(Date::from_ymd_opt(-4, 2, 29).is_some());
    assert!(Date::from_ymd_opt(2015, 2, 29).is_none());
    assert!(Date::from_ymd_opt(1900, 2, 29).is_none());
    assert!(Date::from_ymd_opt(400000, 1, 1).is_none());
    let today = Date::today().to_text();
    assert_eq!(today, chrono::Utc::now().date_naive().to_string());
    let now = Timestamp::now();
    assert!(now.nanos < 1_000_000_000);
    assert!((now.secs - chrono::Utc::now().timestamp()).abs() <= 2);
}
