use schliessfach_manager::import::csv::{
    find_column_index, locker_columns, locker_rows, parse_locker_record, parse_rental_record, rental_columns, rental_rows,
    CsvImportError,
};
use schliessfach_manager::import::json::{BackupImport, ImportStats, InsertOutcome};
use schliessfach_manager::models::TenantType;

#[test]
fn test_find_column_index() {
    let headers = csv::StringRecord::from(vec!["Label", "Location", "Height"]);

    assert_eq!(find_column_index(&headers, &["Label", "Nummer"]), Some(0));
    assert_eq!(find_column_index(&headers, &["Standort", "Location"]), Some(1));
    assert_eq!(find_column_index(&headers, &["Unknown"]), None);
}

#[test]
fn column_names_ignore_case_and_blanks() {
    let headers = csv::StringRecord::from(vec![" nummer ", "ORT", "height"]);
    assert_eq!(find_column_index(&headers, &["Label", "Nummer"]), Some(0));
    assert_eq!(find_column_index(&headers, &["Standort", "Location", "Ort"]), Some(1));
    // the first name that some header has wins, not the first header
    assert_eq!(find_column_index(&headers, &["Height", "Nummer"]), Some(2));
}

#[test]
fn test_import_stats_default() {
    let stats = ImportStats::default();
    assert_eq!(stats.total_imported(), 0);
    assert_eq!(stats.total_skipped(), 0);
    assert!(!stats.has_skipped());
}

#[test]
fn test_import_stats_format_summary() {
    let stats = ImportStats {
        lockers_imported: 10,
        rentals_imported: 5,
        payments_imported: 3,
        locations_imported: 2,
        ..Default::default()
    };

    let summary = stats.format_summary();
    assert!(summary.contains("10 Schließfächer"));
    assert!(summary.contains("5 Vermietungen"));
    assert!(summary.contains("3 Zahlungen"));
    assert!(summary.contains("2 Standorte"));
}

#[test]
fn import_summary_texts() {
    let stats = ImportStats { lockers_imported: 10, rentals_imported: 5, ..Default::default() };
    assert_eq!(stats.format_summary(), "Importiert: 10 Schließfächer, 5 Vermietungen");
    assert_eq!(ImportStats::default().format_summary(), "Keine Daten importiert");
    let stats = ImportStats { locations_imported: 1, payments_skipped: 2, lockers_skipped: 1, ..Default::default() };
    assert_eq!(stats.format_summary(), "Importiert: 1 Standorte");
    assert_eq!(stats.total_skipped(), 3);
    assert!(stats.has_skipped());
    assert_eq!(stats.total_imported(), 1);
}

#[test]
fn backup_import_maps_ids_and_counts() {
    let mut import = BackupImport::new();
    import.record_location(true);
    import.record_location(false);
    import.record_locker(1, InsertOutcome::Inserted(101));
    import.record_locker(2, InsertOutcome::Ignored(Some(55)));
    import.record_locker(3, InsertOutcome::Failed);
    assert_eq!(import.locker_target(1), Some(101));
    assert_eq!(import.locker_target(2), Some(55));
    assert_eq!(import.locker_target(3), None);
    import.record_rental(7, Some(InsertOutcome::Inserted(900)));
    import.record_rental(8, None);
    assert_eq!(import.rental_target(7), Some(900));
    assert_eq!(import.rental_target(8), None);
    import.record_payment(Some(true));
    import.record_payment(None);
    let s = import.stats();
    assert_eq!((s.locations_imported, s.locations_skipped), (1, 1));
    assert_eq!((s.lockers_imported, s.lockers_skipped), (1, 2));
    assert_eq!((s.rentals_imported, s.rentals_skipped), (1, 1));
    assert_eq!((s.payments_imported, s.payments_skipped), (1, 1));
}

#[test]
fn locker_rows_are_read_with_defaults() {
    let headers = csv::StringRecord::from(vec!["Label", "Standort", "Hoehe_cm", "Defekt"]);
    let cols = locker_columns(&headers).expect("columns");
    let row = parse_locker_record(&csv::StringRecord::from(vec![" A-001 ", "Hauptgebäude", "150", "Nein"]), &cols).unwrap();
    assert_eq!((row.label.as_str(), row.location.as_str(), row.height, row.is_damaged), ("A-001", "Hauptgebäude", 150, false));
    let row = parse_locker_record(&csv::StringRecord::from(vec!["A-002", "Hauptgebäude", "hoch", " JA "]), &cols).unwrap();
    assert_eq!((row.height, row.is_damaged), (100, true));
    assert!(parse_locker_record(&csv::StringRecord::from(vec!["", "Hauptgebäude", "1", "1"]), &cols).is_none());
    assert!(parse_locker_record(&csv::StringRecord::from(vec!["A-003"]), &cols).is_none());
}

#[test]
fn english_locker_columns_and_missing_columns() {
    let cols = locker_columns(&csv::StringRecord::from(vec!["Number", "Location", "Height", "Damaged"])).unwrap();
    assert_eq!((cols.label, cols.location, cols.height, cols.damaged), (0, 1, Some(2), Some(3)));
    let row = parse_locker_record(&csv::StringRecord::from(vec!["C-001", "Building A", "180", "true"]), &cols).unwrap();
    assert!(row.is_damaged);
    assert_eq!(row.height, 180);
    assert_eq!(locker_columns(&csv::StringRecord::from(vec!["Standort"])).unwrap_err(), CsvImportError::MissingLabelColumn);
    assert_eq!(locker_columns(&csv::StringRecord::from(vec!["Label"])).unwrap_err(), CsvImportError::MissingLocationColumn);
    assert_eq!(CsvImportError::MissingLabelColumn.message(), "Spalte 'Label' oder 'Nummer' nicht gefunden");
}

#[test]
fn rental_rows_need_dates_and_detect_teachers() {
    let headers = csv::StringRecord::from(vec!["Schliessfach", "Mieter", "Typ", "Beginn", "Ende"]);
    let cols = rental_columns(&headers).unwrap();
    let row = parse_rental_record(
        &csv::StringRecord::from(vec!["A-001", "max", "Lehrerin", "2025-01-01", "2025-12-31"]),
        &cols,
    )
    .unwrap();
    assert_eq!(row.tenant_type, TenantType::Lehrer);
    assert_eq!(row.start.to_text(), "2025-01-01");
    assert_eq!(row.end.to_text(), "2025-12-31");
    let row = parse_rental_record(&csv::StringRecord::from(vec!["A-001", "anna", "", "2025-01-01", "2025-12-31"]), &cols).unwrap();
    assert_eq!(row.tenant_type, TenantType::Schueler);
    assert!(parse_rental_record(&csv::StringRecord::from(vec!["A-001", "anna", "", "01.01.2025", "2025-12-31"]), &cols).is_none());
    assert!(parse_rental_record(&csv::StringRecord::from(vec!["A-001", " ", "", "2025-01-01", "2025-12-31"]), &cols).is_none());
    assert_eq!(
        rental_columns(&csv::StringRecord::from(vec!["Locker", "Tenant", "Start"])).unwrap_err(),
        CsvImportError::MissingEndColumn
    );
}

#[test]
fn locker_file_bytes_are_read_into_rows() {
    let csv_content = "Label,Standort,Hoehe_cm,Defekt\nA-001,Hauptgebäude,150,Nein\nA-002,Hauptgebäude,120,Ja\nB-001,Turnhalle,100,Nein\n";
    let rows = locker_rows(csv_content.as_bytes()).unwrap();
    assert_eq!(rows.len(), 3);
    assert_eq!(rows.iter().filter(|r| r.is_damaged).count(), 1);
    assert_eq!(rows[0].label, "A-001");
    assert_eq!(rows[1].height, 120);
    let english = "Number,Location,Height,Damaged\nC-001,Building A,180,true\nC-002,Building B,160,false\n";
    let rows = locker_rows(english.as_bytes()).unwrap();
    assert_eq!(rows.len(), 2);
    assert!(rows[0].is_damaged && !rows[1].is_damaged);
}

#[test]
fn rental_file_bytes_are_read_into_rows() {
    let csv_content = "Schliessfach,Mieter,Typ,Beginn,Ende\nA-001,max.mustermann,Schüler,2024-01-01,2024-12-31\nA-002,anna.schmidt,Lehrer,2024-02-01,2025-01-31\n";
    let rows = rental_rows(csv_content.as_bytes()).unwrap();
    assert_eq!(rows.len(), 2);
    assert_eq!(rows[1].tenant, "anna.schmidt");
    assert_eq!(rows[1].tenant_type, TenantType::Lehrer);
    assert_eq!(rows[0].end.to_text(), "2024-12-31");
    let english = "Locker,Tenant,Type,Start,End\nA-001,user1,Student,2024-01-01,2024-12-31\nX-999,user2,Student,2024-01-01,2024-12-31\n";
    assert_eq!(rental_rows(english.as_bytes()).unwrap().len(), 2);
}

#[test]
fn csv_files_with_missing_columns_or_broken_rows_are_refused() {
    assert_eq!(locker_rows(b"Label,Height\nA-001,100\n").unwrap_err(), CsvImportError::MissingLocationColumn);
    assert_eq!(rental_rows(b"Locker,Tenant,Start\nA,b,2024-01-01\n").unwrap_err(), CsvImportError::MissingEndColumn);
    assert_eq!(locker_rows(b"Label,Standort\nA-001,Ort,extra\n").unwrap_err(), CsvImportError::Malformed);
    assert_eq!(CsvImportError::Malformed.message(), "CSV-Datei ist fehlerhaft");
}

#[test]
fn unicode_white_space_around_headers_is_trimmed() {
    let headers = csv::StringRecord::from(vec!["\u{3000}Label\t", "\u{a0}Standort "]);
    assert_eq!(find_column_index(&headers, &["Label"]), Some(0));
    assert_eq!(find_column_index(&headers, &["Standort"]), Some(1));
}
