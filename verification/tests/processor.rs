use scanner_rs::mode::ScanMode;
use scanner_rs::po::extract_po_number;

#[test]
fn po_standard() {
    assert_eq!(
        extract_po_number("Invoice PO12345 here"),
        Some("PO12345".into())
    );
}

#[test]
fn po_prefixed() {
    assert_eq!(
        extract_po_number("ref PPO98765"),
        Some("PPO98765".into())
    );
}

#[test]
fn po_missing() {
    assert_eq!(extract_po_number("nothing here"), None);
}

#[test]
fn scan_mode_labels_are_unique() {
    let labels: Vec<_> = ScanMode::ALL.iter().map(|m| m.label()).collect();
    let unique: std::collections::HashSet<_> = labels.iter().collect();
    assert_eq!(labels.len(), unique.len());
}
