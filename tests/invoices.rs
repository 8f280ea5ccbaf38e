use freelance_invoice::invoices::{
    add_line_item, add_line_item_at, can_add_line_item, can_recompute, checked_sum_amounts,
    create_invoice, sum_line_amounts, totals_fit_for, delete_line_item, delete_line_item_at,
    line_amount_of, new_invoice, set_payment_link_at, tax_amount_of, update_invoice_status,
    update_invoice_status_at, update_invoice_totals, update_invoice_totals_at, InvoiceLedger,
};
use freelance_invoice::models::InvoiceStatus;
use freelance_invoice::numbering::{
    format_two_decimals, generate_invoice_number, invoice_number_for, invoice_number_prefix, sequence_text,
};

fn ledger(tax_rate: Option<u64>) -> InvoiceLedger {
    new_invoice(
        "inv1".to_string(),
        "INV-2025-001".to_string(),
        "c1".to_string(),
        1_735_689_600,
        1_738_281_600,
        None,
        tax_rate,
        1_735_689_600,
    )
}

#[test]
fn test_invoice_number_generation() {
    let num1 = generate_invoice_number(&vec![]);
    let year = chrono::Utc::now().format("%Y").to_string();
    assert_eq!(num1, format!("INV-{year}-001"));
}

#[test]
fn test_create_invoice_with_line_items() {
    let mut inv = create_invoice(&vec![], "c1".to_string(), 1_735_689_600, 1_738_281_600, None, Some(1000));
    assert_eq!(inv.invoice.status, InvoiceStatus::Draft);
    assert_eq!(inv.invoice.total, 0);

    add_line_item(&mut inv, "Web Development".to_string(), 1000, 15000, 0);
    add_line_item(&mut inv, "Design Work".to_string(), 500, 12000, 1);

    let updated = &inv.invoice;
    assert_eq!(updated.subtotal, 210000);
    assert_eq!(updated.tax_amount, 21000);
    assert_eq!(updated.total, 231000);
    assert_eq!(inv.items.len(), 2);
}

#[test]
fn test_invoice_status_transitions() {
    let mut inv = ledger(None);
    update_invoice_status(&mut inv.invoice, InvoiceStatus::Sent);
    assert_eq!(inv.invoice.status, InvoiceStatus::Sent);
    update_invoice_status(&mut inv.invoice, InvoiceStatus::Paid);
    assert_eq!(inv.invoice.status, InvoiceStatus::Paid);
}

#[test]
fn test_delete_line_item_updates_totals() {
    let mut inv = ledger(None);
    let item = add_line_item(&mut inv, "Work".to_string(), 1000, 10000, 0);
    assert_eq!(inv.invoice.total, 100000);
    delete_line_item(&mut inv, &item.id);
    assert_eq!(inv.invoice.total, 0);
}

#[test]
fn recompute_is_idempotent() {
    let mut inv = ledger(Some(1000));
    add_line_item_at(&mut inv, "a".to_string(), "x".to_string(), 1000, 15000, 0, 5);
    add_line_item_at(&mut inv, "b".to_string(), "y".to_string(), 500, 12000, 1, 6);
    let once = update_invoice_totals_at(&mut inv, 7);
    let twice = update_invoice_totals_at(&mut inv, 8);
    assert_eq!((once.subtotal, once.tax_amount, once.total), (210000, 21000, 231000));
    assert_eq!((twice.subtotal, twice.tax_amount, twice.total), (210000, 21000, 231000));
    assert_eq!(twice.updated_at, 8);
    let live = update_invoice_totals(&mut inv);
    assert_eq!(live.total, 231000);
}

#[test]
fn add_then_delete_returns_to_zero() {
    let mut inv = ledger(Some(1000));
    let item = add_line_item_at(&mut inv, "i1".to_string(), "w".to_string(), 250, 4000, 0, 1);
    assert_eq!(item.amount, 10000);
    assert_eq!(item.invoice_id, "inv1");
    assert_eq!(inv.invoice.total, 11000);
    delete_line_item_at(&mut inv, "i1", 2);
    assert_eq!(inv.invoice.subtotal, 0);
    assert_eq!(inv.invoice.tax_amount, 0);
    assert_eq!(inv.invoice.total, 0);
    assert!(inv.items.is_empty());
    assert_eq!(inv.invoice.updated_at, 2);
}

#[test]
fn deleting_unknown_item_only_recomputes() {
    let mut inv = ledger(None);
    add_line_item_at(&mut inv, "i1".to_string(), "w".to_string(), 100, 999, 3, 1);
    delete_line_item_at(&mut inv, "nope", 4);
    assert_eq!(inv.items.len(), 1);
    assert_eq!(inv.invoice.total, 999);
    assert_eq!(inv.invoice.updated_at, 4);
}

#[test]
fn delete_keeps_order_of_others() {
    let mut inv = ledger(None);
    add_line_item_at(&mut inv, "a".to_string(), "a".to_string(), 100, 1, 0, 1);
    add_line_item_at(&mut inv, "b".to_string(), "b".to_string(), 100, 2, 1, 1);
    add_line_item_at(&mut inv, "c".to_string(), "c".to_string(), 100, 4, 2, 1);
    delete_line_item_at(&mut inv, "b", 2);
    let ids: Vec<&str> = inv.items.iter().map(|i| i.id.as_str()).collect();
    assert_eq!(ids, vec!["a", "c"]);
    assert_eq!(inv.invoice.subtotal, 5);
}

#[test]
fn amounts_round_half_up() {
    assert_eq!(line_amount_of(150, 333), 500);
    assert_eq!(line_amount_of(1, 50), 1);
    assert_eq!(line_amount_of(1, 49), 0);
    assert_eq!(line_amount_of(0, 12345), 0);
    assert_eq!(tax_amount_of(210000, Some(1000)), 21000);
    assert_eq!(tax_amount_of(5, Some(1000)), 1);
    assert_eq!(tax_amount_of(4, Some(1000)), 0);
    assert_eq!(tax_amount_of(999, None), 0);
}

#[test]
fn new_invoice_is_empty_draft() {
    let inv = ledger(Some(2000));
    assert_eq!(inv.invoice.status, InvoiceStatus::Draft);
    assert_eq!((inv.invoice.subtotal, inv.invoice.tax_amount, inv.invoice.total), (0, 0, 0));
    assert_eq!(inv.invoice.payment_link, None);
    assert!(inv.items.is_empty());
}

#[test]
fn status_and_link_touch_invoice() {
    let mut inv = ledger(None);
    update_invoice_status_at(&mut inv.invoice, InvoiceStatus::Overdue, 99);
    assert_eq!(inv.invoice.status, InvoiceStatus::Overdue);
    assert_eq!(inv.invoice.updated_at, 99);
    set_payment_link_at(&mut inv.invoice, "https://pay.example/x".to_string(), 100);
    assert_eq!(inv.invoice.payment_link, Some("https://pay.example/x".to_string()));
    assert_eq!(inv.invoice.updated_at, 100);
}

#[test]
fn numbering_counts_numbers_of_the_year() {
    let mut numbers: Vec<String> = vec!["INV-2024-001".to_string(), "INV-2024-002".to_string()];
    let first = invoice_number_for("2025", &numbers);
    assert_eq!(first, "INV-2025-001");
    numbers.push(first);
    assert_eq!(invoice_number_for("2025", &numbers), "INV-2025-002");
    numbers.remove(0);
    assert_eq!(invoice_number_for("2025", &numbers), "INV-2025-002");
    assert_eq!(invoice_number_for("2024", &numbers), "INV-2024-002");
}

#[test]
fn numbering_widens_past_three_digits() {
    let numbers: Vec<String> = (1..=1000).map(|i| format!("INV-2030-{i:03}")).collect();
    assert_eq!(invoice_number_for("2030", &numbers), "INV-2030-1001");
}

#[test]
fn sequence_and_prefix_text() {
    assert_eq!(sequence_text(7), "007");
    assert_eq!(sequence_text(42), "042");
    assert_eq!(sequence_text(999), "999");
    assert_eq!(sequence_text(12345), "12345");
    assert_eq!(invoice_number_prefix("2026"), "INV-2026-");
}

#[test]
fn range_checks_before_adding() {
    let mut inv = ledger(Some(1000));
    assert!(can_add_line_item(&inv, 100, 100));
    assert!(!can_add_line_item(&inv, u64::MAX, u64::MAX));
    assert!(can_recompute(&inv));
    add_line_item_at(&mut inv, "big".to_string(), "b".to_string(), 100, u64::MAX / 2, 0, 1);
    assert!(!can_add_line_item(&inv, 100, u64::MAX / 2));
    assert_eq!(checked_sum_amounts(&inv.items), Some(u64::MAX / 2));
    assert!(!totals_fit_for(u64::MAX, Some(1)));
    assert!(totals_fit_for(u64::MAX, None));
    assert_eq!(sum_line_amounts(&inv.items), u64::MAX / 2);
}

#[test]
fn money_is_shown_with_two_decimals() {
    assert_eq!(format_two_decimals(396000), "3960.00");
    assert_eq!(format_two_decimals(1234), "12.34");
    assert_eq!(format_two_decimals(5), "0.05");
    assert_eq!(format_two_decimals(0), "0.00");
    assert_eq!(format_two_decimals(1000), "10.00");
}
