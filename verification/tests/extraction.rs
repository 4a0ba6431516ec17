use berechenbarkeit::Decimal;
use berechenbarkeit::Invoice;
use berechenbarkeit::InvoiceItemType;
use berechenbarkeit::InvoiceParseError;
use berechenbarkeit::InvoiceVendor;
use berechenbarkeit::ItemRegex;
use berechenbarkeit::PatternError;
use berechenbarkeit::RegexVendor;
use berechenbarkeit::VendorProfile;
use berechenbarkeit::compile;

fn dec(neg: bool, mant: u64, scale: u32) -> Decimal {
    Decimal { neg, mant, scale }
}

fn slot(re: &str) -> ItemRegex {
    ItemRegex { re: re.to_string(), whole_document: false }
}

fn test_profile() -> VendorProfile {
    VendorProfile {
        invoice_number: slot(r"Rechnung Nr\. (?P<INVOICE_NUMBER>\w+)"),
        invoice_date: slot(r"Datum: (?P<day>\d{2})\.(?P<month>\d{2})\.(?P<year>\d{4})"),
        invoice_total: slot(r"Summe: (?P<SUM>[\d,\.]+)"),
        invoice_item: slot(
            r"^(?P<DESC>[A-Za-z ]+);(?P<AMOUNT>\d+);(?P<GROSS_PRICE_SINGLE>[\d,]+);(?P<GROSS_PRICE_TOTAL>[\d,]+);(?P<VAT>\w+)$",
        ),
        invoice_discount_item: None,
        vat_classes: vec![("A".to_string(), 1900)],
        default_vat_class: None,
        sign_based_classification: true,
    }
}

fn assert_same_invoice(a: &Invoice, b: &Invoice) {
    assert_eq!(a.vendor, b.vendor);
    assert_eq!(a.meta.invoice_number, b.meta.invoice_number);
    assert_eq!(a.meta.sum_gross, b.meta.sum_gross);
    assert_eq!(a.meta.payment_type, b.meta.payment_type);
    assert_eq!(a.meta.date, b.meta.date);
    assert_eq!(a.items.len(), b.items.len());
    for (x, y) in a.items.iter().zip(b.items.iter()) {
        assert_eq!(x.typ, y.typ);
        assert_eq!(x.pos, y.pos);
        assert_eq!(x.article_number, y.article_number);
        assert_eq!(x.description, y.description);
        assert_eq!(x.net_price_single, y.net_price_single);
        assert_eq!(x.vat, y.vat);
        assert_eq!(x.amount, y.amount);
        assert_eq!(x.net_total_price, y.net_total_price);
    }
}

#[test]
fn end_to_end_single_expense_item() {
    let cv = compile(&test_profile()).unwrap();
    let text = "Rechnung Nr. R123 Datum: 05.03.2024 Summe: 119,00\nSchrauben;2;59,50;119,00;A\n";
    let invoice = cv.extract(text, InvoiceVendor::Metro).unwrap();
    assert_eq!(invoice.vendor, InvoiceVendor::Metro);
    assert_eq!(invoice.meta.invoice_number, "R123");
    assert_eq!(invoice.meta.sum_gross, dec(false, 11900, 2));
    assert_eq!(invoice.meta.payment_type, None);
    assert_eq!(invoice.meta.date.year, 2024);
    assert_eq!(invoice.meta.date.month, 3);
    assert_eq!(invoice.meta.date.day, 5);
    assert_eq!(invoice.meta.date.hour, 0);
    assert_eq!(invoice.items.len(), 1);
    let item = &invoice.items[0];
    assert_eq!(item.typ, InvoiceItemType::Expense);
    assert_eq!(item.pos, 1);
    assert_eq!(item.article_number, "");
    assert_eq!(item.description, "Schrauben");
    // vat == 0.19
    assert_eq!(item.vat, dec(false, 1900, 4));
    assert!(item.vat.eq_value(&dec(false, 19, 2)));
    // net unit price: 59.50 / 1.19 == 50.000
    assert_eq!(item.net_price_single, dec(false, 50_000, 3));
    assert_eq!(item.amount, dec(false, 2, 0));
    // net total: 119.00 / 1.19 == 100.000
    assert_eq!(item.net_total_price, dec(false, 100_000, 3));
}

#[test]
fn extract_twice_yields_identical_invoices() {
    let cv = compile(&test_profile()).unwrap();
    let text = "Rechnung Nr. R9 Datum: 31.12.2023 Summe: 28,02\nDichtung;1;28,02;28,02;A\n";
    let one = cv.extract(text, InvoiceVendor::Bauhaus).unwrap();
    let two = cv.extract(text, InvoiceVendor::Bauhaus).unwrap();
    assert_same_invoice(&one, &two);
}

#[test]
fn net_price_fallback_rounds_to_three_decimals() {
    let cv = compile(&test_profile()).unwrap();
    let text = "Rechnung Nr. R1 Datum: 01.02.2024 Summe: 28,02\nWare;1;28,02;28,02;A\n";
    let invoice = cv.extract(text, InvoiceVendor::Metro).unwrap();
    // 28.02 / 1.19 rounds to 23.546 with packaging multiplier one
    assert_eq!(invoice.items[0].net_price_single, dec(false, 23_546, 3));
}

#[test]
fn unknown_vat_class_fails_whole_extraction() {
    let cv = compile(&test_profile()).unwrap();
    let text = "Rechnung Nr. R2 Datum: 01.02.2024 Summe: 10,00\nWare;1;10,00;10,00;Z\n";
    match cv.extract(text, InvoiceVendor::Metro) {
        Err(InvoiceParseError::UnrecognizedVatClass(tok)) => assert_eq!(tok, "Z"),
        other => panic!("expected an unrecognized VAT class, got {other:?}"),
    }
}

#[test]
fn missing_invoice_number_fails() {
    let cv = compile(&test_profile()).unwrap();
    let text = "Datum: 01.02.2024 Summe: 10,00\nWare;1;10,00;10,00;A\n";
    match cv.extract(text, InvoiceVendor::Metro) {
        Err(InvoiceParseError::FieldMissing(name)) => assert_eq!(name, "INVOICE_NUMBER"),
        other => panic!("expected a missing invoice number, got {other:?}"),
    }
}

#[test]
fn malformed_sum_is_a_number_format_error() {
    let mut profile = test_profile();
    profile.invoice_total = slot(r"Summe: (?P<SUM>\S+)");
    let cv = compile(&profile).unwrap();
    let text = "Rechnung Nr. R3 Datum: 01.02.2024 Summe: 1,2,3\n";
    match cv.extract(text, InvoiceVendor::Metro) {
        Err(InvoiceParseError::NumberFormat(raw)) => assert_eq!(raw, "1,2,3"),
        other => panic!("expected a number format error, got {other:?}"),
    }
}

#[test]
fn invalid_calendar_date_is_rejected() {
    let cv = compile(&test_profile()).unwrap();
    for text in [
        "Rechnung Nr. R4 Datum: 01.13.2024 Summe: 1,00\n",
        "Rechnung Nr. R4 Datum: 32.01.2024 Summe: 1,00\n",
        "Rechnung Nr. R4 Datum: 29.02.2023 Summe: 1,00\n",
    ] {
        match cv.extract(text, InvoiceVendor::Metro) {
            Err(InvoiceParseError::InvalidCalendarDate) => {},
            other => panic!("expected an invalid calendar date, got {other:?}"),
        }
    }
    // the leap day of a leap year is fine
    let ok = "Rechnung Nr. R4 Datum: 29.02.2024 Summe: 1,00\n";
    assert!(cv.extract(ok, InvoiceVendor::Metro).is_ok());
}

#[test]
fn missing_date_group_is_reported() {
    let mut profile = test_profile();
    profile.invoice_date = slot(r"Datum: (?P<year>\d{4})-(?P<month>\d{2})(-(?P<day>\d{2}))?");
    let cv = compile(&profile).unwrap();
    let text = "Rechnung Nr. R5 Datum: 2024-03 Summe: 1,00\n";
    match cv.extract(text, InvoiceVendor::Metro) {
        Err(InvoiceParseError::DateFieldMissing(name)) => assert_eq!(name, "day"),
        other => panic!("expected a missing date field, got {other:?}"),
    }
    // an absent date pattern match is a missing field instead
    let text = "Rechnung Nr. R5 Summe: 1,00\n";
    match cv.extract(text, InvoiceVendor::Metro) {
        Err(InvoiceParseError::FieldMissing(name)) => assert_eq!(name, "INVOICE_DATE"),
        other => panic!("expected a missing date, got {other:?}"),
    }
}

#[test]
fn time_groups_default_to_zero_or_are_read() {
    let mut profile = test_profile();
    profile.invoice_date = slot(
        r"Datum: (?P<day>\d{2})\.(?P<month>\d{2})\.(?P<year>\d{4}) (?P<hour>\d{2}):(?P<min>\d{2})",
    );
    let cv = compile(&profile).unwrap();
    let text = "Rechnung Nr. R6 Datum: 05.03.2024 14:45 Summe: 1,00\n";
    let invoice = cv.extract(text, InvoiceVendor::Metro).unwrap();
    assert_eq!(invoice.meta.date.hour, 14);
    assert_eq!(invoice.meta.date.minute, 45);
    assert_eq!(invoice.meta.date.second, 0);
}

fn discount_profile() -> VendorProfile {
    VendorProfile {
        invoice_number: slot(r"Rechnung Nr\. (?P<INVOICE_NUMBER>\w+)"),
        invoice_date: slot(r"Datum: (?P<day>\d{2})\.(?P<month>\d{2})\.(?P<year>\d{4})"),
        invoice_total: slot(r"Summe: (?P<SUM>[\d,\.]+)"),
        invoice_item: slot(
            r"^IT;(?P<DESC>\w+);(?P<AMOUNT>\d+);(?P<NET_PRICE_SINGLE>[\d,]+);(?P<NET_PRICE_TOTAL>[\d,]+);(?P<VAT>\w+)$",
        ),
        invoice_discount_item: Some(slot(
            r"^DC;(?P<DESC>\w+);(?P<NET_PRICE_SINGLE>[\d,-]+);(?P<VAT>\w+)$",
        )),
        vat_classes: vec![("A".to_string(), 1900), ("B".to_string(), 700)],
        default_vat_class: None,
        sign_based_classification: true,
    }
}

#[test]
fn positions_auto_increment_and_discount_is_appended() {
    let cv = compile(&discount_profile()).unwrap();
    // the discount line stands first in the text, the items after it
    let text = "Rechnung Nr. R7 Datum: 05.03.2024 Summe: 30,00\n\
                DC;Rabatt;5,00-;A\n\
                IT;Eins;1;10,00;10,00;A\n\
                IT;Zwei;2;5,00;10,00;A\n\
                IT;Drei;1;10,00;10,00;B\n";
    let invoice = cv.extract(text, InvoiceVendor::Metro).unwrap();
    assert_eq!(invoice.items.len(), 4);
    assert_eq!(invoice.items[0].pos, 1);
    assert_eq!(invoice.items[0].description, "Eins");
    assert_eq!(invoice.items[1].pos, 2);
    assert_eq!(invoice.items[1].description, "Zwei");
    assert_eq!(invoice.items[2].pos, 3);
    assert_eq!(invoice.items[2].description, "Drei");
    let discount = &invoice.items[3];
    assert_eq!(discount.typ, InvoiceItemType::Credit);
    assert_eq!(discount.pos, u32::MAX);
    assert_eq!(discount.description, "Rabatt");
    assert_eq!(discount.article_number, "");
    assert_eq!(discount.amount, dec(false, 1, 0));
    assert_eq!(discount.net_price_single, dec(true, 500, 2));
    assert_eq!(discount.net_total_price, dec(true, 500, 2));
    // the regular items are expenses
    for item in &invoice.items[0..3] {
        assert_eq!(item.typ, InvoiceItemType::Expense);
    }
}

#[test]
fn explicit_position_capture_wins() {
    let mut profile = discount_profile();
    profile.invoice_item = slot(
        r"^IT(?P<POS>\d+);(?P<DESC>\w+);(?P<AMOUNT>\d+);(?P<NET_PRICE_SINGLE>[\d,]+);(?P<NET_PRICE_TOTAL>[\d,]+);(?P<VAT>\w+)$",
    );
    profile.invoice_discount_item = None;
    let cv = compile(&profile).unwrap();
    let text = "Rechnung Nr. R8 Datum: 05.03.2024 Summe: 30,00\n\
                IT7;Eins;1;10,00;10,00;A\n";
    let invoice = cv.extract(text, InvoiceVendor::Metro).unwrap();
    assert_eq!(invoice.items[0].pos, 7);
}

#[test]
fn sign_based_classification_marks_negative_items_credit() {
    let mut profile = discount_profile();
    profile.invoice_item = slot(
        r"^IT;(?P<DESC>\w+);(?P<AMOUNT>\d+);(?P<NET_PRICE_SINGLE>[\d,-]+);(?P<NET_PRICE_TOTAL>[\d,-]+);(?P<VAT>\w+)$",
    );
    profile.invoice_discount_item = None;
    let cv = compile(&profile).unwrap();
    let text = "Rechnung Nr. R10 Datum: 05.03.2024 Summe: 10,00\n\
                IT;Gutschrift;1;3,00-;3,00-;A\n";
    let invoice = cv.extract(text, InvoiceVendor::Metro).unwrap();
    assert_eq!(invoice.items[0].typ, InvoiceItemType::Credit);
    assert_eq!(invoice.items[0].net_price_single, dec(true, 3000, 3));

    // the same document under a profile without sign-based classification
    profile.sign_based_classification = false;
    let cv = compile(&profile).unwrap();
    let invoice = cv.extract(text, InvoiceVendor::Metro).unwrap();
    assert_eq!(invoice.items[0].typ, InvoiceItemType::Expense);
}

#[test]
fn default_vat_class_applies_only_without_capture() {
    let mut profile = discount_profile();
    profile.invoice_item = slot(
        r"^IT;(?P<DESC>\w+);(?P<AMOUNT>\d+);(?P<NET_PRICE_SINGLE>[\d,]+);(?P<NET_PRICE_TOTAL>[\d,]+)$",
    );
    profile.invoice_discount_item = None;
    profile.default_vat_class = Some(700);
    let cv = compile(&profile).unwrap();
    let text = "Rechnung Nr. R11 Datum: 05.03.2024 Summe: 10,00\n\
                IT;Ware;1;10,00;10,00\n";
    let invoice = cv.extract(text, InvoiceVendor::Metro).unwrap();
    assert_eq!(invoice.items[0].vat, dec(false, 700, 4));

    // without a default the missing capture is an error
    profile.default_vat_class = None;
    let cv = compile(&profile).unwrap();
    match cv.extract(text, InvoiceVendor::Metro) {
        Err(InvoiceParseError::FieldMissing(name)) => assert_eq!(name, "VAT"),
        other => panic!("expected a missing VAT field, got {other:?}"),
    }
}

#[test]
fn packaging_multiplier_scales_quantity_and_unit_price() {
    let mut profile = discount_profile();
    profile.invoice_item = slot(
        r"^IT;(?P<DESC>\w+);(?P<PU_AMOUNT>\d+);(?P<AMOUNT>\d+);(?P<NET_PRICE_SINGLE>[\d,]+);(?P<NET_PRICE_TOTAL>[\d,]+);(?P<VAT>\w+)$",
    );
    profile.invoice_discount_item = None;
    let cv = compile(&profile).unwrap();
    // a pack of 10 units: 3 packs at 25,00 per pack
    let text = "Rechnung Nr. R12 Datum: 05.03.2024 Summe: 75,00\n\
                IT;Kiste;10;3;25,00;75,00;A\n";
    let invoice = cv.extract(text, InvoiceVendor::Metro).unwrap();
    let item = &invoice.items[0];
    // recorded quantity: 3 x 10 = 30 units
    assert!(item.amount.eq_value(&dec(false, 30, 0)));
    // recorded unit price: 25.00 / 10 = 2.500 per unit
    assert_eq!(item.net_price_single, dec(false, 2_500, 3));
    // the total is taken as captured
    assert_eq!(item.net_total_price, dec(false, 7500, 2));
}

#[test]
fn compile_rejects_bad_patterns_and_tables() {
    let mut profile = test_profile();
    profile.invoice_item = slot(r"(unclosed");
    match compile(&profile) {
        Err(PatternError::InvalidPattern(p)) => assert_eq!(p, "(unclosed"),
        other => panic!("expected an invalid pattern, got {:?}", other.is_ok()),
    }

    let mut profile = test_profile();
    profile.vat_classes = vec![("A".to_string(), 1900), ("A".to_string(), 700)];
    match compile(&profile) {
        Err(PatternError::DuplicateVatClass(tok)) => assert_eq!(tok, "A"),
        other => panic!("expected a duplicate VAT class, got {:?}", other.is_ok()),
    }

    let mut profile = test_profile();
    profile.vat_classes = vec![("A".to_string(), 10000)];
    match compile(&profile) {
        Err(PatternError::InvalidVatRate(tok)) => assert_eq!(tok, "A"),
        other => panic!("expected an invalid VAT rate, got {:?}", other.is_ok()),
    }
}

#[test]
fn payment_type_is_extracted_and_collapsed() {
    let mut profile = test_profile();
    profile.invoice_total = slot(r"Summe: (?P<SUM>[\d,\.]+)( (?P<PAYMENT_TYPE>[A-Za-z ]+)#)?");
    let cv = compile(&profile).unwrap();
    let text = "Rechnung Nr. R13 Datum: 05.03.2024 Summe: 1,00 EC   Karte #\n";
    let invoice = cv.extract(text, InvoiceVendor::Metro).unwrap();
    assert_eq!(invoice.meta.payment_type.as_deref(), Some("EC Karte"));

    let text = "Rechnung Nr. R13 Datum: 05.03.2024 Summe: 1,00\n";
    let invoice = cv.extract(text, InvoiceVendor::Metro).unwrap();
    assert_eq!(invoice.meta.payment_type, None);
}

#[test]
fn get_meta_and_get_items_are_usable_alone() {
    let cv = compile(&test_profile()).unwrap();
    let text = "Rechnung Nr. R14 Datum: 05.03.2024 Summe: 2,38\nWare;1;2,38;2,38;A\n";
    let meta = cv.get_meta(text).unwrap();
    assert_eq!(meta.invoice_number, "R14");
    let items = cv.get_items(text).unwrap();
    assert_eq!(items.len(), 1);
    assert_eq!(items[0].net_price_single, dec(false, 2_000, 3));
}

#[test]
fn vat_rate_lookup_matches_table() {
    let cv: RegexVendor = compile(&discount_profile()).unwrap();
    assert_eq!(cv.get_vat_rate_from_class("A").unwrap(), 1900);
    assert_eq!(cv.get_vat_rate_from_class("B").unwrap(), 700);
    match cv.get_vat_rate_from_class("C") {
        Err(InvoiceParseError::UnrecognizedVatClass(tok)) => assert_eq!(tok, "C"),
        other => panic!("expected an unrecognized VAT class, got {other:?}"),
    }
}

#[test]
fn find_returns_the_trimmed_first_capture() {
    let cv = compile(&test_profile()).unwrap();
    let text = "Rechnung Nr. R15 Datum: 05.03.2024 Summe: 1,00\n";
    let number = berechenbarkeit::find(&cv.invoice_number_regex, "INVOICE_NUMBER", text).unwrap();
    assert_eq!(number, "R15");
    match berechenbarkeit::find(&cv.invoice_number_regex, "INVOICE_NUMBER", "nichts") {
        Err(InvoiceParseError::FieldMissing(name)) => assert_eq!(name, "INVOICE_NUMBER"),
        other => panic!("expected a missing field, got {other:?}"),
    }
}
