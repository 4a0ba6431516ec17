use berechenbarkeit::Decimal;
use berechenbarkeit::InvoiceItemType;
use berechenbarkeit::InvoiceParseError;
use berechenbarkeit::InvoiceParser;
use berechenbarkeit::InvoiceVendor;
use berechenbarkeit::collapse_ws;
use berechenbarkeit::compile;
use berechenbarkeit::get_parser_for_vendor;
use berechenbarkeit::split_lines;
use berechenbarkeit::trim_to_string;

fn dec(neg: bool, mant: u64, scale: u32) -> Decimal {
    Decimal { neg, mant, scale }
}

#[test]
fn vendor_names_round_trip() {
    let vendors = [
        InvoiceVendor::Metro,
        InvoiceVendor::Bauhaus,
        InvoiceVendor::Ikea,
        InvoiceVendor::MedicalCorner,
        InvoiceVendor::MoltonDiscount,
        InvoiceVendor::Kokku,
    ];
    for v in vendors {
        let key = v.display_name().to_lowercase();
        assert_eq!(InvoiceVendor::from_name(&key).unwrap(), v);
    }
    match InvoiceVendor::from_name("someone") {
        Err(InvoiceParseError::UnknownVendor(name)) => assert_eq!(name, "someone"),
        other => panic!("expected an unknown vendor, got {other:?}"),
    }
}

#[test]
fn parsers_exist_for_vendors_with_profiles() {
    assert!(get_parser_for_vendor(None).is_none());
    for v in [
        InvoiceVendor::Metro,
        InvoiceVendor::Bauhaus,
        InvoiceVendor::Ikea,
        InvoiceVendor::MedicalCorner,
    ] {
        assert!(get_parser_for_vendor(Some(v)).is_some());
    }
    for v in [InvoiceVendor::MoltonDiscount, InvoiceVendor::Kokku] {
        assert!(get_parser_for_vendor(Some(v)).is_none());
    }
}

#[test]
fn bauhaus_profile_extracts_a_synthetic_document() {
    let profile = InvoiceVendor::Bauhaus.profile().unwrap();
    let cv = compile(&profile).unwrap();
    let text = "Einzelrechnung  Nr.  4711\n\
                Rechnungsdatum  05.03.2024\n\
                Zu zahlender Betrag  119,00 EUR\n\
                1  12345678  Schraube Kiste  4 ST  11,90  47,60  C\n";
    let invoice = cv.extract(text, InvoiceVendor::Bauhaus).unwrap();
    assert_eq!(invoice.meta.invoice_number, "4711");
    assert_eq!(invoice.meta.sum_gross, dec(false, 11900, 2));
    assert_eq!(invoice.meta.date.year, 2024);
    assert_eq!(invoice.meta.date.month, 3);
    assert_eq!(invoice.meta.date.day, 5);
    assert_eq!(invoice.items.len(), 1);
    let item = &invoice.items[0];
    assert_eq!(item.pos, 1);
    assert_eq!(item.article_number, "12345678");
    assert_eq!(item.description, "Schraube Kiste");
    assert_eq!(item.typ, InvoiceItemType::Expense);
    // the Bauhaus table maps class C to 19%
    assert_eq!(item.vat, dec(false, 1900, 4));
    assert!(item.amount.eq_value(&dec(false, 4, 0)));
    // 11.90 gross -> 10.000 net; 47.60 gross -> 40.000 net
    assert_eq!(item.net_price_single, dec(false, 10_000, 3));
    assert_eq!(item.net_total_price, dec(false, 40_000, 3));
}

#[test]
fn bauhaus_profile_rejects_unknown_class() {
    let profile = InvoiceVendor::Bauhaus.profile().unwrap();
    let cv = compile(&profile).unwrap();
    let text = "Einzelrechnung  Nr.  4711\n\
                Rechnungsdatum  05.03.2024\n\
                Zu zahlender Betrag  119,00 EUR\n\
                1  12345678  Schraube  4 ST  11,90  47,60  X\n";
    match cv.extract(text, InvoiceVendor::Bauhaus) {
        Err(InvoiceParseError::UnrecognizedVatClass(tok)) => assert_eq!(tok, "X"),
        other => panic!("expected an unrecognized VAT class, got {other:?}"),
    }
}

#[test]
fn metro_parser_comes_from_its_profile() {
    match get_parser_for_vendor(Some(InvoiceVendor::Metro)) {
        Some(InvoiceParser::Regex(cv)) => {
            // the metro profile declares classes A (19%) and B (7%)
            assert_eq!(cv.get_vat_rate_from_class("A").unwrap(), 1900);
            assert_eq!(cv.get_vat_rate_from_class("B").unwrap(), 700);
            assert!(cv.get_vat_rate_from_class("C").is_err());
        },
        None => panic!("expected a parser for the metro profile"),
    }
}

#[test]
fn trim_and_collapse_whitespace() {
    assert_eq!(trim_to_string("  ein Text \t\n"), "ein Text");
    assert_eq!(trim_to_string(""), "");
    assert_eq!(trim_to_string(" \u{a0} "), "");
    assert_eq!(collapse_ws("EC   Karte"), "EC Karte");
    assert_eq!(collapse_ws("a \t b"), "a b");
    assert_eq!(collapse_ws(""), "");
}

#[test]
fn split_lines_matches_line_structure() {
    let lines = split_lines("eins\nzwei\r\n\ndrei");
    assert_eq!(lines, vec!["eins", "zwei", "", "drei"]);
    assert_eq!(split_lines(""), Vec::<String>::new());
    assert_eq!(split_lines("a\n"), vec!["a"]);
}

#[test]
fn metro_profile_extracts_items_discounts_and_payment_type() {
    let profile = InvoiceVendor::Metro.profile().unwrap();
    let cv = compile(&profile).unwrap();
    let mut text = String::new();
    text.push_str("RECHNUNGS-NR.:  123/456\n");
    text.push_str("RECHNUNGSDATUM:  05.03.2024 14:45\n");
    text.push_str("SUMME EUR      71,40  EC-Karte    71,40\n");
    // the discount line stands before the item line in the document
    text.push_str("                          TREUERABATT                                            10,00- A           0\n");
    text.push_str("D 123456.7 12345678901234 SCHRAUBE 4X40 VERZINKT          ST       11,90       2,00      20,00      3       60,00 A      10,00 N 0001\n");
    let invoice = cv.extract(&text, InvoiceVendor::Metro).unwrap();
    assert_eq!(invoice.meta.invoice_number, "123/456");
    assert_eq!(invoice.meta.sum_gross, dec(false, 7140, 2));
    assert_eq!(invoice.meta.payment_type.as_deref(), Some("EC-Karte"));
    assert_eq!(invoice.meta.date.year, 2024);
    assert_eq!(invoice.meta.date.hour, 14);
    assert_eq!(invoice.meta.date.minute, 45);
    assert_eq!(invoice.items.len(), 2);
    let item = &invoice.items[0];
    assert_eq!(item.typ, InvoiceItemType::Expense);
    assert_eq!(item.pos, 1);
    assert_eq!(item.article_number, "123456.7");
    assert_eq!(item.description, "SCHRAUBE 4X40 VERZINKT");
    assert_eq!(item.vat, dec(false, 1900, 4));
    // quantity: 3 packs of 2.00 units
    assert!(item.amount.eq_value(&dec(false, 6, 0)));
    // unit price: 20.00 per pack over 2.00 units each
    assert_eq!(item.net_price_single, dec(false, 10_000, 3));
    // the captured net total, taken as it stands
    assert_eq!(item.net_total_price, dec(false, 6000, 2));
    let discount = &invoice.items[1];
    assert_eq!(discount.typ, InvoiceItemType::Credit);
    assert_eq!(discount.pos, u32::MAX);
    assert_eq!(discount.description, "TREUERABATT");
    assert_eq!(discount.net_price_single, dec(true, 1000, 2));
    assert_eq!(discount.net_total_price, dec(true, 1000, 2));
    assert!(discount.amount.eq_value(&dec(false, 1, 0)));
}
