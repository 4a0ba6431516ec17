//! Vendor profiles: the declarative description of one vendor's document
//! layout — five pattern slots, a VAT-class table and a classification
//! policy — together with the built-in profiles.

use vstd::prelude::*;
use vstd::string::StringExecFns;
use crate::InvoiceVendor;
use crate::engine::spec_vat_model;

verus! {

/// One pattern slot of a vendor profile: the pattern text and its matching
/// mode.
#[derive(Debug)]
pub struct ItemRegex {
    pub re: String,
    /// When set, one record spans multiple lines: the pattern is matched
    /// across the whole document and `.` also matches line breaks. When
    /// clear, `^` and `$` anchor at line boundaries.
    pub whole_document: bool,
}

/// Mathematical model of an `ItemRegex`.
pub struct ItemRegexModel {
    pub re: Seq<char>,
    pub whole_document: bool,
}

impl View for ItemRegex {
    type V = ItemRegexModel;

    open spec fn view(&self) -> ItemRegexModel {
        ItemRegexModel { re: self.re@, whole_document: self.whole_document }
    }
}

impl ItemRegex {
    fn new(re: &str, whole_document: bool) -> (r: ItemRegex)
        ensures
            r@.re == re@,
            r@.whole_document == whole_document,
    {
        ItemRegex { re: String::from_str(re), whole_document }
    }
}

/// The declarative description of one vendor's document layout.
#[derive(Debug)]
pub struct VendorProfile {
    pub invoice_number: ItemRegex,
    pub invoice_date: ItemRegex,
    pub invoice_total: ItemRegex,
    pub invoice_item: ItemRegex,
    pub invoice_discount_item: Option<ItemRegex>,
    /// VAT-class tokens with their rates in basis points (a basis point is
    /// one hundredth of a percent; 1900 denotes 19%). Keys must be unique
    /// and rates below 10000.
    pub vat_classes: Vec<(String, u32)>,
    /// Rate in basis points used when an item carries no VAT-class capture.
    pub default_vat_class: Option<u32>,
    /// When set, a regular item whose unit price times quantity is negative
    /// is classified as a credit; otherwise every regular item is an
    /// expense.
    pub sign_based_classification: bool,
}

impl InvoiceVendor {
    /// The built-in profile of this vendor, for those with a known document
    /// layout. Every built-in profile classifies items by price sign, has no
    /// default VAT class, and declares the vendor's fixed VAT table; only the
    /// Metro layout has a discount pattern.
    pub fn profile(&self) -> (r: Option<VendorProfile>)
        ensures
            (r is Some) == (self is Metro || self is Bauhaus || self is Ikea
                || self is MedicalCorner),
            (r matches Some(p) ==> {
                &&& p.sign_based_classification
                &&& p.default_vat_class is None
                &&& (p.invoice_discount_item is Some <==> self is Metro)
                &&& (self is Metro ==> spec_vat_model(p.vat_classes@) == seq![
                    ("A"@, 1900u32),
                    ("B"@, 700u32),
                ])
                &&& (self is Bauhaus ==> spec_vat_model(p.vat_classes@) == seq![("C"@, 1900u32)])
                &&& (self is Ikea ==> spec_vat_model(p.vat_classes@) == seq![
                    ("19"@, 1900u32),
                    ("7"@, 700u32),
                ])
                &&& (self is MedicalCorner ==> spec_vat_model(p.vat_classes@) == seq![
                    ("0"@, 0u32),
                    ("19"@, 1900u32),
                    ("7"@, 700u32),
                ])
            }),
    {
        match self {
            InvoiceVendor::Metro => Some(
                VendorProfile {
                    invoice_number: ItemRegex::new(
                        r"RECHNUNGS?-? ?NR\.?\:?\s+(?P<INVOICE_NUMBER>[\.\d\/]+)",
                        false,
                    ),
                    invoice_date: ItemRegex::new(
                        r"RECHNUNGSDATUM:\s+(?P<day>\d\d)\.(?P<month>\d\d)\.(?P<year>\d{4}) (?P<hour>\d\d):(?P<min>\d\d)",
                        false,
                    ),
                    invoice_total: ItemRegex::new(
                        r"SUMME EUR\s+(?P<SUM>[\d\.,\-]+)([\s\-]+(?P<PAYMENT_TYPE>[a-zA-Z0-9:\-\., ]+) +[\d\.,\-]+)?",
                        false,
                    ),
                    invoice_item: ItemRegex::new(
                        r"^(?P<MM>.) (?P<ARTNR>\d{6}\.\d) (?P<EAN>[\d ]{14}) (?P<DESC>.{31}) (?P<PACK>.{2}) (?P<EINZELPREIS>.{11}) (?P<PU_AMOUNT>.{10}) (?P<NET_PRICE_SINGLE>.{10}) (?P<AMOUNT>.{6}) (?P<NET_PRICE_TOTAL>.{11}) (?P<VAT>.) (?P<STUECKPREIS>.{10})[\u{00A0} ](?P<INT>.) (?P<KD>.+)?$",
                        false,
                    ),
                    invoice_discount_item: Some(
                        ItemRegex::new(
                            r"^ {26}(?P<DESC>.{50}) *(?P<NET_PRICE_SINGLE>.{11}) (?P<VAT>.)?[ 0-9]{12}$",
                            false,
                        ),
                    ),
                    vat_classes: vat_table_metro(),
                    default_vat_class: None,
                    sign_based_classification: true,
                },
            ),
            InvoiceVendor::Bauhaus => Some(
                VendorProfile {
                    invoice_number: ItemRegex::new(
                        r"Einzelrechnung\s+Nr\.\s+(?P<INVOICE_NUMBER>[\.\d\/]+)",
                        false,
                    ),
                    invoice_date: ItemRegex::new(
                        r"Rechnungsdatum\s+(?P<day>\d\d)\.(?P<month>\d\d)\.(?P<year>\d{4})",
                        false,
                    ),
                    invoice_total: ItemRegex::new(
                        r"Zu zahlender Betrag\s+(?P<SUM>[\d\.,\-]+)\ EUR",
                        false,
                    ),
                    invoice_item: ItemRegex::new(
                        r"^(?P<POS>\d)\s+(?P<ARTNR>\d{8})\s+(?P<DESC>.{1,100})\s+(?P<AMOUNT>\d{1,6}) (ST|KAR)\s+(?P<GROSS_PRICE_SINGLE>.{1,7})\s+(?P<GROSS_PRICE_TOTAL>.{1,7})\s+(?P<VAT>\w)$",
                        false,
                    ),
                    invoice_discount_item: None,
                    vat_classes: vat_table_bauhaus(),
                    default_vat_class: None,
                    sign_based_classification: true,
                },
            ),
            InvoiceVendor::Ikea => Some(
                VendorProfile {
                    invoice_number: ItemRegex::new(
                        r"Rechnungsnummer: (?P<INVOICE_NUMBER>\w+)",
                        false,
                    ),
                    invoice_date: ItemRegex::new(
                        r"Rechnungsdatum:\s+(?P<day>\d{1,2})\.(?P<month>\d{1,2})\.(?P<year>\d{2,4})",
                        false,
                    ),
                    invoice_total: ItemRegex::new(
                        r"Rechnungssumme:\s+\u{20AC}\s+(?P<SUM>[0-9,\.]+)",
                        false,
                    ),
                    invoice_item: ItemRegex::new(
                        r"^(?P<ARTNR>\d{2,3}\.\d{2,3}\.\d{2,3})\s+(?P<DESC>.+)\s+(?P<AMOUNT>\d+)\s+(?P<GROSS_PRICE_SINGLE>\d{1,5},\d{0,2})\s+(?P<VAT>\d{1,2}) %\s+\u{20AC} (?P<GROSS_PRICE_TOTAL>[0-9,\.]+)$",
                        false,
                    ),
                    invoice_discount_item: None,
                    vat_classes: vat_table_ikea(),
                    default_vat_class: None,
                    sign_based_classification: true,
                },
            ),
            InvoiceVendor::MedicalCorner => Some(
                VendorProfile {
                    invoice_number: ItemRegex::new(
                        r"Rechnung\s+(?P<INVOICE_NUMBER>\w+)",
                        false,
                    ),
                    invoice_date: ItemRegex::new(
                        r"Rechnungsdatum:\s+\nKundennummer:\s+\nLieferschein:\s+\nLieferdatum:\s+\nBearbeiter:\s+\n.+\n(?<day>\d{1,2})\.(?<month>\d{2})\.(?<year>\d{4})",
                        true,
                    ),
                    invoice_total: ItemRegex::new(r"Gesamt (?<SUM>\d+,\d{2}) EUR", false),
                    invoice_item: ItemRegex::new(
                        r"\n\n(?P<POS>\d+) (?P<ARTNR>[A-Z0-9-_]+([\w&&[^A-Z]]{4})?) (?P<DESC>.+?) (?P<AMOUNT>\d+) (?<PVAT>\d+)% (?P<GROSS_PRICE_SINGLE>\d+,\d{2}) (?P<GROSS_PRICE_TOTAL>\d+,\d{2})",
                        true,
                    ),
                    invoice_discount_item: None,
                    vat_classes: vat_table_medicalcorner(),
                    default_vat_class: None,
                    sign_based_classification: true,
                },
            ),
            InvoiceVendor::MoltonDiscount => None,
            InvoiceVendor::Kokku => None,
        }
    }
}

fn vat_table_metro() -> (r: Vec<(String, u32)>)
    ensures
        spec_vat_model(r@) == seq![("A"@, 1900u32), ("B"@, 700u32)],
{
    let mut t: Vec<(String, u32)> = Vec::new();
    t.push(("A".to_owned(), 1900));
    t.push(("B".to_owned(), 700));
    proof {
        assert(spec_vat_model(t@) =~= seq![("A"@, 1900u32), ("B"@, 700u32)]);
    }
    t
}

fn vat_table_bauhaus() -> (r: Vec<(String, u32)>)
    ensures
        spec_vat_model(r@) == seq![("C"@, 1900u32)],
{
    let mut t: Vec<(String, u32)> = Vec::new();
    t.push(("C".to_owned(), 1900));
    proof {
        assert(spec_vat_model(t@) =~= seq![("C"@, 1900u32)]);
    }
    t
}

fn vat_table_ikea() -> (r: Vec<(String, u32)>)
    ensures
        spec_vat_model(r@) == seq![("19"@, 1900u32), ("7"@, 700u32)],
{
    let mut t: Vec<(String, u32)> = Vec::new();
    t.push(("19".to_owned(), 1900));
    t.push(("7".to_owned(), 700));
    proof {
        assert(spec_vat_model(t@) =~= seq![("19"@, 1900u32), ("7"@, 700u32)]);
    }
    t
}

fn vat_table_medicalcorner() -> (r: Vec<(String, u32)>)
    ensures
        spec_vat_model(r@) == seq![("0"@, 0u32), ("19"@, 1900u32), ("7"@, 700u32)],
{
    let mut t: Vec<(String, u32)> = Vec::new();
    t.push(("0".to_owned(), 0));
    t.push(("19".to_owned(), 1900));
    t.push(("7".to_owned(), 700));
    proof {
        assert(spec_vat_model(t@) =~= seq![("0"@, 0u32), ("19"@, 1900u32), ("7"@, 700u32)]);
    }
    t
}

} // verus!
