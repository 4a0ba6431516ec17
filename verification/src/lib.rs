//! Extraction of structured invoice data from plain text.
//!
//! A vendor's document layout is described by a `VendorProfile`: five pattern
//! slots and a table of VAT classes. `compile` turns a profile into a
//! `RegexVendor`, and `RegexVendor::extract` turns raw document text into an
//! `Invoice` — header metadata plus an ordered list of line items — or fails
//! with a precise error. Monetary amounts and quantities are exact decimals
//! (sign, mantissa and scale) rather than floating point.

use vstd::prelude::*;

pub mod date;
pub mod engine;
pub mod laws;
pub mod num;
pub mod pattern;
pub mod profile;
pub mod text;

pub use engine::RegexVendor;
pub use engine::compile;
pub use engine::find;

pub use pattern::CompiledPattern;
pub use profile::ItemRegex;
pub use profile::VendorProfile;

pub use date::InvoiceDateTime;
pub use date::assemble_date;
pub use date::days_in_month;
pub use num::Decimal;
pub use num::calculate_net_for_gross;
pub use num::parse_locale_number;
pub use text::collapse_ws;
pub use text::split_lines;
pub use text::trim_to_string;

verus! {

/// Reason why a document could not be extracted.
#[derive(Debug)]
pub enum InvoiceParseError {
    /// A required capture group did not match; holds the group name.
    FieldMissing(String),
    /// A captured numeric literal does not parse under the locale convention,
    /// or its value does not fit the supported range; holds the raw text.
    NumberFormat(String),
    /// A required date capture group is absent; holds the group name.
    DateFieldMissing(String),
    /// The assembled date or time does not denote a real calendar timestamp.
    InvalidCalendarDate,
    /// A VAT-class token has no entry in the vendor's table; holds the token.
    UnrecognizedVatClass(String),
    /// No vendor with the given name exists; holds the name.
    UnknownVendor(String),
}

/// Mathematical model of an `InvoiceParseError`: payloads as character sequences.
pub enum ParseErrorModel {
    FieldMissing(Seq<char>),
    NumberFormat(Seq<char>),
    DateFieldMissing(Seq<char>),
    InvalidCalendarDate,
    UnrecognizedVatClass(Seq<char>),
    UnknownVendor(Seq<char>),
}

impl View for InvoiceParseError {
    type V = ParseErrorModel;

    open spec fn view(&self) -> ParseErrorModel {
        match self {
            InvoiceParseError::FieldMissing(s) => ParseErrorModel::FieldMissing(s@),
            InvoiceParseError::NumberFormat(s) => ParseErrorModel::NumberFormat(s@),
            InvoiceParseError::DateFieldMissing(s) => ParseErrorModel::DateFieldMissing(s@),
            InvoiceParseError::InvalidCalendarDate => ParseErrorModel::InvalidCalendarDate,
            InvoiceParseError::UnrecognizedVatClass(s) => ParseErrorModel::UnrecognizedVatClass(
                s@,
            ),
            InvoiceParseError::UnknownVendor(s) => ParseErrorModel::UnknownVendor(s@),
        }
    }
}

/// Reason why a vendor profile cannot be compiled. A compilation failure is a
/// configuration defect of the profile, not a property of any document.
#[derive(Debug)]
pub enum PatternError {
    /// A declared pattern is not valid pattern syntax; holds the pattern text.
    InvalidPattern(String),
    /// Two VAT classes share a token; holds the token.
    DuplicateVatClass(String),
    /// A VAT rate is not below 100%; holds the class token.
    InvalidVatRate(String),
}

/// Mathematical model of a `PatternError`.
pub enum PatternErrorModel {
    InvalidPattern(Seq<char>),
    DuplicateVatClass(Seq<char>),
    InvalidVatRate(Seq<char>),
}

impl View for PatternError {
    type V = PatternErrorModel;

    open spec fn view(&self) -> PatternErrorModel {
        match self {
            PatternError::InvalidPattern(s) => PatternErrorModel::InvalidPattern(s@),
            PatternError::DuplicateVatClass(s) => PatternErrorModel::DuplicateVatClass(s@),
            PatternError::InvalidVatRate(s) => PatternErrorModel::InvalidVatRate(s@),
        }
    }
}

/// The vendors with a built-in document profile.
#[derive(Debug, Clone, Copy, PartialEq, Eq, Structural)]
pub enum InvoiceVendor {
    Metro,
    Bauhaus,
    Ikea,
    MedicalCorner,
    MoltonDiscount,
    Kokku,
}

/// Whether a line item books an expense or a credit.
#[derive(Debug, Clone, Copy, PartialEq, Eq, Structural)]
pub enum InvoiceItemType {
    Expense,
    Credit,
}

/// One extracted line item.
#[derive(Debug)]
pub struct InvoiceItem {
    pub typ: InvoiceItemType,
    pub pos: u32,
    pub article_number: String,
    pub description: String,
    pub net_price_single: Decimal,
    pub vat: Decimal,
    pub amount: Decimal,
    pub net_total_price: Decimal,
}

/// Mathematical model of an `InvoiceItem`.
pub struct ItemModel {
    pub typ: InvoiceItemType,
    pub pos: u32,
    pub article_number: Seq<char>,
    pub description: Seq<char>,
    pub net_price_single: Decimal,
    pub vat: Decimal,
    pub amount: Decimal,
    pub net_total_price: Decimal,
}

impl View for InvoiceItem {
    type V = ItemModel;

    open spec fn view(&self) -> ItemModel {
        ItemModel {
            typ: self.typ,
            pos: self.pos,
            article_number: self.article_number@,
            description: self.description@,
            net_price_single: self.net_price_single,
            vat: self.vat,
            amount: self.amount,
            net_total_price: self.net_total_price,
        }
    }
}

impl DeepView for InvoiceItem {
    type V = ItemModel;

    open spec fn deep_view(&self) -> ItemModel {
        self.view()
    }
}

/// The extracted header of an invoice.
#[derive(Debug)]
pub struct InvoiceMeta {
    pub invoice_number: String,
    pub sum_gross: Decimal,
    pub payment_type: Option<String>,
    pub date: InvoiceDateTime,
}

/// Mathematical model of an `InvoiceMeta`.
pub struct MetaModel {
    pub invoice_number: Seq<char>,
    pub sum_gross: Decimal,
    pub payment_type: Option<Seq<char>>,
    pub date: InvoiceDateTime,
}

impl View for InvoiceMeta {
    type V = MetaModel;

    open spec fn view(&self) -> MetaModel {
        MetaModel {
            invoice_number: self.invoice_number@,
            sum_gross: self.sum_gross,
            payment_type: self.payment_type.deep_view(),
            date: self.date,
        }
    }
}

/// One extracted invoice: header metadata and the ordered line items.
#[derive(Debug)]
pub struct Invoice {
    pub vendor: InvoiceVendor,
    pub meta: InvoiceMeta,
    pub items: Vec<InvoiceItem>,
}

/// Mathematical model of an `Invoice`.
pub struct InvoiceModel {
    pub vendor: InvoiceVendor,
    pub meta: MetaModel,
    pub items: Seq<ItemModel>,
}

impl View for Invoice {
    type V = InvoiceModel;

    open spec fn view(&self) -> InvoiceModel {
        InvoiceModel { vendor: self.vendor, meta: self.meta@, items: self.items.deep_view() }
    }
}

/// The lower-case lookup key of a vendor.
pub open spec fn spec_vendor_key(v: InvoiceVendor) -> Seq<char> {
    match v {
        InvoiceVendor::Metro => "metro"@,
        InvoiceVendor::Bauhaus => "bauhaus"@,
        InvoiceVendor::Ikea => "ikea"@,
        InvoiceVendor::MedicalCorner => "medicalcorner"@,
        InvoiceVendor::MoltonDiscount => "moltondiscount"@,
        InvoiceVendor::Kokku => "kokku"@,
    }
}

/// The display name of a vendor.
pub open spec fn spec_vendor_name(v: InvoiceVendor) -> Seq<char> {
    match v {
        InvoiceVendor::Metro => "Metro"@,
        InvoiceVendor::Bauhaus => "Bauhaus"@,
        InvoiceVendor::Ikea => "IKEA"@,
        InvoiceVendor::MedicalCorner => "MedicalCorner"@,
        InvoiceVendor::MoltonDiscount => "MoltonDiscount"@,
        InvoiceVendor::Kokku => "Kokku"@,
    }
}

impl InvoiceVendor {
    /// The vendor's display name.
    pub fn display_name(&self) -> (r: String)
        ensures
            r@ == spec_vendor_name(*self),
    {
        match self {
            InvoiceVendor::Metro => "Metro".to_owned(),
            InvoiceVendor::Bauhaus => "Bauhaus".to_owned(),
            InvoiceVendor::Ikea => "IKEA".to_owned(),
            InvoiceVendor::MedicalCorner => "MedicalCorner".to_owned(),
            InvoiceVendor::MoltonDiscount => "MoltonDiscount".to_owned(),
            InvoiceVendor::Kokku => "Kokku".to_owned(),
        }
    }

    /// The compiled extraction engine of this vendor: its profile compiled,
    /// ready for any number of extraction calls. `None` when the vendor has
    /// no profile or the profile does not compile.
    pub fn parser(&self) -> (r: Option<InvoiceParser>)
        ensures
            (r matches Some(p) ==> match p {
                InvoiceParser::Regex(cv) => cv.wf(),
            }),
            !(self is Metro || self is Bauhaus || self is Ikea || self is MedicalCorner) ==> r
                is None,
    {
        match self.profile() {
            Option::Some(p) => match engine::compile(&p) {
                Ok(cv) => Some(InvoiceParser::Regex(cv)),
                Err(_) => None,
            },
            Option::None => None,
        }
    }

    /// Looks a vendor up by its lower-case name.
    pub fn from_name(name: &str) -> (r: Result<InvoiceVendor, InvoiceParseError>)
        ensures
            (r matches Ok(v) ==> name@ == spec_vendor_key(v)),
            (r matches Err(e) ==> e@ == ParseErrorModel::UnknownVendor(name@) && forall|
                v: InvoiceVendor,
            | name@ != spec_vendor_key(v)),
    {
        if text::str_eq(name, "metro") {
            Ok(InvoiceVendor::Metro)
        } else if text::str_eq(name, "bauhaus") {
            Ok(InvoiceVendor::Bauhaus)
        } else if text::str_eq(name, "ikea") {
            Ok(InvoiceVendor::Ikea)
        } else if text::str_eq(name, "medicalcorner") {
            Ok(InvoiceVendor::MedicalCorner)
        } else if text::str_eq(name, "moltondiscount") {
            Ok(InvoiceVendor::MoltonDiscount)
        } else if text::str_eq(name, "kokku") {
            Ok(InvoiceVendor::Kokku)
        } else {
            Err(InvoiceParseError::UnknownVendor(name.to_owned()))
        }
    }
}

/// An extraction engine for one vendor.
pub enum InvoiceParser {
    Regex(RegexVendor),
}

/// The compiled parser for a vendor, when one is known: `None` without a
/// vendor, without a profile, or when the profile does not compile.
pub fn get_parser_for_vendor(vendor: Option<InvoiceVendor>) -> (r: Option<InvoiceParser>)
    ensures
        vendor is None ==> r is None,
        (vendor matches Some(v) && !(v is Metro || v is Bauhaus || v is Ikea
            || v is MedicalCorner) ==> r is None),
        (r matches Some(p) ==> vendor is Some && match p {
            InvoiceParser::Regex(cv) => cv.wf(),
        }),
{
    match vendor {
        Option::Some(v) => v.parser(),
        Option::None => None,
    }
}

} // verus!
