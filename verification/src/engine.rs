//! The profile-driven extraction engine.
//!
//! `compile` turns a `VendorProfile` into a `RegexVendor` whose patterns are
//! ready for matching; `get_meta` extracts the header, `get_items` the line
//! items, `extract` the whole invoice. Every function is a pure function of
//! the compiled vendor's model and the document text; the model of each
//! result is stated against spec functions that compose the trusted capture
//! semantics of the pattern layer.

use vstd::prelude::*;
use crate::pattern::CompiledPattern;
use crate::pattern::PatternModel;
use crate::pattern::compile_pattern;
use crate::pattern::captures_first;
use crate::pattern::captures_list;
use crate::pattern::pattern_matches;
use crate::pattern::regex_valid;
use crate::profile::ItemRegexModel;
use crate::profile::VendorProfile;
use crate::text::spec_trim;
use crate::text::spec_collapse_ws;
use crate::text::trim_to_string;
use crate::text::collapse_ws;
use crate::text::str_eq;
use crate::num::spec_locale_ok;
use crate::num::spec_locale_decimal;
use crate::num::parse_locale_number;
use crate::num::spec_net_for_gross;
use crate::num::calculate_net_for_gross;
use crate::num::spec_dec_div3;
use crate::num::dec_div_round3;
use crate::num::spec_dec_mul;
use crate::num::dec_mul;
use crate::num::spec_uint_valid;
use crate::num::spec_uint_val;
use crate::ItemModel;
use crate::InvoiceItem;
use crate::date::DateGroups;
use crate::date::InvoiceDateTime;
use crate::date::spec_assemble_date;
use crate::date::assemble_date;
use crate::Decimal;
use crate::InvoiceMeta;
use crate::InvoiceParseError;
use crate::MetaModel;
use crate::ParseErrorModel;
use crate::PatternError;
use crate::PatternErrorModel;

verus! {

/// A vendor profile with all patterns compiled, shared read-only by any
/// number of extraction calls.
pub struct RegexVendor {
    pub invoice_number_regex: CompiledPattern,
    pub invoice_date_regex: CompiledPattern,
    pub invoice_total_regex: CompiledPattern,
    pub invoice_item_regex: CompiledPattern,
    pub invoice_discount_regex: Option<CompiledPattern>,
    pub vat_classes: Vec<(String, u32)>,
    pub default_vat_class: Option<u32>,
    pub sign_based_classification: bool,
}

/// Mathematical model of a compiled vendor.
pub struct VendorModel {
    pub number: PatternModel,
    pub date: PatternModel,
    pub total: PatternModel,
    pub item: PatternModel,
    pub discount: Option<PatternModel>,
    pub vat_classes: Seq<(Seq<char>, u32)>,
    pub default_vat: Option<u32>,
    pub sign_based: bool,
}

/// The model of a VAT table: tokens with their rates in basis points.
pub open spec fn spec_vat_model(t: Seq<(String, u32)>) -> Seq<(Seq<char>, u32)> {
    Seq::new(t.len(), |i: int| (t[i].0@, t[i].1))
}

impl View for RegexVendor {
    type V = VendorModel;

    open spec fn view(&self) -> VendorModel {
        VendorModel {
            number: self.invoice_number_regex@,
            date: self.invoice_date_regex@,
            total: self.invoice_total_regex@,
            item: self.invoice_item_regex@,
            discount: match &self.invoice_discount_regex {
                Option::Some(p) => Option::Some(p@),
                Option::None => Option::None,
            },
            vat_classes: spec_vat_model(self.vat_classes@),
            default_vat: self.default_vat_class,
            sign_based: self.sign_based_classification,
        }
    }
}

/// Well-formedness of a VAT table model: rates below 100%, unique tokens.
pub open spec fn spec_vat_wf(t: Seq<(Seq<char>, u32)>) -> bool {
    &&& forall|i: int| 0 <= i < t.len() ==> (#[trigger] t[i]).1 < 10000
    &&& forall|i: int, j: int| 0 <= i < j < t.len() ==> (#[trigger] t[i]).0 != (#[trigger] t[j]).0
}

impl RegexVendor {
    /// The invariant `compile` establishes: a sound VAT table.
    pub open spec fn wf(&self) -> bool {
        &&& spec_vat_wf(self@.vat_classes)
        &&& (self@.default_vat matches Some(d) ==> d < 10000)
    }
}

/// The first match of `token` in the table, if any.
pub open spec fn spec_vat_lookup(t: Seq<(Seq<char>, u32)>, token: Seq<char>) -> Option<u32>
    decreases t.len(),
{
    if t.len() == 0 {
        None
    } else if t[0].0 == token {
        Some(t[0].1)
    } else {
        spec_vat_lookup(t.drop_first(), token)
    }
}

/// Looks a token up in a VAT table.
fn vat_lookup(t: &Vec<(String, u32)>, token: &str) -> (r: Option<u32>)
    ensures
        r == spec_vat_lookup(spec_vat_model(t@), token@),
{
    let ghost m = spec_vat_model(t@);
    let mut i: usize = 0;
    proof {
        assert(m.skip(0) =~= m);
    }
    while i < t.len()
        invariant
            i <= t@.len(),
            m == spec_vat_model(t@),
            spec_vat_lookup(m, token@) == spec_vat_lookup(m.skip(i as int), token@),
        decreases t@.len() - i,
    {
        proof {
            assert(m.skip(i as int)[0] == m[i as int]);
            assert(m.skip(i as int).drop_first() =~= m.skip(i as int + 1));
        }
        if str_eq(t[i].0.as_str(), token) {
            return Some(t[i].1);
        }
        i = i + 1;
    }
    proof {
        assert(m.skip(i as int) =~= Seq::<(Seq<char>, u32)>::empty());
    }
    None
}

/// The flags a pattern slot compiles with: per-line mode anchors `^` and `$`
/// at line boundaries; whole-document mode lets `.` match line breaks.
pub open spec fn spec_slot_model(s: ItemRegexModel) -> PatternModel {
    PatternModel {
        pattern: s.re,
        multi_line: !s.whole_document,
        dot_matches_new_line: s.whole_document,
    }
}

/// Whether a pattern slot compiles.
pub open spec fn spec_slot_valid(s: ItemRegexModel) -> bool {
    regex_valid(s.re, !s.whole_document, s.whole_document)
}

/// Whether every rate of the table is below 100%.
pub open spec fn spec_rates_ok(t: Seq<(Seq<char>, u32)>) -> bool {
    forall|i: int| 0 <= i < t.len() ==> (#[trigger] t[i]).1 < 10000
}

/// Whether the table's tokens are pairwise distinct.
pub open spec fn spec_keys_unique(t: Seq<(Seq<char>, u32)>) -> bool {
    forall|i: int, j: int| 0 <= i < j < t.len() ==> (#[trigger] t[i]).0 != (#[trigger] t[j]).0
}

/// Whether a profile compiles: all declared patterns are valid and the VAT
/// table is sound.
pub open spec fn spec_compile_ok(p: &VendorProfile) -> bool {
    &&& spec_slot_valid(p.invoice_number@)
    &&& spec_slot_valid(p.invoice_date@)
    &&& spec_slot_valid(p.invoice_total@)
    &&& spec_slot_valid(p.invoice_item@)
    &&& (match p.invoice_discount_item {
        Option::Some(ref d) => spec_slot_valid(d@),
        Option::None => true,
    })
    &&& spec_rates_ok(spec_vat_model(p.vat_classes@))
    &&& (p.default_vat_class matches Some(d) ==> d < 10000)
    &&& spec_keys_unique(spec_vat_model(p.vat_classes@))
}

fn compile_slot(s: &crate::profile::ItemRegex) -> (r: Option<CompiledPattern>)
    ensures
        (r is Some) == spec_slot_valid(s@),
        r matches Some(p) ==> p@ == spec_slot_model(s@),
{
    compile_pattern(s.re.as_str(), !s.whole_document, s.whole_document)
}

/// Compiles a vendor profile: every pattern slot is syntax-checked and the
/// VAT table is checked for rates below 100% and unique tokens. Succeeds
/// exactly when the profile is sound; the compiled vendor's model carries
/// the profile's patterns, flags, table and classification policy unchanged.
pub fn compile(profile: &VendorProfile) -> (r: Result<RegexVendor, PatternError>)
    ensures
        (r is Ok) == spec_compile_ok(profile),
        (r matches Ok(cv) ==> {
            &&& cv@.number == spec_slot_model(profile.invoice_number@)
            &&& cv@.date == spec_slot_model(profile.invoice_date@)
            &&& cv@.total == spec_slot_model(profile.invoice_total@)
            &&& cv@.item == spec_slot_model(profile.invoice_item@)
            &&& (match profile.invoice_discount_item {
                Option::Some(ref d) => cv@.discount == Option::Some(spec_slot_model(d@)),
                Option::None => cv@.discount is None,
            })
            &&& cv@.vat_classes == spec_vat_model(profile.vat_classes@)
            &&& cv@.default_vat == profile.default_vat_class
            &&& cv@.sign_based == profile.sign_based_classification
            &&& cv.wf()
        }),
        (r matches Err(e) ==> match e@ {
            PatternErrorModel::InvalidPattern(_) => !spec_compile_ok(profile),
            PatternErrorModel::InvalidVatRate(_) => !spec_rates_ok(spec_vat_model(
                profile.vat_classes@,
            )) || !(profile.default_vat_class matches Some(d) ==> d < 10000),
            PatternErrorModel::DuplicateVatClass(_) => !spec_keys_unique(spec_vat_model(
                profile.vat_classes@,
            )),
        }),
{
    let number = match compile_slot(&profile.invoice_number) {
        Some(p) => p,
        None => {
            return Err(PatternError::InvalidPattern(profile.invoice_number.re.clone()));
        },
    };
    let date = match compile_slot(&profile.invoice_date) {
        Some(p) => p,
        None => {
            return Err(PatternError::InvalidPattern(profile.invoice_date.re.clone()));
        },
    };
    let total = match compile_slot(&profile.invoice_total) {
        Some(p) => p,
        None => {
            return Err(PatternError::InvalidPattern(profile.invoice_total.re.clone()));
        },
    };
    let item = match compile_slot(&profile.invoice_item) {
        Some(p) => p,
        None => {
            return Err(PatternError::InvalidPattern(profile.invoice_item.re.clone()));
        },
    };
    let discount = match &profile.invoice_discount_item {
        Option::Some(d) => match compile_slot(d) {
            Some(p) => Some(p),
            None => {
                return Err(PatternError::InvalidPattern(d.re.clone()));
            },
        },
        Option::None => None,
    };
    let ghost vt = spec_vat_model(profile.vat_classes@);
    let mut i: usize = 0;
    while i < profile.vat_classes.len()
        invariant
            i <= profile.vat_classes@.len(),
            vt == spec_vat_model(profile.vat_classes@),
            forall|k: int| 0 <= k < i ==> (#[trigger] vt[k]).1 < 10000,
        decreases profile.vat_classes@.len() - i,
    {
        if profile.vat_classes[i].1 >= 10000 {
            proof {
                assert(vt[i as int].1 == profile.vat_classes@[i as int].1);
                assert(!spec_rates_ok(vt));
            }
            return Err(PatternError::InvalidVatRate(profile.vat_classes[i].0.clone()));
        }
        i = i + 1;
    }
    match profile.default_vat_class {
        Option::Some(d) => {
            if d >= 10000 {
                return Err(PatternError::InvalidVatRate("default".to_owned()));
            }
        },
        Option::None => {},
    }
    let mut a: usize = 0;
    while a < profile.vat_classes.len()
        invariant
            a <= profile.vat_classes@.len(),
            vt == spec_vat_model(profile.vat_classes@),
            forall|k: int, l: int| 0 <= k < l < vt.len() && k < a ==> (#[trigger] vt[k]).0 != (
            #[trigger] vt[l]).0,
        decreases profile.vat_classes@.len() - a,
    {
        let mut j: usize = a + 1;
        while j < profile.vat_classes.len()
            invariant
                a < j <= profile.vat_classes@.len(),
                a < profile.vat_classes@.len(),
                vt == spec_vat_model(profile.vat_classes@),
                forall|l: int| a < l < j ==> (#[trigger] vt[l]).0 != vt[a as int].0,
            decreases profile.vat_classes@.len() - j,
        {
            if str_eq(profile.vat_classes[a].0.as_str(), profile.vat_classes[j].0.as_str()) {
                proof {
                    assert(vt[a as int].0 == profile.vat_classes@[a as int].0@);
                    assert(vt[j as int].0 == profile.vat_classes@[j as int].0@);
                    assert(!spec_keys_unique(vt));
                }
                return Err(PatternError::DuplicateVatClass(profile.vat_classes[a].0.clone()));
            }
            j = j + 1;
        }
        a = a + 1;
    }
    Ok(
        RegexVendor {
            invoice_number_regex: number,
            invoice_date_regex: date,
            invoice_total_regex: total,
            invoice_item_regex: item,
            invoice_discount_regex: discount,
            vat_classes: clone_vat_table(&profile.vat_classes),
            default_vat_class: profile.default_vat_class,
            sign_based_classification: profile.sign_based_classification,
        },
    )
}

/// Copies a VAT table.
fn clone_vat_table(t: &Vec<(String, u32)>) -> (r: Vec<(String, u32)>)
    ensures
        spec_vat_model(r@) == spec_vat_model(t@),
{
    let mut r: Vec<(String, u32)> = Vec::new();
    let mut i: usize = 0;
    while i < t.len()
        invariant
            i <= t@.len(),
            r@.len() == i,
            forall|k: int|
                0 <= k < i ==> (#[trigger] r@[k]).0@ == t@[k].0@ && r@[k].1 == t@[k].1,
        decreases t@.len() - i,
    {
        r.push((t[i].0.clone(), t[i].1));
        i = i + 1;
    }
    proof {
        assert(spec_vat_model(r@) =~= spec_vat_model(t@));
    }
    r
}

/// The first match's capture of `name`, trimmed; a missing field otherwise.
pub open spec fn spec_find(p: PatternModel, name: Seq<char>, text: Seq<char>) -> Result<
    Seq<char>,
    ParseErrorModel,
> {
    match p.first_cap(text, name) {
        Option::Some(c) => Result::Ok(spec_trim(c)),
        Option::None => Result::Err(ParseErrorModel::FieldMissing(name)),
    }
}

/// Runs `p` once against `text` and returns the trimmed capture of the group
/// `name`; fails as a missing field when the pattern does not match or the
/// group did not participate.
pub fn find(p: &CompiledPattern, name: &str, text: &str) -> (r: Result<String, InvoiceParseError>)
    ensures
        (match r {
            Ok(s) => spec_find(p@, name@, text@) == Result::<Seq<char>, ParseErrorModel>::Ok(s@),
            Err(e) => spec_find(p@, name@, text@) == Result::<Seq<char>, ParseErrorModel>::Err(
                e@,
            ),
        }),
{
    match captures_first(p, text, name) {
        Some(s) => Ok(trim_to_string(s.as_str())),
        None => Err(InvoiceParseError::FieldMissing(name.to_owned())),
    }
}

/// The gross total: the `SUM` capture of the total pattern's first match,
/// parsed under the locale convention.
pub open spec fn spec_gross_sum(m: VendorModel, text: Seq<char>) -> Result<
    Decimal,
    ParseErrorModel,
> {
    match m.total.first_cap(text, "SUM"@) {
        Option::Some(raw) => if spec_locale_ok(raw) {
            Result::Ok(spec_locale_decimal(raw))
        } else {
            Result::Err(ParseErrorModel::NumberFormat(raw))
        },
        Option::None => Result::Err(ParseErrorModel::FieldMissing("SUM"@)),
    }
}

/// The optional payment type: the `PAYMENT_TYPE` capture of the total
/// pattern's first match, trimmed, with runs of whitespace collapsed.
pub open spec fn spec_payment_type(m: VendorModel, text: Seq<char>) -> Option<Seq<char>> {
    match m.total.first_cap(text, "PAYMENT_TYPE"@) {
        Option::Some(s) => Option::Some(spec_collapse_ws(spec_trim(s))),
        Option::None => Option::None,
    }
}

/// The invoice date: the date pattern must match, then its capture groups
/// are assembled into a timestamp.
pub open spec fn spec_get_date(m: VendorModel, text: Seq<char>) -> Result<
    InvoiceDateTime,
    ParseErrorModel,
> {
    if !m.date.matches(text, "year"@) {
        Result::Err(ParseErrorModel::FieldMissing("INVOICE_DATE"@))
    } else {
        spec_assemble_date(
            DateGroups {
                year: m.date.first_cap(text, "year"@),
                month: m.date.first_cap(text, "month"@),
                day: m.date.first_cap(text, "day"@),
                hour: m.date.first_cap(text, "hour"@),
                minute: m.date.first_cap(text, "min"@),
                second: m.date.first_cap(text, "sec"@),
            },
        )
    }
}

/// The invoice header: number, gross total, optional payment type and date,
/// failing on the first missing or malformed required field.
pub open spec fn spec_get_meta(m: VendorModel, text: Seq<char>) -> Result<
    MetaModel,
    ParseErrorModel,
> {
    match spec_find(m.number, "INVOICE_NUMBER"@, text) {
        Result::Err(e) => Result::Err(e),
        Result::Ok(num) => match spec_gross_sum(m, text) {
            Result::Err(e) => Result::Err(e),
            Result::Ok(sum) => match spec_get_date(m, text) {
                Result::Err(e) => Result::Err(e),
                Result::Ok(date) => Result::Ok(
                    MetaModel {
                        invoice_number: num,
                        sum_gross: sum,
                        payment_type: spec_payment_type(m, text),
                        date,
                    },
                ),
            },
        },
    }
}

impl RegexVendor {
    /// Extracts the invoice header from the document text.
    pub fn get_meta(&self, invoice_text: &str) -> (r: Result<InvoiceMeta, InvoiceParseError>)
        ensures
            (match r {
                Ok(meta) => spec_get_meta(self@, invoice_text@) == Result::<
                    MetaModel,
                    ParseErrorModel,
                >::Ok(meta@),
                Err(e) => spec_get_meta(self@, invoice_text@) == Result::<
                    MetaModel,
                    ParseErrorModel,
                >::Err(e@),
            }),
    {
        let invoice_number = match find(&self.invoice_number_regex, "INVOICE_NUMBER", invoice_text)
        {
            Ok(s) => s,
            Err(e) => {
                return Err(e);
            },
        };
        let sum_gross = match self.get_gross_sum(invoice_text) {
            Ok(d) => d,
            Err(e) => {
                return Err(e);
            },
        };
        let date = match self.get_date(invoice_text) {
            Ok(d) => d,
            Err(e) => {
                return Err(e);
            },
        };
        let payment_type = match captures_first(&self.invoice_total_regex, invoice_text,
            "PAYMENT_TYPE") {
            Some(s) => Some(collapse_ws(trim_to_string(s.as_str()).as_str())),
            None => None,
        };
        Ok(InvoiceMeta { invoice_number, sum_gross, payment_type, date })
    }

    /// Extracts the gross total.
    fn get_gross_sum(&self, invoice_text: &str) -> (r: Result<Decimal, InvoiceParseError>)
        ensures
            (match r {
                Ok(d) => spec_gross_sum(self@, invoice_text@) == Result::<
                    Decimal,
                    ParseErrorModel,
                >::Ok(d),
                Err(e) => spec_gross_sum(self@, invoice_text@) == Result::<
                    Decimal,
                    ParseErrorModel,
                >::Err(e@),
            }),
    {
        match captures_first(&self.invoice_total_regex, invoice_text, "SUM") {
            Some(raw) => parse_locale_number(raw.as_str()),
            None => Err(InvoiceParseError::FieldMissing("SUM".to_owned())),
        }
    }

    /// Extracts and assembles the invoice date.
    fn get_date(&self, invoice_text: &str) -> (r: Result<InvoiceDateTime, InvoiceParseError>)
        ensures
            (match r {
                Ok(d) => spec_get_date(self@, invoice_text@) == Result::<
                    InvoiceDateTime,
                    ParseErrorModel,
                >::Ok(d),
                Err(e) => spec_get_date(self@, invoice_text@) == Result::<
                    InvoiceDateTime,
                    ParseErrorModel,
                >::Err(e@),
            }),
    {
        if !pattern_matches(&self.invoice_date_regex, invoice_text) {
            return Err(InvoiceParseError::FieldMissing("INVOICE_DATE".to_owned()));
        }
        let year = captures_first(&self.invoice_date_regex, invoice_text, "year");
        let month = captures_first(&self.invoice_date_regex, invoice_text, "month");
        let day = captures_first(&self.invoice_date_regex, invoice_text, "day");
        let hour = captures_first(&self.invoice_date_regex, invoice_text, "hour");
        let minute = captures_first(&self.invoice_date_regex, invoice_text, "min");
        let second = captures_first(&self.invoice_date_regex, invoice_text, "sec");
        proof {
            let g = DateGroups {
                year: self@.date.first_cap(invoice_text@, "year"@),
                month: self@.date.first_cap(invoice_text@, "month"@),
                day: self@.date.first_cap(invoice_text@, "day"@),
                hour: self@.date.first_cap(invoice_text@, "hour"@),
                minute: self@.date.first_cap(invoice_text@, "min"@),
                second: self@.date.first_cap(invoice_text@, "sec"@),
            };
            assert(crate::date::spec_date_groups(&year, &month, &day, &hour, &minute, &second)
                == g);
        }
        assemble_date(&year, &month, &day, &hour, &minute, &second)
    }
}

// ------------------------------------------------------------------
// Line items.
// ------------------------------------------------------------------
/// The capture strings of one regular item match.
pub struct ItemCaptures {
    pub pos: Option<String>,
    pub vat: Option<String>,
    pub pu_amount: Option<String>,
    pub amount: Option<String>,
    pub net_price_single: Option<String>,
    pub gross_price_single: Option<String>,
    pub net_price_total: Option<String>,
    pub gross_price_total: Option<String>,
    pub artnr: Option<String>,
    pub desc: Option<String>,
}

/// Mathematical model of the capture strings of one item match.
pub struct ItemGroupsModel {
    pub pos: Option<Seq<char>>,
    pub vat: Option<Seq<char>>,
    pub pu_amount: Option<Seq<char>>,
    pub amount: Option<Seq<char>>,
    pub net_price_single: Option<Seq<char>>,
    pub gross_price_single: Option<Seq<char>>,
    pub net_price_total: Option<Seq<char>>,
    pub gross_price_total: Option<Seq<char>>,
    pub artnr: Option<Seq<char>>,
    pub desc: Option<Seq<char>>,
}

impl View for ItemCaptures {
    type V = ItemGroupsModel;

    open spec fn view(&self) -> ItemGroupsModel {
        ItemGroupsModel {
            pos: self.pos.deep_view(),
            vat: self.vat.deep_view(),
            pu_amount: self.pu_amount.deep_view(),
            amount: self.amount.deep_view(),
            net_price_single: self.net_price_single.deep_view(),
            gross_price_single: self.gross_price_single.deep_view(),
            net_price_total: self.net_price_total.deep_view(),
            gross_price_total: self.gross_price_total.deep_view(),
            artnr: self.artnr.deep_view(),
            desc: self.desc.deep_view(),
        }
    }
}

/// The quantity one, the default packaging multiplier.
pub open spec fn spec_dec_one() -> Decimal {
    Decimal { neg: false, mant: 1, scale: 0 }
}

/// The VAT rate as a decimal: basis points over ten thousand.
pub open spec fn spec_vat_decimal(bp: u32) -> Decimal {
    Decimal { neg: false, mant: bp as u64, scale: 4 }
}

/// A required numeric capture, parsed under the locale convention.
pub open spec fn spec_parse_price(o: Option<Seq<char>>, name: Seq<char>) -> Result<
    Decimal,
    ParseErrorModel,
> {
    match o {
        Option::Some(s) => if spec_locale_ok(s) {
            Result::Ok(spec_locale_decimal(s))
        } else {
            Result::Err(ParseErrorModel::NumberFormat(s))
        },
        Option::None => Result::Err(ParseErrorModel::FieldMissing(name)),
    }
}

/// An optional numeric capture; one when absent.
pub open spec fn spec_opt_price(o: Option<Seq<char>>) -> Result<Decimal, ParseErrorModel> {
    match o {
        Option::Some(s) => if spec_locale_ok(s) {
            Result::Ok(spec_locale_decimal(s))
        } else {
            Result::Err(ParseErrorModel::NumberFormat(s))
        },
        Option::None => Result::Ok(spec_dec_one()),
    }
}

/// The VAT rate of a match: an explicit class token is looked up after
/// trimming and an unknown token is always an error; without a token the
/// vendor's default applies, or the field is missing.
pub open spec fn spec_resolve_vat(m: VendorModel, vat_cap: Option<Seq<char>>) -> Result<
    u32,
    ParseErrorModel,
> {
    match vat_cap {
        Option::Some(tok) => match spec_vat_lookup(m.vat_classes, spec_trim(tok)) {
            Option::Some(bp) => Result::Ok(bp),
            Option::None => Result::Err(ParseErrorModel::UnrecognizedVatClass(spec_trim(tok))),
        },
        Option::None => match m.default_vat {
            Option::Some(bp) => Result::Ok(bp),
            Option::None => Result::Err(ParseErrorModel::FieldMissing("VAT"@)),
        },
    }
}

/// A net amount: the explicit capture parsed as it stands, else derived from
/// the gross capture by `round(gross * (1 - vat/(1+vat)), 3)`; both absent is
/// a missing field.
pub open spec fn spec_net_from(
    explicit: Option<Seq<char>>,
    gross: Option<Seq<char>>,
    bp: u32,
    missing: Seq<char>,
) -> Result<Decimal, ParseErrorModel> {
    match explicit {
        Option::Some(s) => if spec_locale_ok(s) {
            Result::Ok(spec_locale_decimal(s))
        } else {
            Result::Err(ParseErrorModel::NumberFormat(s))
        },
        Option::None => match gross {
            Option::Some(s) => if spec_locale_ok(s) {
                Result::Ok(spec_net_for_gross(spec_locale_decimal(s), bp))
            } else {
                Result::Err(ParseErrorModel::NumberFormat(s))
            },
            Option::None => Result::Err(ParseErrorModel::FieldMissing(missing)),
        },
    }
}

/// The position: an explicit `POS` capture parsed as an integer, else the
/// auto-increment counter.
pub open spec fn spec_position(pos_cap: Option<Seq<char>>, counter: u32) -> Result<
    u32,
    ParseErrorModel,
> {
    match pos_cap {
        Option::Some(s) => if spec_uint_valid(s) && spec_uint_val(s) <= u32::MAX {
            Result::Ok(spec_uint_val(s) as u32)
        } else {
            Result::Err(ParseErrorModel::NumberFormat(s))
        },
        Option::None => Result::Ok(counter),
    }
}

/// The counter after one regular item match.
pub open spec fn spec_next_counter(c: u32) -> u32 {
    if c < u32::MAX {
        (c + 1) as u32
    } else {
        c
    }
}

/// Whether the product of two decimals is negative.
pub open spec fn spec_product_negative(a: Decimal, b: Decimal) -> bool {
    a.mant != 0 && b.mant != 0 && a.neg != b.neg
}

/// Resolution of one regular item match, in the order VAT rate, packaging
/// multiplier, quantity, net unit price, net total price, position,
/// description; the first failure aborts. The recorded quantity is the
/// `AMOUNT` capture times the multiplier; the recorded unit price is the raw
/// unit price divided by the multiplier and rounded to three decimals. Under
/// sign-based classification an item whose raw unit price times quantity is
/// negative books a credit.
pub open spec fn spec_resolve_item(m: VendorModel, g: ItemGroupsModel, counter: u32) -> Result<
    (ItemModel, u32),
    ParseErrorModel,
> {
    match spec_resolve_vat(m, g.vat) {
        Result::Err(e) => Result::Err(e),
        Result::Ok(bp) => match spec_opt_price(g.pu_amount) {
            Result::Err(e) => Result::Err(e),
            Result::Ok(pu) => match spec_parse_price(g.amount, "AMOUNT"@) {
                Result::Err(e) => Result::Err(e),
                Result::Ok(amount) => match spec_net_from(
                    g.net_price_single,
                    g.gross_price_single,
                    bp,
                    "NET_PRICE_SINGLE"@,
                ) {
                    Result::Err(e) => Result::Err(e),
                    Result::Ok(net_raw) => match spec_dec_div3(net_raw, pu) {
                        Option::None => Result::Err(
                            ParseErrorModel::NumberFormat(
                                match g.pu_amount {
                                    Option::Some(s) => s,
                                    Option::None => "PU_AMOUNT"@,
                                },
                            ),
                        ),
                        Option::Some(net_single) => match spec_net_from(
                            g.net_price_total,
                            g.gross_price_total,
                            bp,
                            "NET_PRICE_TOTAL"@,
                        ) {
                            Result::Err(e) => Result::Err(e),
                            Result::Ok(net_total) => match spec_position(g.pos, counter) {
                                Result::Err(e) => Result::Err(e),
                                Result::Ok(pos) => match g.desc {
                                    Option::None => Result::Err(
                                        ParseErrorModel::FieldMissing("DESC"@),
                                    ),
                                    Option::Some(d) => Result::Ok(
                                        (
                                            ItemModel {
                                                typ: if m.sign_based && spec_product_negative(
                                                    net_raw,
                                                    amount,
                                                ) {
                                                    crate::InvoiceItemType::Credit
                                                } else {
                                                    crate::InvoiceItemType::Expense
                                                },
                                                pos,
                                                article_number: match g.artnr {
                                                    Option::Some(a) => spec_trim(a),
                                                    Option::None => Seq::empty(),
                                                },
                                                description: spec_trim(d),
                                                net_price_single: net_single,
                                                vat: spec_vat_decimal(bp),
                                                amount: spec_dec_mul(amount, pu),
                                                net_total_price: net_total,
                                            },
                                            spec_next_counter(counter),
                                        ),
                                    ),
                                },
                            },
                        },
                    },
                },
            },
        },
    }
}

/// Resolution of one discount match: a credit over the full line, quantity
/// one, no article number; the net amount prefers the explicit unit price
/// and is otherwise derived from the gross total.
pub open spec fn spec_resolve_discount(m: VendorModel, dp: PatternModel, line: Seq<char>) -> Result<
    ItemModel,
    ParseErrorModel,
> {
    match dp.first_cap(line, "VAT"@) {
        Option::None => Result::Err(ParseErrorModel::FieldMissing("VAT"@)),
        Option::Some(tok) => match spec_vat_lookup(m.vat_classes, spec_trim(tok)) {
            Option::None => Result::Err(
                ParseErrorModel::UnrecognizedVatClass(spec_trim(tok)),
            ),
            Option::Some(bp) => match spec_net_from(
                dp.first_cap(line, "NET_PRICE_SINGLE"@),
                dp.first_cap(line, "GROSS_PRICE_TOTAL"@),
                bp,
                "NET_PRICE_SINGLE"@,
            ) {
                Result::Err(e) => Result::Err(e),
                Result::Ok(net) => match dp.first_cap(line, "DESC"@) {
                    Option::None => Result::Err(ParseErrorModel::FieldMissing("DESC"@)),
                    Option::Some(d) => Result::Ok(
                        ItemModel {
                            typ: crate::InvoiceItemType::Credit,
                            pos: u32::MAX,
                            article_number: Seq::empty(),
                            description: spec_trim(d),
                            net_price_single: net,
                            vat: spec_vat_decimal(bp),
                            amount: spec_dec_one(),
                            net_total_price: net,
                        },
                    ),
                },
            },
        },
    }
}

/// The group captures of the `i`-th regular item match.
pub open spec fn spec_item_groups(m: VendorModel, text: Seq<char>, i: int) -> ItemGroupsModel {
    ItemGroupsModel {
        pos: m.item.caps(text, "POS"@)[i],
        vat: m.item.caps(text, "VAT"@)[i],
        pu_amount: m.item.caps(text, "PU_AMOUNT"@)[i],
        amount: m.item.caps(text, "AMOUNT"@)[i],
        net_price_single: m.item.caps(text, "NET_PRICE_SINGLE"@)[i],
        gross_price_single: m.item.caps(text, "GROSS_PRICE_SINGLE"@)[i],
        net_price_total: m.item.caps(text, "NET_PRICE_TOTAL"@)[i],
        gross_price_total: m.item.caps(text, "GROSS_PRICE_TOTAL"@)[i],
        artnr: m.item.caps(text, "ARTNR"@)[i],
        desc: m.item.caps(text, "DESC"@)[i],
    }
}

/// The number of regular item matches.
pub open spec fn spec_item_match_count(m: VendorModel, text: Seq<char>) -> nat {
    m.item.caps(text, "DESC"@).len()
}

/// The first `k` regular items with the counter after them, visited in
/// document order with the auto-increment counter starting at one.
pub open spec fn spec_items_prefix(m: VendorModel, text: Seq<char>, k: int) -> Result<
    (Seq<ItemModel>, u32),
    ParseErrorModel,
>
    decreases k,
{
    if k <= 0 {
        Result::Ok((Seq::empty(), 1u32))
    } else {
        match spec_items_prefix(m, text, k - 1) {
            Result::Err(e) => Result::Err(e),
            Result::Ok((items, c)) => match spec_resolve_item(
                m,
                spec_item_groups(m, text, k - 1),
                c,
            ) {
                Result::Err(e) => Result::Err(e),
                Result::Ok((item, c2)) => Result::Ok((items.push(item), c2)),
            },
        }
    }
}

/// All regular items of the document.
pub open spec fn spec_regular_items(m: VendorModel, text: Seq<char>) -> Result<
    Seq<ItemModel>,
    ParseErrorModel,
> {
    match spec_items_prefix(m, text, spec_item_match_count(m, text) as int) {
        Result::Err(e) => Result::Err(e),
        Result::Ok((items, _)) => Result::Ok(items),
    }
}

/// The discount items of the first `k` lines, in line order.
pub open spec fn spec_discounts_prefix(
    m: VendorModel,
    dp: PatternModel,
    lines: Seq<Seq<char>>,
    k: int,
) -> Result<Seq<ItemModel>, ParseErrorModel>
    decreases k,
{
    if k <= 0 {
        Result::Ok(Seq::empty())
    } else {
        match spec_discounts_prefix(m, dp, lines, k - 1) {
            Result::Err(e) => Result::Err(e),
            Result::Ok(ds) => if dp.matches(lines[k - 1], "DESC"@) {
                match spec_resolve_discount(m, dp, lines[k - 1]) {
                    Result::Err(e) => Result::Err(e),
                    Result::Ok(d) => Result::Ok(ds.push(d)),
                }
            } else {
                Result::Ok(ds)
            },
        }
    }
}

/// All discount items of the document: each line that matches the discount
/// pattern yields one credit item.
pub open spec fn spec_discount_items(m: VendorModel, text: Seq<char>) -> Result<
    Seq<ItemModel>,
    ParseErrorModel,
> {
    match m.discount {
        Option::None => Result::Ok(Seq::empty()),
        Option::Some(dp) => spec_discounts_prefix(
            m,
            dp,
            crate::text::spec_lines(text),
            crate::text::spec_lines(text).len() as int,
        ),
    }
}

/// All items of the document: the regular items in document order, the
/// discount items appended after them. A failing discount line aborts before
/// the regular scan, as a failing regular match aborts the whole call.
pub open spec fn spec_get_items(m: VendorModel, text: Seq<char>) -> Result<
    Seq<ItemModel>,
    ParseErrorModel,
> {
    match spec_discount_items(m, text) {
        Result::Err(e) => Result::Err(e),
        Result::Ok(ds) => match spec_regular_items(m, text) {
            Result::Err(e) => Result::Err(e),
            Result::Ok(items) => Result::Ok(items + ds),
        },
    }
}

/// A failed prefix stays failed however far the scan would continue.
pub(crate) proof fn lemma_items_prefix_err_stable(m: VendorModel, text: Seq<char>, k1: int, k2: int)
    requires
        0 <= k1 <= k2,
        spec_items_prefix(m, text, k1) is Err,
    ensures
        spec_items_prefix(m, text, k2) == spec_items_prefix(m, text, k1),
    decreases k2 - k1,
{
    if k1 < k2 {
        lemma_items_prefix_err_stable(m, text, k1, k2 - 1);
    }
}

/// A failed discount prefix stays failed.
pub(crate) proof fn lemma_discounts_prefix_err_stable(
    m: VendorModel,
    dp: PatternModel,
    lines: Seq<Seq<char>>,
    k1: int,
    k2: int,
)
    requires
        0 <= k1 <= k2,
        spec_discounts_prefix(m, dp, lines, k1) is Err,
    ensures
        spec_discounts_prefix(m, dp, lines, k2) == spec_discounts_prefix(m, dp, lines, k1),
    decreases k2 - k1,
{
    if k1 < k2 {
        lemma_discounts_prefix_err_stable(m, dp, lines, k1, k2 - 1);
    }
}

/// Copies an optional capture string.
fn clone_opt_string(o: &Option<String>) -> (r: Option<String>)
    ensures
        r.deep_view() == o.deep_view(),
{
    match o {
        Option::Some(s) => Some(s.clone()),
        Option::None => None,
    }
}

impl RegexVendor {
    /// Looks a VAT-class token up in this vendor's table.
    pub fn get_vat_rate_from_class(&self, class: &str) -> (r: Result<u32, InvoiceParseError>)
        ensures
            (match r {
                Ok(bp) => spec_vat_lookup(self@.vat_classes, class@) == Some(bp),
                Err(e) => spec_vat_lookup(self@.vat_classes, class@) is None && e@
                    == ParseErrorModel::UnrecognizedVatClass(class@),
            }),
    {
        match vat_lookup(&self.vat_classes, class) {
            Some(bp) => Ok(bp),
            None => Err(InvoiceParseError::UnrecognizedVatClass(class.to_owned())),
        }
    }

    /// Resolves the fields of one regular item match.
    fn resolve_item(&self, caps: &ItemCaptures, counter: u32) -> (r: Result<
        (InvoiceItem, u32),
        InvoiceParseError,
    >)
        ensures
            (match r {
                Ok((item, c2)) => spec_resolve_item(self@, caps@, counter) == Result::<
                    (ItemModel, u32),
                    ParseErrorModel,
                >::Ok((item@, c2)),
                Err(e) => spec_resolve_item(self@, caps@, counter) == Result::<
                    (ItemModel, u32),
                    ParseErrorModel,
                >::Err(e@),
            }),
    {
        let bp: u32 = match &caps.vat {
            Option::Some(tok) => {
                let trimmed = trim_to_string(tok.as_str());
                match vat_lookup(&self.vat_classes, trimmed.as_str()) {
                    Some(bp) => bp,
                    None => {
                        return Err(InvoiceParseError::UnrecognizedVatClass(trimmed));
                    },
                }
            },
            Option::None => match self.default_vat_class {
                Option::Some(bp) => bp,
                Option::None => {
                    return Err(InvoiceParseError::FieldMissing("VAT".to_owned()));
                },
            },
        };
        let pu: Decimal = match &caps.pu_amount {
            Option::Some(s) => match parse_locale_number(s.as_str()) {
                Ok(d) => d,
                Err(e) => {
                    return Err(e);
                },
            },
            Option::None => Decimal { neg: false, mant: 1, scale: 0 },
        };
        let amount: Decimal = match &caps.amount {
            Option::Some(s) => match parse_locale_number(s.as_str()) {
                Ok(d) => d,
                Err(e) => {
                    return Err(e);
                },
            },
            Option::None => {
                return Err(InvoiceParseError::FieldMissing("AMOUNT".to_owned()));
            },
        };
        let net_raw: Decimal = match &caps.net_price_single {
            Option::Some(s) => match parse_locale_number(s.as_str()) {
                Ok(d) => d,
                Err(e) => {
                    return Err(e);
                },
            },
            Option::None => match &caps.gross_price_single {
                Option::Some(s) => match parse_locale_number(s.as_str()) {
                    Ok(d) => calculate_net_for_gross(&d, bp),
                    Err(e) => {
                        return Err(e);
                    },
                },
                Option::None => {
                    return Err(InvoiceParseError::FieldMissing("NET_PRICE_SINGLE".to_owned()));
                },
            },
        };
        let net_single: Decimal = match dec_div_round3(&net_raw, &pu) {
            Some(d) => d,
            None => {
                return Err(
                    InvoiceParseError::NumberFormat(
                        match &caps.pu_amount {
                            Option::Some(s) => s.clone(),
                            Option::None => "PU_AMOUNT".to_owned(),
                        },
                    ),
                );
            },
        };
        let net_total: Decimal = match &caps.net_price_total {
            Option::Some(s) => match parse_locale_number(s.as_str()) {
                Ok(d) => d,
                Err(e) => {
                    return Err(e);
                },
            },
            Option::None => match &caps.gross_price_total {
                Option::Some(s) => match parse_locale_number(s.as_str()) {
                    Ok(d) => calculate_net_for_gross(&d, bp),
                    Err(e) => {
                        return Err(e);
                    },
                },
                Option::None => {
                    return Err(InvoiceParseError::FieldMissing("NET_PRICE_TOTAL".to_owned()));
                },
            },
        };
        let pos: u32 = match &caps.pos {
            Option::Some(s) => match crate::num::parse_u32_str(s.as_str()) {
                Some(v) => v,
                None => {
                    return Err(InvoiceParseError::NumberFormat(s.clone()));
                },
            },
            Option::None => counter,
        };
        let description: String = match &caps.desc {
            Option::Some(d) => trim_to_string(d.as_str()),
            Option::None => {
                return Err(InvoiceParseError::FieldMissing("DESC".to_owned()));
            },
        };
        let article_number: String = match &caps.artnr {
            Option::Some(a) => trim_to_string(a.as_str()),
            Option::None => String::new(),
        };
        let typ = if self.sign_based_classification && net_raw.mant != 0 && amount.mant != 0
            && net_raw.neg != amount.neg {
            crate::InvoiceItemType::Credit
        } else {
            crate::InvoiceItemType::Expense
        };
        let quantity = dec_mul(&amount, &pu);
        let next = if counter < u32::MAX {
            counter + 1
        } else {
            counter
        };
        Ok(
            (
                InvoiceItem {
                    typ,
                    pos,
                    article_number,
                    description,
                    net_price_single: net_single,
                    vat: Decimal { neg: false, mant: bp as u64, scale: 4 },
                    amount: quantity,
                    net_total_price: net_total,
                },
                next,
            ),
        )
    }

    /// Resolves one discount line into a credit item.
    fn resolve_discount(&self, dp: &CompiledPattern, line: &str) -> (r: Result<
        InvoiceItem,
        InvoiceParseError,
    >)
        ensures
            (match r {
                Ok(item) => spec_resolve_discount(self@, dp@, line@) == Result::<
                    ItemModel,
                    ParseErrorModel,
                >::Ok(item@),
                Err(e) => spec_resolve_discount(self@, dp@, line@) == Result::<
                    ItemModel,
                    ParseErrorModel,
                >::Err(e@),
            }),
    {
        let tok = match captures_first(dp, line, "VAT") {
            Some(s) => s,
            None => {
                return Err(InvoiceParseError::FieldMissing("VAT".to_owned()));
            },
        };
        let trimmed = trim_to_string(tok.as_str());
        let bp = match vat_lookup(&self.vat_classes, trimmed.as_str()) {
            Some(bp) => bp,
            None => {
                return Err(InvoiceParseError::UnrecognizedVatClass(trimmed));
            },
        };
        let net: Decimal = match captures_first(dp, line, "NET_PRICE_SINGLE") {
            Some(s) => match parse_locale_number(s.as_str()) {
                Ok(d) => d,
                Err(e) => {
                    return Err(e);
                },
            },
            None => match captures_first(dp, line, "GROSS_PRICE_TOTAL") {
                Some(s) => match parse_locale_number(s.as_str()) {
                    Ok(d) => calculate_net_for_gross(&d, bp),
                    Err(e) => {
                        return Err(e);
                    },
                },
                None => {
                    return Err(InvoiceParseError::FieldMissing("NET_PRICE_SINGLE".to_owned()));
                },
            },
        };
        let description = match captures_first(dp, line, "DESC") {
            Some(d) => trim_to_string(d.as_str()),
            None => {
                return Err(InvoiceParseError::FieldMissing("DESC".to_owned()));
            },
        };
        Ok(
            InvoiceItem {
                typ: crate::InvoiceItemType::Credit,
                pos: u32::MAX,
                article_number: String::new(),
                description,
                net_price_single: net,
                vat: Decimal { neg: false, mant: bp as u64, scale: 4 },
                amount: Decimal { neg: false, mant: 1, scale: 0 },
                net_total_price: net,
            },
        )
    }

    /// Extracts all items of the document: the regular items in document
    /// order, the discount items appended after them. The first failing
    /// field of any match aborts the whole call.
    pub fn get_items(&self, invoice_text: &str) -> (r: Result<Vec<InvoiceItem>, InvoiceParseError>)
        ensures
            (match r {
                Ok(v) => spec_get_items(self@, invoice_text@) == Result::<
                    Seq<ItemModel>,
                    ParseErrorModel,
                >::Ok(v.deep_view()),
                Err(e) => spec_get_items(self@, invoice_text@) == Result::<
                    Seq<ItemModel>,
                    ParseErrorModel,
                >::Err(e@),
            }),
    {
        let ghost m = self@;
        let ghost text = invoice_text@;
        let mut discount_items: Vec<InvoiceItem> = Vec::new();
        proof {
            assert(discount_items.deep_view() =~= Seq::<ItemModel>::empty());
        }
        match &self.invoice_discount_regex {
            Option::Some(dp) => {
                let lines = crate::text::split_lines(invoice_text);
                let ghost lns = crate::text::spec_lines(text);
                let mut j: usize = 0;
                proof {
                    assert(lns.len() == lines@.len());
                }
                while j < lines.len()
                    invariant
                        j <= lines@.len(),
                        lines.deep_view() == lns,
                        m == self@,
                        text == invoice_text@,
                        lns == crate::text::spec_lines(text),
                        m.discount == Option::Some(dp@),
                        spec_discounts_prefix(m, dp@, lns, j as int) == Result::<
                            Seq<ItemModel>,
                            ParseErrorModel,
                        >::Ok(discount_items.deep_view()),
                    decreases lines@.len() - j,
                {
                    let line = &lines[j];
                    proof {
                        assert(lines.deep_view()[j as int] == lines@[j as int].deep_view());
                        assert(line@ == lns[j as int]);
                    }
                    if pattern_matches(dp, line.as_str()) {
                        match self.resolve_discount(dp, line.as_str()) {
                            Ok(item) => {
                                let ghost old_ds = discount_items.deep_view();
                                let ghost iv = item@;
                                discount_items.push(item);
                                proof {
                                    assert(discount_items.deep_view() =~= old_ds.push(iv));
                                }
                            },
                            Err(e) => {
                                proof {
                                    assert(spec_discounts_prefix(m, dp@, lns, j as int + 1)
                                        == Result::<Seq<ItemModel>, ParseErrorModel>::Err(e@));
                                    lemma_discounts_prefix_err_stable(
                                        m,
                                        dp@,
                                        lns,
                                        j as int + 1,
                                        lns.len() as int,
                                    );
                                    assert(spec_discount_items(m, text) == Result::<
                                        Seq<ItemModel>,
                                        ParseErrorModel,
                                    >::Err(e@));
                                    assert(spec_get_items(m, text) == Result::<
                                        Seq<ItemModel>,
                                        ParseErrorModel,
                                    >::Err(e@));
                                }
                                return Err(e);
                            },
                        }
                    }
                    j = j + 1;
                }
                proof {
                    assert(spec_discount_items(m, text) == Result::<
                        Seq<ItemModel>,
                        ParseErrorModel,
                    >::Ok(discount_items.deep_view()));
                }
            },
            Option::None => {
                proof {
                    assert(spec_discount_items(m, text) == Result::<
                        Seq<ItemModel>,
                        ParseErrorModel,
                    >::Ok(discount_items.deep_view()));
                }
            },
        }
        proof {
            assert(spec_discount_items(m, text) == Result::<Seq<ItemModel>, ParseErrorModel>::Ok(
                discount_items.deep_view(),
            ));
        }
        let pos_l = captures_list(&self.invoice_item_regex, invoice_text, "POS");
        let vat_l = captures_list(&self.invoice_item_regex, invoice_text, "VAT");
        let pu_l = captures_list(&self.invoice_item_regex, invoice_text, "PU_AMOUNT");
        let amount_l = captures_list(&self.invoice_item_regex, invoice_text, "AMOUNT");
        let nps_l = captures_list(&self.invoice_item_regex, invoice_text, "NET_PRICE_SINGLE");
        let gps_l = captures_list(&self.invoice_item_regex, invoice_text, "GROSS_PRICE_SINGLE");
        let npt_l = captures_list(&self.invoice_item_regex, invoice_text, "NET_PRICE_TOTAL");
        let gpt_l = captures_list(&self.invoice_item_regex, invoice_text, "GROSS_PRICE_TOTAL");
        let artnr_l = captures_list(&self.invoice_item_regex, invoice_text, "ARTNR");
        let desc_l = captures_list(&self.invoice_item_regex, invoice_text, "DESC");
        let n = desc_l.len();
        proof {
            assert(n == spec_item_match_count(m, text));
            assert(pos_l@.len() == n);
            assert(vat_l@.len() == n);
            assert(pu_l@.len() == n);
            assert(amount_l@.len() == n);
            assert(nps_l@.len() == n);
            assert(gps_l@.len() == n);
            assert(npt_l@.len() == n);
            assert(gpt_l@.len() == n);
            assert(artnr_l@.len() == n);
        }
        let mut items: Vec<InvoiceItem> = Vec::new();
        let mut counter: u32 = 1;
        let mut i: usize = 0;
        proof {
            assert(items.deep_view() =~= Seq::<ItemModel>::empty());
        }
        while i < n
            invariant
                i <= n,
                m == self@,
                text == invoice_text@,
                n == spec_item_match_count(m, text),
                spec_discount_items(m, text) == Result::<Seq<ItemModel>, ParseErrorModel>::Ok(
                    discount_items.deep_view(),
                ),
                pos_l.deep_view() == m.item.caps(text, "POS"@) && pos_l@.len() == n,
                vat_l.deep_view() == m.item.caps(text, "VAT"@) && vat_l@.len() == n,
                pu_l.deep_view() == m.item.caps(text, "PU_AMOUNT"@) && pu_l@.len() == n,
                amount_l.deep_view() == m.item.caps(text, "AMOUNT"@) && amount_l@.len() == n,
                nps_l.deep_view() == m.item.caps(text, "NET_PRICE_SINGLE"@) && nps_l@.len() == n,
                gps_l.deep_view() == m.item.caps(text, "GROSS_PRICE_SINGLE"@) && gps_l@.len() == n,
                npt_l.deep_view() == m.item.caps(text, "NET_PRICE_TOTAL"@) && npt_l@.len() == n,
                gpt_l.deep_view() == m.item.caps(text, "GROSS_PRICE_TOTAL"@) && gpt_l@.len() == n,
                artnr_l.deep_view() == m.item.caps(text, "ARTNR"@) && artnr_l@.len() == n,
                desc_l.deep_view() == m.item.caps(text, "DESC"@) && desc_l@.len() == n,
                spec_items_prefix(m, text, i as int) == Result::<
                    (Seq<ItemModel>, u32),
                    ParseErrorModel,
                >::Ok((items.deep_view(), counter)),
            decreases n - i,
        {
            let caps = ItemCaptures {
                pos: clone_opt_string(&pos_l[i]),
                vat: clone_opt_string(&vat_l[i]),
                pu_amount: clone_opt_string(&pu_l[i]),
                amount: clone_opt_string(&amount_l[i]),
                net_price_single: clone_opt_string(&nps_l[i]),
                gross_price_single: clone_opt_string(&gps_l[i]),
                net_price_total: clone_opt_string(&npt_l[i]),
                gross_price_total: clone_opt_string(&gpt_l[i]),
                artnr: clone_opt_string(&artnr_l[i]),
                desc: clone_opt_string(&desc_l[i]),
            };
            proof {
                assert(caps@ == spec_item_groups(m, text, i as int));
            }
            match self.resolve_item(&caps, counter) {
                Ok((item, c2)) => {
                    let ghost old_items = items.deep_view();
                    let ghost iv = item@;
                    items.push(item);
                    counter = c2;
                    proof {
                        assert(items.deep_view() =~= old_items.push(iv));
                    }
                },
                Err(e) => {
                    proof {
                        assert(spec_items_prefix(m, text, i as int + 1) == Result::<
                            (Seq<ItemModel>, u32),
                            ParseErrorModel,
                        >::Err(e@));
                        lemma_items_prefix_err_stable(m, text, i as int + 1, n as int);
                        assert(spec_regular_items(m, text) == Result::<
                            Seq<ItemModel>,
                            ParseErrorModel,
                        >::Err(e@));
                        assert(spec_get_items(m, text) == Result::<
                            Seq<ItemModel>,
                            ParseErrorModel,
                        >::Err(e@));
                    }
                    return Err(e);
                },
            }
            i = i + 1;
        }
        proof {
            assert(spec_regular_items(m, text) == Result::<Seq<ItemModel>, ParseErrorModel>::Ok(
                items.deep_view(),
            ));
        }
        let ghost items_deep = items.deep_view();
        let ghost ds_deep = discount_items.deep_view();
        let mut result = items;
        result.append(&mut discount_items);
        proof {
            assert(result.deep_view() =~= items_deep + ds_deep);
        }
        Ok(result)
    }
}

/// The whole extraction: header and items of one document under one
/// compiled vendor, or the first error encountered.
pub open spec fn spec_extract(m: VendorModel, text: Seq<char>, vendor: crate::InvoiceVendor) -> Result<
    crate::InvoiceModel,
    ParseErrorModel,
> {
    match spec_get_meta(m, text) {
        Result::Err(e) => Result::Err(e),
        Result::Ok(meta) => match spec_get_items(m, text) {
            Result::Err(e) => Result::Err(e),
            Result::Ok(items) => Result::Ok(
                crate::InvoiceModel { vendor, meta, items },
            ),
        },
    }
}

impl RegexVendor {
    /// Extracts one invoice from the document text: header metadata and the
    /// ordered line items, or the first error. The result is a function of
    /// the compiled vendor's model and the text alone.
    pub fn extract(&self, invoice_text: &str, vendor: crate::InvoiceVendor) -> (r: Result<
        crate::Invoice,
        InvoiceParseError,
    >)
        ensures
            (match r {
                Ok(inv) => spec_extract(self@, invoice_text@, vendor) == Result::<
                    crate::InvoiceModel,
                    ParseErrorModel,
                >::Ok(inv@),
                Err(e) => spec_extract(self@, invoice_text@, vendor) == Result::<
                    crate::InvoiceModel,
                    ParseErrorModel,
                >::Err(e@),
            }),
    {
        let meta = match self.get_meta(invoice_text) {
            Ok(meta) => meta,
            Err(e) => {
                return Err(e);
            },
        };
        let items = match self.get_items(invoice_text) {
            Ok(items) => items,
            Err(e) => {
                return Err(e);
            },
        };
        Ok(crate::Invoice { vendor, meta, items })
    }
}

} // verus!
