//! The engine's general laws, stated as proof functions over the same spec
//! functions the executable contracts use.

use vstd::prelude::*;
use vstd::arithmetic::div_mod::lemma_div_multiples_vanish_quotient;
use vstd::arithmetic::div_mod::lemma_fundamental_div_mod;
use vstd::arithmetic::div_mod::lemma_mod_division_less_than_divisor;
use crate::engine::VendorModel;
use crate::engine::spec_extract;
use crate::engine::spec_get_meta;
use crate::engine::spec_get_items;
use crate::engine::spec_discount_items;
use crate::engine::spec_regular_items;
use crate::engine::spec_items_prefix;
use crate::engine::spec_discounts_prefix;
use crate::engine::spec_item_groups;
use crate::engine::spec_item_match_count;
use crate::engine::spec_resolve_item;
use crate::engine::spec_resolve_discount;
use crate::engine::spec_net_from;
use crate::engine::spec_vat_lookup;
use crate::engine::spec_vat_wf;
use crate::engine::lemma_items_prefix_err_stable;
use crate::num::Decimal;
use crate::num::round_div;
use crate::num::lemma_pow10_mono;
use crate::num::spec_net_for_gross;
use crate::num::spec_net_mant;
use crate::num::spec_locale_ok;
use crate::num::spec_locale_decimal;
use crate::pattern::PatternModel;
use crate::text::spec_trim;
use crate::InvoiceItemType;
use crate::InvoiceModel;
use crate::InvoiceVendor;
use crate::ItemModel;
use crate::ParseErrorModel;

verus! {

/// Deriving net from gross rounds exactly: for every non-negative gross
/// amount and the VAT rates of seven and nineteen percent, the derived net
/// amount is `gross × (1 − vat/(1+vat))` — that is, `gross / (1 + vat)` —
/// rounded to three decimal places, halves away from zero. Its mantissa at
/// scale 3 is the rounding division of `1000 × gross` by `1 + vat`, with
/// `1 + vat` written as `107/100` or `119/100`.
pub proof fn lemma_net_for_gross_rounds(gross: Decimal, vat_bp: u32)
    requires
        !gross.neg,
        gross.wf(),
        gross.mant < 1_000_000_000_000,
        vat_bp == 700 || vat_bp == 1900,
    ensures
        ({
            let r = spec_net_for_gross(gross, vat_bp);
            let one_plus_vat_hundredths: int = 100 + vat_bp as int / 100;
            &&& r.scale == 3
            &&& !r.neg
            &&& r.mant == round_div(
                gross.mant as int * 1000 * 100,
                gross.den() as int * one_plus_vat_hundredths,
            )
        }),
{
    lemma_pow10_mono(0, gross.scale as nat);
    crate::num::lemma_pow10_18();
    lemma_pow10_mono(gross.scale as nat, 18);
    let den = gross.den() as int;
    let a = gross.mant as int * 1000 * 100;
    let d = den * (100 + vat_bp as int / 100);
    let big_a = gross.mant as int * 10_000_000;
    let big_d = den * (10_000 + vat_bp as int);
    assert(big_a == 100 * a);
    assert(big_d == 100 * d) by (nonlinear_arith)
        requires
            big_d == den * (10_000 + vat_bp as int),
            d == den * (100 + vat_bp as int / 100),
            vat_bp == 700 || vat_bp == 1900,
    ;
    assert(d >= 100) by (nonlinear_arith)
        requires
            d == den * (100 + vat_bp as int / 100),
            den >= 1,
            vat_bp == 700 || vat_bp == 1900,
    ;
    // the rounding division is invariant under scaling both sides
    assert(2 * big_a + big_d == 100 * (2 * a + d));
    assert(2 * big_d == 100 * (2 * d));
    lemma_div_multiples_vanish_quotient(100, 2 * a + d, 2 * d);
    assert(spec_net_mant(gross, vat_bp) == round_div(a, d));
    // the mantissa fits, so the stored value is the rounding itself
    let q = round_div(big_a, big_d);
    lemma_fundamental_div_mod(2 * big_a + big_d, 2 * big_d);
    lemma_mod_division_less_than_divisor(2 * big_a + big_d, 2 * big_d);
    assert(q * (2 * big_d) == (2 * big_d) * q) by (nonlinear_arith);
    assert(q >= 0 && q <= 1_000_000_000_000_000) by (nonlinear_arith)
        requires
            q * (2 * big_d) <= 2 * big_a + big_d,
            q * (2 * big_d) >= 2 * big_a + big_d - 2 * big_d + 1,
            big_a < 10_000_000_000_000_000_000,
            big_a >= 0,
            big_d >= 10_000,
    ;
}

/// Extraction is deterministic: it is a pure function of the compiled
/// vendor's model, the document text and the vendor tag, so two calls with
/// identical inputs yield identical invoices, with no state carried between
/// calls.
pub proof fn lemma_extract_deterministic(
    m: VendorModel,
    text: Seq<char>,
    vendor: InvoiceVendor,
    r1: Result<InvoiceModel, ParseErrorModel>,
    r2: Result<InvoiceModel, ParseErrorModel>,
)
    requires
        r1 == spec_extract(m, text, vendor),
        r2 == spec_extract(m, text, vendor),
    ensures
        r1 == r2,
{
}

/// A text in which the invoice-number pattern yields no capture makes the
/// whole extraction fail with exactly the missing invoice-number error; no
/// invoice is returned.
pub proof fn lemma_missing_invoice_number_fails(
    m: VendorModel,
    text: Seq<char>,
    vendor: InvoiceVendor,
)
    requires
        m.number.first_cap(text, "INVOICE_NUMBER"@) is None,
    ensures
        spec_extract(m, text, vendor) == Result::<InvoiceModel, ParseErrorModel>::Err(
            ParseErrorModel::FieldMissing("INVOICE_NUMBER"@),
        ),
{
}

/// A VAT-class token without an entry in the vendor's table aborts the whole
/// extraction with exactly the unrecognized-class error, as soon as
/// extraction reaches the match that carries it: no invoice is returned and
/// no default is substituted.
pub proof fn lemma_unknown_vat_class_aborts(
    m: VendorModel,
    text: Seq<char>,
    vendor: InvoiceVendor,
    i: int,
)
    requires
        spec_get_meta(m, text) is Ok,
        spec_discount_items(m, text) is Ok,
        0 <= i < spec_item_match_count(m, text),
        spec_items_prefix(m, text, i) is Ok,
        spec_item_groups(m, text, i).vat matches Some(tok) && spec_vat_lookup(
            m.vat_classes,
            spec_trim(tok),
        ) is None,
    ensures
        spec_extract(m, text, vendor) == Result::<InvoiceModel, ParseErrorModel>::Err(
            ParseErrorModel::UnrecognizedVatClass(
                spec_trim(spec_item_groups(m, text, i).vat->0),
            ),
        ),
{
    let tok = spec_item_groups(m, text, i).vat->0;
    let e = ParseErrorModel::UnrecognizedVatClass(spec_trim(tok));
    assert(spec_resolve_item(m, spec_item_groups(m, text, i), spec_items_prefix(m, text, i)->Ok_0.1)
        == Result::<(ItemModel, u32), ParseErrorModel>::Err(e));
    assert(spec_items_prefix(m, text, i + 1) == Result::<
        (Seq<ItemModel>, u32),
        ParseErrorModel,
    >::Err(e));
    lemma_items_prefix_err_stable(m, text, i + 1, spec_item_match_count(m, text) as int);
}

/// Every item of a successful position-counter prefix without explicit
/// position captures carries its one-based document position, and the
/// counter after the prefix is the item count plus one.
proof fn lemma_prefix_auto_positions(m: VendorModel, text: Seq<char>, k: int)
    requires
        0 <= k < u32::MAX,
        forall|i: int| 0 <= i < k ==> (#[trigger] spec_item_groups(m, text, i)).pos is None,
        spec_items_prefix(m, text, k) is Ok,
    ensures
        ({
            let (items, c) = spec_items_prefix(m, text, k)->Ok_0;
            &&& items.len() == k
            &&& c == k + 1
            &&& forall|x: int| 0 <= x < k ==> (#[trigger] items[x]).pos == x + 1
        }),
    decreases k,
{
    if k > 0 {
        lemma_prefix_auto_positions(m, text, k - 1);
    }
}

/// Every item a discount prefix yields is classified as a credit.
proof fn lemma_discounts_all_credit(
    m: VendorModel,
    dp: PatternModel,
    lines: Seq<Seq<char>>,
    k: int,
)
    requires
        spec_discounts_prefix(m, dp, lines, k) is Ok,
    ensures
        ({
            let ds = spec_discounts_prefix(m, dp, lines, k)->Ok_0;
            forall|x: int| 0 <= x < ds.len() ==> (#[trigger] ds[x]).typ == InvoiceItemType::Credit
        }),
    decreases k,
{
    if k > 0 {
        lemma_discounts_all_credit(m, dp, lines, k - 1);
    }
}

/// Position auto-increment: in a document with three regular item matches,
/// none carrying an explicit position capture, and one discount match, the
/// three regular items receive positions one, two and three in document
/// order, and the discount item stands after them, classified as a credit,
/// wherever its line stands in the text.
pub proof fn lemma_position_auto_increment(m: VendorModel, text: Seq<char>)
    requires
        spec_item_match_count(m, text) == 3,
        forall|i: int| 0 <= i < 3 ==> (#[trigger] spec_item_groups(m, text, i)).pos is None,
        spec_regular_items(m, text) is Ok,
        spec_discount_items(m, text) matches Ok(ds) && ds.len() == 1,
    ensures
        ({
            let items = spec_get_items(m, text)->Ok_0;
            &&& spec_get_items(m, text) is Ok
            &&& items.len() == 4
            &&& items[0].pos == 1 && items[1].pos == 2 && items[2].pos == 3
            &&& items[3].typ == InvoiceItemType::Credit
        }),
{
    lemma_prefix_auto_positions(m, text, 3);
    let ds = spec_discount_items(m, text)->Ok_0;
    match m.discount {
        Option::Some(dp) => {
            lemma_discounts_all_credit(
                m,
                dp,
                crate::text::spec_lines(text),
                crate::text::spec_lines(text).len() as int,
            );
        },
        Option::None => {},
    }
    let items = spec_get_items(m, text)->Ok_0;
    assert(items[3] == ds[0]);
}

/// Net-price fallback: a match without an explicit net capture but with a
/// parseable gross capture resolves its net amount to the gross amount
/// reduced by the derivation formula `round(gross × (1 − vat/(1+vat)), 3)`.
pub proof fn lemma_net_price_fallback(
    gross: Seq<char>,
    bp: u32,
    missing: Seq<char>,
)
    requires
        spec_locale_ok(gross),
    ensures
        spec_net_from(Option::None, Option::Some(gross), bp, missing) == Result::<
            Decimal,
            ParseErrorModel,
        >::Ok(spec_net_for_gross(spec_locale_decimal(gross), bp)),
{
}

/// Whether a VAT rate decimal is one the vendor declares: a table rate or
/// the declared default, at scale 4 (basis points over ten thousand).
pub open spec fn spec_vat_declared(m: VendorModel, d: Decimal) -> bool {
    &&& d.scale == 4
    &&& !d.neg
    &&& d.mant <= u32::MAX
    &&& ((exists|k: int|
        0 <= k < m.vat_classes.len() && (#[trigger] m.vat_classes[k]).1 == d.mant)
        || m.default_vat == Some(d.mant as u32))
}

proof fn lemma_vat_lookup_member(t: Seq<(Seq<char>, u32)>, token: Seq<char>)
    requires
        spec_vat_lookup(t, token) is Some,
    ensures
        exists|k: int| 0 <= k < t.len() && (#[trigger] t[k]).1 == spec_vat_lookup(t, token)->0,
    decreases t.len(),
{
    if t.len() > 0 && t[0].0 != token {
        lemma_vat_lookup_member(t.drop_first(), token);
        let k = choose|k: int|
            0 <= k < t.drop_first().len() && (#[trigger] t.drop_first()[k]).1 == spec_vat_lookup(
                t.drop_first(),
                token,
            )->0;
        assert(t[k + 1].1 == spec_vat_lookup(t, token)->0);
    }
}

proof fn lemma_resolve_item_vat_declared(m: VendorModel, g: crate::engine::ItemGroupsModel, c: u32)
    requires
        spec_resolve_item(m, g, c) is Ok,
    ensures
        spec_vat_declared(m, spec_resolve_item(m, g, c)->Ok_0.0.vat),
{
    match g.vat {
        Option::Some(tok) => {
            lemma_vat_lookup_member(m.vat_classes, spec_trim(tok));
        },
        Option::None => {},
    }
}

proof fn lemma_resolve_discount_vat_declared(
    m: VendorModel,
    dp: PatternModel,
    line: Seq<char>,
)
    requires
        spec_resolve_discount(m, dp, line) is Ok,
    ensures
        spec_vat_declared(m, spec_resolve_discount(m, dp, line)->Ok_0.vat),
{
    match dp.first_cap(line, "VAT"@) {
        Option::Some(tok) => {
            lemma_vat_lookup_member(m.vat_classes, spec_trim(tok));
        },
        Option::None => {},
    }
}

proof fn lemma_prefix_vat_declared(m: VendorModel, text: Seq<char>, k: int)
    requires
        spec_items_prefix(m, text, k) is Ok,
    ensures
        ({
            let items = spec_items_prefix(m, text, k)->Ok_0.0;
            forall|x: int| 0 <= x < items.len() ==> spec_vat_declared(m, (#[trigger] items[x]).vat)
        }),
    decreases k,
{
    if k > 0 {
        lemma_prefix_vat_declared(m, text, k - 1);
        let c = spec_items_prefix(m, text, k - 1)->Ok_0.1;
        lemma_resolve_item_vat_declared(m, spec_item_groups(m, text, k - 1), c);
    }
}

proof fn lemma_discounts_vat_declared(
    m: VendorModel,
    dp: PatternModel,
    lines: Seq<Seq<char>>,
    k: int,
)
    requires
        spec_discounts_prefix(m, dp, lines, k) is Ok,
    ensures
        ({
            let ds = spec_discounts_prefix(m, dp, lines, k)->Ok_0;
            forall|x: int| 0 <= x < ds.len() ==> spec_vat_declared(m, (#[trigger] ds[x]).vat)
        }),
    decreases k,
{
    if k > 0 {
        lemma_discounts_vat_declared(m, dp, lines, k - 1);
        if spec_discounts_prefix(m, dp, lines, k - 1) is Ok && dp.matches(lines[k - 1], "DESC"@) {
            lemma_resolve_discount_vat_declared(m, dp, lines[k - 1]);
        }
    }
}

/// A VAT rate is never free-form: every extracted item's rate is one of the
/// vendor's declared class rates or the declared default; under a
/// well-formed table every rate therefore lies in [0, 1).
pub proof fn lemma_item_vat_declared(m: VendorModel, text: Seq<char>)
    requires
        spec_get_items(m, text) is Ok,
    ensures
        ({
            let items = spec_get_items(m, text)->Ok_0;
            &&& forall|x: int|
                0 <= x < items.len() ==> spec_vat_declared(m, (#[trigger] items[x]).vat)
            &&& (spec_vat_wf(m.vat_classes) && (m.default_vat matches Some(d) ==> d < 10000)
                ==> forall|x: int| 0 <= x < items.len() ==> (#[trigger] items[x]).vat.mant < 10000)
        }),
{
    let n = spec_item_match_count(m, text) as int;
    lemma_prefix_vat_declared(m, text, n);
    match m.discount {
        Option::Some(dp) => {
            lemma_discounts_vat_declared(
                m,
                dp,
                crate::text::spec_lines(text),
                crate::text::spec_lines(text).len() as int,
            );
        },
        Option::None => {},
    }
    let items = spec_get_items(m, text)->Ok_0;
    let regular = spec_regular_items(m, text)->Ok_0;
    let ds = spec_discount_items(m, text)->Ok_0;
    assert(items =~= regular + ds);
    assert forall|x: int| 0 <= x < items.len() implies spec_vat_declared(
        m,
        (#[trigger] items[x]).vat,
    ) by {
        if x < regular.len() {
            assert(items[x] == regular[x]);
        } else {
            assert(items[x] == ds[x - regular.len()]);
        }
    }
}

} // verus!

