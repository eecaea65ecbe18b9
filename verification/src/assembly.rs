//! Putting an analytics answer together from its sections.
use vstd::prelude::*;

use crate::analytics::{
    Analytics, AnalyticsGroupRow, AnalyticsMonthRow, AnalyticsOverview, AnalyticsPriceMetric,
    AnalyticsScope, AnalyticsSection, AnalyticsSectionKind,
};
use crate::copies::{copy_rows, same_rows};
use crate::counting::{first_is, first_upto, none_found};

verus! {

/// The sections of a scope, in the order in which they are shown.
pub open spec fn kinds_of(scope: Option<AnalyticsScope>) -> Seq<AnalyticsSectionKind> {
    match scope {
        Some(AnalyticsScope::Companies) => seq![
            AnalyticsSectionKind::Edrpou,
            AnalyticsSectionKind::Recipients,
            AnalyticsSectionKind::Senders,
        ],
        Some(AnalyticsScope::Products) => seq![
            AnalyticsSectionKind::ProductCodes,
            AnalyticsSectionKind::Trademarks,
            AnalyticsSectionKind::ProductGroups,
        ],
        Some(AnalyticsScope::Countries) => seq![
            AnalyticsSectionKind::OriginCountries,
            AnalyticsSectionKind::DispatchCountries,
            AnalyticsSectionKind::TradeCountries,
        ],
        _ => Seq::empty(),
    }
}

/// The sections of a scope, in the order in which they are shown.
pub fn scope_kinds(scope: Option<AnalyticsScope>) -> (r: Vec<AnalyticsSectionKind>)
    ensures
        r@ == kinds_of(scope),
{
    let mut kinds: Vec<AnalyticsSectionKind> = Vec::new();
    match scope {
        Some(AnalyticsScope::Companies) => {
            kinds.push(AnalyticsSectionKind::Edrpou);
            kinds.push(AnalyticsSectionKind::Recipients);
            kinds.push(AnalyticsSectionKind::Senders);
        },
        Some(AnalyticsScope::Products) => {
            kinds.push(AnalyticsSectionKind::ProductCodes);
            kinds.push(AnalyticsSectionKind::Trademarks);
            kinds.push(AnalyticsSectionKind::ProductGroups);
        },
        Some(AnalyticsScope::Countries) => {
            kinds.push(AnalyticsSectionKind::OriginCountries);
            kinds.push(AnalyticsSectionKind::DispatchCountries);
            kinds.push(AnalyticsSectionKind::TradeCountries);
        },
        _ => {},
    }
    assert(kinds@ =~= kinds_of(scope));
    kinds
}

/// Whether the answer for a scope has price metrics.
pub open spec fn has_prices(scope: Option<AnalyticsScope>) -> bool {
    scope == Some(AnalyticsScope::Prices)
}

/// Whether a section is of a kind.
pub open spec fn section_is(
    sections: Seq<AnalyticsSection>,
    kind: AnalyticsSectionKind,
    i: int,
) -> bool {
    sections[i].kind == kind
}

/// The rows of the first section of a kind.
pub open spec fn rows_of(sections: Seq<AnalyticsSection>, kind: AnalyticsSectionKind) -> Seq<
    AnalyticsGroupRow,
> {
    match first_upto(sections.len() as int, |i: int| section_is(sections, kind, i)) {
        Some(k) => sections[k].rows@,
        None => Seq::empty(),
    }
}

/// Copies the rows of the first section of a kind.
pub fn section_rows(sections: &Vec<AnalyticsSection>, kind: AnalyticsSectionKind) -> (r: Vec<
    AnalyticsGroupRow,
>)
    ensures
        same_rows(r@, rows_of(sections@, kind)),
{
    let ghost p = |i: int| section_is(sections@, kind, i);
    let mut i: usize = 0;
    while i < sections.len()
        invariant
            i <= sections@.len(),
            p == (|i: int| section_is(sections@, kind, i)),
            forall|j: int| 0 <= j < i ==> !#[trigger] p(j),
        decreases sections.len() - i,
    {
        if sections[i].kind == kind {
            proof {
                assert(p(i as int));
                first_is(sections@.len() as int, p, i as int);
            }
            return copy_rows(&sections[i].rows);
        }
        assert(!p(i as int));
        i += 1;
    }
    proof {
        none_found(sections@.len() as int, p);
    }
    Vec::new()
}

/// What the answer for one scope holds beside its overview and months.
pub open spec fn answers_scope(
    answer: Analytics,
    scope: Option<AnalyticsScope>,
    sections: Seq<AnalyticsSection>,
    prices: Seq<AnalyticsPriceMetric>,
) -> bool {
    let companies = scope == Some(AnalyticsScope::Companies);
    let products = scope == Some(AnalyticsScope::Products);
    let countries = scope == Some(AnalyticsScope::Countries);
    let none = Seq::<AnalyticsSection>::empty();
    let no_rows = Seq::<AnalyticsGroupRow>::empty();
    &&& answer.company_sections@ == (if companies {
        sections
    } else {
        none
    })
    &&& answer.product_sections@ == (if products {
        sections
    } else {
        none
    })
    &&& answer.country_sections@ == (if countries {
        sections
    } else {
        none
    })
    &&& answer.price_sections@ == (if has_prices(scope) {
        prices
    } else {
        Seq::empty()
    })
    &&& same_rows(
        answer.top_recipients@,
        if companies {
            rows_of(sections, AnalyticsSectionKind::Recipients)
        } else {
            no_rows
        },
    )
    &&& same_rows(
        answer.top_senders@,
        if companies {
            rows_of(sections, AnalyticsSectionKind::Senders)
        } else {
            no_rows
        },
    )
    &&& same_rows(
        answer.top_trademarks@,
        if products {
            rows_of(sections, AnalyticsSectionKind::Trademarks)
        } else {
            no_rows
        },
    )
    &&& same_rows(
        answer.top_product_codes@,
        if products {
            rows_of(sections, AnalyticsSectionKind::ProductCodes)
        } else {
            no_rows
        },
    )
    &&& same_rows(
        answer.top_origin_countries@,
        if countries {
            rows_of(sections, AnalyticsSectionKind::OriginCountries)
        } else {
            no_rows
        },
    )
}

/// The sections of a scope, in their order, from the rows of each.
pub open spec fn sections_of(
    scope: Option<AnalyticsScope>,
    rows: Seq<Vec<AnalyticsGroupRow>>,
) -> Seq<AnalyticsSection> {
    Seq::new(
        rows.len(),
        |i: int| AnalyticsSection { kind: kinds_of(scope)[i], rows: rows[i] },
    )
}

/// The sections of a scope, in their order, from the rows of each.
fn scope_sections(scope: Option<AnalyticsScope>, rows: Vec<Vec<AnalyticsGroupRow>>) -> (r: Vec<
    AnalyticsSection,
>)
    requires
        rows@.len() == kinds_of(scope).len(),
    ensures
        r@ == sections_of(scope, rows@),
{
    let ghost all = rows@;
    let kinds = scope_kinds(scope);
    let mut rest = rows;
    let mut out: Vec<AnalyticsSection> = Vec::new();
    let mut i: usize = 0;
    assert(all.skip(0) =~= all);
    while i < kinds.len()
        invariant
            i <= kinds@.len(),
            kinds@ == kinds_of(scope),
            all.len() == kinds@.len(),
            rest@ == all.skip(i as int),
            out@ == sections_of(scope, all).take(i as int),
        decreases kinds.len() - i,
    {
        let own = rest.remove(0);
        assert(rest@ =~= all.skip(i + 1));
        out.push(AnalyticsSection { kind: kinds[i], rows: own });
        assert(out@ =~= sections_of(scope, all).take(i + 1));
        i += 1;
    }
    assert(sections_of(scope, all).take(i as int) =~= sections_of(scope, all));
    out
}

/// The answer for one scope, from its overview, its months, the rows of each
/// section of the scope in their order, and its price metrics. Without a scope it
/// has the overview and the months only.
pub fn analytics_scoped(
    overview: AnalyticsOverview,
    months: Vec<AnalyticsMonthRow>,
    scope: Option<AnalyticsScope>,
    rows: Vec<Vec<AnalyticsGroupRow>>,
    prices: Vec<AnalyticsPriceMetric>,
) -> (r: Analytics)
    requires
        rows@.len() == kinds_of(scope).len(),
    ensures
        r.overview == overview,
        r.months == months,
        answers_scope(r, scope, sections_of(scope, rows@), prices@),
{
    let sections = scope_sections(scope, rows);
    let mut answer = Analytics {
        overview,
        months,
        company_sections: Vec::new(),
        product_sections: Vec::new(),
        country_sections: Vec::new(),
        price_sections: Vec::new(),
        top_recipients: Vec::new(),
        top_senders: Vec::new(),
        top_trademarks: Vec::new(),
        top_product_codes: Vec::new(),
        top_origin_countries: Vec::new(),
    };
    match scope {
        None => {},
        Some(AnalyticsScope::Companies) => {
            answer.top_recipients = section_rows(&sections, AnalyticsSectionKind::Recipients);
            answer.top_senders = section_rows(&sections, AnalyticsSectionKind::Senders);
            answer.company_sections = sections;
        },
        Some(AnalyticsScope::Products) => {
            answer.top_trademarks = section_rows(&sections, AnalyticsSectionKind::Trademarks);
            answer.top_product_codes = section_rows(&sections, AnalyticsSectionKind::ProductCodes);
            answer.product_sections = sections;
        },
        Some(AnalyticsScope::Countries) => {
            answer.top_origin_countries =
            section_rows(&sections, AnalyticsSectionKind::OriginCountries);
            answer.country_sections = sections;
        },
        Some(AnalyticsScope::Prices) => {
            answer.price_sections = prices;
        },
    }
    answer
}

/// The full answer, from the answers for the four scopes. All four answer the
/// same query, so the overview and the months are those of the first.
pub fn analytics_full(
    companies: Analytics,
    products: Analytics,
    countries: Analytics,
    prices: Analytics,
) -> (r: Analytics)
    ensures
        r.overview == companies.overview,
        r.months == companies.months,
        r.company_sections == companies.company_sections,
        r.top_recipients == companies.top_recipients,
        r.top_senders == companies.top_senders,
        r.product_sections == products.product_sections,
        r.top_trademarks == products.top_trademarks,
        r.top_product_codes == products.top_product_codes,
        r.country_sections == countries.country_sections,
        r.top_origin_countries == countries.top_origin_countries,
        r.price_sections == prices.price_sections,
{
    Analytics {
        overview: companies.overview,
        months: companies.months,
        company_sections: companies.company_sections,
        product_sections: products.product_sections,
        country_sections: countries.country_sections,
        price_sections: prices.price_sections,
        top_recipients: companies.top_recipients,
        top_senders: companies.top_senders,
        top_trademarks: products.top_trademarks,
        top_product_codes: products.top_product_codes,
        top_origin_countries: countries.top_origin_countries,
    }
}

/// The sections that the overview previews: one for each of the first three
/// scopes. Companies are previewed by their names, which a reader recognises.
pub open spec fn preview_kinds() -> Seq<AnalyticsSectionKind> {
    seq![
        AnalyticsSectionKind::Recipients,
        AnalyticsSectionKind::ProductCodes,
        AnalyticsSectionKind::OriginCountries,
    ]
}

/// The kinds of the previewed sections.
pub fn previewed_kinds() -> (r: Vec<AnalyticsSectionKind>)
    ensures
        r@ == preview_kinds(),
{
    let mut kinds: Vec<AnalyticsSectionKind> = Vec::new();
    kinds.push(AnalyticsSectionKind::Recipients);
    kinds.push(AnalyticsSectionKind::ProductCodes);
    kinds.push(AnalyticsSectionKind::OriginCountries);
    assert(kinds@ =~= preview_kinds());
    kinds
}

/// A list of one section.
fn only_section(kind: AnalyticsSectionKind, rows: Vec<AnalyticsGroupRow>) -> (r: Vec<
    AnalyticsSection,
>)
    ensures
        r@ == seq![(AnalyticsSection { kind, rows })],
{
    let mut sections: Vec<AnalyticsSection> = Vec::new();
    sections.push(AnalyticsSection { kind, rows });
    assert(sections@ =~= seq![AnalyticsSection { kind, rows }]);
    sections
}

/// The answer with the three previews, from the rows of each, and no month.
pub fn analytics_previews(
    overview: AnalyticsOverview,
    companies: Vec<AnalyticsGroupRow>,
    products: Vec<AnalyticsGroupRow>,
    countries: Vec<AnalyticsGroupRow>,
) -> (r: Analytics)
    ensures
        r.overview == overview,
        r.months@.len() == 0,
        r.company_sections@ == seq![
            (AnalyticsSection { kind: preview_kinds()[0], rows: companies }),
        ],
        r.product_sections@ == seq![
            (AnalyticsSection { kind: preview_kinds()[1], rows: products }),
        ],
        r.country_sections@ == seq![
            (AnalyticsSection { kind: preview_kinds()[2], rows: countries }),
        ],
        r.price_sections@.len() == 0,
        r.top_recipients@.len() == 0,
        r.top_senders@.len() == 0,
        r.top_trademarks@.len() == 0,
        r.top_product_codes@.len() == 0,
        r.top_origin_countries@.len() == 0,
{
    Analytics {
        overview,
        months: Vec::new(),
        company_sections: only_section(AnalyticsSectionKind::Recipients, companies),
        product_sections: only_section(AnalyticsSectionKind::ProductCodes, products),
        country_sections: only_section(AnalyticsSectionKind::OriginCountries, countries),
        price_sections: Vec::new(),
        top_recipients: Vec::new(),
        top_senders: Vec::new(),
        top_trademarks: Vec::new(),
        top_product_codes: Vec::new(),
        top_origin_countries: Vec::new(),
    }
}

/// The rows of a kind are those that were given for the section at the kind's
/// place.
pub proof fn top_rows_are_the_sections_own(
    scope: Option<AnalyticsScope>,
    rows: Seq<Vec<AnalyticsGroupRow>>,
    i: int,
)
    requires
        rows.len() == kinds_of(scope).len(),
        0 <= i < rows.len(),
    ensures
        rows_of(sections_of(scope, rows), kinds_of(scope)[i]) == rows[i]@,
{
    let sections = sections_of(scope, rows);
    let kind = kinds_of(scope)[i];
    let p = |k: int| section_is(sections, kind, k);
    assert(p(i));
    assert forall|k: int| 0 <= k < i implies !#[trigger] p(k) by {
        assert(sections[k].kind == kinds_of(scope)[k]);
    }
    first_is(sections.len() as int, p, i);
}

/// No section is shown under two scopes.
pub proof fn scopes_share_no_section(a: AnalyticsScope, b: AnalyticsScope, i: int, j: int)
    requires
        a != b,
        0 <= i < kinds_of(Some(a)).len(),
        0 <= j < kinds_of(Some(b)).len(),
    ensures
        kinds_of(Some(a))[i] != kinds_of(Some(b))[j],
{
}

/// Each scope shows its own sections: companies by code, recipient and sender,
/// products by code, trademark and group, countries by origin, dispatch and trade.
/// Only the scope of prices shows prices.
pub proof fn each_scope_shows_its_own_sections()
    ensures
        kinds_of(Some(AnalyticsScope::Companies)) == seq![
            AnalyticsSectionKind::Edrpou,
            AnalyticsSectionKind::Recipients,
            AnalyticsSectionKind::Senders,
        ],
        kinds_of(Some(AnalyticsScope::Products)) == seq![
            AnalyticsSectionKind::ProductCodes,
            AnalyticsSectionKind::Trademarks,
            AnalyticsSectionKind::ProductGroups,
        ],
        kinds_of(Some(AnalyticsScope::Countries)) == seq![
            AnalyticsSectionKind::OriginCountries,
            AnalyticsSectionKind::DispatchCountries,
            AnalyticsSectionKind::TradeCountries,
        ],
        kinds_of(None).len() == 0,
        kinds_of(Some(AnalyticsScope::Prices)).len() == 0,
        forall|scope: Option<AnalyticsScope>| #[trigger]
            has_prices(scope) <==> scope == Some(AnalyticsScope::Prices),
        preview_kinds() == seq![
            AnalyticsSectionKind::Recipients,
            AnalyticsSectionKind::ProductCodes,
            AnalyticsSectionKind::OriginCountries,
        ],
{
}

} // verus!
