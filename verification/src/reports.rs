//! The report of a query, as text and as a page.
use vstd::prelude::*;
use vstd::string::*;

use crate::analytics::AnalyticsSectionKind;
use crate::number::{decimal, decimal_text};
use crate::text::{
    chars_of, holds, part_stands, part_stands_deeper, run, run_is_glued, run_stands,
};

verus! {

/// The style of the page.
pub const REPORT_CSS: &'static str = "<style>
      :root { color-scheme: light; font-family: Segoe UI, Arial, sans-serif; color: #1b2430; }
      body { margin: 36px; background: #fff; font-size: 13px; line-height: 1.45; }
      h1 { margin: 0 0 4px; font-size: 26px; }
      h2 { margin: 26px 0 8px; font-size: 18px; border-bottom: 1px solid #d7dde5; padding-bottom: 4px; }
      h3 { margin: 16px 0 6px; font-size: 14px; color: #34404e; }
      .query { margin: 0 0 18px; color: #6a7682; }
      .kpis { display: grid; grid-template-columns: repeat(3, 1fr); gap: 10px; margin: 18px 0 20px; }
      .kpis article { border: 1px solid #d7dde5; border-radius: 6px; padding: 10px 12px; }
      .kpis span { display: block; color: #6a7682; font-size: 11px; }
      .kpis strong { display: block; margin-top: 4px; font-size: 18px; font-family: Consolas, monospace; }
      table { width: 100%; border-collapse: collapse; margin-bottom: 8px; }
      th, td { border-bottom: 1px solid #e4e8ee; padding: 6px 7px; text-align: left; vertical-align: top; }
      th { background: #f3f6f9; color: #34404e; font-size: 11px; text-transform: uppercase; }
      td:not(:first-child), th:not(:first-child) { text-align: right; font-family: Consolas, monospace; }
      @media print { body { margin: 18mm; } .kpis { grid-template-columns: repeat(3, 1fr); } h2 { break-after: avoid; } table { break-inside: avoid; } }
    </style>";

/// A row of the report, with its figures as they are rendered.
#[derive(Clone, Debug)]
pub struct ReportRow {
    pub label: String,
    pub money: String,
    pub net: String,
    pub rows: u64,
    pub share: String,
}

/// A section of the report.
#[derive(Clone, Debug)]
pub struct ReportSection {
    pub kind: AnalyticsSectionKind,
    pub title: String,
    pub rows: Vec<ReportRow>,
}

/// A price metric of the report, with its figures as they are rendered.
#[derive(Clone, Debug)]
pub struct ReportPrice {
    pub title: String,
    pub average: String,
    pub weighted: String,
    pub median: String,
    pub p25: String,
    pub p75: String,
    pub count: u64,
}

/// The headline of the report, with its figures as they are rendered.
#[derive(Clone, Debug)]
pub struct ReportFigures {
    pub rows: String,
    pub declarations: String,
    pub total_value: String,
    pub breakdown: Option<String>,
    pub net_weight: String,
    pub value_per_kg: String,
    pub companies: String,
}

/// The words of the report in the language that was chosen.
#[derive(Clone, Debug)]
pub struct ReportWords {
    pub rows: String,
    pub declarations: String,
    pub total_value: String,
    pub net_weight: String,
    pub value_per_kg: String,
    pub companies: String,
    pub currency_breakdown: String,
    pub companies_section: String,
    pub products_section: String,
    pub countries_section: String,
    pub prices_section: String,
}

/// Everything that the report says.
#[derive(Clone, Debug)]
pub struct Report {
    pub query: String,
    pub figures: ReportFigures,
    pub companies: Vec<ReportSection>,
    pub products: Vec<ReportSection>,
    pub countries: Vec<ReportSection>,
    pub prices: Vec<ReportPrice>,
}

/// How many of the first `n` sections have rows.
pub open spec fn filled_sections(sections: Seq<ReportSection>, n: int) -> nat
    decreases n,
{
    if n <= 0 {
        0
    } else if sections[n - 1].rows@.len() > 0 {
        filled_sections(sections, n - 1) + 1
    } else {
        filled_sections(sections, n - 1)
    }
}

/// Whether a section is shown: it has rows, and is among the first that do.
pub open spec fn section_shown(sections: Seq<ReportSection>, i: int, limit: nat) -> bool {
    sections[i].rows@.len() > 0 && filled_sections(sections, i) < limit
}

/// The lesser of two numbers.
pub open spec fn lesser(a: nat, b: nat) -> nat {
    if a < b {
        a
    } else {
        b
    }
}

/// The lesser of two numbers.
fn at_most(a: usize, b: usize) -> (r: usize)
    ensures
        r == lesser(a as nat, b as nat),
{
    if a < b {
        a
    } else {
        b
    }
}

/// The sections that are shown, by their places: the first `limit` that have
/// rows.
pub fn shown_sections(sections: &Vec<ReportSection>, limit: usize) -> (r: Vec<usize>)
    ensures
        r@.len() <= limit,
        forall|k: int|
            0 <= k < r@.len() ==> (#[trigger] r@[k]) < sections@.len() && section_shown(
                sections@,
                r@[k] as int,
                limit as nat,
            ),
        forall|i: int|
            0 <= i < sections@.len() && #[trigger] section_shown(sections@, i, limit as nat)
                ==> r@.contains(i as usize),
        forall|j: int, k: int| 0 <= j < k < r@.len() ==> r@[j] < r@[k],
{
    let mut out: Vec<usize> = Vec::new();
    let mut i: usize = 0;
    while i < sections.len()
        invariant
            i <= sections@.len(),
            out@.len() == lesser(filled_sections(sections@, i as int), limit as nat),
            forall|k: int|
                0 <= k < out@.len() ==> (#[trigger] out@[k]) < i && section_shown(
                    sections@,
                    out@[k] as int,
                    limit as nat,
                ),
            forall|k: int|
                0 <= k < i && #[trigger] section_shown(sections@, k, limit as nat)
                    ==> out@.contains(k as usize),
            forall|j: int, k: int| 0 <= j < k < out@.len() ==> out@[j] < out@[k],
        decreases sections.len() - i,
    {
        let ghost before = out@;
        if sections[i].rows.len() > 0 && out.len() < limit {
            out.push(i);
            assert(out@.last() == i);
            assert forall|k: int|
                0 <= k < i + 1 && #[trigger] section_shown(sections@, k, limit as nat) implies out@.contains(k as usize) by {
                if k < i {
                    let at = choose|at: int| 0 <= at < before.len() && before[at] == k as usize;
                    assert(out@[at] == k as usize);
                } else {
                    assert(out@[before.len() as int] == k as usize);
                }
            }
        }
        i += 1;
    }
    out
}

/// The name of a section's kind.
pub open spec fn kind_name(kind: AnalyticsSectionKind) -> Seq<char> {
    match kind {
        AnalyticsSectionKind::Recipients => "Recipients"@,
        AnalyticsSectionKind::Senders => "Senders"@,
        AnalyticsSectionKind::Edrpou => "Edrpou"@,
        AnalyticsSectionKind::ProductCodes => "ProductCodes"@,
        AnalyticsSectionKind::Trademarks => "Trademarks"@,
        AnalyticsSectionKind::ProductGroups => "ProductGroups"@,
        AnalyticsSectionKind::OriginCountries => "OriginCountries"@,
        AnalyticsSectionKind::DispatchCountries => "DispatchCountries"@,
        AnalyticsSectionKind::TradeCountries => "TradeCountries"@,
    }
}

/// The name of a section's kind.
fn name_of_kind(kind: AnalyticsSectionKind) -> (r: &'static str)
    ensures
        r@ == kind_name(kind),
{
    match kind {
        AnalyticsSectionKind::Recipients => "Recipients",
        AnalyticsSectionKind::Senders => "Senders",
        AnalyticsSectionKind::Edrpou => "Edrpou",
        AnalyticsSectionKind::ProductCodes => "ProductCodes",
        AnalyticsSectionKind::Trademarks => "Trademarks",
        AnalyticsSectionKind::ProductGroups => "ProductGroups",
        AnalyticsSectionKind::OriginCountries => "OriginCountries",
        AnalyticsSectionKind::DispatchCountries => "DispatchCountries",
        AnalyticsSectionKind::TradeCountries => "TradeCountries",
    }
}

/// What stands for a character of a text on a page.
pub open spec fn escaped_char(c: char) -> Seq<char> {
    if c == '&' {
        "&amp;"@
    } else if c == '<' {
        "&lt;"@
    } else if c == '>' {
        "&gt;"@
    } else if c == '"' {
        "&quot;"@
    } else {
        seq![c]
    }
}

/// A text as it stands on a page.
pub open spec fn escaped(s: Seq<char>) -> Seq<char>
    decreases s.len(),
{
    if s.len() == 0 {
        Seq::empty()
    } else {
        escaped(s.drop_last()) + escaped_char(s.last())
    }
}

/// A text as it stands on a page.
pub fn esc_html(value: &str) -> (r: String)
    ensures
        r@ == escaped(value@),
{
    let v = chars_of(value);
    let mut out = String::new();
    let mut i: usize = 0;
    assert(v@.take(0) =~= Seq::<char>::empty());
    while i < v.len()
        invariant
            i <= v@.len(),
            out@ == escaped(v@.take(i as int)),
        decreases v.len() - i,
    {
        assert(v@.take(i + 1).drop_last() =~= v@.take(i as int));
        assert(v@.take(i + 1).last() == v@[i as int]);
        let ghost before = out@;
        if v[i] == '&' {
            out.append("&amp;");
        } else if v[i] == '<' {
            out.append("&lt;");
        } else if v[i] == '>' {
            out.append("&gt;");
        } else if v[i] == '"' {
            out.append("&quot;");
        } else {
            out.push(v[i]);
        }
        assert(out@ =~= before + escaped_char(v@[i as int]));
        i += 1;
    }
    assert(v@.take(i as int) =~= v@);
    out
}

/// A text on a page cannot open or close anything: no angle bracket and no
/// quotation mark is left in it.
pub proof fn escaped_text_is_inert(s: Seq<char>, i: int)
    requires
        0 <= i < escaped(s).len(),
    ensures
        escaped(s)[i] != '<',
        escaped(s)[i] != '>',
        escaped(s)[i] != '"',
    decreases s.len(),
{
    reveal_strlit("&amp;");
    reveal_strlit("&lt;");
    reveal_strlit("&gt;");
    reveal_strlit("&quot;");
    if s.len() > 0 {
        let before = escaped(s.drop_last());
        if i < before.len() {
            escaped_text_is_inert(s.drop_last(), i);
        } else {
            let e = escaped_char(s.last());
            assert(escaped(s)[i] == e[i - before.len()]);
        }
    }
}

/// Whether a text begins with a part.
pub open spec fn leads(s: Seq<char>, part: Seq<char>) -> bool {
    s.len() >= part.len() && s.take(part.len() as int) == part
}

/// What a reader of a page makes of a text on it.
pub open spec fn unescaped(s: Seq<char>) -> Seq<char>
    decreases s.len(),
{
    if s.len() == 0 {
        Seq::empty()
    } else if leads(s, seq!['&', 'a', 'm', 'p', ';']) {
        seq!['&'] + unescaped(s.skip(5))
    } else if leads(s, seq!['&', 'l', 't', ';']) {
        seq!['<'] + unescaped(s.skip(4))
    } else if leads(s, seq!['&', 'g', 't', ';']) {
        seq!['>'] + unescaped(s.skip(4))
    } else if leads(s, seq!['&', 'q', 'u', 'o', 't', ';']) {
        seq!['"'] + unescaped(s.skip(6))
    } else {
        seq![s[0]] + unescaped(s.drop_first())
    }
}

/// Reading what stands for one character gives it back, whatever follows.
proof fn unescaped_char(c: char, rest: Seq<char>)
    ensures
        unescaped(escaped_char(c) + rest) == seq![c] + unescaped(rest),
{
    reveal_strlit("&amp;");
    reveal_strlit("&lt;");
    reveal_strlit("&gt;");
    reveal_strlit("&quot;");
    let s = escaped_char(c) + rest;
    if c == '&' {
        assert("&amp;"@ =~= seq!['&', 'a', 'm', 'p', ';']);
        assert(s.take(5) =~= seq!['&', 'a', 'm', 'p', ';']);
        assert(s.skip(5) =~= rest);
    } else if c == '<' {
        assert("&lt;"@ =~= seq!['&', 'l', 't', ';']);
        assert(s.take(4) =~= seq!['&', 'l', 't', ';']);
        assert(s[1] == 'l');
        assert(!leads(s, seq!['&', 'a', 'm', 'p', ';'])) by {
            if leads(s, seq!['&', 'a', 'm', 'p', ';']) {
                assert(s.take(5)[1] == 'a');
            }
        }
        assert(s.skip(4) =~= rest);
    } else if c == '>' {
        assert("&gt;"@ =~= seq!['&', 'g', 't', ';']);
        assert(s.take(4) =~= seq!['&', 'g', 't', ';']);
        assert(s[1] == 'g');
        assert(!leads(s, seq!['&', 'a', 'm', 'p', ';'])) by {
            if leads(s, seq!['&', 'a', 'm', 'p', ';']) {
                assert(s.take(5)[1] == 'a');
            }
        }
        assert(s.skip(4) =~= rest);
        assert(s.take(4)[1] == 'g');
    } else if c == '"' {
        assert("&quot;"@ =~= seq!['&', 'q', 'u', 'o', 't', ';']);
        assert(s.take(6) =~= seq!['&', 'q', 'u', 'o', 't', ';']);
        assert(s[1] == 'q');
        assert(s.take(5)[1] == 'q');
        assert(s.take(4)[1] == 'q');
        assert(s.skip(6) =~= rest);
    } else {
        assert(s[0] == c);
        assert(s.drop_first() =~= rest);
        assert(!leads(s, seq!['&', 'a', 'm', 'p', ';'])) by {
            if leads(s, seq!['&', 'a', 'm', 'p', ';']) {
                assert(s.take(5)[0] == '&');
            }
        }
        assert(!leads(s, seq!['&', 'l', 't', ';'])) by {
            if leads(s, seq!['&', 'l', 't', ';']) {
                assert(s.take(4)[0] == '&');
            }
        }
        assert(!leads(s, seq!['&', 'g', 't', ';'])) by {
            if leads(s, seq!['&', 'g', 't', ';']) {
                assert(s.take(4)[0] == '&');
            }
        }
        assert(!leads(s, seq!['&', 'q', 'u', 'o', 't', ';'])) by {
            if leads(s, seq!['&', 'q', 'u', 'o', 't', ';']) {
                assert(s.take(6)[0] == '&');
            }
        }
    }
}

/// Reading an escaped part goes on with what follows it.
proof fn unescaped_past(s: Seq<char>, rest: Seq<char>)
    ensures
        unescaped(escaped(s) + rest) == s + unescaped(rest),
    decreases s.len(),
{
    if s.len() == 0 {
        assert(escaped(s) + rest =~= rest);
        assert(s + unescaped(rest) =~= unescaped(rest));
    } else {
        let more = escaped_char(s.last()) + rest;
        unescaped_past(s.drop_last(), more);
        unescaped_char(s.last(), rest);
        assert(escaped(s) + rest =~= escaped(s.drop_last()) + more);
        assert(s.drop_last() + (seq![s.last()] + unescaped(rest)) =~= s + unescaped(rest));
    }
}

/// A page says what it was given: read back, an escaped text is the text.
pub proof fn escaped_text_reads_back(s: Seq<char>)
    ensures
        unescaped(escaped(s)) == s,
{
    unescaped_past(s, Seq::empty());
    assert(escaped(s) + Seq::<char>::empty() =~= escaped(s));
    assert(unescaped(Seq::<char>::empty()) =~= Seq::<char>::empty());
    assert(s + Seq::<char>::empty() =~= s);
}

/// A row of the report as text.
pub open spec fn markdown_row(row: ReportRow) -> Seq<char> {
    "- "@ + row.label@ + ": value "@ + row.money@ + ", net "@ + row.net@ + " kg, rows "@ + decimal(
        row.rows as nat,
    ) + ", share "@ + row.share@ + "%\n"@
}

/// The first `n` rows of a section as text.
pub open spec fn markdown_rows(rows: Seq<ReportRow>, n: int) -> Seq<char>
    decreases n,
{
    if n <= 0 {
        Seq::empty()
    } else {
        markdown_rows(rows, n - 1) + markdown_row(rows[n - 1])
    }
}

/// A section of the report as text: its first ten rows.
pub open spec fn markdown_section(section: ReportSection) -> Seq<char> {
    "### "@ + kind_name(section.kind) + "\n"@ + markdown_rows(
        section.rows@,
        lesser(section.rows@.len(), 10) as int,
    )
}

/// The first `n` sections as text, as far as they are shown: three of them at
/// most.
pub open spec fn markdown_sections(sections: Seq<ReportSection>, n: int) -> Seq<char>
    decreases n,
{
    if n <= 0 {
        Seq::empty()
    } else if section_shown(sections, n - 1, 3) {
        markdown_sections(sections, n - 1) + markdown_section(sections[n - 1])
    } else {
        markdown_sections(sections, n - 1)
    }
}

/// A part of the report as text.
pub open spec fn markdown_part(title: Seq<char>, sections: Seq<ReportSection>) -> Seq<char> {
    "## "@ + title + "\n"@ + markdown_sections(sections, sections.len() as int) + "\n"@
}

/// Appends a part of the report as text.
fn append_report_sections(out: &mut String, title: &str, sections: &Vec<ReportSection>)
    ensures
        final(out)@ == old(out)@ + markdown_part(title@, sections@),
{
    out.append("## ");
    out.append(title);
    out.append("\n");
    let ghost start = out@;
    let mut shown: usize = 0;
    let mut i: usize = 0;
    assert(out@ =~= start + markdown_sections(sections@, 0));
    while i < sections.len()
        invariant
            i <= sections@.len(),
            shown == lesser(filled_sections(sections@, i as int), 3),
            out@ == start + markdown_sections(sections@, i as int),
        decreases sections.len() - i,
    {
        let section = &sections[i];
        if section.rows.len() > 0 && shown < 3 {
            let ghost before = out@;
            out.append("### ");
            out.append(name_of_kind(section.kind));
            out.append("\n");
            let ghost head = out@;
            let count = at_most(section.rows.len(), 10);
            let mut k: usize = 0;
            assert(out@ =~= head + markdown_rows(section.rows@, 0));
            while k < count
                invariant
                    k <= count <= section.rows@.len(),
                    out@ == head + markdown_rows(section.rows@, k as int),
                decreases count - k,
            {
                let row = &section.rows[k];
                let ghost upto = out@;
                out.append("- ");
                out.append(row.label.as_str());
                out.append(": value ");
                out.append(row.money.as_str());
                out.append(", net ");
                out.append(row.net.as_str());
                out.append(" kg, rows ");
                out.append(decimal_text(row.rows).as_str());
                out.append(", share ");
                out.append(row.share.as_str());
                out.append("%\n");
                assert(out@ =~= upto + markdown_row(*row));
                assert(out@ =~= head + markdown_rows(section.rows@, k + 1));
                k += 1;
            }
            assert(out@ =~= before + markdown_section(*section));
            shown += 1;
        }
        assert(out@ =~= start + markdown_sections(sections@, i + 1));
        i += 1;
    }
    out.append("\n");
    assert(out@ =~= old(out)@ + markdown_part(title@, sections@));
}

/// The line of a text that may be missing.
pub open spec fn breakdown_line(label: Seq<char>, breakdown: Option<String>) -> Seq<char> {
    match breakdown {
        Some(text) => "- "@ + label + ": "@ + text@ + "\n"@,
        None => Seq::empty(),
    }
}

/// The headline of the report as text.
pub open spec fn markdown_head(report: Report, words: ReportWords) -> Seq<char> {
    "# Base Search Report\n\n"@ + ("Query: "@ + report.query@ + "\n\n"@) + "## Summary\n"@ + (
    "- Rows: "@ + report.figures.rows@ + "\n"@) + ("- Declarations: "@
        + report.figures.declarations@ + "\n"@) + ("- Total value: "@ + report.figures.total_value@
        + "\n"@) + breakdown_line(words.currency_breakdown@, report.figures.breakdown) + (
    "- Net weight: "@ + report.figures.net_weight@ + "\n"@) + ("- Average value/kg: "@
        + report.figures.value_per_kg@ + "\n\n"@)
}

/// Appends a line of a figure.
fn push_figure(out: &mut String, label: &str, figure: &str, end: &str)
    ensures
        final(out)@ == old(out)@ + (label@ + figure@ + end@),
{
    out.append(label);
    out.append(figure);
    out.append(end);
    assert(out@ =~= old(out)@ + (label@ + figure@ + end@));
}

/// The report as text. Where there are several currencies it names each, since a
/// reader of a file cannot ask for more.
pub fn report_markdown(report: &Report, words: &ReportWords) -> (r: String)
    ensures
        r@ == markdown_head(*report, *words) + markdown_part("Companies"@, report.companies@)
            + markdown_part("Goods"@, report.products@) + markdown_part(
            "Countries"@,
            report.countries@,
        ),
{
    let mut out = String::from_str("# Base Search Report\n\n");
    push_figure(&mut out, "Query: ", report.query.as_str(), "\n\n");
    out.append("## Summary\n");
    push_figure(&mut out, "- Rows: ", report.figures.rows.as_str(), "\n");
    push_figure(&mut out, "- Declarations: ", report.figures.declarations.as_str(), "\n");
    push_figure(&mut out, "- Total value: ", report.figures.total_value.as_str(), "\n");
    let ghost before = out@;
    match &report.figures.breakdown {
        Some(text) => {
            out.append("- ");
            out.append(words.currency_breakdown.as_str());
            out.append(": ");
            out.append(text.as_str());
            out.append("\n");
        },
        None => {},
    }
    assert(out@ =~= before + breakdown_line(
        words.currency_breakdown@,
        report.figures.breakdown,
    ));
    push_figure(&mut out, "- Net weight: ", report.figures.net_weight.as_str(), "\n");
    push_figure(&mut out, "- Average value/kg: ", report.figures.value_per_kg.as_str(), "\n\n");
    append_report_sections(&mut out, "Companies", &report.companies);
    append_report_sections(&mut out, "Goods", &report.products);
    append_report_sections(&mut out, "Countries", &report.countries);
    out
}

/// A row of the report on the page.
pub open spec fn html_row(row: ReportRow) -> Seq<char> {
    "<tr><td>"@ + escaped(row.label@) + "</td><td>"@ + escaped(row.money@) + "</td><td>"@ + row.net@
        + "</td><td>"@ + decimal(row.rows as nat) + "</td><td>"@ + row.share@ + "%</td></tr>"@
}

/// The first `n` rows of a section on the page.
pub open spec fn html_rows(rows: Seq<ReportRow>, n: int) -> Seq<char>
    decreases n,
{
    if n <= 0 {
        Seq::empty()
    } else {
        html_rows(rows, n - 1) + html_row(rows[n - 1])
    }
}

/// The head of a section's table.
pub const SECTION_TABLE: &'static str = "</h3><table><thead><tr><th>Name</th><th>Value</th><th>Net kg</th><th>Rows</th><th>Share</th></tr></thead><tbody>";

/// A section of the report on the page: its first ten rows.
pub open spec fn html_section(section: ReportSection) -> Seq<char> {
    "<h3>"@ + escaped(section.title@) + SECTION_TABLE@ + html_rows(
        section.rows@,
        lesser(section.rows@.len(), 10) as int,
    ) + "</tbody></table>"@
}

/// The first `n` sections on the page, as far as they are shown: three of them
/// at most.
pub open spec fn html_sections(sections: Seq<ReportSection>, n: int) -> Seq<char>
    decreases n,
{
    if n <= 0 {
        Seq::empty()
    } else if section_shown(sections, n - 1, 3) {
        html_sections(sections, n - 1) + html_section(sections[n - 1])
    } else {
        html_sections(sections, n - 1)
    }
}

/// A part of the report on the page.
pub open spec fn html_part(title: Seq<char>, sections: Seq<ReportSection>) -> Seq<char> {
    "<section><h2>"@ + escaped(title) + "</h2>"@ + html_sections(sections, sections.len() as int)
        + "</section>"@
}

/// Appends a row of a section for the page.
fn append_html_row(out: &mut String, row: &ReportRow)
    ensures
        final(out)@ == old(out)@ + html_row(*row),
{
    out.append("<tr><td>");
    out.append(esc_html(row.label.as_str()).as_str());
    out.append("</td><td>");
    out.append(esc_html(row.money.as_str()).as_str());
    out.append("</td><td>");
    out.append(row.net.as_str());
    out.append("</td><td>");
    out.append(decimal_text(row.rows).as_str());
    out.append("</td><td>");
    out.append(row.share.as_str());
    out.append("%</td></tr>");
    assert(out@ =~= old(out)@ + html_row(*row));
}

/// Appends a part of the report for the page.
fn append_html_sections(out: &mut String, title: &str, sections: &Vec<ReportSection>)
    ensures
        final(out)@ == old(out)@ + html_part(title@, sections@),
{
    out.append("<section><h2>");
    out.append(esc_html(title).as_str());
    out.append("</h2>");
    let ghost start = out@;
    let mut shown: usize = 0;
    let mut i: usize = 0;
    assert(out@ =~= start + html_sections(sections@, 0));
    while i < sections.len()
        invariant
            i <= sections@.len(),
            shown == lesser(filled_sections(sections@, i as int), 3),
            out@ == start + html_sections(sections@, i as int),
        decreases sections.len() - i,
    {
        let section = &sections[i];
        if section.rows.len() > 0 && shown < 3 {
            let ghost before = out@;
            out.append("<h3>");
            out.append(esc_html(section.title.as_str()).as_str());
            out.append(SECTION_TABLE);
            let ghost head = out@;
            let count = at_most(section.rows.len(), 10);
            let mut k: usize = 0;
            assert(out@ =~= head + html_rows(section.rows@, 0));
            while k < count
                invariant
                    k <= count <= section.rows@.len(),
                    out@ == head + html_rows(section.rows@, k as int),
                decreases count - k,
            {
                append_html_row(out, &section.rows[k]);
                assert(out@ =~= head + html_rows(section.rows@, k + 1));
                k += 1;
            }
            out.append("</tbody></table>");
            assert(out@ =~= before + html_section(*section));
            shown += 1;
        }
        assert(out@ =~= start + html_sections(sections@, i + 1));
        i += 1;
    }
    out.append("</section>");
    assert(out@ =~= old(out)@ + html_part(title@, sections@));
}

/// How many of the first `n` price metrics have rows.
pub open spec fn filled_prices(prices: Seq<ReportPrice>, n: int) -> nat
    decreases n,
{
    if n <= 0 {
        0
    } else if prices[n - 1].count > 0 {
        filled_prices(prices, n - 1) + 1
    } else {
        filled_prices(prices, n - 1)
    }
}

/// A price metric on the page.
pub open spec fn html_price(price: ReportPrice) -> Seq<char> {
    "<tr><td>"@ + escaped(price.title@) + "</td><td>"@ + price.average@ + "</td><td>"@
        + price.weighted@ + "</td><td>"@ + price.median@ + "</td><td>"@ + price.p25@ + " - "@
        + price.p75@ + "</td><td>"@ + decimal(price.count as nat) + "</td></tr>"@
}

/// The first `n` price metrics on the page, as far as they have rows: eight of
/// them at most.
pub open spec fn html_price_rows(prices: Seq<ReportPrice>, n: int) -> Seq<char>
    decreases n,
{
    if n <= 0 {
        Seq::empty()
    } else if prices[n - 1].count > 0 && filled_prices(prices, n - 1) < 8 {
        html_price_rows(prices, n - 1) + html_price(prices[n - 1])
    } else {
        html_price_rows(prices, n - 1)
    }
}

/// The head of the table of prices.
pub const PRICE_TABLE: &'static str = "</h2><table><thead><tr><th>Metric</th><th>Average</th><th>Weighted</th><th>Median</th><th>P25-P75</th><th>Rows</th></tr></thead><tbody>";

/// The price metrics on the page.
pub open spec fn html_prices(title: Seq<char>, prices: Seq<ReportPrice>) -> Seq<char> {
    "<section><h2>"@ + escaped(title) + PRICE_TABLE@ + html_price_rows(prices, prices.len() as int)
        + "</tbody></table></section>"@
}

/// Appends the price metrics for the page.
fn append_html_prices(out: &mut String, title: &str, prices: &Vec<ReportPrice>)
    ensures
        final(out)@ == old(out)@ + html_prices(title@, prices@),
{
    out.append("<section><h2>");
    out.append(esc_html(title).as_str());
    out.append(PRICE_TABLE);
    let ghost start = out@;
    let mut shown: usize = 0;
    let mut i: usize = 0;
    assert(out@ =~= start + html_price_rows(prices@, 0));
    while i < prices.len()
        invariant
            i <= prices@.len(),
            shown == lesser(filled_prices(prices@, i as int), 8),
            out@ == start + html_price_rows(prices@, i as int),
        decreases prices.len() - i,
    {
        let price = &prices[i];
        if price.count > 0 && shown < 8 {
            let ghost before = out@;
            out.append("<tr><td>");
            out.append(esc_html(price.title.as_str()).as_str());
            out.append("</td><td>");
            out.append(price.average.as_str());
            out.append("</td><td>");
            out.append(price.weighted.as_str());
            out.append("</td><td>");
            out.append(price.median.as_str());
            out.append("</td><td>");
            out.append(price.p25.as_str());
            out.append(" - ");
            out.append(price.p75.as_str());
            out.append("</td><td>");
            out.append(decimal_text(price.count).as_str());
            out.append("</td></tr>");
            assert(out@ =~= before + html_price(*price));
            shown += 1;
        }
        assert(out@ =~= start + html_price_rows(prices@, i + 1));
        i += 1;
    }
    out.append("</tbody></table></section>");
    assert(out@ =~= old(out)@ + html_prices(title@, prices@));
}

/// A tile on the page.
pub open spec fn html_tile(label: Seq<char>, value: Seq<char>) -> Seq<char> {
    "<article><span>"@ + escaped(label) + "</span><strong>"@ + escaped(value)
        + "</strong></article>"@
}

/// Appends a tile for the page.
fn push_tile(out: &mut String, label: &str, value: &str)
    ensures
        final(out)@ == old(out)@ + html_tile(label@, value@),
{
    out.append("<article><span>");
    out.append(esc_html(label).as_str());
    out.append("</span><strong>");
    out.append(esc_html(value).as_str());
    out.append("</strong></article>");
    assert(out@ =~= old(out)@ + html_tile(label@, value@));
}

/// The tiles on the page.
pub open spec fn html_tiles(figures: ReportFigures, words: ReportWords) -> Seq<char> {
    html_tile(words.rows@, figures.rows@) + html_tile(words.declarations@, figures.declarations@)
        + html_tile(words.total_value@, figures.total_value@) + html_tile(
        words.net_weight@,
        figures.net_weight@,
    ) + html_tile(words.value_per_kg@, figures.value_per_kg@) + html_tile(
        words.companies@,
        figures.companies@,
    ) + (match figures.breakdown {
        Some(text) => html_tile(words.currency_breakdown@, text@),
        None => Seq::empty(),
    })
}

/// What the page shows.
pub open spec fn html_body(report: Report, words: ReportWords) -> Seq<char> {
    "<h1>Base Search Report</h1><p class=\"query\">"@ + escaped(report.query@) + "</p>"@
        + "<section class=\"kpis\">"@ + html_tiles(report.figures, words) + "</section>"@
        + html_part(words.companies_section@, report.companies@) + html_part(
        words.products_section@,
        report.products@,
    ) + html_part(words.countries_section@, report.countries@) + html_prices(
        words.prices_section@,
        report.prices@,
    )
}

/// The page.
pub open spec fn html_page(body: Seq<char>) -> Seq<char> {
    "<!doctype html><html><head><meta charset=\"utf-8\"><title>Base Search Report</title>"@
        + REPORT_CSS@ + "</head><body>"@ + body + "</body></html>"@
}

/// The report as a page.
pub fn report_html(report: &Report, words: &ReportWords) -> (r: String)
    ensures
        r@ == html_page(html_body(*report, *words)),
{
    let mut body = String::from_str("<h1>Base Search Report</h1><p class=\"query\">");
    body.append(esc_html(report.query.as_str()).as_str());
    body.append("</p>");
    body.append("<section class=\"kpis\">");
    let ghost start = body@;
    let figures = &report.figures;
    push_tile(&mut body, words.rows.as_str(), figures.rows.as_str());
    push_tile(&mut body, words.declarations.as_str(), figures.declarations.as_str());
    push_tile(&mut body, words.total_value.as_str(), figures.total_value.as_str());
    push_tile(&mut body, words.net_weight.as_str(), figures.net_weight.as_str());
    push_tile(&mut body, words.value_per_kg.as_str(), figures.value_per_kg.as_str());
    push_tile(&mut body, words.companies.as_str(), figures.companies.as_str());
    match &figures.breakdown {
        Some(text) => {
            push_tile(&mut body, words.currency_breakdown.as_str(), text.as_str());
        },
        None => {},
    }
    assert(body@ =~= start + html_tiles(report.figures, *words));
    body.append("</section>");
    append_html_sections(&mut body, words.companies_section.as_str(), &report.companies);
    append_html_sections(&mut body, words.products_section.as_str(), &report.products);
    append_html_sections(&mut body, words.countries_section.as_str(), &report.countries);
    append_html_prices(&mut body, words.prices_section.as_str(), &report.prices);
    let mut out = String::from_str(
        "<!doctype html><html><head><meta charset=\"utf-8\"><title>Base Search Report</title>",
    );
    out.append(report_css());
    out.append("</head><body>");
    out.append(body.as_str());
    out.append("</body></html>");
    out
}

/// The style of the page.
pub fn report_css() -> (r: &'static str)
    ensures
        r@ == REPORT_CSS@,
{
    REPORT_CSS
}

/// A tile of the report: a label and a figure.
#[derive(Clone, Debug, PartialEq, Eq)]
pub struct ReportTile {
    pub label: String,
    pub value: String,
}

/// What some tiles say.
pub open spec fn tile_views(tiles: Seq<ReportTile>) -> Seq<(Seq<char>, Seq<char>)> {
    tiles.map_values(|t: ReportTile| (t.label@, t.value@))
}

/// The tiles of the report on the screen, in their order.
pub fn report_tiles(figures: &ReportFigures, words: &ReportWords) -> (r: Vec<ReportTile>)
    ensures
        tile_views(r@) == seq![
            (words.rows@, figures.rows@),
            (words.declarations@, figures.declarations@),
            (words.total_value@, figures.total_value@),
            (words.net_weight@, figures.net_weight@),
            (words.value_per_kg@, figures.value_per_kg@),
            (words.companies@, figures.companies@),
        ],
{
    let mut out: Vec<ReportTile> = Vec::new();
    out.push(ReportTile { label: words.rows.clone(), value: figures.rows.clone() });
    out.push(ReportTile { label: words.declarations.clone(), value: figures.declarations.clone() });
    out.push(ReportTile { label: words.total_value.clone(), value: figures.total_value.clone() });
    out.push(ReportTile { label: words.net_weight.clone(), value: figures.net_weight.clone() });
    out.push(ReportTile { label: words.value_per_kg.clone(), value: figures.value_per_kg.clone() });
    out.push(ReportTile { label: words.companies.clone(), value: figures.companies.clone() });
    assert(tile_views(out@) =~= seq![
        (words.rows@, figures.rows@),
        (words.declarations@, figures.declarations@),
        (words.total_value@, figures.total_value@),
        (words.net_weight@, figures.net_weight@),
        (words.value_per_kg@, figures.value_per_kg@),
        (words.companies@, figures.companies@),
    ]);
    out
}

/// Whether a price metric is shown: it has rows, and is among the first that do.
pub open spec fn price_shown(prices: Seq<ReportPrice>, i: int, limit: nat) -> bool {
    prices[i].count > 0 && filled_prices(prices, i) < limit
}

/// Whether a price metric is shown on the screen, for each of them: the first
/// `limit` that have rows are.
pub fn shown_prices(prices: &Vec<ReportPrice>, limit: usize) -> (r: Vec<bool>)
    ensures
        r@.len() == prices@.len(),
        forall|i: int|
            0 <= i < prices@.len() ==> #[trigger] r@[i] == price_shown(prices@, i, limit as nat),
{
    let mut out: Vec<bool> = Vec::new();
    let mut shown: usize = 0;
    let mut i: usize = 0;
    while i < prices.len()
        invariant
            i <= prices@.len(),
            out@.len() == i,
            shown == lesser(filled_prices(prices@, i as int), limit as nat),
            forall|k: int|
                0 <= k < i ==> #[trigger] out@[k] == price_shown(prices@, k, limit as nat),
        decreases prices.len() - i,
    {
        let show = prices[i].count > 0 && shown < limit;
        if show {
            shown += 1;
        }
        out.push(show);
        i += 1;
    }
    out
}

/// What the status line says.
#[derive(Clone, Debug)]
pub struct StatusLine {
    pub text: String,
    pub is_error: bool,
}

/// What is said once a report was saved at a place, or was not.
pub fn report_saved(outcome: Result<(), String>, place: &str, error: &str) -> (r: StatusLine)
    ensures
        r.is_error == outcome is Err,
        r.text@ == (match outcome {
            Ok(_) => "Report exported: "@ + place@,
            Err(e) => error@ + ": "@ + e@,
        }),
{
    match outcome {
        Ok(_) => {
            let mut text = String::from_str("Report exported: ");
            text.append(place);
            StatusLine { text, is_error: false }
        },
        Err(e) => {
            let mut text = String::from_str(error);
            text.append(": ");
            text.append(e.as_str());
            StatusLine { text, is_error: true }
        },
    }
}

/// A line of a report says the value, the net weight, the rows and the share of its
/// own row, each by its name.
pub proof fn a_line_says_each_figure_by_name(row: ReportRow)
    ensures
        holds(
            markdown_row(row),
            "- "@ + row.label@ + ": value "@,
        ),
        holds(
            markdown_row(row),
            ": value "@ + row.money@ + ", net "@,
        ),
        holds(
            markdown_row(row),
            ", net "@ + row.net@ + " kg, rows "@,
        ),
        holds(
            markdown_row(row),
            " kg, rows "@ + decimal(row.rows as nat) + ", share "@,
        ),
        holds(
            markdown_row(row),
            ", share "@ + row.share@ + "%\n"@,
        ),
{
    reveal_with_fuel(run, 11);
    let pieces = seq![
        "- "@,
        row.label@,
        ": value "@,
        row.money@,
        ", net "@,
        row.net@,
        " kg, rows "@,
        decimal(row.rows as nat),
        ", share "@,
        row.share@,
        "%\n"@,
    ];
    run_is_glued(pieces, 0, 11);
    assert(pieces.subrange(0, 11) =~= pieces);
    run_stands(pieces, 0, 3);
    run_stands(pieces, 2, 3);
    run_stands(pieces, 4, 3);
    run_stands(pieces, 6, 3);
    run_stands(pieces, 8, 3);
}

/// A row of a table has the label, the value, the net weight, the rows and the
/// share, in the order of the table's heads.
pub proof fn a_table_row_has_its_cells_in_order(row: ReportRow)
    ensures
        holds(
            html_row(row),
            "<tr><td>"@ + escaped(row.label@) + "</td><td>"@ + escaped(row.money@) + "</td><td>"@ + row.net@ + "</td><td>"@ + decimal(row.rows as nat) + "</td><td>"@ + row.share@ + "%</td></tr>"@,
        ),
{
    part_stands(Seq::<char>::empty(), "<tr><td>"@ + escaped(row.label@) + "</td><td>"@ + escaped(row.money@) + "</td><td>"@ + row.net@ + "</td><td>"@ + decimal(row.rows as nat) + "</td><td>"@ + row.share@ + "%</td></tr>"@, Seq::<char>::empty());
    assert(html_row(row) =~= (Seq::<char>::empty()) + ("<tr><td>"@ + escaped(row.label@) + "</td><td>"@ + escaped(row.money@) + "</td><td>"@ + row.net@ + "</td><td>"@ + decimal(row.rows as nat) + "</td><td>"@ + row.share@ + "%</td></tr>"@) + (Seq::<char>::empty()));
}

/// A row of the prices has the title, the mean, the weighted mean, the median, the
/// quartiles and the count, in the order of the table's heads.
pub proof fn a_price_row_has_its_cells_in_order(price: ReportPrice)
    ensures
        holds(
            html_price(price),
            "<tr><td>"@ + escaped(price.title@) + "</td><td>"@ + price.average@ + "</td><td>"@ + price.weighted@ + "</td><td>"@ + price.median@ + "</td><td>"@ + price.p25@ + " - "@ + price.p75@ + "</td><td>"@ + decimal(price.count as nat) + "</td></tr>"@,
        ),
{
    part_stands(Seq::<char>::empty(), "<tr><td>"@ + escaped(price.title@) + "</td><td>"@ + price.average@ + "</td><td>"@ + price.weighted@ + "</td><td>"@ + price.median@ + "</td><td>"@ + price.p25@ + " - "@ + price.p75@ + "</td><td>"@ + decimal(price.count as nat) + "</td></tr>"@, Seq::<char>::empty());
    assert(html_price(price) =~= (Seq::<char>::empty()) + ("<tr><td>"@ + escaped(price.title@) + "</td><td>"@ + price.average@ + "</td><td>"@ + price.weighted@ + "</td><td>"@ + price.median@ + "</td><td>"@ + price.p25@ + " - "@ + price.p75@ + "</td><td>"@ + decimal(price.count as nat) + "</td></tr>"@) + (Seq::<char>::empty()));
}

/// The summary of a report says its rows, declarations, value, net weight and value
/// per kilogram, each by its name.
pub proof fn the_summary_says_each_figure_by_name(report: Report, words: ReportWords)
    ensures
        holds(
            markdown_head(report, words),
            ("Query: "@ + report.query@ + "\n\n"@),
        ),
        holds(
            markdown_head(report, words),
            ("- Rows: "@ + report.figures.rows@ + "\n"@),
        ),
        holds(
            markdown_head(report, words),
            ("- Declarations: "@ + report.figures.declarations@ + "\n"@),
        ),
        holds(
            markdown_head(report, words),
            ("- Total value: "@ + report.figures.total_value@ + "\n"@),
        ),
        holds(
            markdown_head(report, words),
            ("- Net weight: "@ + report.figures.net_weight@ + "\n"@),
        ),
        holds(
            markdown_head(report, words),
            ("- Average value/kg: "@ + report.figures.value_per_kg@ + "\n\n"@),
        ),
{
    part_stands("# Base Search Report\n\n"@, ("Query: "@ + report.query@ + "\n\n"@), "## Summary\n"@ + ("- Rows: "@ + report.figures.rows@ + "\n"@) + ("- Declarations: "@ + report.figures.declarations@ + "\n"@) + ("- Total value: "@ + report.figures.total_value@ + "\n"@) + breakdown_line(words.currency_breakdown@, report.figures.breakdown) + ("- Net weight: "@ + report.figures.net_weight@ + "\n"@) + ("- Average value/kg: "@ + report.figures.value_per_kg@ + "\n\n"@));
    assert(markdown_head(report, words) =~= ("# Base Search Report\n\n"@) + (("Query: "@ + report.query@ + "\n\n"@)) + ("## Summary\n"@ + ("- Rows: "@ + report.figures.rows@ + "\n"@) + ("- Declarations: "@ + report.figures.declarations@ + "\n"@) + ("- Total value: "@ + report.figures.total_value@ + "\n"@) + breakdown_line(words.currency_breakdown@, report.figures.breakdown) + ("- Net weight: "@ + report.figures.net_weight@ + "\n"@) + ("- Average value/kg: "@ + report.figures.value_per_kg@ + "\n\n"@)));
    part_stands("# Base Search Report\n\n"@ + ("Query: "@ + report.query@ + "\n\n"@) + "## Summary\n"@, ("- Rows: "@ + report.figures.rows@ + "\n"@), ("- Declarations: "@ + report.figures.declarations@ + "\n"@) + ("- Total value: "@ + report.figures.total_value@ + "\n"@) + breakdown_line(words.currency_breakdown@, report.figures.breakdown) + ("- Net weight: "@ + report.figures.net_weight@ + "\n"@) + ("- Average value/kg: "@ + report.figures.value_per_kg@ + "\n\n"@));
    assert(markdown_head(report, words) =~= ("# Base Search Report\n\n"@ + ("Query: "@ + report.query@ + "\n\n"@) + "## Summary\n"@) + (("- Rows: "@ + report.figures.rows@ + "\n"@)) + (("- Declarations: "@ + report.figures.declarations@ + "\n"@) + ("- Total value: "@ + report.figures.total_value@ + "\n"@) + breakdown_line(words.currency_breakdown@, report.figures.breakdown) + ("- Net weight: "@ + report.figures.net_weight@ + "\n"@) + ("- Average value/kg: "@ + report.figures.value_per_kg@ + "\n\n"@)));
    part_stands("# Base Search Report\n\n"@ + ("Query: "@ + report.query@ + "\n\n"@) + "## Summary\n"@ + ("- Rows: "@ + report.figures.rows@ + "\n"@), ("- Declarations: "@ + report.figures.declarations@ + "\n"@), ("- Total value: "@ + report.figures.total_value@ + "\n"@) + breakdown_line(words.currency_breakdown@, report.figures.breakdown) + ("- Net weight: "@ + report.figures.net_weight@ + "\n"@) + ("- Average value/kg: "@ + report.figures.value_per_kg@ + "\n\n"@));
    assert(markdown_head(report, words) =~= ("# Base Search Report\n\n"@ + ("Query: "@ + report.query@ + "\n\n"@) + "## Summary\n"@ + ("- Rows: "@ + report.figures.rows@ + "\n"@)) + (("- Declarations: "@ + report.figures.declarations@ + "\n"@)) + (("- Total value: "@ + report.figures.total_value@ + "\n"@) + breakdown_line(words.currency_breakdown@, report.figures.breakdown) + ("- Net weight: "@ + report.figures.net_weight@ + "\n"@) + ("- Average value/kg: "@ + report.figures.value_per_kg@ + "\n\n"@)));
    part_stands("# Base Search Report\n\n"@ + ("Query: "@ + report.query@ + "\n\n"@) + "## Summary\n"@ + ("- Rows: "@ + report.figures.rows@ + "\n"@) + ("- Declarations: "@ + report.figures.declarations@ + "\n"@), ("- Total value: "@ + report.figures.total_value@ + "\n"@), breakdown_line(words.currency_breakdown@, report.figures.breakdown) + ("- Net weight: "@ + report.figures.net_weight@ + "\n"@) + ("- Average value/kg: "@ + report.figures.value_per_kg@ + "\n\n"@));
    assert(markdown_head(report, words) =~= ("# Base Search Report\n\n"@ + ("Query: "@ + report.query@ + "\n\n"@) + "## Summary\n"@ + ("- Rows: "@ + report.figures.rows@ + "\n"@) + ("- Declarations: "@ + report.figures.declarations@ + "\n"@)) + (("- Total value: "@ + report.figures.total_value@ + "\n"@)) + (breakdown_line(words.currency_breakdown@, report.figures.breakdown) + ("- Net weight: "@ + report.figures.net_weight@ + "\n"@) + ("- Average value/kg: "@ + report.figures.value_per_kg@ + "\n\n"@)));
    part_stands("# Base Search Report\n\n"@ + ("Query: "@ + report.query@ + "\n\n"@) + "## Summary\n"@ + ("- Rows: "@ + report.figures.rows@ + "\n"@) + ("- Declarations: "@ + report.figures.declarations@ + "\n"@) + ("- Total value: "@ + report.figures.total_value@ + "\n"@) + breakdown_line(words.currency_breakdown@, report.figures.breakdown), ("- Net weight: "@ + report.figures.net_weight@ + "\n"@), ("- Average value/kg: "@ + report.figures.value_per_kg@ + "\n\n"@));
    assert(markdown_head(report, words) =~= ("# Base Search Report\n\n"@ + ("Query: "@ + report.query@ + "\n\n"@) + "## Summary\n"@ + ("- Rows: "@ + report.figures.rows@ + "\n"@) + ("- Declarations: "@ + report.figures.declarations@ + "\n"@) + ("- Total value: "@ + report.figures.total_value@ + "\n"@) + breakdown_line(words.currency_breakdown@, report.figures.breakdown)) + (("- Net weight: "@ + report.figures.net_weight@ + "\n"@)) + (("- Average value/kg: "@ + report.figures.value_per_kg@ + "\n\n"@)));
    part_stands("# Base Search Report\n\n"@ + ("Query: "@ + report.query@ + "\n\n"@) + "## Summary\n"@ + ("- Rows: "@ + report.figures.rows@ + "\n"@) + ("- Declarations: "@ + report.figures.declarations@ + "\n"@) + ("- Total value: "@ + report.figures.total_value@ + "\n"@) + breakdown_line(words.currency_breakdown@, report.figures.breakdown) + ("- Net weight: "@ + report.figures.net_weight@ + "\n"@), ("- Average value/kg: "@ + report.figures.value_per_kg@ + "\n\n"@), Seq::<char>::empty());
    assert(markdown_head(report, words) =~= ("# Base Search Report\n\n"@ + ("Query: "@ + report.query@ + "\n\n"@) + "## Summary\n"@ + ("- Rows: "@ + report.figures.rows@ + "\n"@) + ("- Declarations: "@ + report.figures.declarations@ + "\n"@) + ("- Total value: "@ + report.figures.total_value@ + "\n"@) + breakdown_line(words.currency_breakdown@, report.figures.breakdown) + ("- Net weight: "@ + report.figures.net_weight@ + "\n"@)) + (("- Average value/kg: "@ + report.figures.value_per_kg@ + "\n\n"@)) + (Seq::<char>::empty()));
}

/// The first ten rows of a section are shown, and no more.
pub proof fn the_first_ten_rows_are_shown(section: ReportSection, i: int)
    requires
        0 <= i < section.rows@.len(),
        i < 10,
    ensures
        holds(markdown_section(section), markdown_row(section.rows@[i])),
        holds(html_section(section), html_row(section.rows@[i])),
        section.rows@.len() >= 10 ==> markdown_section(section) == "### "@ + kind_name(section.kind)
            + "\n"@ + markdown_rows(section.rows@, 10),
{
    let n = lesser(section.rows@.len(), 10) as int;
    rows_are_shown(section.rows@, n, i);
    let head = "### "@ + kind_name(section.kind) + "\n"@;
    part_stands_deeper(
        head,
        markdown_rows(section.rows@, n),
        Seq::empty(),
        markdown_row(section.rows@[i]),
    );
    assert(markdown_section(section) =~= head + markdown_rows(section.rows@, n)
        + Seq::<char>::empty());
    part_stands_deeper(
        "<h3>"@ + escaped(section.title@) + SECTION_TABLE@,
        html_rows(section.rows@, n),
        "</tbody></table>"@,
        html_row(section.rows@[i]),
    );
}

/// Each of the rows that are shown stands in what is shown.
proof fn rows_are_shown(rows: Seq<ReportRow>, n: int, i: int)
    requires
        0 <= i < n <= rows.len(),
    ensures
        holds(markdown_rows(rows, n), markdown_row(rows[i])),
        holds(html_rows(rows, n), html_row(rows[i])),
    decreases n,
{
    let none = Seq::<char>::empty();
    if i == n - 1 {
        part_stands(markdown_rows(rows, n - 1), markdown_row(rows[i]), none);
        assert(markdown_rows(rows, n) =~= markdown_rows(rows, n - 1) + markdown_row(rows[i]) + none);
        part_stands(html_rows(rows, n - 1), html_row(rows[i]), none);
        assert(html_rows(rows, n) =~= html_rows(rows, n - 1) + html_row(rows[i]) + none);
    } else {
        rows_are_shown(rows, n - 1, i);
        part_stands_deeper(
            none,
            markdown_rows(rows, n - 1),
            markdown_row(rows[n - 1]),
            markdown_row(rows[i]),
        );
        assert(markdown_rows(rows, n) =~= none + markdown_rows(rows, n - 1) + markdown_row(
            rows[n - 1],
        ));
        part_stands_deeper(none, html_rows(rows, n - 1), html_row(rows[n - 1]), html_row(rows[i]));
        assert(html_rows(rows, n) =~= none + html_rows(rows, n - 1) + html_row(rows[n - 1]));
    }
}

/// Each figure's tile has its own label.
pub proof fn each_tile_has_its_own_label(figures: ReportFigures, words: ReportWords)
    ensures
        holds(html_tiles(figures, words), html_tile(words.rows@, figures.rows@)),
        holds(html_tiles(figures, words), html_tile(words.declarations@, figures.declarations@)),
        holds(html_tiles(figures, words), html_tile(words.total_value@, figures.total_value@)),
        holds(html_tiles(figures, words), html_tile(words.net_weight@, figures.net_weight@)),
        holds(html_tiles(figures, words), html_tile(words.value_per_kg@, figures.value_per_kg@)),
        holds(html_tiles(figures, words), html_tile(words.companies@, figures.companies@)),
{
    reveal_with_fuel(run, 7);
    let last = match figures.breakdown {
        Some(text) => html_tile(words.currency_breakdown@, text@),
        None => Seq::empty(),
    };
    let pieces = seq![
        html_tile(words.rows@, figures.rows@),
        html_tile(words.declarations@, figures.declarations@),
        html_tile(words.total_value@, figures.total_value@),
        html_tile(words.net_weight@, figures.net_weight@),
        html_tile(words.value_per_kg@, figures.value_per_kg@),
        html_tile(words.companies@, figures.companies@),
        last,
    ];
    run_is_glued(pieces, 0, 7);
    assert(pieces.subrange(0, 7) =~= pieces);
    run_stands(pieces, 0, 1);
    run_stands(pieces, 1, 1);
    run_stands(pieces, 2, 1);
    run_stands(pieces, 3, 1);
    run_stands(pieces, 4, 1);
    run_stands(pieces, 5, 1);
}

} // verus!
