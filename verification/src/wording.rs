//! Words of the program in its languages.
use vstd::prelude::*;

verus! {

/// A language of the program.
#[derive(Clone, Copy, Debug, PartialEq, Eq, Structural)]
pub enum Lang {
    En,
    Ua,
    De,
    Es,
    Fr,
    Pl,
    Pt,
    Ro,
    Hu,
    Bg,
    Zh,
}

/// The language of the prompts that come before a database is open: the one that
/// was stored beside the default workspace, else that of the environment, else
/// English.
pub fn prompt_language(stored: Option<Lang>, environment: Option<Lang>) -> (r: Lang)
    ensures
        r == (match (stored, environment) {
            (Some(lang), _) => lang,
            (None, Some(lang)) => lang,
            (None, None) => Lang::En,
        }),
{
    match stored {
        Some(lang) => lang,
        None => match environment {
            Some(lang) => lang,
            None => Lang::En,
        },
    }
}

/// Words in Ukrainian where that was chosen, in English in every other language.
pub open spec fn in_language(lang: Lang, ua: Seq<char>, en: Seq<char>) -> Seq<char> {
    match lang {
        Lang::Ua => ua,
        _ => en,
    }
}

/// The name of the report.
pub fn analytics_report_label(lang: Lang) -> (r: &'static str)
    ensures
        r@ == in_language(
            lang,
            "Звіт"@,
            "Report"@,
        ),
{
    match lang {
        Lang::Ua => "Звіт",
        _ => "Report",
    }
}

/// The title of the report.
pub fn report_title(lang: Lang) -> (r: &'static str)
    ensures
        r@ == in_language(
            lang,
            "Звіт по поточному запиту"@,
            "Report for the current query"@,
        ),
{
    match lang {
        Lang::Ua => "Звіт по поточному запиту",
        _ => "Report for the current query",
    }
}

/// What the report is for.
pub fn report_hint(lang: Lang) -> (r: &'static str)
    ensures
        r@ == in_language(
            lang,
            "Короткий підсумок для роботи: головні цифри, компанії, товари, країни і ціни. HTML-звіт можна зберегти як PDF через друк у браузері."@,
            "A clean working summary: headline numbers, companies, goods, countries, and prices. The HTML report can be saved as PDF from the system print dialog."@,
        ),
{
    match lang {
        Lang::Ua => "Короткий підсумок для роботи: головні цифри, компанії, товари, країни і ціни. HTML-звіт можна зберегти як PDF через друк у браузері.",
        _ => "A clean working summary: headline numbers, companies, goods, countries, and prices. The HTML report can be saved as PDF from the system print dialog.",
    }
}

/// Copies the report.
pub fn report_copy_label(lang: Lang) -> (r: &'static str)
    ensures
        r@ == in_language(
            lang,
            "Копіювати звіт"@,
            "Copy report"@,
        ),
{
    match lang {
        Lang::Ua => "Копіювати звіт",
        _ => "Copy report",
    }
}

/// Exports the report.
pub fn report_export_label(lang: Lang) -> (r: &'static str)
    ensures
        r@ == in_language(
            lang,
            "Експорт HTML/PDF"@,
            "Export HTML/PDF"@,
        ),
{
    match lang {
        Lang::Ua => "Експорт HTML/PDF",
        _ => "Export HTML/PDF",
    }
}

/// The name of the comparison.
pub fn analytics_compare_label(lang: Lang) -> (r: &'static str)
    ensures
        r@ == in_language(
            lang,
            "Порівняння"@,
            "Compare"@,
        ),
{
    match lang {
        Lang::Ua => "Порівняння",
        _ => "Compare",
    }
}

/// What the comparison is for.
pub fn compare_hint(lang: Lang) -> (r: &'static str)
    ensures
        r@ == in_language(
            lang,
            "Порівняйте поточний запит з іншим товаром, компанією або роком. Фільтри зліва зберігаються, якщо не змінити текст чи рік."@,
            "Compare the current query with another product, company, or year. Current filters are reused unless you override text or year."@,
        ),
{
    match lang {
        Lang::Ua => "Порівняйте поточний запит з іншим товаром, компанією або роком. Фільтри зліва зберігаються, якщо не змінити текст чи рік.",
        _ => "Compare the current query with another product, company, or year. Current filters are reused unless you override text or year.",
    }
}

/// Asks for what to compare with.
pub fn compare_text_label(lang: Lang) -> (r: &'static str)
    ensures
        r@ == in_language(
            lang,
            "Порівняти з:"@,
            "Compare with:"@,
        ),
{
    match lang {
        Lang::Ua => "Порівняти з:",
        _ => "Compare with:",
    }
}

/// Compares with the previous year.
pub fn compare_previous_year_label(lang: Lang) -> (r: &'static str)
    ensures
        r@ == in_language(
            lang,
            "Попередній рік"@,
            "Previous year"@,
        ),
{
    match lang {
        Lang::Ua => "Попередній рік",
        _ => "Previous year",
    }
}

/// Runs the comparison.
pub fn compare_run_label(lang: Lang) -> (r: &'static str)
    ensures
        r@ == in_language(
            lang,
            "Порівняти"@,
            "Compare"@,
        ),
{
    match lang {
        Lang::Ua => "Порівняти",
        _ => "Compare",
    }
}

/// What is shown before a comparison.
pub fn compare_empty(lang: Lang) -> (r: &'static str)
    ensures
        r@ == in_language(
            lang,
            "Вкажіть текст або рік для порівняння і натисніть «Порівняти»."@,
            "Enter a text or year to compare with, then click Compare."@,
        ),
{
    match lang {
        Lang::Ua => "Вкажіть текст або рік для порівняння і натисніть «Порівняти».",
        _ => "Enter a text or year to compare with, then click Compare.",
    }
}

/// The title of the differences.
pub fn compare_delta_title(lang: Lang) -> (r: &'static str)
    ensures
        r@ == in_language(
            lang,
            "Різниця"@,
            "Difference"@,
        ),
{
    match lang {
        Lang::Ua => "Різниця",
        _ => "Difference",
    }
}

/// Ukrainian words are shown in Ukrainian alone, and English ones in every other
/// language.
pub proof fn only_ukrainian_is_translated(lang: Lang, ua: Seq<char>, en: Seq<char>)
    ensures
        lang == Lang::Ua ==> in_language(lang, ua, en) == ua,
        lang != Lang::Ua ==> in_language(lang, ua, en) == en,
{
}

} // verus!
