//! The headers that business tables use for each meaning.
use vstd::prelude::*;
use vstd::string::*;

use crate::counting::{count_upto, counted_twice, first_is, first_upto, none_found};
use crate::import::cells::{strip_marks, without_marks};
use crate::schema::Schema;
use crate::table::SemanticField;
use crate::text::{
    alphabetic, alphanumeric, begins, chars_of, holds_some, is_alphanumeric, is_digit,
    lower_chars, lower_each, same, starts_with, string_of, trim, trimmed, word_stands,
};

verus! {

/// A recognised header: its meaning, and whether sample values must confirm it.
#[derive(Clone, Copy, Debug, PartialEq, Eq, Structural)]
pub struct AliasMatch {
    pub semantic: SemanticField,
    pub needs_sample_confirmation: bool,
}

pub const DATE_ALIASES: [&'static str; 13] = [
    "date", "order date", "document date", "declaration date", "clearance date", "invoice date",
    "дата", "дата документа", "дата декларації", "дата оформлення", "дата декларации",
    "дата оформления", "дата мд",
];

pub const DECLARATION_NUMBER_ALIASES: [&'static str; 14] = [
    "declaration", "declaration no", "declaration number", "declaration id", "document no",
    "document number", "invoice no", "invoice number", "номер декларації", "номер декларации",
    "номер мд", "номер вмд", "номер гтд", "номер документа",
];

pub const COMPANY_CODE_ALIASES: [&'static str; 17] = [
    "company code", "company id", "recipient code", "recipient id", "buyer code", "buyer id",
    "importer code", "importer id", "edrpou", "єдрпоу", "едрпоу", "код єдрпоу", "код едрпоу",
    "код компанії", "код компании", "код фірми отримувача", "код фирмы получателя",
];

pub const SENDER_ALIASES: [&'static str; 17] = [
    "sender", "sender name", "supplier", "supplier name", "exporter", "exporter name", "shipper",
    "shipper name", "seller", "seller name", "відправник", "відпправник", "назва відправника",
    "назва фірми відправника", "отправитель", "наименование отправителя",
    "название фирмы отправителя",
];

pub const RECIPIENT_ALIASES: [&'static str; 22] = [
    "recipient", "recipient name", "receiver", "receiver name", "buyer", "buyer name", "customer",
    "customer name", "importer", "importer name", "consignee", "consignee name", "одержувач",
    "отримувач", "покупець", "назва покупця", "назва отримувача", "назва фірми отримувача",
    "получатель", "покупатель", "наименование получателя", "название фирмы получателя",
];

pub const PRODUCT_CODE_ALIASES: [&'static str; 22] = [
    "sku", "article", "article no", "product code", "item code", "goods code", "commodity code",
    "hs", "hs code", "hscode", "uktzed", "ukt zed", "uktzed code", "tnved", "tnved code",
    "артикул", "артикул товару", "код товару", "код уктзед", "код товар", "код товара",
    "код тнвэд",
];

pub const DESCRIPTION_ALIASES: [&'static str; 17] = [
    "description", "product description", "product name", "item description", "item name",
    "goods description", "goods name", "commodity description", "опис", "опис товару",
    "опис позиції", "найменування товару", "назва товару", "описание", "описание товара",
    "наименование товара", "название товара",
];

pub const TRADEMARK_ALIASES: [&'static str; 9] = [
    "brand", "brand name", "trademark", "trade mark", "manufacturer brand", "бренд",
    "торгова марка", "торг марка", "торговая марка",
];

pub const COUNTRY_ALIASES: [&'static str; 3] = ["country", "країна", "страна"];

pub const ORIGIN_COUNTRY_ALIASES: [&'static str; 7] = [
    "origin", "origin country", "country of origin", "country origin", "країна походження",
    "кр походж", "страна происхождения",
];

pub const DISPATCH_COUNTRY_ALIASES: [&'static str; 9] = [
    "dispatch country", "country of dispatch", "ship from", "shipping country",
    "departure country", "source country", "країна відправлення", "кр відпр",
    "страна отправления",
];

pub const TRADE_COUNTRY_ALIASES: [&'static str; 9] = [
    "trade country", "trading country", "country of trade", "seller country", "торгуюча країна",
    "країна торгівлі", "кр торг", "торгующая страна", "страна торговли",
];

pub const QUANTITY_ALIASES: [&'static str; 7] = [
    "quantity", "qty", "count", "unit count", "кількість", "к ть", "количество",
];

pub const NET_WEIGHT_ALIASES: [&'static str; 10] = [
    "net kg", "net weight", "net weight kg", "weight net", "weight net kg", "вага нетто",
    "вага нетто кг", "нетто кг", "вес нетто", "вес нетто кг",
];

pub const GROSS_WEIGHT_ALIASES: [&'static str; 10] = [
    "gross kg", "gross weight", "gross weight kg", "weight gross", "weight gross kg",
    "вага брутто", "вага брутто кг", "брутто кг", "вес брутто", "вес брутто кг",
];

pub const VALUE_ALIASES: [&'static str; 18] = [
    "value", "value usd", "amount", "amount usd", "total value", "total amount", "invoice value",
    "customs value", "сума", "сума рахунку", "загальна сума", "вартість", "фактурна вартість",
    "сумма", "сумма счета", "общая сумма", "стоимость", "фактурная стоимость",
];

pub const CURRENCY_ALIASES: [&'static str; 11] = [
    "currency", "currency code", "value currency", "amount currency", "ccy", "iso currency",
    "валюта", "код валюти", "валюта суми", "код валюты", "валюта суммы",
];

pub const WEIGHT_UNIT_ALIASES: [&'static str; 9] = [
    "weight unit", "net weight unit", "mass unit", "weight uom", "mass uom", "одиниця ваги",
    "одиниця маси", "единица веса", "единица массы",
];

/// The headers that name the column of the declaration type.
pub const DECLARATION_TYPE_ALIASES: [&'static str; 3] = [
    "declaration type", "тип декларації", "тип декларации",
];

/// The comparison key of a header: its letters and digits, lowered.
pub open spec fn header_key(value: Seq<char>) -> Seq<char> {
    lower_chars(without_marks(value).filter(|c: char| alphanumeric(c)))
}

/// The letters and digits of some characters.
pub fn keep_alphanumeric(v: &Vec<char>) -> (r: Vec<char>)
    ensures
        r@ == v@.filter(|c: char| alphanumeric(c)),
        forall|i: int|
            0 <= i < v@.len() && (alphabetic(#[trigger] v@[i]) || is_digit(v@[i])) ==> alphanumeric(
                v@[i],
            ),
{
    let ghost keep = |c: char| alphanumeric(c);
    let mut out: Vec<char> = Vec::new();
    let mut i: usize = 0;
    assert(v@.take(0).filter(keep) =~= Seq::<char>::empty()) by {
        reveal(Seq::filter);
    }
    while i < v.len()
        invariant
            i <= v.len(),
            keep == (|c: char| alphanumeric(c)),
            out@ == v@.take(i as int).filter(keep),
            forall|k: int|
                0 <= k < i && (alphabetic(#[trigger] v@[k]) || is_digit(v@[k])) ==> alphanumeric(
                    v@[k],
                ),
        decreases v.len() - i,
    {
        assert(v@.take(i + 1).drop_last() =~= v@.take(i as int));
        assert(v@.take(i + 1).last() == v@[i as int]);
        reveal(Seq::filter);
        if is_alphanumeric(v[i]) {
            out.push(v[i]);
        }
        i += 1;
    }
    assert(v@.take(v@.len() as int) =~= v@);
    out
}

/// The comparison key of a header.
pub fn normalize_header(value: &str) -> (r: String)
    ensures
        r@ == header_key(value@),
{
    string_of(&lower_each(&keep_alphanumeric(&chars_of(strip_marks(value).as_str()))))
}

/// Some header of a list has the key `key`.
pub open spec fn alias_key(key: Seq<char>, list: Seq<&str>) -> bool {
    exists|i: int| 0 <= i < list.len() && header_key((#[trigger] list[i])@) == key
}

/// Tests whether some header of a list has the key `key`.
fn is_alias_key(key: &str, list: &[&str]) -> (r: bool)
    ensures
        r == alias_key(key@, list@),
{
    let mut i: usize = 0;
    while i < list.len()
        invariant
            i <= list.len(),
            forall|j: int| 0 <= j < i ==> header_key((#[trigger] list@[j])@) != key@,
        decreases list.len() - i,
    {
        if same(normalize_header(list[i]).as_str(), key) {
            assert(header_key(list@[i as int]@) == key@);
            return true;
        }
        i += 1;
    }
    false
}

/// The meaning of a whole header, by its key.
pub open spec fn alias_of_key(key: Seq<char>) -> Option<AliasMatch> {
    if alias_key(key, DATE_ALIASES@) {
        Some(AliasMatch { semantic: SemanticField::Date, needs_sample_confirmation: false })
    } else if alias_key(key, DECLARATION_NUMBER_ALIASES@) {
        Some(AliasMatch { semantic: SemanticField::DeclarationNumber, needs_sample_confirmation: false })
    } else if alias_key(key, COMPANY_CODE_ALIASES@) {
        Some(AliasMatch { semantic: SemanticField::CompanyCode, needs_sample_confirmation: false })
    } else if alias_key(key, SENDER_ALIASES@) {
        Some(AliasMatch { semantic: SemanticField::Sender, needs_sample_confirmation: false })
    } else if alias_key(key, RECIPIENT_ALIASES@) {
        Some(AliasMatch { semantic: SemanticField::Recipient, needs_sample_confirmation: false })
    } else if alias_key(key, PRODUCT_CODE_ALIASES@) {
        Some(AliasMatch { semantic: SemanticField::ProductCode, needs_sample_confirmation: false })
    } else if alias_key(key, DESCRIPTION_ALIASES@) {
        Some(AliasMatch { semantic: SemanticField::Description, needs_sample_confirmation: false })
    } else if alias_key(key, TRADEMARK_ALIASES@) {
        Some(AliasMatch { semantic: SemanticField::Trademark, needs_sample_confirmation: false })
    } else if alias_key(key, COUNTRY_ALIASES@) {
        Some(AliasMatch { semantic: SemanticField::Country, needs_sample_confirmation: true })
    } else if alias_key(key, ORIGIN_COUNTRY_ALIASES@) {
        Some(AliasMatch { semantic: SemanticField::OriginCountry, needs_sample_confirmation: false })
    } else if alias_key(key, DISPATCH_COUNTRY_ALIASES@) {
        Some(AliasMatch { semantic: SemanticField::DispatchCountry, needs_sample_confirmation: false })
    } else if alias_key(key, TRADE_COUNTRY_ALIASES@) {
        Some(AliasMatch { semantic: SemanticField::TradeCountry, needs_sample_confirmation: false })
    } else if alias_key(key, QUANTITY_ALIASES@) {
        Some(AliasMatch { semantic: SemanticField::Quantity, needs_sample_confirmation: true })
    } else if alias_key(key, NET_WEIGHT_ALIASES@) {
        Some(AliasMatch { semantic: SemanticField::NetWeight, needs_sample_confirmation: false })
    } else if alias_key(key, GROSS_WEIGHT_ALIASES@) {
        Some(AliasMatch { semantic: SemanticField::GrossWeight, needs_sample_confirmation: false })
    } else if alias_key(key, VALUE_ALIASES@) {
        Some(AliasMatch { semantic: SemanticField::Value, needs_sample_confirmation: true })
    } else if alias_key(key, CURRENCY_ALIASES@) {
        Some(AliasMatch { semantic: SemanticField::Currency, needs_sample_confirmation: false })
    } else if alias_key(key, WEIGHT_UNIT_ALIASES@) {
        Some(AliasMatch { semantic: SemanticField::WeightUnit, needs_sample_confirmation: false })
    } else {
        None
    }
}

/// The meaning of a whole header, by its key.
fn find_alias(key: &str) -> (r: Option<AliasMatch>)
    ensures
        r == alias_of_key(key@),
{
    if is_alias_key(key, &DATE_ALIASES) {
        Some(AliasMatch { semantic: SemanticField::Date, needs_sample_confirmation: false })
    } else if is_alias_key(key, &DECLARATION_NUMBER_ALIASES) {
        Some(AliasMatch { semantic: SemanticField::DeclarationNumber, needs_sample_confirmation: false })
    } else if is_alias_key(key, &COMPANY_CODE_ALIASES) {
        Some(AliasMatch { semantic: SemanticField::CompanyCode, needs_sample_confirmation: false })
    } else if is_alias_key(key, &SENDER_ALIASES) {
        Some(AliasMatch { semantic: SemanticField::Sender, needs_sample_confirmation: false })
    } else if is_alias_key(key, &RECIPIENT_ALIASES) {
        Some(AliasMatch { semantic: SemanticField::Recipient, needs_sample_confirmation: false })
    } else if is_alias_key(key, &PRODUCT_CODE_ALIASES) {
        Some(AliasMatch { semantic: SemanticField::ProductCode, needs_sample_confirmation: false })
    } else if is_alias_key(key, &DESCRIPTION_ALIASES) {
        Some(AliasMatch { semantic: SemanticField::Description, needs_sample_confirmation: false })
    } else if is_alias_key(key, &TRADEMARK_ALIASES) {
        Some(AliasMatch { semantic: SemanticField::Trademark, needs_sample_confirmation: false })
    } else if is_alias_key(key, &COUNTRY_ALIASES) {
        Some(AliasMatch { semantic: SemanticField::Country, needs_sample_confirmation: true })
    } else if is_alias_key(key, &ORIGIN_COUNTRY_ALIASES) {
        Some(AliasMatch { semantic: SemanticField::OriginCountry, needs_sample_confirmation: false })
    } else if is_alias_key(key, &DISPATCH_COUNTRY_ALIASES) {
        Some(AliasMatch { semantic: SemanticField::DispatchCountry, needs_sample_confirmation: false })
    } else if is_alias_key(key, &TRADE_COUNTRY_ALIASES) {
        Some(AliasMatch { semantic: SemanticField::TradeCountry, needs_sample_confirmation: false })
    } else if is_alias_key(key, &QUANTITY_ALIASES) {
        Some(AliasMatch { semantic: SemanticField::Quantity, needs_sample_confirmation: true })
    } else if is_alias_key(key, &NET_WEIGHT_ALIASES) {
        Some(AliasMatch { semantic: SemanticField::NetWeight, needs_sample_confirmation: false })
    } else if is_alias_key(key, &GROSS_WEIGHT_ALIASES) {
        Some(AliasMatch { semantic: SemanticField::GrossWeight, needs_sample_confirmation: false })
    } else if is_alias_key(key, &VALUE_ALIASES) {
        Some(AliasMatch { semantic: SemanticField::Value, needs_sample_confirmation: true })
    } else if is_alias_key(key, &CURRENCY_ALIASES) {
        Some(AliasMatch { semantic: SemanticField::Currency, needs_sample_confirmation: false })
    } else if is_alias_key(key, &WEIGHT_UNIT_ALIASES) {
        Some(AliasMatch { semantic: SemanticField::WeightUnit, needs_sample_confirmation: false })
    } else {
        None
    }
}

/// The meaning of a header that begins with a stable phrase. The phrases are
/// long, so that generic words such as "number" or "code" mean nothing.
pub open spec fn phrase_of_key(key: Seq<char>) -> Option<SemanticField> {
    if begins(key, "номердекларац"@) || begins(key, "declarationnumber"@) || begins(
        key,
        "declarationno"@,
    ) {
        Some(SemanticField::DeclarationNumber)
    } else if begins(key, "датадокумент"@) || begins(key, "датаоформлен"@) || begins(
        key,
        "documentdate"@,
    ) {
        Some(SemanticField::Date)
    } else if begins(key, "кодтовар"@) || begins(key, "productcode"@) || begins(
        key,
        "commoditycode"@,
    ) {
        Some(SemanticField::ProductCode)
    } else if begins(key, "опистовар"@) || begins(key, "описаниетовар"@) || begins(
        key,
        "productdescription"@,
    ) || begins(key, "goodsdescription"@) {
        Some(SemanticField::Description)
    } else if begins(key, "фактурнаварт"@) || begins(key, "фактурнаястоим"@) || begins(
        key,
        "invoicevalue"@,
    ) {
        Some(SemanticField::Value)
    } else {
        None
    }
}

/// The meaning of a header that begins with a stable phrase.
fn find_phrase(key: &str) -> (r: Option<SemanticField>)
    ensures
        r == phrase_of_key(key@),
{
    if starts_with(key, "номердекларац") || starts_with(key, "declarationnumber") || starts_with(
        key,
        "declarationno",
    ) {
        Some(SemanticField::DeclarationNumber)
    } else if starts_with(key, "датадокумент") || starts_with(key, "датаоформлен") || starts_with(
        key,
        "documentdate",
    ) {
        Some(SemanticField::Date)
    } else if starts_with(key, "кодтовар") || starts_with(key, "productcode") || starts_with(
        key,
        "commoditycode",
    ) {
        Some(SemanticField::ProductCode)
    } else if starts_with(key, "опистовар") || starts_with(key, "описаниетовар") || starts_with(
        key,
        "productdescription",
    ) || starts_with(key, "goodsdescription") {
        Some(SemanticField::Description)
    } else if starts_with(key, "фактурнаварт") || starts_with(key, "фактурнаястоим")
        || starts_with(key, "invoicevalue") {
        Some(SemanticField::Value)
    } else {
        None
    }
}

/// The meaning of a header: that of the whole header, or else that of the
/// phrase it begins with.
pub open spec fn header_match(header: Seq<char>) -> Option<AliasMatch> {
    let key = header_key(header);
    match alias_of_key(key) {
        Some(found) => Some(found),
        None => match phrase_of_key(key) {
            Some(semantic) => Some(AliasMatch { semantic, needs_sample_confirmation: false }),
            None => None,
        },
    }
}

/// The meaning of a header.
pub fn match_header(header: &str) -> (r: Option<AliasMatch>)
    ensures
        r == header_match(header@),
{
    let key = normalize_header(header);
    match find_alias(key.as_str()) {
        Some(found) => Some(found),
        None => match find_phrase(key.as_str()) {
            Some(semantic) => Some(AliasMatch { semantic, needs_sample_confirmation: false }),
            None => None,
        },
    }
}

/// The headers that go by a meaning.
pub open spec fn headers_of(meaning: SemanticField) -> Seq<&'static str> {
    match meaning {
        SemanticField::Date => DATE_ALIASES@,
        SemanticField::DeclarationNumber => DECLARATION_NUMBER_ALIASES@,
        SemanticField::CompanyCode => COMPANY_CODE_ALIASES@,
        SemanticField::Sender => SENDER_ALIASES@,
        SemanticField::Recipient => RECIPIENT_ALIASES@,
        SemanticField::ProductCode => PRODUCT_CODE_ALIASES@,
        SemanticField::Description => DESCRIPTION_ALIASES@,
        SemanticField::Trademark => TRADEMARK_ALIASES@,
        SemanticField::Country => COUNTRY_ALIASES@,
        SemanticField::OriginCountry => ORIGIN_COUNTRY_ALIASES@,
        SemanticField::DispatchCountry => DISPATCH_COUNTRY_ALIASES@,
        SemanticField::TradeCountry => TRADE_COUNTRY_ALIASES@,
        SemanticField::Quantity => QUANTITY_ALIASES@,
        SemanticField::NetWeight => NET_WEIGHT_ALIASES@,
        SemanticField::GrossWeight => GROSS_WEIGHT_ALIASES@,
        SemanticField::Value => VALUE_ALIASES@,
        SemanticField::Currency => CURRENCY_ALIASES@,
        SemanticField::WeightUnit => WEIGHT_UNIT_ALIASES@,
    }
}

/// A header that is recognised as a whole is listed under its meaning, and every
/// listed header is recognised. Only a bare country, a quantity and a value must
/// be confirmed by sample values.
pub proof fn a_recognised_header_is_listed_under_its_meaning(key: Seq<char>)
    ensures
        match alias_of_key(key) {
            Some(found) => alias_key(key, headers_of(found.semantic))
                && found.needs_sample_confirmation == (found.semantic == SemanticField::Country
                || found.semantic == SemanticField::Quantity || found.semantic
                == SemanticField::Value),
            None => forall|meaning: SemanticField| !alias_key(key, #[trigger] headers_of(meaning)),
        },
{
}

/// A header that is listed under one meaning alone has that meaning.
pub proof fn a_header_of_one_meaning_has_it(key: Seq<char>, meaning: SemanticField)
    requires
        alias_key(key, headers_of(meaning)),
        forall|other: SemanticField|
            alias_key(key, #[trigger] headers_of(other)) ==> other == meaning,
    ensures
        alias_of_key(key) is Some,
        alias_of_key(key)->0.semantic == meaning,
{
    a_recognised_header_is_listed_under_its_meaning(key);
}

/// Each listed header is recognised however it is written, as long as its key is
/// the same: its meaning is the one that lists it, unless another meaning lists a
/// header with the same key.
pub proof fn listed_headers_have_their_meaning(header: Seq<char>, meaning: SemanticField, i: int)
    requires
        0 <= i < headers_of(meaning).len(),
        header_key(header) == header_key(headers_of(meaning)[i]@),
    ensures
        header_match(header) is Some,
        header_match(header)->0.semantic == meaning || exists|other: SemanticField|
            other != meaning && alias_key(header_key(header), #[trigger] headers_of(other)),
{
    let key = header_key(header);
    assert(alias_key(key, headers_of(meaning)));
    a_recognised_header_is_listed_under_its_meaning(key);
    if !(exists|other: SemanticField|
        other != meaning && alias_key(key, #[trigger] headers_of(other))) {
        a_header_of_one_meaning_has_it(key, meaning);
    }
}

/// A header that is not listed has the meaning of the phrase it begins with, and
/// no other header is recognised.
pub proof fn a_phrase_has_its_meaning(header: Seq<char>)
    requires
        forall|meaning: SemanticField|
            !alias_key(header_key(header), #[trigger] headers_of(meaning)),
    ensures
        begins(header_key(header), "номердекларац"@) || begins(
            header_key(header),
            "declarationno"@,
        ) ==> header_match(header) == Some(
            (AliasMatch {
                semantic: SemanticField::DeclarationNumber,
                needs_sample_confirmation: false,
            }),
        ),
        match header_match(header) {
            Some(found) => !found.needs_sample_confirmation && {
                let key = header_key(header);
                match found.semantic {
                    SemanticField::DeclarationNumber => begins(key, "номердекларац"@) || begins(
                        key,
                        "declarationnumber"@,
                    ) || begins(key, "declarationno"@),
                    SemanticField::Date => begins(key, "датадокумент"@) || begins(
                        key,
                        "датаоформлен"@,
                    ) || begins(key, "documentdate"@),
                    SemanticField::ProductCode => begins(key, "кодтовар"@) || begins(
                        key,
                        "productcode"@,
                    ) || begins(key, "commoditycode"@),
                    SemanticField::Description => begins(key, "опистовар"@) || begins(
                        key,
                        "описаниетовар"@,
                    ) || begins(key, "productdescription"@) || begins(key, "goodsdescription"@),
                    SemanticField::Value => begins(key, "фактурнаварт"@) || begins(
                        key,
                        "фактурнаястоим"@,
                    ) || begins(key, "invoicevalue"@),
                    _ => false,
                }
            },
            None => {
                let key = header_key(header);
                !begins(key, "датадокумент"@) && !begins(key, "датаоформлен"@) && !begins(
                    key,
                    "documentdate"@,
                ) && !begins(key, "кодтовар"@) && !begins(key, "productcode"@) && !begins(
                    key,
                    "commoditycode"@,
                ) && !begins(key, "опистовар"@) && !begins(key, "описаниетовар"@) && !begins(
                    key,
                    "productdescription"@,
                ) && !begins(key, "goodsdescription"@) && !begins(key, "фактурнаварт"@) && !begins(
                    key,
                    "фактурнаястоим"@,
                ) && !begins(key, "invoicevalue"@)
            },
        },
{
    a_recognised_header_is_listed_under_its_meaning(header_key(header));
}

/// The headers of one meaning hold its words.
#[verifier::spinoff_prover]
#[verifier::rlimit(80)]
proof fn net_weight_headers_say_it()
    ensures
        forall|i: int|
            0 <= i < 10 ==> holds_some(
                (#[trigger] headers_of(SemanticField::NetWeight)[i])@,
                seq!["net"@, "нетто"@],
            ),
{
    assert forall|i: int| 0 <= i < 10 implies holds_some(
        (#[trigger] headers_of(SemanticField::NetWeight)[i])@,
        seq!["net"@, "нетто"@],
    ) by {
        let words = seq!["net"@, "нетто"@];
        assert(holds_some("net kg"@, words)) by {
            reveal_strlit("net kg");
            reveal_strlit("net");
            word_stands("net kg"@, words, 0, 0);
        }
        assert(holds_some("net weight"@, words)) by {
            reveal_strlit("net weight");
            reveal_strlit("net");
            word_stands("net weight"@, words, 0, 0);
        }
        assert(holds_some("net weight kg"@, words)) by {
            reveal_strlit("net weight kg");
            reveal_strlit("net");
            word_stands("net weight kg"@, words, 0, 0);
        }
        assert(holds_some("weight net"@, words)) by {
            reveal_strlit("weight net");
            reveal_strlit("net");
            word_stands("weight net"@, words, 0, 7);
        }
        assert(holds_some("weight net kg"@, words)) by {
            reveal_strlit("weight net kg");
            reveal_strlit("net");
            word_stands("weight net kg"@, words, 0, 7);
        }
        assert(holds_some("вага нетто"@, words)) by {
            reveal_strlit("вага нетто");
            reveal_strlit("нетто");
            word_stands("вага нетто"@, words, 1, 5);
        }
        assert(holds_some("вага нетто кг"@, words)) by {
            reveal_strlit("вага нетто кг");
            reveal_strlit("нетто");
            word_stands("вага нетто кг"@, words, 1, 5);
        }
        assert(holds_some("нетто кг"@, words)) by {
            reveal_strlit("нетто кг");
            reveal_strlit("нетто");
            word_stands("нетто кг"@, words, 1, 0);
        }
        assert(holds_some("вес нетто"@, words)) by {
            reveal_strlit("вес нетто");
            reveal_strlit("нетто");
            word_stands("вес нетто"@, words, 1, 4);
        }
        assert(holds_some("вес нетто кг"@, words)) by {
            reveal_strlit("вес нетто кг");
            reveal_strlit("нетто");
            word_stands("вес нетто кг"@, words, 1, 4);
        }
    }
}

/// The headers of one meaning hold its words.
#[verifier::spinoff_prover]
#[verifier::rlimit(80)]
proof fn gross_weight_headers_say_it()
    ensures
        forall|i: int|
            0 <= i < 10 ==> holds_some(
                (#[trigger] headers_of(SemanticField::GrossWeight)[i])@,
                seq!["gross"@, "брутто"@],
            ),
{
    assert forall|i: int| 0 <= i < 10 implies holds_some(
        (#[trigger] headers_of(SemanticField::GrossWeight)[i])@,
        seq!["gross"@, "брутто"@],
    ) by {
        let words = seq!["gross"@, "брутто"@];
        assert(holds_some("gross kg"@, words)) by {
            reveal_strlit("gross kg");
            reveal_strlit("gross");
            word_stands("gross kg"@, words, 0, 0);
        }
        assert(holds_some("gross weight"@, words)) by {
            reveal_strlit("gross weight");
            reveal_strlit("gross");
            word_stands("gross weight"@, words, 0, 0);
        }
        assert(holds_some("gross weight kg"@, words)) by {
            reveal_strlit("gross weight kg");
            reveal_strlit("gross");
            word_stands("gross weight kg"@, words, 0, 0);
        }
        assert(holds_some("weight gross"@, words)) by {
            reveal_strlit("weight gross");
            reveal_strlit("gross");
            word_stands("weight gross"@, words, 0, 7);
        }
        assert(holds_some("weight gross kg"@, words)) by {
            reveal_strlit("weight gross kg");
            reveal_strlit("gross");
            word_stands("weight gross kg"@, words, 0, 7);
        }
        assert(holds_some("вага брутто"@, words)) by {
            reveal_strlit("вага брутто");
            reveal_strlit("брутто");
            word_stands("вага брутто"@, words, 1, 5);
        }
        assert(holds_some("вага брутто кг"@, words)) by {
            reveal_strlit("вага брутто кг");
            reveal_strlit("брутто");
            word_stands("вага брутто кг"@, words, 1, 5);
        }
        assert(holds_some("брутто кг"@, words)) by {
            reveal_strlit("брутто кг");
            reveal_strlit("брутто");
            word_stands("брутто кг"@, words, 1, 0);
        }
        assert(holds_some("вес брутто"@, words)) by {
            reveal_strlit("вес брутто");
            reveal_strlit("брутто");
            word_stands("вес брутто"@, words, 1, 4);
        }
        assert(holds_some("вес брутто кг"@, words)) by {
            reveal_strlit("вес брутто кг");
            reveal_strlit("брутто");
            word_stands("вес брутто кг"@, words, 1, 4);
        }
    }
}

/// The headers of one meaning hold its words.
#[verifier::spinoff_prover]
#[verifier::rlimit(80)]
proof fn sender_headers_say_it()
    ensures
        forall|i: int|
            0 <= i < 17 ==> holds_some(
                (#[trigger] headers_of(SemanticField::Sender)[i])@,
                seq!["sender"@, "supplier"@, "exporter"@, "shipper"@, "seller"@, "відп"@, "отправител"@],
            ),
{
    assert forall|i: int| 0 <= i < 17 implies holds_some(
        (#[trigger] headers_of(SemanticField::Sender)[i])@,
        seq!["sender"@, "supplier"@, "exporter"@, "shipper"@, "seller"@, "відп"@, "отправител"@],
    ) by {
        let words = seq!["sender"@, "supplier"@, "exporter"@, "shipper"@, "seller"@, "відп"@, "отправител"@];
        assert(holds_some("sender"@, words)) by {
            reveal_strlit("sender");
            word_stands("sender"@, words, 0, 0);
        }
        assert(holds_some("sender name"@, words)) by {
            reveal_strlit("sender name");
            reveal_strlit("sender");
            word_stands("sender name"@, words, 0, 0);
        }
        assert(holds_some("supplier"@, words)) by {
            reveal_strlit("supplier");
            word_stands("supplier"@, words, 1, 0);
        }
        assert(holds_some("supplier name"@, words)) by {
            reveal_strlit("supplier name");
            reveal_strlit("supplier");
            word_stands("supplier name"@, words, 1, 0);
        }
        assert(holds_some("exporter"@, words)) by {
            reveal_strlit("exporter");
            word_stands("exporter"@, words, 2, 0);
        }
        assert(holds_some("exporter name"@, words)) by {
            reveal_strlit("exporter name");
            reveal_strlit("exporter");
            word_stands("exporter name"@, words, 2, 0);
        }
        assert(holds_some("shipper"@, words)) by {
            reveal_strlit("shipper");
            word_stands("shipper"@, words, 3, 0);
        }
        assert(holds_some("shipper name"@, words)) by {
            reveal_strlit("shipper name");
            reveal_strlit("shipper");
            word_stands("shipper name"@, words, 3, 0);
        }
        assert(holds_some("seller"@, words)) by {
            reveal_strlit("seller");
            word_stands("seller"@, words, 4, 0);
        }
        assert(holds_some("seller name"@, words)) by {
            reveal_strlit("seller name");
            reveal_strlit("seller");
            word_stands("seller name"@, words, 4, 0);
        }
        assert(holds_some("відправник"@, words)) by {
            reveal_strlit("відправник");
            reveal_strlit("відп");
            word_stands("відправник"@, words, 5, 0);
        }
        assert(holds_some("відпправник"@, words)) by {
            reveal_strlit("відпправник");
            reveal_strlit("відп");
            word_stands("відпправник"@, words, 5, 0);
        }
        assert(holds_some("назва відправника"@, words)) by {
            reveal_strlit("назва відправника");
            reveal_strlit("відп");
            word_stands("назва відправника"@, words, 5, 6);
        }
        assert(holds_some("назва фірми відправника"@, words)) by {
            reveal_strlit("назва фірми відправника");
            reveal_strlit("відп");
            word_stands("назва фірми відправника"@, words, 5, 12);
        }
        assert(holds_some("отправитель"@, words)) by {
            reveal_strlit("отправитель");
            reveal_strlit("отправител");
            word_stands("отправитель"@, words, 6, 0);
        }
        assert(holds_some("наименование отправителя"@, words)) by {
            reveal_strlit("наименование отправителя");
            reveal_strlit("отправител");
            word_stands("наименование отправителя"@, words, 6, 13);
        }
        assert(holds_some("название фирмы отправителя"@, words)) by {
            reveal_strlit("название фирмы отправителя");
            reveal_strlit("отправител");
            word_stands("название фирмы отправителя"@, words, 6, 15);
        }
    }
}

/// The headers of one meaning hold its words.
#[verifier::spinoff_prover]
#[verifier::rlimit(80)]
proof fn recipient_headers_say_it()
    ensures
        forall|i: int|
            0 <= i < 22 ==> holds_some(
                (#[trigger] headers_of(SemanticField::Recipient)[i])@,
                seq!["recipient"@, "receiver"@, "buyer"@, "customer"@, "importer"@, "consignee"@, "одержувач"@, "отримувач"@, "покуп"@, "получател"@],
            ),
{
    assert forall|i: int| 0 <= i < 22 implies holds_some(
        (#[trigger] headers_of(SemanticField::Recipient)[i])@,
        seq!["recipient"@, "receiver"@, "buyer"@, "customer"@, "importer"@, "consignee"@, "одержувач"@, "отримувач"@, "покуп"@, "получател"@],
    ) by {
        let words = seq!["recipient"@, "receiver"@, "buyer"@, "customer"@, "importer"@, "consignee"@, "одержувач"@, "отримувач"@, "покуп"@, "получател"@];
        assert(holds_some("recipient"@, words)) by {
            reveal_strlit("recipient");
            word_stands("recipient"@, words, 0, 0);
        }
        assert(holds_some("recipient name"@, words)) by {
            reveal_strlit("recipient name");
            reveal_strlit("recipient");
            word_stands("recipient name"@, words, 0, 0);
        }
        assert(holds_some("receiver"@, words)) by {
            reveal_strlit("receiver");
            word_stands("receiver"@, words, 1, 0);
        }
        assert(holds_some("receiver name"@, words)) by {
            reveal_strlit("receiver name");
            reveal_strlit("receiver");
            word_stands("receiver name"@, words, 1, 0);
        }
        assert(holds_some("buyer"@, words)) by {
            reveal_strlit("buyer");
            word_stands("buyer"@, words, 2, 0);
        }
        assert(holds_some("buyer name"@, words)) by {
            reveal_strlit("buyer name");
            reveal_strlit("buyer");
            word_stands("buyer name"@, words, 2, 0);
        }
        assert(holds_some("customer"@, words)) by {
            reveal_strlit("customer");
            word_stands("customer"@, words, 3, 0);
        }
        assert(holds_some("customer name"@, words)) by {
            reveal_strlit("customer name");
            reveal_strlit("customer");
            word_stands("customer name"@, words, 3, 0);
        }
        assert(holds_some("importer"@, words)) by {
            reveal_strlit("importer");
            word_stands("importer"@, words, 4, 0);
        }
        assert(holds_some("importer name"@, words)) by {
            reveal_strlit("importer name");
            reveal_strlit("importer");
            word_stands("importer name"@, words, 4, 0);
        }
        assert(holds_some("consignee"@, words)) by {
            reveal_strlit("consignee");
            word_stands("consignee"@, words, 5, 0);
        }
        assert(holds_some("consignee name"@, words)) by {
            reveal_strlit("consignee name");
            reveal_strlit("consignee");
            word_stands("consignee name"@, words, 5, 0);
        }
        assert(holds_some("одержувач"@, words)) by {
            reveal_strlit("одержувач");
            word_stands("одержувач"@, words, 6, 0);
        }
        assert(holds_some("отримувач"@, words)) by {
            reveal_strlit("отримувач");
            word_stands("отримувач"@, words, 7, 0);
        }
        assert(holds_some("покупець"@, words)) by {
            reveal_strlit("покупець");
            reveal_strlit("покуп");
            word_stands("покупець"@, words, 8, 0);
        }
        assert(holds_some("назва покупця"@, words)) by {
            reveal_strlit("назва покупця");
            reveal_strlit("покуп");
            word_stands("назва покупця"@, words, 8, 6);
        }
        assert(holds_some("назва отримувача"@, words)) by {
            reveal_strlit("назва отримувача");
            reveal_strlit("отримувач");
            word_stands("назва отримувача"@, words, 7, 6);
        }
        assert(holds_some("назва фірми отримувача"@, words)) by {
            reveal_strlit("назва фірми отримувача");
            reveal_strlit("отримувач");
            word_stands("назва фірми отримувача"@, words, 7, 12);
        }
        assert(holds_some("получатель"@, words)) by {
            reveal_strlit("получатель");
            reveal_strlit("получател");
            word_stands("получатель"@, words, 9, 0);
        }
        assert(holds_some("покупатель"@, words)) by {
            reveal_strlit("покупатель");
            reveal_strlit("покуп");
            word_stands("покупатель"@, words, 8, 0);
        }
        assert(holds_some("наименование получателя"@, words)) by {
            reveal_strlit("наименование получателя");
            reveal_strlit("получател");
            word_stands("наименование получателя"@, words, 9, 13);
        }
        assert(holds_some("название фирмы получателя"@, words)) by {
            reveal_strlit("название фирмы получателя");
            reveal_strlit("получател");
            word_stands("название фирмы получателя"@, words, 9, 15);
        }
    }
}

/// The headers of one meaning hold its words.
#[verifier::spinoff_prover]
#[verifier::rlimit(80)]
proof fn origin_country_headers_say_it()
    ensures
        forall|i: int|
            0 <= i < 7 ==> holds_some(
                (#[trigger] headers_of(SemanticField::OriginCountry)[i])@,
                seq!["origin"@, "походж"@, "происхождения"@],
            ),
{
    assert forall|i: int| 0 <= i < 7 implies holds_some(
        (#[trigger] headers_of(SemanticField::OriginCountry)[i])@,
        seq!["origin"@, "походж"@, "происхождения"@],
    ) by {
        let words = seq!["origin"@, "походж"@, "происхождения"@];
        assert(holds_some("origin"@, words)) by {
            reveal_strlit("origin");
            word_stands("origin"@, words, 0, 0);
        }
        assert(holds_some("origin country"@, words)) by {
            reveal_strlit("origin country");
            reveal_strlit("origin");
            word_stands("origin country"@, words, 0, 0);
        }
        assert(holds_some("country of origin"@, words)) by {
            reveal_strlit("country of origin");
            reveal_strlit("origin");
            word_stands("country of origin"@, words, 0, 11);
        }
        assert(holds_some("country origin"@, words)) by {
            reveal_strlit("country origin");
            reveal_strlit("origin");
            word_stands("country origin"@, words, 0, 8);
        }
        assert(holds_some("країна походження"@, words)) by {
            reveal_strlit("країна походження");
            reveal_strlit("походж");
            word_stands("країна походження"@, words, 1, 7);
        }
        assert(holds_some("кр походж"@, words)) by {
            reveal_strlit("кр походж");
            reveal_strlit("походж");
            word_stands("кр походж"@, words, 1, 3);
        }
        assert(holds_some("страна происхождения"@, words)) by {
            reveal_strlit("страна происхождения");
            reveal_strlit("происхождения");
            word_stands("страна происхождения"@, words, 2, 7);
        }
    }
}

/// The headers of one meaning hold its words.
#[verifier::spinoff_prover]
#[verifier::rlimit(80)]
proof fn dispatch_country_headers_say_it()
    ensures
        forall|i: int|
            0 <= i < 9 ==> holds_some(
                (#[trigger] headers_of(SemanticField::DispatchCountry)[i])@,
                seq!["dispatch"@, "ship"@, "departure"@, "source"@, "відпр"@, "отправления"@],
            ),
{
    assert forall|i: int| 0 <= i < 9 implies holds_some(
        (#[trigger] headers_of(SemanticField::DispatchCountry)[i])@,
        seq!["dispatch"@, "ship"@, "departure"@, "source"@, "відпр"@, "отправления"@],
    ) by {
        let words = seq!["dispatch"@, "ship"@, "departure"@, "source"@, "відпр"@, "отправления"@];
        assert(holds_some("dispatch country"@, words)) by {
            reveal_strlit("dispatch country");
            reveal_strlit("dispatch");
            word_stands("dispatch country"@, words, 0, 0);
        }
        assert(holds_some("country of dispatch"@, words)) by {
            reveal_strlit("country of dispatch");
            reveal_strlit("dispatch");
            word_stands("country of dispatch"@, words, 0, 11);
        }
        assert(holds_some("ship from"@, words)) by {
            reveal_strlit("ship from");
            reveal_strlit("ship");
            word_stands("ship from"@, words, 1, 0);
        }
        assert(holds_some("shipping country"@, words)) by {
            reveal_strlit("shipping country");
            reveal_strlit("ship");
            word_stands("shipping country"@, words, 1, 0);
        }
        assert(holds_some("departure country"@, words)) by {
            reveal_strlit("departure country");
            reveal_strlit("departure");
            word_stands("departure country"@, words, 2, 0);
        }
        assert(holds_some("source country"@, words)) by {
            reveal_strlit("source country");
            reveal_strlit("source");
            word_stands("source country"@, words, 3, 0);
        }
        assert(holds_some("країна відправлення"@, words)) by {
            reveal_strlit("країна відправлення");
            reveal_strlit("відпр");
            word_stands("країна відправлення"@, words, 4, 7);
        }
        assert(holds_some("кр відпр"@, words)) by {
            reveal_strlit("кр відпр");
            reveal_strlit("відпр");
            word_stands("кр відпр"@, words, 4, 3);
        }
        assert(holds_some("страна отправления"@, words)) by {
            reveal_strlit("страна отправления");
            reveal_strlit("отправления");
            word_stands("страна отправления"@, words, 5, 7);
        }
    }
}

/// The headers of one meaning hold its words.
#[verifier::spinoff_prover]
#[verifier::rlimit(80)]
proof fn trade_country_headers_say_it()
    ensures
        forall|i: int|
            0 <= i < 9 ==> holds_some(
                (#[trigger] headers_of(SemanticField::TradeCountry)[i])@,
                seq!["trad"@, "seller"@, "торг"@],
            ),
{
    assert forall|i: int| 0 <= i < 9 implies holds_some(
        (#[trigger] headers_of(SemanticField::TradeCountry)[i])@,
        seq!["trad"@, "seller"@, "торг"@],
    ) by {
        let words = seq!["trad"@, "seller"@, "торг"@];
        assert(holds_some("trade country"@, words)) by {
            reveal_strlit("trade country");
            reveal_strlit("trad");
            word_stands("trade country"@, words, 0, 0);
        }
        assert(holds_some("trading country"@, words)) by {
            reveal_strlit("trading country");
            reveal_strlit("trad");
            word_stands("trading country"@, words, 0, 0);
        }
        assert(holds_some("country of trade"@, words)) by {
            reveal_strlit("country of trade");
            reveal_strlit("trad");
            word_stands("country of trade"@, words, 0, 11);
        }
        assert(holds_some("seller country"@, words)) by {
            reveal_strlit("seller country");
            reveal_strlit("seller");
            word_stands("seller country"@, words, 1, 0);
        }
        assert(holds_some("торгуюча країна"@, words)) by {
            reveal_strlit("торгуюча країна");
            reveal_strlit("торг");
            word_stands("торгуюча країна"@, words, 2, 0);
        }
        assert(holds_some("країна торгівлі"@, words)) by {
            reveal_strlit("країна торгівлі");
            reveal_strlit("торг");
            word_stands("країна торгівлі"@, words, 2, 7);
        }
        assert(holds_some("кр торг"@, words)) by {
            reveal_strlit("кр торг");
            reveal_strlit("торг");
            word_stands("кр торг"@, words, 2, 3);
        }
        assert(holds_some("торгующая страна"@, words)) by {
            reveal_strlit("торгующая страна");
            reveal_strlit("торг");
            word_stands("торгующая страна"@, words, 2, 0);
        }
        assert(holds_some("страна торговли"@, words)) by {
            reveal_strlit("страна торговли");
            reveal_strlit("торг");
            word_stands("страна торговли"@, words, 2, 7);
        }
    }
}

/// The headers of one meaning hold its words.
#[verifier::spinoff_prover]
#[verifier::rlimit(80)]
proof fn quantity_headers_say_it()
    ensures
        forall|i: int|
            0 <= i < 7 ==> holds_some(
                (#[trigger] headers_of(SemanticField::Quantity)[i])@,
                seq!["quantity"@, "qty"@, "count"@, "кількість"@, "к ть"@, "количество"@],
            ),
{
    assert forall|i: int| 0 <= i < 7 implies holds_some(
        (#[trigger] headers_of(SemanticField::Quantity)[i])@,
        seq!["quantity"@, "qty"@, "count"@, "кількість"@, "к ть"@, "количество"@],
    ) by {
        let words = seq!["quantity"@, "qty"@, "count"@, "кількість"@, "к ть"@, "количество"@];
        assert(holds_some("quantity"@, words)) by {
            reveal_strlit("quantity");
            word_stands("quantity"@, words, 0, 0);
        }
        assert(holds_some("qty"@, words)) by {
            reveal_strlit("qty");
            word_stands("qty"@, words, 1, 0);
        }
        assert(holds_some("count"@, words)) by {
            reveal_strlit("count");
            word_stands("count"@, words, 2, 0);
        }
        assert(holds_some("unit count"@, words)) by {
            reveal_strlit("unit count");
            reveal_strlit("count");
            word_stands("unit count"@, words, 2, 5);
        }
        assert(holds_some("кількість"@, words)) by {
            reveal_strlit("кількість");
            word_stands("кількість"@, words, 3, 0);
        }
        assert(holds_some("к ть"@, words)) by {
            reveal_strlit("к ть");
            word_stands("к ть"@, words, 4, 0);
        }
        assert(holds_some("количество"@, words)) by {
            reveal_strlit("количество");
            word_stands("количество"@, words, 5, 0);
        }
    }
}

/// The headers of one meaning hold its words.
#[verifier::spinoff_prover]
#[verifier::rlimit(80)]
proof fn value_headers_say_it()
    ensures
        forall|i: int|
            0 <= i < 18 ==> holds_some(
                (#[trigger] headers_of(SemanticField::Value)[i])@,
                seq!["value"@, "amount"@, "сум"@, "вартість"@, "стоимость"@],
            ),
{
    assert forall|i: int| 0 <= i < 18 implies holds_some(
        (#[trigger] headers_of(SemanticField::Value)[i])@,
        seq!["value"@, "amount"@, "сум"@, "вартість"@, "стоимость"@],
    ) by {
        let words = seq!["value"@, "amount"@, "сум"@, "вартість"@, "стоимость"@];
        assert(holds_some("value"@, words)) by {
            reveal_strlit("value");
            word_stands("value"@, words, 0, 0);
        }
        assert(holds_some("value usd"@, words)) by {
            reveal_strlit("value usd");
            reveal_strlit("value");
            word_stands("value usd"@, words, 0, 0);
        }
        assert(holds_some("amount"@, words)) by {
            reveal_strlit("amount");
            word_stands("amount"@, words, 1, 0);
        }
        assert(holds_some("amount usd"@, words)) by {
            reveal_strlit("amount usd");
            reveal_strlit("amount");
            word_stands("amount usd"@, words, 1, 0);
        }
        assert(holds_some("total value"@, words)) by {
            reveal_strlit("total value");
            reveal_strlit("value");
            word_stands("total value"@, words, 0, 6);
        }
        assert(holds_some("total amount"@, words)) by {
            reveal_strlit("total amount");
            reveal_strlit("amount");
            word_stands("total amount"@, words, 1, 6);
        }
        assert(holds_some("invoice value"@, words)) by {
            reveal_strlit("invoice value");
            reveal_strlit("value");
            word_stands("invoice value"@, words, 0, 8);
        }
        assert(holds_some("customs value"@, words)) by {
            reveal_strlit("customs value");
            reveal_strlit("value");
            word_stands("customs value"@, words, 0, 8);
        }
        assert(holds_some("сума"@, words)) by {
            reveal_strlit("сума");
            reveal_strlit("сум");
            word_stands("сума"@, words, 2, 0);
        }
        assert(holds_some("сума рахунку"@, words)) by {
            reveal_strlit("сума рахунку");
            reveal_strlit("сум");
            word_stands("сума рахунку"@, words, 2, 0);
        }
        assert(holds_some("загальна сума"@, words)) by {
            reveal_strlit("загальна сума");
            reveal_strlit("сум");
            word_stands("загальна сума"@, words, 2, 9);
        }
        assert(holds_some("вартість"@, words)) by {
            reveal_strlit("вартість");
            word_stands("вартість"@, words, 3, 0);
        }
        assert(holds_some("фактурна вартість"@, words)) by {
            reveal_strlit("фактурна вартість");
            reveal_strlit("вартість");
            word_stands("фактурна вартість"@, words, 3, 9);
        }
        assert(holds_some("сумма"@, words)) by {
            reveal_strlit("сумма");
            reveal_strlit("сум");
            word_stands("сумма"@, words, 2, 0);
        }
        assert(holds_some("сумма счета"@, words)) by {
            reveal_strlit("сумма счета");
            reveal_strlit("сум");
            word_stands("сумма счета"@, words, 2, 0);
        }
        assert(holds_some("общая сумма"@, words)) by {
            reveal_strlit("общая сумма");
            reveal_strlit("сум");
            word_stands("общая сумма"@, words, 2, 6);
        }
        assert(holds_some("стоимость"@, words)) by {
            reveal_strlit("стоимость");
            word_stands("стоимость"@, words, 4, 0);
        }
        assert(holds_some("фактурная стоимость"@, words)) by {
            reveal_strlit("фактурная стоимость");
            reveal_strlit("стоимость");
            word_stands("фактурная стоимость"@, words, 4, 10);
        }
    }
}

/// The headers of one meaning hold its words.
#[verifier::spinoff_prover]
#[verifier::rlimit(80)]
proof fn currency_headers_say_it()
    ensures
        forall|i: int|
            0 <= i < 11 ==> holds_some(
                (#[trigger] headers_of(SemanticField::Currency)[i])@,
                seq!["currency"@, "ccy"@, "валют"@],
            ),
{
    assert forall|i: int| 0 <= i < 11 implies holds_some(
        (#[trigger] headers_of(SemanticField::Currency)[i])@,
        seq!["currency"@, "ccy"@, "валют"@],
    ) by {
        let words = seq!["currency"@, "ccy"@, "валют"@];
        assert(holds_some("currency"@, words)) by {
            reveal_strlit("currency");
            word_stands("currency"@, words, 0, 0);
        }
        assert(holds_some("currency code"@, words)) by {
            reveal_strlit("currency code");
            reveal_strlit("currency");
            word_stands("currency code"@, words, 0, 0);
        }
        assert(holds_some("value currency"@, words)) by {
            reveal_strlit("value currency");
            reveal_strlit("currency");
            word_stands("value currency"@, words, 0, 6);
        }
        assert(holds_some("amount currency"@, words)) by {
            reveal_strlit("amount currency");
            reveal_strlit("currency");
            word_stands("amount currency"@, words, 0, 7);
        }
        assert(holds_some("ccy"@, words)) by {
            reveal_strlit("ccy");
            word_stands("ccy"@, words, 1, 0);
        }
        assert(holds_some("iso currency"@, words)) by {
            reveal_strlit("iso currency");
            reveal_strlit("currency");
            word_stands("iso currency"@, words, 0, 4);
        }
        assert(holds_some("валюта"@, words)) by {
            reveal_strlit("валюта");
            reveal_strlit("валют");
            word_stands("валюта"@, words, 2, 0);
        }
        assert(holds_some("код валюти"@, words)) by {
            reveal_strlit("код валюти");
            reveal_strlit("валют");
            word_stands("код валюти"@, words, 2, 4);
        }
        assert(holds_some("валюта суми"@, words)) by {
            reveal_strlit("валюта суми");
            reveal_strlit("валют");
            word_stands("валюта суми"@, words, 2, 0);
        }
        assert(holds_some("код валюты"@, words)) by {
            reveal_strlit("код валюты");
            reveal_strlit("валют");
            word_stands("код валюты"@, words, 2, 4);
        }
        assert(holds_some("валюта суммы"@, words)) by {
            reveal_strlit("валюта суммы");
            reveal_strlit("валют");
            word_stands("валюта суммы"@, words, 2, 0);
        }
    }
}

/// The headers of one meaning hold its words.
#[verifier::spinoff_prover]
#[verifier::rlimit(80)]
proof fn weight_unit_headers_say_it()
    ensures
        forall|i: int|
            0 <= i < 9 ==> holds_some(
                (#[trigger] headers_of(SemanticField::WeightUnit)[i])@,
                seq!["unit"@, "uom"@, "одиниця"@, "единица"@],
            ),
{
    assert forall|i: int| 0 <= i < 9 implies holds_some(
        (#[trigger] headers_of(SemanticField::WeightUnit)[i])@,
        seq!["unit"@, "uom"@, "одиниця"@, "единица"@],
    ) by {
        let words = seq!["unit"@, "uom"@, "одиниця"@, "единица"@];
        assert(holds_some("weight unit"@, words)) by {
            reveal_strlit("weight unit");
            reveal_strlit("unit");
            word_stands("weight unit"@, words, 0, 7);
        }
        assert(holds_some("net weight unit"@, words)) by {
            reveal_strlit("net weight unit");
            reveal_strlit("unit");
            word_stands("net weight unit"@, words, 0, 11);
        }
        assert(holds_some("mass unit"@, words)) by {
            reveal_strlit("mass unit");
            reveal_strlit("unit");
            word_stands("mass unit"@, words, 0, 5);
        }
        assert(holds_some("weight uom"@, words)) by {
            reveal_strlit("weight uom");
            reveal_strlit("uom");
            word_stands("weight uom"@, words, 1, 7);
        }
        assert(holds_some("mass uom"@, words)) by {
            reveal_strlit("mass uom");
            reveal_strlit("uom");
            word_stands("mass uom"@, words, 1, 5);
        }
        assert(holds_some("одиниця ваги"@, words)) by {
            reveal_strlit("одиниця ваги");
            reveal_strlit("одиниця");
            word_stands("одиниця ваги"@, words, 2, 0);
        }
        assert(holds_some("одиниця маси"@, words)) by {
            reveal_strlit("одиниця маси");
            reveal_strlit("одиниця");
            word_stands("одиниця маси"@, words, 2, 0);
        }
        assert(holds_some("единица веса"@, words)) by {
            reveal_strlit("единица веса");
            reveal_strlit("единица");
            word_stands("единица веса"@, words, 3, 0);
        }
        assert(holds_some("единица массы"@, words)) by {
            reveal_strlit("единица массы");
            reveal_strlit("единица");
            word_stands("единица массы"@, words, 3, 0);
        }
    }
}

/// The headers of one meaning hold its words.
#[verifier::spinoff_prover]
#[verifier::rlimit(80)]
proof fn date_headers_say_it()
    ensures
        forall|i: int|
            0 <= i < 13 ==> holds_some(
                (#[trigger] headers_of(SemanticField::Date)[i])@,
                seq!["date"@, "дата"@],
            ),
{
    assert forall|i: int| 0 <= i < 13 implies holds_some(
        (#[trigger] headers_of(SemanticField::Date)[i])@,
        seq!["date"@, "дата"@],
    ) by {
        let words = seq!["date"@, "дата"@];
        assert(holds_some("date"@, words)) by {
            reveal_strlit("date");
            word_stands("date"@, words, 0, 0);
        }
        assert(holds_some("order date"@, words)) by {
            reveal_strlit("order date");
            reveal_strlit("date");
            word_stands("order date"@, words, 0, 6);
        }
        assert(holds_some("document date"@, words)) by {
            reveal_strlit("document date");
            reveal_strlit("date");
            word_stands("document date"@, words, 0, 9);
        }
        assert(holds_some("declaration date"@, words)) by {
            reveal_strlit("declaration date");
            reveal_strlit("date");
            word_stands("declaration date"@, words, 0, 12);
        }
        assert(holds_some("clearance date"@, words)) by {
            reveal_strlit("clearance date");
            reveal_strlit("date");
            word_stands("clearance date"@, words, 0, 10);
        }
        assert(holds_some("invoice date"@, words)) by {
            reveal_strlit("invoice date");
            reveal_strlit("date");
            word_stands("invoice date"@, words, 0, 8);
        }
        assert(holds_some("дата"@, words)) by {
            reveal_strlit("дата");
            word_stands("дата"@, words, 1, 0);
        }
        assert(holds_some("дата документа"@, words)) by {
            reveal_strlit("дата документа");
            reveal_strlit("дата");
            word_stands("дата документа"@, words, 1, 0);
        }
        assert(holds_some("дата декларації"@, words)) by {
            reveal_strlit("дата декларації");
            reveal_strlit("дата");
            word_stands("дата декларації"@, words, 1, 0);
        }
        assert(holds_some("дата оформлення"@, words)) by {
            reveal_strlit("дата оформлення");
            reveal_strlit("дата");
            word_stands("дата оформлення"@, words, 1, 0);
        }
        assert(holds_some("дата декларации"@, words)) by {
            reveal_strlit("дата декларации");
            reveal_strlit("дата");
            word_stands("дата декларации"@, words, 1, 0);
        }
        assert(holds_some("дата оформления"@, words)) by {
            reveal_strlit("дата оформления");
            reveal_strlit("дата");
            word_stands("дата оформления"@, words, 1, 0);
        }
        assert(holds_some("дата мд"@, words)) by {
            reveal_strlit("дата мд");
            reveal_strlit("дата");
            word_stands("дата мд"@, words, 1, 0);
        }
    }
}

/// The headers of one meaning hold its words.
#[verifier::spinoff_prover]
#[verifier::rlimit(80)]
proof fn declaration_number_headers_say_it()
    ensures
        forall|i: int|
            0 <= i < 14 ==> holds_some(
                (#[trigger] headers_of(SemanticField::DeclarationNumber)[i])@,
                seq!["declaration"@, "document no"@, "document number"@, "invoice no"@, "invoice number"@, "номер"@],
            ),
{
    assert forall|i: int| 0 <= i < 14 implies holds_some(
        (#[trigger] headers_of(SemanticField::DeclarationNumber)[i])@,
        seq!["declaration"@, "document no"@, "document number"@, "invoice no"@, "invoice number"@, "номер"@],
    ) by {
        let words = seq!["declaration"@, "document no"@, "document number"@, "invoice no"@, "invoice number"@, "номер"@];
        assert(holds_some("declaration"@, words)) by {
            reveal_strlit("declaration");
            word_stands("declaration"@, words, 0, 0);
        }
        assert(holds_some("declaration no"@, words)) by {
            reveal_strlit("declaration no");
            reveal_strlit("declaration");
            word_stands("declaration no"@, words, 0, 0);
        }
        assert(holds_some("declaration number"@, words)) by {
            reveal_strlit("declaration number");
            reveal_strlit("declaration");
            word_stands("declaration number"@, words, 0, 0);
        }
        assert(holds_some("declaration id"@, words)) by {
            reveal_strlit("declaration id");
            reveal_strlit("declaration");
            word_stands("declaration id"@, words, 0, 0);
        }
        assert(holds_some("document no"@, words)) by {
            reveal_strlit("document no");
            word_stands("document no"@, words, 1, 0);
        }
        assert(holds_some("document number"@, words)) by {
            reveal_strlit("document number");
            word_stands("document number"@, words, 2, 0);
        }
        assert(holds_some("invoice no"@, words)) by {
            reveal_strlit("invoice no");
            word_stands("invoice no"@, words, 3, 0);
        }
        assert(holds_some("invoice number"@, words)) by {
            reveal_strlit("invoice number");
            word_stands("invoice number"@, words, 4, 0);
        }
        assert(holds_some("номер декларації"@, words)) by {
            reveal_strlit("номер декларації");
            reveal_strlit("номер");
            word_stands("номер декларації"@, words, 5, 0);
        }
        assert(holds_some("номер декларации"@, words)) by {
            reveal_strlit("номер декларации");
            reveal_strlit("номер");
            word_stands("номер декларации"@, words, 5, 0);
        }
        assert(holds_some("номер мд"@, words)) by {
            reveal_strlit("номер мд");
            reveal_strlit("номер");
            word_stands("номер мд"@, words, 5, 0);
        }
        assert(holds_some("номер вмд"@, words)) by {
            reveal_strlit("номер вмд");
            reveal_strlit("номер");
            word_stands("номер вмд"@, words, 5, 0);
        }
        assert(holds_some("номер гтд"@, words)) by {
            reveal_strlit("номер гтд");
            reveal_strlit("номер");
            word_stands("номер гтд"@, words, 5, 0);
        }
        assert(holds_some("номер документа"@, words)) by {
            reveal_strlit("номер документа");
            reveal_strlit("номер");
            word_stands("номер документа"@, words, 5, 0);
        }
    }
}

/// The headers of one meaning hold its words.
#[verifier::spinoff_prover]
#[verifier::rlimit(80)]
proof fn company_code_headers_say_it()
    ensures
        forall|i: int|
            0 <= i < 17 ==> holds_some(
                (#[trigger] headers_of(SemanticField::CompanyCode)[i])@,
                seq!["code"@, "id"@, "edrpou"@, "єдрпоу"@, "едрпоу"@, "код"@],
            ),
{
    assert forall|i: int| 0 <= i < 17 implies holds_some(
        (#[trigger] headers_of(SemanticField::CompanyCode)[i])@,
        seq!["code"@, "id"@, "edrpou"@, "єдрпоу"@, "едрпоу"@, "код"@],
    ) by {
        let words = seq!["code"@, "id"@, "edrpou"@, "єдрпоу"@, "едрпоу"@, "код"@];
        assert(holds_some("company code"@, words)) by {
            reveal_strlit("company code");
            reveal_strlit("code");
            word_stands("company code"@, words, 0, 8);
        }
        assert(holds_some("company id"@, words)) by {
            reveal_strlit("company id");
            reveal_strlit("id");
            word_stands("company id"@, words, 1, 8);
        }
        assert(holds_some("recipient code"@, words)) by {
            reveal_strlit("recipient code");
            reveal_strlit("code");
            word_stands("recipient code"@, words, 0, 10);
        }
        assert(holds_some("recipient id"@, words)) by {
            reveal_strlit("recipient id");
            reveal_strlit("id");
            word_stands("recipient id"@, words, 1, 10);
        }
        assert(holds_some("buyer code"@, words)) by {
            reveal_strlit("buyer code");
            reveal_strlit("code");
            word_stands("buyer code"@, words, 0, 6);
        }
        assert(holds_some("buyer id"@, words)) by {
            reveal_strlit("buyer id");
            reveal_strlit("id");
            word_stands("buyer id"@, words, 1, 6);
        }
        assert(holds_some("importer code"@, words)) by {
            reveal_strlit("importer code");
            reveal_strlit("code");
            word_stands("importer code"@, words, 0, 9);
        }
        assert(holds_some("importer id"@, words)) by {
            reveal_strlit("importer id");
            reveal_strlit("id");
            word_stands("importer id"@, words, 1, 9);
        }
        assert(holds_some("edrpou"@, words)) by {
            reveal_strlit("edrpou");
            word_stands("edrpou"@, words, 2, 0);
        }
        assert(holds_some("єдрпоу"@, words)) by {
            reveal_strlit("єдрпоу");
            word_stands("єдрпоу"@, words, 3, 0);
        }
        assert(holds_some("едрпоу"@, words)) by {
            reveal_strlit("едрпоу");
            word_stands("едрпоу"@, words, 4, 0);
        }
        assert(holds_some("код єдрпоу"@, words)) by {
            reveal_strlit("код єдрпоу");
            reveal_strlit("єдрпоу");
            word_stands("код єдрпоу"@, words, 3, 4);
        }
        assert(holds_some("код едрпоу"@, words)) by {
            reveal_strlit("код едрпоу");
            reveal_strlit("едрпоу");
            word_stands("код едрпоу"@, words, 4, 4);
        }
        assert(holds_some("код компанії"@, words)) by {
            reveal_strlit("код компанії");
            reveal_strlit("код");
            word_stands("код компанії"@, words, 5, 0);
        }
        assert(holds_some("код компании"@, words)) by {
            reveal_strlit("код компании");
            reveal_strlit("код");
            word_stands("код компании"@, words, 5, 0);
        }
        assert(holds_some("код фірми отримувача"@, words)) by {
            reveal_strlit("код фірми отримувача");
            reveal_strlit("код");
            word_stands("код фірми отримувача"@, words, 5, 0);
        }
        assert(holds_some("код фирмы получателя"@, words)) by {
            reveal_strlit("код фирмы получателя");
            reveal_strlit("код");
            word_stands("код фирмы получателя"@, words, 5, 0);
        }
    }
}

/// The headers of one meaning hold its words.
#[verifier::spinoff_prover]
#[verifier::rlimit(80)]
proof fn product_code_headers_say_it()
    ensures
        forall|i: int|
            0 <= i < 22 ==> holds_some(
                (#[trigger] headers_of(SemanticField::ProductCode)[i])@,
                seq!["sku"@, "article"@, "code"@, "hs"@, "ukt"@, "tnved"@, "артикул"@, "код"@],
            ),
{
    assert forall|i: int| 0 <= i < 22 implies holds_some(
        (#[trigger] headers_of(SemanticField::ProductCode)[i])@,
        seq!["sku"@, "article"@, "code"@, "hs"@, "ukt"@, "tnved"@, "артикул"@, "код"@],
    ) by {
        let words = seq!["sku"@, "article"@, "code"@, "hs"@, "ukt"@, "tnved"@, "артикул"@, "код"@];
        assert(holds_some("sku"@, words)) by {
            reveal_strlit("sku");
            word_stands("sku"@, words, 0, 0);
        }
        assert(holds_some("article"@, words)) by {
            reveal_strlit("article");
            word_stands("article"@, words, 1, 0);
        }
        assert(holds_some("article no"@, words)) by {
            reveal_strlit("article no");
            reveal_strlit("article");
            word_stands("article no"@, words, 1, 0);
        }
        assert(holds_some("product code"@, words)) by {
            reveal_strlit("product code");
            reveal_strlit("code");
            word_stands("product code"@, words, 2, 8);
        }
        assert(holds_some("item code"@, words)) by {
            reveal_strlit("item code");
            reveal_strlit("code");
            word_stands("item code"@, words, 2, 5);
        }
        assert(holds_some("goods code"@, words)) by {
            reveal_strlit("goods code");
            reveal_strlit("code");
            word_stands("goods code"@, words, 2, 6);
        }
        assert(holds_some("commodity code"@, words)) by {
            reveal_strlit("commodity code");
            reveal_strlit("code");
            word_stands("commodity code"@, words, 2, 10);
        }
        assert(holds_some("hs"@, words)) by {
            reveal_strlit("hs");
            word_stands("hs"@, words, 3, 0);
        }
        assert(holds_some("hs code"@, words)) by {
            reveal_strlit("hs code");
            reveal_strlit("code");
            word_stands("hs code"@, words, 2, 3);
        }
        assert(holds_some("hscode"@, words)) by {
            reveal_strlit("hscode");
            reveal_strlit("code");
            word_stands("hscode"@, words, 2, 2);
        }
        assert(holds_some("uktzed"@, words)) by {
            reveal_strlit("uktzed");
            reveal_strlit("ukt");
            word_stands("uktzed"@, words, 4, 0);
        }
        assert(holds_some("ukt zed"@, words)) by {
            reveal_strlit("ukt zed");
            reveal_strlit("ukt");
            word_stands("ukt zed"@, words, 4, 0);
        }
        assert(holds_some("uktzed code"@, words)) by {
            reveal_strlit("uktzed code");
            reveal_strlit("code");
            word_stands("uktzed code"@, words, 2, 7);
        }
        assert(holds_some("tnved"@, words)) by {
            reveal_strlit("tnved");
            word_stands("tnved"@, words, 5, 0);
        }
        assert(holds_some("tnved code"@, words)) by {
            reveal_strlit("tnved code");
            reveal_strlit("code");
            word_stands("tnved code"@, words, 2, 6);
        }
        assert(holds_some("артикул"@, words)) by {
            reveal_strlit("артикул");
            word_stands("артикул"@, words, 6, 0);
        }
        assert(holds_some("артикул товару"@, words)) by {
            reveal_strlit("артикул товару");
            reveal_strlit("артикул");
            word_stands("артикул товару"@, words, 6, 0);
        }
        assert(holds_some("код товару"@, words)) by {
            reveal_strlit("код товару");
            reveal_strlit("код");
            word_stands("код товару"@, words, 7, 0);
        }
        assert(holds_some("код уктзед"@, words)) by {
            reveal_strlit("код уктзед");
            reveal_strlit("код");
            word_stands("код уктзед"@, words, 7, 0);
        }
        assert(holds_some("код товар"@, words)) by {
            reveal_strlit("код товар");
            reveal_strlit("код");
            word_stands("код товар"@, words, 7, 0);
        }
        assert(holds_some("код товара"@, words)) by {
            reveal_strlit("код товара");
            reveal_strlit("код");
            word_stands("код товара"@, words, 7, 0);
        }
        assert(holds_some("код тнвэд"@, words)) by {
            reveal_strlit("код тнвэд");
            reveal_strlit("код");
            word_stands("код тнвэд"@, words, 7, 0);
        }
    }
}

/// The headers of one meaning hold its words.
#[verifier::spinoff_prover]
#[verifier::rlimit(80)]
proof fn description_headers_say_it()
    ensures
        forall|i: int|
            0 <= i < 17 ==> holds_some(
                (#[trigger] headers_of(SemanticField::Description)[i])@,
                seq!["description"@, "name"@, "опис"@, "найменування"@, "назва"@, "наименование"@, "название"@],
            ),
{
    assert forall|i: int| 0 <= i < 17 implies holds_some(
        (#[trigger] headers_of(SemanticField::Description)[i])@,
        seq!["description"@, "name"@, "опис"@, "найменування"@, "назва"@, "наименование"@, "название"@],
    ) by {
        let words = seq!["description"@, "name"@, "опис"@, "найменування"@, "назва"@, "наименование"@, "название"@];
        assert(holds_some("description"@, words)) by {
            reveal_strlit("description");
            word_stands("description"@, words, 0, 0);
        }
        assert(holds_some("product description"@, words)) by {
            reveal_strlit("product description");
            reveal_strlit("description");
            word_stands("product description"@, words, 0, 8);
        }
        assert(holds_some("product name"@, words)) by {
            reveal_strlit("product name");
            reveal_strlit("name");
            word_stands("product name"@, words, 1, 8);
        }
        assert(holds_some("item description"@, words)) by {
            reveal_strlit("item description");
            reveal_strlit("description");
            word_stands("item description"@, words, 0, 5);
        }
        assert(holds_some("item name"@, words)) by {
            reveal_strlit("item name");
            reveal_strlit("name");
            word_stands("item name"@, words, 1, 5);
        }
        assert(holds_some("goods description"@, words)) by {
            reveal_strlit("goods description");
            reveal_strlit("description");
            word_stands("goods description"@, words, 0, 6);
        }
        assert(holds_some("goods name"@, words)) by {
            reveal_strlit("goods name");
            reveal_strlit("name");
            word_stands("goods name"@, words, 1, 6);
        }
        assert(holds_some("commodity description"@, words)) by {
            reveal_strlit("commodity description");
            reveal_strlit("description");
            word_stands("commodity description"@, words, 0, 10);
        }
        assert(holds_some("опис"@, words)) by {
            reveal_strlit("опис");
            word_stands("опис"@, words, 2, 0);
        }
        assert(holds_some("опис товару"@, words)) by {
            reveal_strlit("опис товару");
            reveal_strlit("опис");
            word_stands("опис товару"@, words, 2, 0);
        }
        assert(holds_some("опис позиції"@, words)) by {
            reveal_strlit("опис позиції");
            reveal_strlit("опис");
            word_stands("опис позиції"@, words, 2, 0);
        }
        assert(holds_some("найменування товару"@, words)) by {
            reveal_strlit("найменування товару");
            reveal_strlit("найменування");
            word_stands("найменування товару"@, words, 3, 0);
        }
        assert(holds_some("назва товару"@, words)) by {
            reveal_strlit("назва товару");
            reveal_strlit("назва");
            word_stands("назва товару"@, words, 4, 0);
        }
        assert(holds_some("описание"@, words)) by {
            reveal_strlit("описание");
            reveal_strlit("опис");
            word_stands("описание"@, words, 2, 0);
        }
        assert(holds_some("описание товара"@, words)) by {
            reveal_strlit("описание товара");
            reveal_strlit("опис");
            word_stands("описание товара"@, words, 2, 0);
        }
        assert(holds_some("наименование товара"@, words)) by {
            reveal_strlit("наименование товара");
            reveal_strlit("наименование");
            word_stands("наименование товара"@, words, 5, 0);
        }
        assert(holds_some("название товара"@, words)) by {
            reveal_strlit("название товара");
            reveal_strlit("назва");
            word_stands("название товара"@, words, 4, 0);
        }
    }
}

/// The headers of one meaning hold its words.
#[verifier::spinoff_prover]
#[verifier::rlimit(80)]
proof fn trademark_headers_say_it()
    ensures
        forall|i: int|
            0 <= i < 9 ==> holds_some(
                (#[trigger] headers_of(SemanticField::Trademark)[i])@,
                seq!["brand"@, "trade"@, "торг"@, "бренд"@],
            ),
{
    assert forall|i: int| 0 <= i < 9 implies holds_some(
        (#[trigger] headers_of(SemanticField::Trademark)[i])@,
        seq!["brand"@, "trade"@, "торг"@, "бренд"@],
    ) by {
        let words = seq!["brand"@, "trade"@, "торг"@, "бренд"@];
        assert(holds_some("brand"@, words)) by {
            reveal_strlit("brand");
            word_stands("brand"@, words, 0, 0);
        }
        assert(holds_some("brand name"@, words)) by {
            reveal_strlit("brand name");
            reveal_strlit("brand");
            word_stands("brand name"@, words, 0, 0);
        }
        assert(holds_some("trademark"@, words)) by {
            reveal_strlit("trademark");
            reveal_strlit("trade");
            word_stands("trademark"@, words, 1, 0);
        }
        assert(holds_some("trade mark"@, words)) by {
            reveal_strlit("trade mark");
            reveal_strlit("trade");
            word_stands("trade mark"@, words, 1, 0);
        }
        assert(holds_some("manufacturer brand"@, words)) by {
            reveal_strlit("manufacturer brand");
            reveal_strlit("brand");
            word_stands("manufacturer brand"@, words, 0, 13);
        }
        assert(holds_some("бренд"@, words)) by {
            reveal_strlit("бренд");
            word_stands("бренд"@, words, 3, 0);
        }
        assert(holds_some("торгова марка"@, words)) by {
            reveal_strlit("торгова марка");
            reveal_strlit("торг");
            word_stands("торгова марка"@, words, 2, 0);
        }
        assert(holds_some("торг марка"@, words)) by {
            reveal_strlit("торг марка");
            reveal_strlit("торг");
            word_stands("торг марка"@, words, 2, 0);
        }
        assert(holds_some("торговая марка"@, words)) by {
            reveal_strlit("торговая марка");
            reveal_strlit("торг");
            word_stands("торговая марка"@, words, 2, 0);
        }
    }
}

/// The headers of one meaning hold its words.
#[verifier::spinoff_prover]
#[verifier::rlimit(80)]
proof fn country_headers_say_it()
    ensures
        forall|i: int|
            0 <= i < 3 ==> holds_some(
                (#[trigger] headers_of(SemanticField::Country)[i])@,
                seq!["country"@, "країна"@, "страна"@],
            ),
{
    assert forall|i: int| 0 <= i < 3 implies holds_some(
        (#[trigger] headers_of(SemanticField::Country)[i])@,
        seq!["country"@, "країна"@, "страна"@],
    ) by {
        let words = seq!["country"@, "країна"@, "страна"@];
        assert(holds_some("country"@, words)) by {
            reveal_strlit("country");
            word_stands("country"@, words, 0, 0);
        }
        assert(holds_some("країна"@, words)) by {
            reveal_strlit("країна");
            word_stands("країна"@, words, 1, 0);
        }
        assert(holds_some("страна"@, words)) by {
            reveal_strlit("страна");
            word_stands("страна"@, words, 2, 0);
        }
    }
}

/// A header of a net weight says net, and one of a gross weight says gross.
pub proof fn headers_say_which_weight()
    ensures
        forall|i: int|
            0 <= i < 10 ==> holds_some(
                (#[trigger] headers_of(SemanticField::NetWeight)[i])@,
                seq!["net"@, "нетто"@],
            ),
        headers_of(SemanticField::NetWeight).len() == 10,
        forall|i: int|
            0 <= i < 10 ==> holds_some(
                (#[trigger] headers_of(SemanticField::GrossWeight)[i])@,
                seq!["gross"@, "брутто"@],
            ),
        headers_of(SemanticField::GrossWeight).len() == 10,
{
    net_weight_headers_say_it();
    gross_weight_headers_say_it();
}

/// A header of the sender names who sends, and one of the recipient names who
/// receives.
pub proof fn headers_say_which_party()
    ensures
        forall|i: int|
            0 <= i < 17 ==> holds_some(
                (#[trigger] headers_of(SemanticField::Sender)[i])@,
                seq!["sender"@, "supplier"@, "exporter"@, "shipper"@, "seller"@, "відп"@, "отправител"@],
            ),
        headers_of(SemanticField::Sender).len() == 17,
        forall|i: int|
            0 <= i < 22 ==> holds_some(
                (#[trigger] headers_of(SemanticField::Recipient)[i])@,
                seq!["recipient"@, "receiver"@, "buyer"@, "customer"@, "importer"@, "consignee"@, "одержувач"@, "отримувач"@, "покуп"@, "получател"@],
            ),
        headers_of(SemanticField::Recipient).len() == 22,
{
    sender_headers_say_it();
    recipient_headers_say_it();
}

/// A header of a country says what the country stands for.
pub proof fn headers_say_which_country()
    ensures
        forall|i: int|
            0 <= i < 7 ==> holds_some(
                (#[trigger] headers_of(SemanticField::OriginCountry)[i])@,
                seq!["origin"@, "походж"@, "происхождения"@],
            ),
        headers_of(SemanticField::OriginCountry).len() == 7,
        forall|i: int|
            0 <= i < 9 ==> holds_some(
                (#[trigger] headers_of(SemanticField::DispatchCountry)[i])@,
                seq!["dispatch"@, "ship"@, "departure"@, "source"@, "відпр"@, "отправления"@],
            ),
        headers_of(SemanticField::DispatchCountry).len() == 9,
        forall|i: int|
            0 <= i < 9 ==> holds_some(
                (#[trigger] headers_of(SemanticField::TradeCountry)[i])@,
                seq!["trad"@, "seller"@, "торг"@],
            ),
        headers_of(SemanticField::TradeCountry).len() == 9,
{
    origin_country_headers_say_it();
    dispatch_country_headers_say_it();
    trade_country_headers_say_it();
}

/// A header of a measure says what is measured.
pub proof fn headers_say_which_measure()
    ensures
        forall|i: int|
            0 <= i < 7 ==> holds_some(
                (#[trigger] headers_of(SemanticField::Quantity)[i])@,
                seq!["quantity"@, "qty"@, "count"@, "кількість"@, "к ть"@, "количество"@],
            ),
        headers_of(SemanticField::Quantity).len() == 7,
        forall|i: int|
            0 <= i < 18 ==> holds_some(
                (#[trigger] headers_of(SemanticField::Value)[i])@,
                seq!["value"@, "amount"@, "сум"@, "вартість"@, "стоимость"@],
            ),
        headers_of(SemanticField::Value).len() == 18,
{
    quantity_headers_say_it();
    value_headers_say_it();
}

/// A header of a unit says what it is the unit of.
pub proof fn headers_say_which_unit()
    ensures
        forall|i: int|
            0 <= i < 11 ==> holds_some(
                (#[trigger] headers_of(SemanticField::Currency)[i])@,
                seq!["currency"@, "ccy"@, "валют"@],
            ),
        headers_of(SemanticField::Currency).len() == 11,
        forall|i: int|
            0 <= i < 9 ==> holds_some(
                (#[trigger] headers_of(SemanticField::WeightUnit)[i])@,
                seq!["unit"@, "uom"@, "одиниця"@, "единица"@],
            ),
        headers_of(SemanticField::WeightUnit).len() == 9,
{
    currency_headers_say_it();
    weight_unit_headers_say_it();
}

/// A header of a date says date, and one of a declaration's number names the
/// document.
pub proof fn headers_say_which_document()
    ensures
        forall|i: int|
            0 <= i < 13 ==> holds_some(
                (#[trigger] headers_of(SemanticField::Date)[i])@,
                seq!["date"@, "дата"@],
            ),
        headers_of(SemanticField::Date).len() == 13,
        forall|i: int|
            0 <= i < 14 ==> holds_some(
                (#[trigger] headers_of(SemanticField::DeclarationNumber)[i])@,
                seq!["declaration"@, "document no"@, "document number"@, "invoice no"@, "invoice number"@, "номер"@],
            ),
        headers_of(SemanticField::DeclarationNumber).len() == 14,
{
    date_headers_say_it();
    declaration_number_headers_say_it();
}

/// A header of a company or a product code says whose code it is or that it is
/// one.
pub proof fn headers_say_which_code()
    ensures
        forall|i: int|
            0 <= i < 17 ==> holds_some(
                (#[trigger] headers_of(SemanticField::CompanyCode)[i])@,
                seq!["code"@, "id"@, "edrpou"@, "єдрпоу"@, "едрпоу"@, "код"@],
            ),
        headers_of(SemanticField::CompanyCode).len() == 17,
        forall|i: int|
            0 <= i < 22 ==> holds_some(
                (#[trigger] headers_of(SemanticField::ProductCode)[i])@,
                seq!["sku"@, "article"@, "code"@, "hs"@, "ukt"@, "tnved"@, "артикул"@, "код"@],
            ),
        headers_of(SemanticField::ProductCode).len() == 22,
{
    company_code_headers_say_it();
    product_code_headers_say_it();
}

/// A header of a description, a trademark or a country says so.
pub proof fn headers_say_which_words()
    ensures
        forall|i: int|
            0 <= i < 17 ==> holds_some(
                (#[trigger] headers_of(SemanticField::Description)[i])@,
                seq!["description"@, "name"@, "опис"@, "найменування"@, "назва"@, "наименование"@, "название"@],
            ),
        headers_of(SemanticField::Description).len() == 17,
        forall|i: int|
            0 <= i < 9 ==> holds_some(
                (#[trigger] headers_of(SemanticField::Trademark)[i])@,
                seq!["brand"@, "trade"@, "торг"@, "бренд"@],
            ),
        headers_of(SemanticField::Trademark).len() == 9,
        forall|i: int|
            0 <= i < 3 ==> holds_some(
                (#[trigger] headers_of(SemanticField::Country)[i])@,
                seq!["country"@, "країна"@, "страна"@],
            ),
        headers_of(SemanticField::Country).len() == 3,
{
    description_headers_say_it();
    trademark_headers_say_it();
    country_headers_say_it();
}

/// Column `i` goes by a header with the key `key`: its name, its header, or
/// another header of the declaration type.
pub open spec fn goes_by(schema: Schema, i: int, key: Seq<char>) -> bool {
    0 <= i < schema.columns@.len() && (header_key(schema.columns@[i].name@) == key || header_key(
        schema.columns@[i].header@,
    ) == key || (schema.place("declaration_type"@) == Some(i) && alias_key(
        key,
        DECLARATION_TYPE_ALIASES@,
    )))
}

/// Column `i` has the header `header` but for the blanks around it.
pub open spec fn titled(schema: Schema, i: int, header: Seq<char>) -> bool {
    trimmed(schema.columns@[i].header@) == trimmed(header)
}

/// The canonical column of a header: the first with that header, or else the
/// only one that goes by it.
pub open spec fn canonical_place(schema: Schema, header: Seq<char>) -> Option<int> {
    let n = schema.columns@.len() as int;
    let key = header_key(trimmed(header));
    match first_upto(n, |i: int| titled(schema, i, header)) {
        Some(i) => Some(i),
        None => if key.len() > 0 && count_upto(n, |i: int| goes_by(schema, i, key)) == 1 {
            first_upto(n, |i: int| goes_by(schema, i, key))
        } else {
            None
        },
    }
}

/// The canonical column of a header.
pub fn canonical_column(schema: &Schema, header: &str) -> (r: Option<usize>)
    ensures
        match r {
            Some(i) => canonical_place(*schema, header@) == Some(i as int) && i
                < schema.columns@.len(),
            None => canonical_place(*schema, header@) is None,
        },
{
    let ghost n = schema.columns@.len() as int;
    let ghost by_title = |i: int| titled(*schema, i, header@);
    let bare = trim(header);
    let mut i: usize = 0;
    while i < schema.columns.len()
        invariant
            i <= schema.columns@.len(),
            n == schema.columns@.len(),
            bare@ == trimmed(header@),
            by_title == (|i: int| titled(*schema, i, header@)),
            forall|j: int| 0 <= j < i ==> !#[trigger] by_title(j),
        decreases schema.columns.len() - i,
    {
        if trim(schema.columns[i].header.as_str()) == bare {
            proof {
                assert(by_title(i as int));
                first_is(n, by_title, i as int);
            }
            return Some(i);
        }
        i += 1;
    }
    proof {
        none_found(n, by_title);
    }
    let key = normalize_header(bare.as_str());
    if key.as_str().unicode_len() == 0 {
        return None;
    }
    let ghost by_key = |i: int| goes_by(*schema, i, key@);
    let special = schema.position("declaration_type");
    let special_key = is_alias_key(key.as_str(), &DECLARATION_TYPE_ALIASES);
    let mut found: Option<usize> = None;
    let mut k: usize = 0;
    while k < schema.columns.len()
        invariant
            k <= schema.columns@.len(),
            n == schema.columns@.len(),
            key@ == header_key(trimmed(header@)),
            key@.len() > 0,
            first_upto(n, |i: int| titled(*schema, i, header@)) is None,
            by_key == (|i: int| goes_by(*schema, i, key@)),
            special_key == alias_key(key@, DECLARATION_TYPE_ALIASES@),
            match special {
                Some(s) => schema.place("declaration_type"@) == Some(s as int),
                None => schema.place("declaration_type"@) is None,
            },
            match found {
                Some(f) => f < k && by_key(f as int) && first_upto(k as int, by_key) == Some(
                    f as int,
                ) && count_upto(k as int, by_key) == 1,
                None => first_upto(k as int, by_key) is None && count_upto(k as int, by_key) == 0,
            },
        decreases schema.columns.len() - k,
    {
        let by_name = normalize_header(schema.columns[k].name.as_str()) == key;
        let by_header = normalize_header(schema.columns[k].header.as_str()) == key;
        let is_special = match special {
            Some(s) => s == k,
            None => false,
        };
        if by_name || by_header || (is_special && special_key) {
            assert(by_key(k as int));
            match found {
                Some(f) => {
                    proof {
                        counted_twice(n, by_key, f as int, k as int);
                    }
                    return None;
                },
                None => {
                    found = Some(k);
                },
            }
        } else {
            assert(!by_key(k as int));
        }
        k += 1;
    }
    found
}

} // verus!
