//! Each listed header stands under one meaning alone.
use vstd::prelude::*;
use vstd::string::*;

use crate::import::aliases::{
    a_header_of_one_meaning_has_it, alias_key, header_key, header_match, headers_of,
    COMPANY_CODE_ALIASES, COUNTRY_ALIASES, CURRENCY_ALIASES, DATE_ALIASES,
    DECLARATION_NUMBER_ALIASES, DESCRIPTION_ALIASES, DISPATCH_COUNTRY_ALIASES,
    GROSS_WEIGHT_ALIASES, NET_WEIGHT_ALIASES, ORIGIN_COUNTRY_ALIASES, PRODUCT_CODE_ALIASES,
    QUANTITY_ALIASES, RECIPIENT_ALIASES, SENDER_ALIASES, TRADEMARK_ALIASES,
    TRADE_COUNTRY_ALIASES, VALUE_ALIASES, WEIGHT_UNIT_ALIASES,
};
use crate::import::cells::without_marks;
use crate::table::SemanticField;
use crate::text::{alphanumeric, lower_char, lower_chars};

verus! {

/// A small letter of the alphabets that the listed headers are written in.
pub open spec fn small_letter(c: char) -> bool {
    'a' <= c <= 'z' || 'а' <= c <= 'я' || c == 'є' || c == 'і' || c == 'ї'
}

/// Small letters are read as what they are: they count as letters and are lowered
/// to themselves, and a blank counts as none.
pub open spec fn letters_are_read() -> bool {
    !alphanumeric(' ') && forall|c: char| #[trigger]
        small_letter(c) ==> alphanumeric(c) && lower_char(c) == seq![c]
}

/// A text of small letters and blanks.
spec fn plain(s: Seq<char>) -> bool {
    forall|i: int| 0 <= i < s.len() ==> small_letter(#[trigger] s[i]) || s[i] == ' '
}

/// A text without its blanks.
spec fn unspaced(s: Seq<char>) -> Seq<char>
    decreases s.len(),
{
    if s.len() == 0 {
        Seq::empty()
    } else if s.last() == ' ' {
        unspaced(s.drop_last())
    } else {
        unspaced(s.drop_last()).push(s.last())
    }
}

/// What is left of a plain text by the letters it keeps is the text without its
/// blanks.
proof fn kept_letters(s: Seq<char>)
    requires
        letters_are_read(),
        plain(s),
    ensures
        lower_chars(s.filter(|c: char| alphanumeric(c))) == unspaced(s),
    decreases s.len(),
{
    reveal(Seq::filter);
    let keep = |c: char| alphanumeric(c);
    if s.len() > 0 {
        let front = s.drop_last();
        assert forall|i: int| 0 <= i < front.len() implies small_letter(#[trigger] front[i])
            || front[i] == ' ' by {
            assert(front[i] == s[i]);
        }
        kept_letters(front);
        assert(s.last() == s[s.len() - 1]);
        if s.last() != ' ' {
            let kept = front.filter(keep);
            assert(s.filter(keep) =~= kept.push(s.last()));
            assert(kept.push(s.last()).drop_last() =~= kept);
            assert(lower_chars(s.filter(keep)) =~= lower_chars(kept).push(s.last()));
        } else {
            assert(s.filter(keep) =~= front.filter(keep));
        }
    }
}

/// The key of a plain header is the header without its blanks.
proof fn plain_key(s: Seq<char>)
    requires
        letters_are_read(),
        plain(s),
    ensures
        header_key(s) == unspaced(s),
{
    if s.len() > 0 {
        assert(small_letter(s[0]) || s[0] == ' ');
    }
    assert(without_marks(s) == s);
    kept_letters(s);
}

/// A word has no blank to leave out.
proof fn one_word(s: Seq<char>)
    requires
        forall|i: int| 0 <= i < s.len() ==> s[i] != ' ',
    ensures
        unspaced(s) == s,
    decreases s.len(),
{
    if s.len() > 0 {
        one_word(s.drop_last());
        assert(s.drop_last().push(s.last()) =~= s);
    }
}

/// Blanks are left out between words.
proof fn word_more(a: Seq<char>, b: Seq<char>)
    requires
        forall|i: int| 0 <= i < b.len() ==> b[i] != ' ',
    ensures
        unspaced(a + seq![' '] + b) == unspaced(a) + b,
    decreases b.len(),
{
    let s = a + seq![' '] + b;
    if b.len() == 0 {
        assert(s.drop_last() =~= a);
        assert(unspaced(a) + b =~= unspaced(a));
    } else {
        word_more(a, b.drop_last());
        assert(s.drop_last() =~= a + seq![' '] + b.drop_last());
        assert((unspaced(a) + b.drop_last()).push(b.last()) =~= unspaced(a) + b);
    }
}

/// The key of a header of one word.
proof fn key_of_one(a: Seq<char>)
    requires
        letters_are_read(),
        plain(a),
        forall|i: int| 0 <= i < a.len() ==> a[i] != ' ',
    ensures
        header_key(a) == a,
{
    plain_key(a);
    one_word(a);
}

/// The key of a header of two words.
proof fn key_of_two(s: Seq<char>, a: Seq<char>, b: Seq<char>)
    requires
        letters_are_read(),
        s == a + seq![' '] + b,
        plain(s),
        forall|i: int| 0 <= i < a.len() ==> a[i] != ' ',
        forall|i: int| 0 <= i < b.len() ==> b[i] != ' ',
    ensures
        header_key(s) == a + b,
{
    plain_key(s);
    one_word(a);
    word_more(a, b);
}

/// The key of a header of three words.
proof fn key_of_three(s: Seq<char>, a: Seq<char>, b: Seq<char>, c: Seq<char>)
    requires
        letters_are_read(),
        s == a + seq![' '] + b + seq![' '] + c,
        plain(s),
        forall|i: int| 0 <= i < a.len() ==> a[i] != ' ',
        forall|i: int| 0 <= i < b.len() ==> b[i] != ' ',
        forall|i: int| 0 <= i < c.len() ==> c[i] != ' ',
    ensures
        header_key(s) == a + b + c,
{
    plain_key(s);
    one_word(a);
    word_more(a, b);
    word_more(a + seq![' '] + b, c);
}

/// The meaning that a listed key tells by its length and a few of its letters.
#[verifier::opaque]
spec fn told_meaning(k: Seq<char>) -> SemanticField {
    if k.len() == 2 {
        SemanticField::ProductCode
    } else if k.len() == 3 {
        if k[0] == 'c' {
            SemanticField::Currency
        } else {
            if k[0] == 's' {
                SemanticField::ProductCode
            } else {
                SemanticField::Quantity
            }
        }
    } else if k.len() == 4 {
        if k[0] == 'о' {
            SemanticField::Description
        } else {
            if k[0] == 'с' {
                SemanticField::Value
            } else {
                SemanticField::Date
            }
        }
    } else if k.len() == 5 {
        if k[3] == 'e' {
            if k[0] == 'b' {
                SemanticField::Recipient
            } else {
                SemanticField::ProductCode
            }
        } else {
            if k[0] == 'c' {
                SemanticField::Quantity
            } else {
                if k[0] == 'n' {
                    SemanticField::NetWeight
                } else {
                    if k[0] == 'b' {
                        SemanticField::Trademark
                    } else {
                        if k[0] == 'б' {
                            SemanticField::Trademark
                        } else {
                            SemanticField::Value
                        }
                    }
                }
            }
        }
    } else if k.len() == 6 {
        if k[5] == 'а' {
            if k[0] == 'в' {
                SemanticField::Currency
            } else {
                SemanticField::Country
            }
        } else {
            if k[0] == 's' {
                SemanticField::Sender
            } else {
                if k[2] == 'т' {
                    if k[0] == 'д' {
                        SemanticField::Date
                    } else {
                        SemanticField::TradeCountry
                    }
                } else {
                    if k[0] == 'o' {
                        SemanticField::OriginCountry
                    } else {
                        if k[0] == 'a' {
                            SemanticField::Value
                        } else {
                            if k[1] == 'д' {
                                SemanticField::CompanyCode
                            } else {
                                if k[0] == 'e' {
                                    SemanticField::CompanyCode
                                } else {
                                    SemanticField::ProductCode
                                }
                            }
                        }
                    }
                }
            }
        }
    } else if k.len() == 7 {
        if k[0] == 'н' {
            if k[1] == 'о' {
                SemanticField::DeclarationNumber
            } else {
                SemanticField::NetWeight
            }
        } else {
            if k[3] == 's' {
                if k[0] == 'g' {
                    SemanticField::GrossWeight
                } else {
                    SemanticField::WeightUnit
                }
            } else {
                if k[0] == 's' {
                    SemanticField::Sender
                } else {
                    if k[0] == 'к' {
                        SemanticField::DispatchCountry
                    } else {
                        if k[0] == 'b' {
                            SemanticField::CompanyCode
                        } else {
                            if k[0] == 'c' {
                                SemanticField::Country
                            } else {
                                SemanticField::ProductCode
                            }
                        }
                    }
                }
            }
        }
    } else if k.len() == 8 {
        if k[6] == 'e' {
            if k[2] == 'p' {
                if k[0] == 'i' {
                    SemanticField::Recipient
                } else {
                    SemanticField::Sender
                }
            } else {
                SemanticField::Recipient
            }
        } else {
            if k[1] == 'о' {
                if k[0] == 'к' {
                    SemanticField::ProductCode
                } else {
                    if k[0] == 'н' {
                        SemanticField::DeclarationNumber
                    } else {
                        SemanticField::Recipient
                    }
                }
            } else {
                if k[1] == 'u' {
                    if k[0] == 'c' {
                        SemanticField::Currency
                    } else {
                        SemanticField::Quantity
                    }
                } else {
                    if k[1] == 'р' {
                        if k[0] == 'б' {
                            SemanticField::GrossWeight
                        } else {
                            SemanticField::OriginCountry
                        }
                    } else {
                        if k[0] == 'в' {
                            if k[1] == 'е' {
                                SemanticField::NetWeight
                            } else {
                                SemanticField::Value
                            }
                        } else {
                            if k[1] == 'a' {
                                if k[0] == 'm' {
                                    SemanticField::WeightUnit
                                } else {
                                    SemanticField::Value
                                }
                            } else {
                                if k[0] == 's' {
                                    SemanticField::DispatchCountry
                                } else {
                                    if k[4] == 'c' {
                                        SemanticField::ProductCode
                                    } else {
                                        SemanticField::Description
                                    }
                                }
                            }
                        }
                    }
                }
            }
        }
    } else if k.len() == 9 {
        if k[7] == 'т' {
            if k[0] == 'к' {
                if k[1] == 'о' {
                    SemanticField::Currency
                } else {
                    SemanticField::Quantity
                }
            } else {
                if k[0] == 'с' {
                    SemanticField::Value
                } else {
                    if k[1] == 'е' {
                        SemanticField::GrossWeight
                    } else {
                        SemanticField::NetWeight
                    }
                }
            }
        } else {
            if k[6] == 'u' {
                if k[0] == 'w' {
                    SemanticField::WeightUnit
                } else {
                    if k[0] == 'u' {
                        SemanticField::Quantity
                    } else {
                        SemanticField::Value
                    }
                }
            } else {
                if k[6] == 'a' {
                    if k[1] == 'r' {
                        if k[0] == 'o' {
                            SemanticField::Date
                        } else {
                            SemanticField::Trademark
                        }
                    } else {
                        if k[0] == 'g' {
                            SemanticField::Description
                        } else {
                            SemanticField::Recipient
                        }
                    }
                } else {
                    if k[1] == 'e' {
                        if k[0] == 'r' {
                            SemanticField::Recipient
                        } else {
                            SemanticField::NetWeight
                        }
                    } else {
                        if k[0] == 'о' {
                            SemanticField::Recipient
                        } else {
                            if k[4] == 'i' {
                                if k[0] == 'c' {
                                    SemanticField::Recipient
                                } else {
                                    SemanticField::DeclarationNumber
                                }
                            } else {
                                if k[0] == 'т' {
                                    SemanticField::Trademark
                                } else {
                                    if k[4] == 'д' {
                                        SemanticField::CompanyCode
                                    } else {
                                        if k[0] == 'b' {
                                            SemanticField::CompanyCode
                                        } else {
                                            if k[0] == 'c' {
                                                SemanticField::CompanyCode
                                            } else {
                                                SemanticField::ProductCode
                                            }
                                        }
                                    }
                                }
                            }
                        }
                    }
                }
            }
        }
    } else if k.len() == 10 {
        if k[1] == 'о' {
            if k[0] == 'к' {
                SemanticField::Quantity
            } else {
                SemanticField::Recipient
            }
        } else {
            if k[0] == 'в' {
                if k[1] == 'а' {
                    if k[2] == 'г' {
                        SemanticField::GrossWeight
                    } else {
                        SemanticField::Currency
                    }
                } else {
                    if k[1] == 'е' {
                        SemanticField::NetWeight
                    } else {
                        SemanticField::Sender
                    }
                }
            } else {
                if k[1] == 'e' {
                    if k[0] == 'w' {
                        SemanticField::WeightUnit
                    } else {
                        SemanticField::Sender
                    }
                } else {
                    if k[0] == 'u' {
                        SemanticField::ProductCode
                    } else {
                        if k[0] == 'i' {
                            SemanticField::CompanyCode
                        } else {
                            if k[0] == 'd' {
                                SemanticField::DeclarationNumber
                            } else {
                                if k[1] == 'п' {
                                    SemanticField::Description
                                } else {
                                    SemanticField::Value
                                }
                            }
                        }
                    }
                }
            }
        }
    } else if k.len() == 11 {
        if k[1] == 'д' {
            SemanticField::WeightUnit
        } else {
            if k[5] == 'c' {
                if k[0] == 'p' {
                    if k[7] == 'n' {
                        SemanticField::Description
                    } else {
                        SemanticField::ProductCode
                    }
                } else {
                    SemanticField::Date
                }
            } else {
                if k[5] == 'r' {
                    if k[0] == 'd' {
                        SemanticField::DeclarationNumber
                    } else {
                        SemanticField::Currency
                    }
                } else {
                    if k[5] == 'а' {
                        if k[0] == 'в' {
                            SemanticField::Currency
                        } else {
                            SemanticField::Value
                        }
                    } else {
                        if k[2] == 't' {
                            if k[0] == 'n' {
                                SemanticField::NetWeight
                            } else {
                                SemanticField::Value
                            }
                        } else {
                            if k[0] == 'к' {
                                SemanticField::CompanyCode
                            } else {
                                if k[8] == 't' {
                                    if k[0] == 'w' {
                                        SemanticField::NetWeight
                                    } else {
                                        SemanticField::CompanyCode
                                    }
                                } else {
                                    if k[0] == 'c' {
                                        SemanticField::CompanyCode
                                    } else {
                                        if k[2] == 'г' {
                                            SemanticField::NetWeight
                                        } else {
                                            if k[0] == 'н' {
                                                SemanticField::Description
                                            } else {
                                                if k[0] == 'd' {
                                                    SemanticField::Description
                                                } else {
                                                    if k[1] == 'п' {
                                                        SemanticField::Description
                                                    } else {
                                                        if k[0] == 's' {
                                                            SemanticField::Sender
                                                        } else {
                                                            if k[0] == 'о' {
                                                                SemanticField::Sender
                                                            } else {
                                                                if k[1] == 'і' {
                                                                    SemanticField::Sender
                                                                } else {
                                                                    SemanticField::GrossWeight
                                                                }
                                                            }
                                                        }
                                                    }
                                                }
                                            }
                                        }
                                    }
                                }
                            }
                        }
                    }
                }
            }
        }
    } else if k.len() == 12 {
        if k[7] == 'r' {
            if k[8] == 'n' {
                if k[2] == 'p' {
                    if k[0] == 'i' {
                        SemanticField::Recipient
                    } else {
                        SemanticField::Sender
                    }
                } else {
                    SemanticField::Recipient
                }
            } else {
                SemanticField::CompanyCode
            }
        } else {
            if k[10] == 'к' {
                if k[0] == 'т' {
                    SemanticField::Trademark
                } else {
                    SemanticField::GrossWeight
                }
            } else {
                if k[4] == 'e' {
                    if k[0] == 'c' {
                        SemanticField::Currency
                    } else {
                        SemanticField::TradeCountry
                    }
                } else {
                    if k[0] == 'н' {
                        SemanticField::Recipient
                    } else {
                        if k[0] == 'е' {
                            SemanticField::WeightUnit
                        } else {
                            if k[0] == 'd' {
                                SemanticField::Date
                            } else {
                                SemanticField::Value
                            }
                        }
                    }
                }
            }
        }
    } else if k.len() == 13 {
        if k[7] == 'o' {
            if k[0] == 's' {
                if k[1] == 'e' {
                    SemanticField::TradeCountry
                } else {
                    SemanticField::DispatchCountry
                }
            } else {
                SemanticField::OriginCountry
            }
        } else {
            if k[10] == 'n' {
                if k[0] == 'd' {
                    SemanticField::DeclarationNumber
                } else {
                    if k[0] == 'n' {
                        SemanticField::WeightUnit
                    } else {
                        SemanticField::Currency
                    }
                }
            } else {
                if k[9] == 'n' {
                    SemanticField::Recipient
                } else {
                    if k[7] == 'n' {
                        if k[0] == 'r' {
                            SemanticField::CompanyCode
                        } else {
                            SemanticField::DeclarationNumber
                        }
                    } else {
                        if k[11] == 'k' {
                            SemanticField::GrossWeight
                        } else {
                            if k[0] == 'т' {
                                SemanticField::Trademark
                            } else {
                                if k[0] == 'д' {
                                    SemanticField::Date
                                } else {
                                    if k[1] == 'l' {
                                        SemanticField::Date
                                    } else {
                                        SemanticField::ProductCode
                                    }
                                }
                            }
                        }
                    }
                }
            }
        }
    } else if k.len() == 14 {
        if k[0] == 'д' {
            SemanticField::Date
        } else {
            if k[4] == 'а' {
                SemanticField::Description
            } else {
                if k[3] == 'u' {
                    if k[0] == 'a' {
                        SemanticField::Currency
                    } else {
                        SemanticField::DeclarationNumber
                    }
                } else {
                    if k[0] == 'н' {
                        SemanticField::DeclarationNumber
                    } else {
                        SemanticField::TradeCountry
                    }
                }
            }
        }
    } else if k.len() == 15 {
        if k[9] == 'o' {
            if k[3] == 'p' {
                SemanticField::DispatchCountry
            } else {
                if k[0] == 'c' {
                    SemanticField::OriginCountry
                } else {
                    SemanticField::Date
                }
            }
        } else {
            if k[0] == 'н' {
                if k[1] == 'о' {
                    SemanticField::DeclarationNumber
                } else {
                    SemanticField::Recipient
                }
            } else {
                if k[0] == 'т' {
                    SemanticField::TradeCountry
                } else {
                    SemanticField::Description
                }
            }
        }
    } else if k.len() == 16 {
        if k[1] == 'а' {
            if k[0] == 'ф' {
                SemanticField::Value
            } else {
                SemanticField::Sender
            }
        } else {
            if k[0] == 'g' {
                SemanticField::Description
            } else {
                if k[0] == 'd' {
                    SemanticField::DispatchCountry
                } else {
                    SemanticField::OriginCountry
                }
            }
        }
    } else if k.len() == 17 {
        if k[7] == 't' {
            if k[0] == 'm' {
                SemanticField::Trademark
            } else {
                SemanticField::DeclarationNumber
            }
        } else {
            SemanticField::DispatchCountry
        }
    } else if k.len() == 18 {
        if k[0] == 'к' {
            if k[1] == 'о' {
                SemanticField::CompanyCode
            } else {
                SemanticField::DispatchCountry
            }
        } else {
            if k[0] == 'ф' {
                SemanticField::Value
            } else {
                SemanticField::Description
            }
        }
    } else if k.len() == 19 {
        SemanticField::OriginCountry
    } else if k.len() == 20 {
        if k[0] == 'c' {
            SemanticField::Description
        } else {
            SemanticField::Recipient
        }
    } else if k.len() == 21 {
        SemanticField::Sender
    } else if k.len() == 22 {
        SemanticField::Recipient
    } else if k.len() == 23 {
        if k[2] == 'и' {
            SemanticField::Sender
        } else {
            SemanticField::Recipient
        }
    } else {
        SemanticField::Sender
    }
}

/// The keys that are listed as date tell it.
#[verifier::spinoff_prover]
#[verifier::rlimit(80)]
proof fn date_keys()
    requires
        letters_are_read(),
    ensures
        forall|i: int|
            0 <= i < 13 ==> told_meaning(header_key((#[trigger] DATE_ALIASES@[i])@)) == SemanticField::Date,
{
    assert forall|i: int| 0 <= i < 13 implies told_meaning(header_key((#[trigger] DATE_ALIASES@[i])@))
        == SemanticField::Date by {
        assert(told_meaning(header_key("date"@)) == SemanticField::Date) by {
            reveal(told_meaning);
            reveal_strlit("date");
            key_of_one("date"@);
        }
        assert(told_meaning(header_key("order date"@)) == SemanticField::Date) by {
            reveal(told_meaning);
            reveal_strlit("order date");
            reveal_strlit("order");
            reveal_strlit("date");
            assert("order date"@ =~= "order"@ + seq![' '] + "date"@);
            key_of_two("order date"@, "order"@, "date"@);
        }
        assert(told_meaning(header_key("document date"@)) == SemanticField::Date) by {
            reveal(told_meaning);
            reveal_strlit("document date");
            reveal_strlit("document");
            reveal_strlit("date");
            assert("document date"@ =~= "document"@ + seq![' '] + "date"@);
            key_of_two("document date"@, "document"@, "date"@);
        }
        assert(told_meaning(header_key("declaration date"@)) == SemanticField::Date) by {
            reveal(told_meaning);
            reveal_strlit("declaration date");
            reveal_strlit("declaration");
            reveal_strlit("date");
            assert("declaration date"@ =~= "declaration"@ + seq![' '] + "date"@);
            key_of_two("declaration date"@, "declaration"@, "date"@);
        }
        assert(told_meaning(header_key("clearance date"@)) == SemanticField::Date) by {
            reveal(told_meaning);
            reveal_strlit("clearance date");
            reveal_strlit("clearance");
            reveal_strlit("date");
            assert("clearance date"@ =~= "clearance"@ + seq![' '] + "date"@);
            key_of_two("clearance date"@, "clearance"@, "date"@);
        }
        assert(told_meaning(header_key("invoice date"@)) == SemanticField::Date) by {
            reveal(told_meaning);
            reveal_strlit("invoice date");
            reveal_strlit("invoice");
            reveal_strlit("date");
            assert("invoice date"@ =~= "invoice"@ + seq![' '] + "date"@);
            key_of_two("invoice date"@, "invoice"@, "date"@);
        }
        assert(told_meaning(header_key("дата"@)) == SemanticField::Date) by {
            reveal(told_meaning);
            reveal_strlit("дата");
            key_of_one("дата"@);
        }
        assert(told_meaning(header_key("дата документа"@)) == SemanticField::Date) by {
            reveal(told_meaning);
            reveal_strlit("дата документа");
            reveal_strlit("дата");
            reveal_strlit("документа");
            assert("дата документа"@ =~= "дата"@ + seq![' '] + "документа"@);
            key_of_two("дата документа"@, "дата"@, "документа"@);
        }
        assert(told_meaning(header_key("дата декларації"@)) == SemanticField::Date) by {
            reveal(told_meaning);
            reveal_strlit("дата декларації");
            reveal_strlit("дата");
            reveal_strlit("декларації");
            assert("дата декларації"@ =~= "дата"@ + seq![' '] + "декларації"@);
            key_of_two("дата декларації"@, "дата"@, "декларації"@);
        }
        assert(told_meaning(header_key("дата оформлення"@)) == SemanticField::Date) by {
            reveal(told_meaning);
            reveal_strlit("дата оформлення");
            reveal_strlit("дата");
            reveal_strlit("оформлення");
            assert("дата оформлення"@ =~= "дата"@ + seq![' '] + "оформлення"@);
            key_of_two("дата оформлення"@, "дата"@, "оформлення"@);
        }
        assert(told_meaning(header_key("дата декларации"@)) == SemanticField::Date) by {
            reveal(told_meaning);
            reveal_strlit("дата декларации");
            reveal_strlit("дата");
            reveal_strlit("декларации");
            assert("дата декларации"@ =~= "дата"@ + seq![' '] + "декларации"@);
            key_of_two("дата декларации"@, "дата"@, "декларации"@);
        }
        assert(told_meaning(header_key("дата оформления"@)) == SemanticField::Date) by {
            reveal(told_meaning);
            reveal_strlit("дата оформления");
            reveal_strlit("дата");
            reveal_strlit("оформления");
            assert("дата оформления"@ =~= "дата"@ + seq![' '] + "оформления"@);
            key_of_two("дата оформления"@, "дата"@, "оформления"@);
        }
        assert(told_meaning(header_key("дата мд"@)) == SemanticField::Date) by {
            reveal(told_meaning);
            reveal_strlit("дата мд");
            reveal_strlit("дата");
            reveal_strlit("мд");
            assert("дата мд"@ =~= "дата"@ + seq![' '] + "мд"@);
            key_of_two("дата мд"@, "дата"@, "мд"@);
        }
    }
}

/// The keys that are listed as declaration number tell it.
#[verifier::spinoff_prover]
#[verifier::rlimit(80)]
proof fn declaration_number_keys()
    requires
        letters_are_read(),
    ensures
        forall|i: int|
            0 <= i < 14 ==> told_meaning(header_key((#[trigger] DECLARATION_NUMBER_ALIASES@[i])@)) == SemanticField::DeclarationNumber,
{
    assert forall|i: int| 0 <= i < 14 implies told_meaning(header_key((#[trigger] DECLARATION_NUMBER_ALIASES@[i])@))
        == SemanticField::DeclarationNumber by {
        assert(told_meaning(header_key("declaration"@)) == SemanticField::DeclarationNumber) by {
            reveal(told_meaning);
            reveal_strlit("declaration");
            key_of_one("declaration"@);
        }
        assert(told_meaning(header_key("declaration no"@)) == SemanticField::DeclarationNumber) by {
            reveal(told_meaning);
            reveal_strlit("declaration no");
            reveal_strlit("declaration");
            reveal_strlit("no");
            assert("declaration no"@ =~= "declaration"@ + seq![' '] + "no"@);
            key_of_two("declaration no"@, "declaration"@, "no"@);
        }
        assert(told_meaning(header_key("declaration number"@)) == SemanticField::DeclarationNumber) by {
            reveal(told_meaning);
            reveal_strlit("declaration number");
            reveal_strlit("declaration");
            reveal_strlit("number");
            assert("declaration number"@ =~= "declaration"@ + seq![' '] + "number"@);
            key_of_two("declaration number"@, "declaration"@, "number"@);
        }
        assert(told_meaning(header_key("declaration id"@)) == SemanticField::DeclarationNumber) by {
            reveal(told_meaning);
            reveal_strlit("declaration id");
            reveal_strlit("declaration");
            reveal_strlit("id");
            assert("declaration id"@ =~= "declaration"@ + seq![' '] + "id"@);
            key_of_two("declaration id"@, "declaration"@, "id"@);
        }
        assert(told_meaning(header_key("document no"@)) == SemanticField::DeclarationNumber) by {
            reveal(told_meaning);
            reveal_strlit("document no");
            reveal_strlit("document");
            reveal_strlit("no");
            assert("document no"@ =~= "document"@ + seq![' '] + "no"@);
            key_of_two("document no"@, "document"@, "no"@);
        }
        assert(told_meaning(header_key("document number"@)) == SemanticField::DeclarationNumber) by {
            reveal(told_meaning);
            reveal_strlit("document number");
            reveal_strlit("document");
            reveal_strlit("number");
            assert("document number"@ =~= "document"@ + seq![' '] + "number"@);
            key_of_two("document number"@, "document"@, "number"@);
        }
        assert(told_meaning(header_key("invoice no"@)) == SemanticField::DeclarationNumber) by {
            reveal(told_meaning);
            reveal_strlit("invoice no");
            reveal_strlit("invoice");
            reveal_strlit("no");
            assert("invoice no"@ =~= "invoice"@ + seq![' '] + "no"@);
            key_of_two("invoice no"@, "invoice"@, "no"@);
        }
        assert(told_meaning(header_key("invoice number"@)) == SemanticField::DeclarationNumber) by {
            reveal(told_meaning);
            reveal_strlit("invoice number");
            reveal_strlit("invoice");
            reveal_strlit("number");
            assert("invoice number"@ =~= "invoice"@ + seq![' '] + "number"@);
            key_of_two("invoice number"@, "invoice"@, "number"@);
        }
        assert(told_meaning(header_key("номер декларації"@)) == SemanticField::DeclarationNumber) by {
            reveal(told_meaning);
            reveal_strlit("номер декларації");
            reveal_strlit("номер");
            reveal_strlit("декларації");
            assert("номер декларації"@ =~= "номер"@ + seq![' '] + "декларації"@);
            key_of_two("номер декларації"@, "номер"@, "декларації"@);
        }
        assert(told_meaning(header_key("номер декларации"@)) == SemanticField::DeclarationNumber) by {
            reveal(told_meaning);
            reveal_strlit("номер декларации");
            reveal_strlit("номер");
            reveal_strlit("декларации");
            assert("номер декларации"@ =~= "номер"@ + seq![' '] + "декларации"@);
            key_of_two("номер декларации"@, "номер"@, "декларации"@);
        }
        assert(told_meaning(header_key("номер мд"@)) == SemanticField::DeclarationNumber) by {
            reveal(told_meaning);
            reveal_strlit("номер мд");
            reveal_strlit("номер");
            reveal_strlit("мд");
            assert("номер мд"@ =~= "номер"@ + seq![' '] + "мд"@);
            key_of_two("номер мд"@, "номер"@, "мд"@);
        }
        assert(told_meaning(header_key("номер вмд"@)) == SemanticField::DeclarationNumber) by {
            reveal(told_meaning);
            reveal_strlit("номер вмд");
            reveal_strlit("номер");
            reveal_strlit("вмд");
            assert("номер вмд"@ =~= "номер"@ + seq![' '] + "вмд"@);
            key_of_two("номер вмд"@, "номер"@, "вмд"@);
        }
        assert(told_meaning(header_key("номер гтд"@)) == SemanticField::DeclarationNumber) by {
            reveal(told_meaning);
            reveal_strlit("номер гтд");
            reveal_strlit("номер");
            reveal_strlit("гтд");
            assert("номер гтд"@ =~= "номер"@ + seq![' '] + "гтд"@);
            key_of_two("номер гтд"@, "номер"@, "гтд"@);
        }
        assert(told_meaning(header_key("номер документа"@)) == SemanticField::DeclarationNumber) by {
            reveal(told_meaning);
            reveal_strlit("номер документа");
            reveal_strlit("номер");
            reveal_strlit("документа");
            assert("номер документа"@ =~= "номер"@ + seq![' '] + "документа"@);
            key_of_two("номер документа"@, "номер"@, "документа"@);
        }
    }
}

/// The keys that are listed as company code tell it.
#[verifier::spinoff_prover]
#[verifier::rlimit(80)]
proof fn company_code_keys()
    requires
        letters_are_read(),
    ensures
        forall|i: int|
            0 <= i < 17 ==> told_meaning(header_key((#[trigger] COMPANY_CODE_ALIASES@[i])@)) == SemanticField::CompanyCode,
{
    assert forall|i: int| 0 <= i < 17 implies told_meaning(header_key((#[trigger] COMPANY_CODE_ALIASES@[i])@))
        == SemanticField::CompanyCode by {
        assert(told_meaning(header_key("company code"@)) == SemanticField::CompanyCode) by {
            reveal(told_meaning);
            reveal_strlit("company code");
            reveal_strlit("company");
            reveal_strlit("code");
            assert("company code"@ =~= "company"@ + seq![' '] + "code"@);
            key_of_two("company code"@, "company"@, "code"@);
        }
        assert(told_meaning(header_key("company id"@)) == SemanticField::CompanyCode) by {
            reveal(told_meaning);
            reveal_strlit("company id");
            reveal_strlit("company");
            reveal_strlit("id");
            assert("company id"@ =~= "company"@ + seq![' '] + "id"@);
            key_of_two("company id"@, "company"@, "id"@);
        }
        assert(told_meaning(header_key("recipient code"@)) == SemanticField::CompanyCode) by {
            reveal(told_meaning);
            reveal_strlit("recipient code");
            reveal_strlit("recipient");
            reveal_strlit("code");
            assert("recipient code"@ =~= "recipient"@ + seq![' '] + "code"@);
            key_of_two("recipient code"@, "recipient"@, "code"@);
        }
        assert(told_meaning(header_key("recipient id"@)) == SemanticField::CompanyCode) by {
            reveal(told_meaning);
            reveal_strlit("recipient id");
            reveal_strlit("recipient");
            reveal_strlit("id");
            assert("recipient id"@ =~= "recipient"@ + seq![' '] + "id"@);
            key_of_two("recipient id"@, "recipient"@, "id"@);
        }
        assert(told_meaning(header_key("buyer code"@)) == SemanticField::CompanyCode) by {
            reveal(told_meaning);
            reveal_strlit("buyer code");
            reveal_strlit("buyer");
            reveal_strlit("code");
            assert("buyer code"@ =~= "buyer"@ + seq![' '] + "code"@);
            key_of_two("buyer code"@, "buyer"@, "code"@);
        }
        assert(told_meaning(header_key("buyer id"@)) == SemanticField::CompanyCode) by {
            reveal(told_meaning);
            reveal_strlit("buyer id");
            reveal_strlit("buyer");
            reveal_strlit("id");
            assert("buyer id"@ =~= "buyer"@ + seq![' '] + "id"@);
            key_of_two("buyer id"@, "buyer"@, "id"@);
        }
        assert(told_meaning(header_key("importer code"@)) == SemanticField::CompanyCode) by {
            reveal(told_meaning);
            reveal_strlit("importer code");
            reveal_strlit("importer");
            reveal_strlit("code");
            assert("importer code"@ =~= "importer"@ + seq![' '] + "code"@);
            key_of_two("importer code"@, "importer"@, "code"@);
        }
        assert(told_meaning(header_key("importer id"@)) == SemanticField::CompanyCode) by {
            reveal(told_meaning);
            reveal_strlit("importer id");
            reveal_strlit("importer");
            reveal_strlit("id");
            assert("importer id"@ =~= "importer"@ + seq![' '] + "id"@);
            key_of_two("importer id"@, "importer"@, "id"@);
        }
        assert(told_meaning(header_key("edrpou"@)) == SemanticField::CompanyCode) by {
            reveal(told_meaning);
            reveal_strlit("edrpou");
            key_of_one("edrpou"@);
        }
        assert(told_meaning(header_key("єдрпоу"@)) == SemanticField::CompanyCode) by {
            reveal(told_meaning);
            reveal_strlit("єдрпоу");
            key_of_one("єдрпоу"@);
        }
        assert(told_meaning(header_key("едрпоу"@)) == SemanticField::CompanyCode) by {
            reveal(told_meaning);
            reveal_strlit("едрпоу");
            key_of_one("едрпоу"@);
        }
        assert(told_meaning(header_key("код єдрпоу"@)) == SemanticField::CompanyCode) by {
            reveal(told_meaning);
            reveal_strlit("код єдрпоу");
            reveal_strlit("код");
            reveal_strlit("єдрпоу");
            assert("код єдрпоу"@ =~= "код"@ + seq![' '] + "єдрпоу"@);
            key_of_two("код єдрпоу"@, "код"@, "єдрпоу"@);
        }
        assert(told_meaning(header_key("код едрпоу"@)) == SemanticField::CompanyCode) by {
            reveal(told_meaning);
            reveal_strlit("код едрпоу");
            reveal_strlit("код");
            reveal_strlit("едрпоу");
            assert("код едрпоу"@ =~= "код"@ + seq![' '] + "едрпоу"@);
            key_of_two("код едрпоу"@, "код"@, "едрпоу"@);
        }
        assert(told_meaning(header_key("код компанії"@)) == SemanticField::CompanyCode) by {
            reveal(told_meaning);
            reveal_strlit("код компанії");
            reveal_strlit("код");
            reveal_strlit("компанії");
            assert("код компанії"@ =~= "код"@ + seq![' '] + "компанії"@);
            key_of_two("код компанії"@, "код"@, "компанії"@);
        }
        assert(told_meaning(header_key("код компании"@)) == SemanticField::CompanyCode) by {
            reveal(told_meaning);
            reveal_strlit("код компании");
            reveal_strlit("код");
            reveal_strlit("компании");
            assert("код компании"@ =~= "код"@ + seq![' '] + "компании"@);
            key_of_two("код компании"@, "код"@, "компании"@);
        }
        assert(told_meaning(header_key("код фірми отримувача"@)) == SemanticField::CompanyCode) by {
            reveal(told_meaning);
            reveal_strlit("код фірми отримувача");
            reveal_strlit("код");
            reveal_strlit("фірми");
            reveal_strlit("отримувача");
            assert("код фірми отримувача"@ =~= "код"@ + seq![' '] + "фірми"@ + seq![' '] + "отримувача"@);
            key_of_three("код фірми отримувача"@, "код"@, "фірми"@, "отримувача"@);
        }
        assert(told_meaning(header_key("код фирмы получателя"@)) == SemanticField::CompanyCode) by {
            reveal(told_meaning);
            reveal_strlit("код фирмы получателя");
            reveal_strlit("код");
            reveal_strlit("фирмы");
            reveal_strlit("получателя");
            assert("код фирмы получателя"@ =~= "код"@ + seq![' '] + "фирмы"@ + seq![' '] + "получателя"@);
            key_of_three("код фирмы получателя"@, "код"@, "фирмы"@, "получателя"@);
        }
    }
}

/// The keys that are listed as sender tell it.
#[verifier::spinoff_prover]
#[verifier::rlimit(80)]
proof fn sender_keys()
    requires
        letters_are_read(),
    ensures
        forall|i: int|
            0 <= i < 17 ==> told_meaning(header_key((#[trigger] SENDER_ALIASES@[i])@)) == SemanticField::Sender,
{
    assert forall|i: int| 0 <= i < 17 implies told_meaning(header_key((#[trigger] SENDER_ALIASES@[i])@))
        == SemanticField::Sender by {
        assert(told_meaning(header_key("sender"@)) == SemanticField::Sender) by {
            reveal(told_meaning);
            reveal_strlit("sender");
            key_of_one("sender"@);
        }
        assert(told_meaning(header_key("sender name"@)) == SemanticField::Sender) by {
            reveal(told_meaning);
            reveal_strlit("sender name");
            reveal_strlit("sender");
            reveal_strlit("name");
            assert("sender name"@ =~= "sender"@ + seq![' '] + "name"@);
            key_of_two("sender name"@, "sender"@, "name"@);
        }
        assert(told_meaning(header_key("supplier"@)) == SemanticField::Sender) by {
            reveal(told_meaning);
            reveal_strlit("supplier");
            key_of_one("supplier"@);
        }
        assert(told_meaning(header_key("supplier name"@)) == SemanticField::Sender) by {
            reveal(told_meaning);
            reveal_strlit("supplier name");
            reveal_strlit("supplier");
            reveal_strlit("name");
            assert("supplier name"@ =~= "supplier"@ + seq![' '] + "name"@);
            key_of_two("supplier name"@, "supplier"@, "name"@);
        }
        assert(told_meaning(header_key("exporter"@)) == SemanticField::Sender) by {
            reveal(told_meaning);
            reveal_strlit("exporter");
            key_of_one("exporter"@);
        }
        assert(told_meaning(header_key("exporter name"@)) == SemanticField::Sender) by {
            reveal(told_meaning);
            reveal_strlit("exporter name");
            reveal_strlit("exporter");
            reveal_strlit("name");
            assert("exporter name"@ =~= "exporter"@ + seq![' '] + "name"@);
            key_of_two("exporter name"@, "exporter"@, "name"@);
        }
        assert(told_meaning(header_key("shipper"@)) == SemanticField::Sender) by {
            reveal(told_meaning);
            reveal_strlit("shipper");
            key_of_one("shipper"@);
        }
        assert(told_meaning(header_key("shipper name"@)) == SemanticField::Sender) by {
            reveal(told_meaning);
            reveal_strlit("shipper name");
            reveal_strlit("shipper");
            reveal_strlit("name");
            assert("shipper name"@ =~= "shipper"@ + seq![' '] + "name"@);
            key_of_two("shipper name"@, "shipper"@, "name"@);
        }
        assert(told_meaning(header_key("seller"@)) == SemanticField::Sender) by {
            reveal(told_meaning);
            reveal_strlit("seller");
            key_of_one("seller"@);
        }
        assert(told_meaning(header_key("seller name"@)) == SemanticField::Sender) by {
            reveal(told_meaning);
            reveal_strlit("seller name");
            reveal_strlit("seller");
            reveal_strlit("name");
            assert("seller name"@ =~= "seller"@ + seq![' '] + "name"@);
            key_of_two("seller name"@, "seller"@, "name"@);
        }
        assert(told_meaning(header_key("відправник"@)) == SemanticField::Sender) by {
            reveal(told_meaning);
            reveal_strlit("відправник");
            key_of_one("відправник"@);
        }
        assert(told_meaning(header_key("відпправник"@)) == SemanticField::Sender) by {
            reveal(told_meaning);
            reveal_strlit("відпправник");
            key_of_one("відпправник"@);
        }
        assert(told_meaning(header_key("назва відправника"@)) == SemanticField::Sender) by {
            reveal(told_meaning);
            reveal_strlit("назва відправника");
            reveal_strlit("назва");
            reveal_strlit("відправника");
            assert("назва відправника"@ =~= "назва"@ + seq![' '] + "відправника"@);
            key_of_two("назва відправника"@, "назва"@, "відправника"@);
        }
        assert(told_meaning(header_key("назва фірми відправника"@)) == SemanticField::Sender) by {
            reveal(told_meaning);
            reveal_strlit("назва фірми відправника");
            reveal_strlit("назва");
            reveal_strlit("фірми");
            reveal_strlit("відправника");
            assert("назва фірми відправника"@ =~= "назва"@ + seq![' '] + "фірми"@ + seq![' '] + "відправника"@);
            key_of_three("назва фірми відправника"@, "назва"@, "фірми"@, "відправника"@);
        }
        assert(told_meaning(header_key("отправитель"@)) == SemanticField::Sender) by {
            reveal(told_meaning);
            reveal_strlit("отправитель");
            key_of_one("отправитель"@);
        }
        assert(told_meaning(header_key("наименование отправителя"@)) == SemanticField::Sender) by {
            reveal(told_meaning);
            reveal_strlit("наименование отправителя");
            reveal_strlit("наименование");
            reveal_strlit("отправителя");
            assert("наименование отправителя"@ =~= "наименование"@ + seq![' '] + "отправителя"@);
            key_of_two("наименование отправителя"@, "наименование"@, "отправителя"@);
        }
        assert(told_meaning(header_key("название фирмы отправителя"@)) == SemanticField::Sender) by {
            reveal(told_meaning);
            reveal_strlit("название фирмы отправителя");
            reveal_strlit("название");
            reveal_strlit("фирмы");
            reveal_strlit("отправителя");
            assert("название фирмы отправителя"@ =~= "название"@ + seq![' '] + "фирмы"@ + seq![' '] + "отправителя"@);
            key_of_three("название фирмы отправителя"@, "название"@, "фирмы"@, "отправителя"@);
        }
    }
}

/// The keys that are listed as recipient tell it.
#[verifier::spinoff_prover]
#[verifier::rlimit(80)]
proof fn recipient_keys()
    requires
        letters_are_read(),
    ensures
        forall|i: int|
            0 <= i < 22 ==> told_meaning(header_key((#[trigger] RECIPIENT_ALIASES@[i])@)) == SemanticField::Recipient,
{
    assert forall|i: int| 0 <= i < 22 implies told_meaning(header_key((#[trigger] RECIPIENT_ALIASES@[i])@))
        == SemanticField::Recipient by {
        assert(told_meaning(header_key("recipient"@)) == SemanticField::Recipient) by {
            reveal(told_meaning);
            reveal_strlit("recipient");
            key_of_one("recipient"@);
        }
        assert(told_meaning(header_key("recipient name"@)) == SemanticField::Recipient) by {
            reveal(told_meaning);
            reveal_strlit("recipient name");
            reveal_strlit("recipient");
            reveal_strlit("name");
            assert("recipient name"@ =~= "recipient"@ + seq![' '] + "name"@);
            key_of_two("recipient name"@, "recipient"@, "name"@);
        }
        assert(told_meaning(header_key("receiver"@)) == SemanticField::Recipient) by {
            reveal(told_meaning);
            reveal_strlit("receiver");
            key_of_one("receiver"@);
        }
        assert(told_meaning(header_key("receiver name"@)) == SemanticField::Recipient) by {
            reveal(told_meaning);
            reveal_strlit("receiver name");
            reveal_strlit("receiver");
            reveal_strlit("name");
            assert("receiver name"@ =~= "receiver"@ + seq![' '] + "name"@);
            key_of_two("receiver name"@, "receiver"@, "name"@);
        }
        assert(told_meaning(header_key("buyer"@)) == SemanticField::Recipient) by {
            reveal(told_meaning);
            reveal_strlit("buyer");
            key_of_one("buyer"@);
        }
        assert(told_meaning(header_key("buyer name"@)) == SemanticField::Recipient) by {
            reveal(told_meaning);
            reveal_strlit("buyer name");
            reveal_strlit("buyer");
            reveal_strlit("name");
            assert("buyer name"@ =~= "buyer"@ + seq![' '] + "name"@);
            key_of_two("buyer name"@, "buyer"@, "name"@);
        }
        assert(told_meaning(header_key("customer"@)) == SemanticField::Recipient) by {
            reveal(told_meaning);
            reveal_strlit("customer");
            key_of_one("customer"@);
        }
        assert(told_meaning(header_key("customer name"@)) == SemanticField::Recipient) by {
            reveal(told_meaning);
            reveal_strlit("customer name");
            reveal_strlit("customer");
            reveal_strlit("name");
            assert("customer name"@ =~= "customer"@ + seq![' '] + "name"@);
            key_of_two("customer name"@, "customer"@, "name"@);
        }
        assert(told_meaning(header_key("importer"@)) == SemanticField::Recipient) by {
            reveal(told_meaning);
            reveal_strlit("importer");
            key_of_one("importer"@);
        }
        assert(told_meaning(header_key("importer name"@)) == SemanticField::Recipient) by {
            reveal(told_meaning);
            reveal_strlit("importer name");
            reveal_strlit("importer");
            reveal_strlit("name");
            assert("importer name"@ =~= "importer"@ + seq![' '] + "name"@);
            key_of_two("importer name"@, "importer"@, "name"@);
        }
        assert(told_meaning(header_key("consignee"@)) == SemanticField::Recipient) by {
            reveal(told_meaning);
            reveal_strlit("consignee");
            key_of_one("consignee"@);
        }
        assert(told_meaning(header_key("consignee name"@)) == SemanticField::Recipient) by {
            reveal(told_meaning);
            reveal_strlit("consignee name");
            reveal_strlit("consignee");
            reveal_strlit("name");
            assert("consignee name"@ =~= "consignee"@ + seq![' '] + "name"@);
            key_of_two("consignee name"@, "consignee"@, "name"@);
        }
        assert(told_meaning(header_key("одержувач"@)) == SemanticField::Recipient) by {
            reveal(told_meaning);
            reveal_strlit("одержувач");
            key_of_one("одержувач"@);
        }
        assert(told_meaning(header_key("отримувач"@)) == SemanticField::Recipient) by {
            reveal(told_meaning);
            reveal_strlit("отримувач");
            key_of_one("отримувач"@);
        }
        assert(told_meaning(header_key("покупець"@)) == SemanticField::Recipient) by {
            reveal(told_meaning);
            reveal_strlit("покупець");
            key_of_one("покупець"@);
        }
        assert(told_meaning(header_key("назва покупця"@)) == SemanticField::Recipient) by {
            reveal(told_meaning);
            reveal_strlit("назва покупця");
            reveal_strlit("назва");
            reveal_strlit("покупця");
            assert("назва покупця"@ =~= "назва"@ + seq![' '] + "покупця"@);
            key_of_two("назва покупця"@, "назва"@, "покупця"@);
        }
        assert(told_meaning(header_key("назва отримувача"@)) == SemanticField::Recipient) by {
            reveal(told_meaning);
            reveal_strlit("назва отримувача");
            reveal_strlit("назва");
            reveal_strlit("отримувача");
            assert("назва отримувача"@ =~= "назва"@ + seq![' '] + "отримувача"@);
            key_of_two("назва отримувача"@, "назва"@, "отримувача"@);
        }
        assert(told_meaning(header_key("назва фірми отримувача"@)) == SemanticField::Recipient) by {
            reveal(told_meaning);
            reveal_strlit("назва фірми отримувача");
            reveal_strlit("назва");
            reveal_strlit("фірми");
            reveal_strlit("отримувача");
            assert("назва фірми отримувача"@ =~= "назва"@ + seq![' '] + "фірми"@ + seq![' '] + "отримувача"@);
            key_of_three("назва фірми отримувача"@, "назва"@, "фірми"@, "отримувача"@);
        }
        assert(told_meaning(header_key("получатель"@)) == SemanticField::Recipient) by {
            reveal(told_meaning);
            reveal_strlit("получатель");
            key_of_one("получатель"@);
        }
        assert(told_meaning(header_key("покупатель"@)) == SemanticField::Recipient) by {
            reveal(told_meaning);
            reveal_strlit("покупатель");
            key_of_one("покупатель"@);
        }
        assert(told_meaning(header_key("наименование получателя"@)) == SemanticField::Recipient) by {
            reveal(told_meaning);
            reveal_strlit("наименование получателя");
            reveal_strlit("наименование");
            reveal_strlit("получателя");
            assert("наименование получателя"@ =~= "наименование"@ + seq![' '] + "получателя"@);
            key_of_two("наименование получателя"@, "наименование"@, "получателя"@);
        }
        assert(told_meaning(header_key("название фирмы получателя"@)) == SemanticField::Recipient) by {
            reveal(told_meaning);
            reveal_strlit("название фирмы получателя");
            reveal_strlit("название");
            reveal_strlit("фирмы");
            reveal_strlit("получателя");
            assert("название фирмы получателя"@ =~= "название"@ + seq![' '] + "фирмы"@ + seq![' '] + "получателя"@);
            key_of_three("название фирмы получателя"@, "название"@, "фирмы"@, "получателя"@);
        }
    }
}

/// The keys that are listed as product code tell it.
#[verifier::spinoff_prover]
#[verifier::rlimit(80)]
proof fn product_code_keys()
    requires
        letters_are_read(),
    ensures
        forall|i: int|
            0 <= i < 22 ==> told_meaning(header_key((#[trigger] PRODUCT_CODE_ALIASES@[i])@)) == SemanticField::ProductCode,
{
    assert forall|i: int| 0 <= i < 22 implies told_meaning(header_key((#[trigger] PRODUCT_CODE_ALIASES@[i])@))
        == SemanticField::ProductCode by {
        assert(told_meaning(header_key("sku"@)) == SemanticField::ProductCode) by {
            reveal(told_meaning);
            reveal_strlit("sku");
            key_of_one("sku"@);
        }
        assert(told_meaning(header_key("article"@)) == SemanticField::ProductCode) by {
            reveal(told_meaning);
            reveal_strlit("article");
            key_of_one("article"@);
        }
        assert(told_meaning(header_key("article no"@)) == SemanticField::ProductCode) by {
            reveal(told_meaning);
            reveal_strlit("article no");
            reveal_strlit("article");
            reveal_strlit("no");
            assert("article no"@ =~= "article"@ + seq![' '] + "no"@);
            key_of_two("article no"@, "article"@, "no"@);
        }
        assert(told_meaning(header_key("product code"@)) == SemanticField::ProductCode) by {
            reveal(told_meaning);
            reveal_strlit("product code");
            reveal_strlit("product");
            reveal_strlit("code");
            assert("product code"@ =~= "product"@ + seq![' '] + "code"@);
            key_of_two("product code"@, "product"@, "code"@);
        }
        assert(told_meaning(header_key("item code"@)) == SemanticField::ProductCode) by {
            reveal(told_meaning);
            reveal_strlit("item code");
            reveal_strlit("item");
            reveal_strlit("code");
            assert("item code"@ =~= "item"@ + seq![' '] + "code"@);
            key_of_two("item code"@, "item"@, "code"@);
        }
        assert(told_meaning(header_key("goods code"@)) == SemanticField::ProductCode) by {
            reveal(told_meaning);
            reveal_strlit("goods code");
            reveal_strlit("goods");
            reveal_strlit("code");
            assert("goods code"@ =~= "goods"@ + seq![' '] + "code"@);
            key_of_two("goods code"@, "goods"@, "code"@);
        }
        assert(told_meaning(header_key("commodity code"@)) == SemanticField::ProductCode) by {
            reveal(told_meaning);
            reveal_strlit("commodity code");
            reveal_strlit("commodity");
            reveal_strlit("code");
            assert("commodity code"@ =~= "commodity"@ + seq![' '] + "code"@);
            key_of_two("commodity code"@, "commodity"@, "code"@);
        }
        assert(told_meaning(header_key("hs"@)) == SemanticField::ProductCode) by {
            reveal(told_meaning);
            reveal_strlit("hs");
            key_of_one("hs"@);
        }
        assert(told_meaning(header_key("hs code"@)) == SemanticField::ProductCode) by {
            reveal(told_meaning);
            reveal_strlit("hs code");
            reveal_strlit("hs");
            reveal_strlit("code");
            assert("hs code"@ =~= "hs"@ + seq![' '] + "code"@);
            key_of_two("hs code"@, "hs"@, "code"@);
        }
        assert(told_meaning(header_key("hscode"@)) == SemanticField::ProductCode) by {
            reveal(told_meaning);
            reveal_strlit("hscode");
            key_of_one("hscode"@);
        }
        assert(told_meaning(header_key("uktzed"@)) == SemanticField::ProductCode) by {
            reveal(told_meaning);
            reveal_strlit("uktzed");
            key_of_one("uktzed"@);
        }
        assert(told_meaning(header_key("ukt zed"@)) == SemanticField::ProductCode) by {
            reveal(told_meaning);
            reveal_strlit("ukt zed");
            reveal_strlit("ukt");
            reveal_strlit("zed");
            assert("ukt zed"@ =~= "ukt"@ + seq![' '] + "zed"@);
            key_of_two("ukt zed"@, "ukt"@, "zed"@);
        }
        assert(told_meaning(header_key("uktzed code"@)) == SemanticField::ProductCode) by {
            reveal(told_meaning);
            reveal_strlit("uktzed code");
            reveal_strlit("uktzed");
            reveal_strlit("code");
            assert("uktzed code"@ =~= "uktzed"@ + seq![' '] + "code"@);
            key_of_two("uktzed code"@, "uktzed"@, "code"@);
        }
        assert(told_meaning(header_key("tnved"@)) == SemanticField::ProductCode) by {
            reveal(told_meaning);
            reveal_strlit("tnved");
            key_of_one("tnved"@);
        }
        assert(told_meaning(header_key("tnved code"@)) == SemanticField::ProductCode) by {
            reveal(told_meaning);
            reveal_strlit("tnved code");
            reveal_strlit("tnved");
            reveal_strlit("code");
            assert("tnved code"@ =~= "tnved"@ + seq![' '] + "code"@);
            key_of_two("tnved code"@, "tnved"@, "code"@);
        }
        assert(told_meaning(header_key("артикул"@)) == SemanticField::ProductCode) by {
            reveal(told_meaning);
            reveal_strlit("артикул");
            key_of_one("артикул"@);
        }
        assert(told_meaning(header_key("артикул товару"@)) == SemanticField::ProductCode) by {
            reveal(told_meaning);
            reveal_strlit("артикул товару");
            reveal_strlit("артикул");
            reveal_strlit("товару");
            assert("артикул товару"@ =~= "артикул"@ + seq![' '] + "товару"@);
            key_of_two("артикул товару"@, "артикул"@, "товару"@);
        }
        assert(told_meaning(header_key("код товару"@)) == SemanticField::ProductCode) by {
            reveal(told_meaning);
            reveal_strlit("код товару");
            reveal_strlit("код");
            reveal_strlit("товару");
            assert("код товару"@ =~= "код"@ + seq![' '] + "товару"@);
            key_of_two("код товару"@, "код"@, "товару"@);
        }
        assert(told_meaning(header_key("код уктзед"@)) == SemanticField::ProductCode) by {
            reveal(told_meaning);
            reveal_strlit("код уктзед");
            reveal_strlit("код");
            reveal_strlit("уктзед");
            assert("код уктзед"@ =~= "код"@ + seq![' '] + "уктзед"@);
            key_of_two("код уктзед"@, "код"@, "уктзед"@);
        }
        assert(told_meaning(header_key("код товар"@)) == SemanticField::ProductCode) by {
            reveal(told_meaning);
            reveal_strlit("код товар");
            reveal_strlit("код");
            reveal_strlit("товар");
            assert("код товар"@ =~= "код"@ + seq![' '] + "товар"@);
            key_of_two("код товар"@, "код"@, "товар"@);
        }
        assert(told_meaning(header_key("код товара"@)) == SemanticField::ProductCode) by {
            reveal(told_meaning);
            reveal_strlit("код товара");
            reveal_strlit("код");
            reveal_strlit("товара");
            assert("код товара"@ =~= "код"@ + seq![' '] + "товара"@);
            key_of_two("код товара"@, "код"@, "товара"@);
        }
        assert(told_meaning(header_key("код тнвэд"@)) == SemanticField::ProductCode) by {
            reveal(told_meaning);
            reveal_strlit("код тнвэд");
            reveal_strlit("код");
            reveal_strlit("тнвэд");
            assert("код тнвэд"@ =~= "код"@ + seq![' '] + "тнвэд"@);
            key_of_two("код тнвэд"@, "код"@, "тнвэд"@);
        }
    }
}

/// The keys that are listed as description tell it.
#[verifier::spinoff_prover]
#[verifier::rlimit(80)]
proof fn description_keys()
    requires
        letters_are_read(),
    ensures
        forall|i: int|
            0 <= i < 17 ==> told_meaning(header_key((#[trigger] DESCRIPTION_ALIASES@[i])@)) == SemanticField::Description,
{
    assert forall|i: int| 0 <= i < 17 implies told_meaning(header_key((#[trigger] DESCRIPTION_ALIASES@[i])@))
        == SemanticField::Description by {
        assert(told_meaning(header_key("description"@)) == SemanticField::Description) by {
            reveal(told_meaning);
            reveal_strlit("description");
            key_of_one("description"@);
        }
        assert(told_meaning(header_key("product description"@)) == SemanticField::Description) by {
            reveal(told_meaning);
            reveal_strlit("product description");
            reveal_strlit("product");
            reveal_strlit("description");
            assert("product description"@ =~= "product"@ + seq![' '] + "description"@);
            key_of_two("product description"@, "product"@, "description"@);
        }
        assert(told_meaning(header_key("product name"@)) == SemanticField::Description) by {
            reveal(told_meaning);
            reveal_strlit("product name");
            reveal_strlit("product");
            reveal_strlit("name");
            assert("product name"@ =~= "product"@ + seq![' '] + "name"@);
            key_of_two("product name"@, "product"@, "name"@);
        }
        assert(told_meaning(header_key("item description"@)) == SemanticField::Description) by {
            reveal(told_meaning);
            reveal_strlit("item description");
            reveal_strlit("item");
            reveal_strlit("description");
            assert("item description"@ =~= "item"@ + seq![' '] + "description"@);
            key_of_two("item description"@, "item"@, "description"@);
        }
        assert(told_meaning(header_key("item name"@)) == SemanticField::Description) by {
            reveal(told_meaning);
            reveal_strlit("item name");
            reveal_strlit("item");
            reveal_strlit("name");
            assert("item name"@ =~= "item"@ + seq![' '] + "name"@);
            key_of_two("item name"@, "item"@, "name"@);
        }
        assert(told_meaning(header_key("goods description"@)) == SemanticField::Description) by {
            reveal(told_meaning);
            reveal_strlit("goods description");
            reveal_strlit("goods");
            reveal_strlit("description");
            assert("goods description"@ =~= "goods"@ + seq![' '] + "description"@);
            key_of_two("goods description"@, "goods"@, "description"@);
        }
        assert(told_meaning(header_key("goods name"@)) == SemanticField::Description) by {
            reveal(told_meaning);
            reveal_strlit("goods name");
            reveal_strlit("goods");
            reveal_strlit("name");
            assert("goods name"@ =~= "goods"@ + seq![' '] + "name"@);
            key_of_two("goods name"@, "goods"@, "name"@);
        }
        assert(told_meaning(header_key("commodity description"@)) == SemanticField::Description) by {
            reveal(told_meaning);
            reveal_strlit("commodity description");
            reveal_strlit("commodity");
            reveal_strlit("description");
            assert("commodity description"@ =~= "commodity"@ + seq![' '] + "description"@);
            key_of_two("commodity description"@, "commodity"@, "description"@);
        }
        assert(told_meaning(header_key("опис"@)) == SemanticField::Description) by {
            reveal(told_meaning);
            reveal_strlit("опис");
            key_of_one("опис"@);
        }
        assert(told_meaning(header_key("опис товару"@)) == SemanticField::Description) by {
            reveal(told_meaning);
            reveal_strlit("опис товару");
            reveal_strlit("опис");
            reveal_strlit("товару");
            assert("опис товару"@ =~= "опис"@ + seq![' '] + "товару"@);
            key_of_two("опис товару"@, "опис"@, "товару"@);
        }
        assert(told_meaning(header_key("опис позиції"@)) == SemanticField::Description) by {
            reveal(told_meaning);
            reveal_strlit("опис позиції");
            reveal_strlit("опис");
            reveal_strlit("позиції");
            assert("опис позиції"@ =~= "опис"@ + seq![' '] + "позиції"@);
            key_of_two("опис позиції"@, "опис"@, "позиції"@);
        }
        assert(told_meaning(header_key("найменування товару"@)) == SemanticField::Description) by {
            reveal(told_meaning);
            reveal_strlit("найменування товару");
            reveal_strlit("найменування");
            reveal_strlit("товару");
            assert("найменування товару"@ =~= "найменування"@ + seq![' '] + "товару"@);
            key_of_two("найменування товару"@, "найменування"@, "товару"@);
        }
        assert(told_meaning(header_key("назва товару"@)) == SemanticField::Description) by {
            reveal(told_meaning);
            reveal_strlit("назва товару");
            reveal_strlit("назва");
            reveal_strlit("товару");
            assert("назва товару"@ =~= "назва"@ + seq![' '] + "товару"@);
            key_of_two("назва товару"@, "назва"@, "товару"@);
        }
        assert(told_meaning(header_key("описание"@)) == SemanticField::Description) by {
            reveal(told_meaning);
            reveal_strlit("описание");
            key_of_one("описание"@);
        }
        assert(told_meaning(header_key("описание товара"@)) == SemanticField::Description) by {
            reveal(told_meaning);
            reveal_strlit("описание товара");
            reveal_strlit("описание");
            reveal_strlit("товара");
            assert("описание товара"@ =~= "описание"@ + seq![' '] + "товара"@);
            key_of_two("описание товара"@, "описание"@, "товара"@);
        }
        assert(told_meaning(header_key("наименование товара"@)) == SemanticField::Description) by {
            reveal(told_meaning);
            reveal_strlit("наименование товара");
            reveal_strlit("наименование");
            reveal_strlit("товара");
            assert("наименование товара"@ =~= "наименование"@ + seq![' '] + "товара"@);
            key_of_two("наименование товара"@, "наименование"@, "товара"@);
        }
        assert(told_meaning(header_key("название товара"@)) == SemanticField::Description) by {
            reveal(told_meaning);
            reveal_strlit("название товара");
            reveal_strlit("название");
            reveal_strlit("товара");
            assert("название товара"@ =~= "название"@ + seq![' '] + "товара"@);
            key_of_two("название товара"@, "название"@, "товара"@);
        }
    }
}

/// The keys that are listed as trademark tell it.
#[verifier::spinoff_prover]
#[verifier::rlimit(80)]
proof fn trademark_keys()
    requires
        letters_are_read(),
    ensures
        forall|i: int|
            0 <= i < 9 ==> told_meaning(header_key((#[trigger] TRADEMARK_ALIASES@[i])@)) == SemanticField::Trademark,
{
    assert forall|i: int| 0 <= i < 9 implies told_meaning(header_key((#[trigger] TRADEMARK_ALIASES@[i])@))
        == SemanticField::Trademark by {
        assert(told_meaning(header_key("brand"@)) == SemanticField::Trademark) by {
            reveal(told_meaning);
            reveal_strlit("brand");
            key_of_one("brand"@);
        }
        assert(told_meaning(header_key("brand name"@)) == SemanticField::Trademark) by {
            reveal(told_meaning);
            reveal_strlit("brand name");
            reveal_strlit("brand");
            reveal_strlit("name");
            assert("brand name"@ =~= "brand"@ + seq![' '] + "name"@);
            key_of_two("brand name"@, "brand"@, "name"@);
        }
        assert(told_meaning(header_key("trademark"@)) == SemanticField::Trademark) by {
            reveal(told_meaning);
            reveal_strlit("trademark");
            key_of_one("trademark"@);
        }
        assert(told_meaning(header_key("trade mark"@)) == SemanticField::Trademark) by {
            reveal(told_meaning);
            reveal_strlit("trade mark");
            reveal_strlit("trade");
            reveal_strlit("mark");
            assert("trade mark"@ =~= "trade"@ + seq![' '] + "mark"@);
            key_of_two("trade mark"@, "trade"@, "mark"@);
        }
        assert(told_meaning(header_key("manufacturer brand"@)) == SemanticField::Trademark) by {
            reveal(told_meaning);
            reveal_strlit("manufacturer brand");
            reveal_strlit("manufacturer");
            reveal_strlit("brand");
            assert("manufacturer brand"@ =~= "manufacturer"@ + seq![' '] + "brand"@);
            key_of_two("manufacturer brand"@, "manufacturer"@, "brand"@);
        }
        assert(told_meaning(header_key("бренд"@)) == SemanticField::Trademark) by {
            reveal(told_meaning);
            reveal_strlit("бренд");
            key_of_one("бренд"@);
        }
        assert(told_meaning(header_key("торгова марка"@)) == SemanticField::Trademark) by {
            reveal(told_meaning);
            reveal_strlit("торгова марка");
            reveal_strlit("торгова");
            reveal_strlit("марка");
            assert("торгова марка"@ =~= "торгова"@ + seq![' '] + "марка"@);
            key_of_two("торгова марка"@, "торгова"@, "марка"@);
        }
        assert(told_meaning(header_key("торг марка"@)) == SemanticField::Trademark) by {
            reveal(told_meaning);
            reveal_strlit("торг марка");
            reveal_strlit("торг");
            reveal_strlit("марка");
            assert("торг марка"@ =~= "торг"@ + seq![' '] + "марка"@);
            key_of_two("торг марка"@, "торг"@, "марка"@);
        }
        assert(told_meaning(header_key("торговая марка"@)) == SemanticField::Trademark) by {
            reveal(told_meaning);
            reveal_strlit("торговая марка");
            reveal_strlit("торговая");
            reveal_strlit("марка");
            assert("торговая марка"@ =~= "торговая"@ + seq![' '] + "марка"@);
            key_of_two("торговая марка"@, "торговая"@, "марка"@);
        }
    }
}

/// The keys that are listed as country tell it.
#[verifier::spinoff_prover]
#[verifier::rlimit(80)]
proof fn country_keys()
    requires
        letters_are_read(),
    ensures
        forall|i: int|
            0 <= i < 3 ==> told_meaning(header_key((#[trigger] COUNTRY_ALIASES@[i])@)) == SemanticField::Country,
{
    assert forall|i: int| 0 <= i < 3 implies told_meaning(header_key((#[trigger] COUNTRY_ALIASES@[i])@))
        == SemanticField::Country by {
        assert(told_meaning(header_key("country"@)) == SemanticField::Country) by {
            reveal(told_meaning);
            reveal_strlit("country");
            key_of_one("country"@);
        }
        assert(told_meaning(header_key("країна"@)) == SemanticField::Country) by {
            reveal(told_meaning);
            reveal_strlit("країна");
            key_of_one("країна"@);
        }
        assert(told_meaning(header_key("страна"@)) == SemanticField::Country) by {
            reveal(told_meaning);
            reveal_strlit("страна");
            key_of_one("страна"@);
        }
    }
}

/// The keys that are listed as origin country tell it.
#[verifier::spinoff_prover]
#[verifier::rlimit(80)]
proof fn origin_country_keys()
    requires
        letters_are_read(),
    ensures
        forall|i: int|
            0 <= i < 7 ==> told_meaning(header_key((#[trigger] ORIGIN_COUNTRY_ALIASES@[i])@)) == SemanticField::OriginCountry,
{
    assert forall|i: int| 0 <= i < 7 implies told_meaning(header_key((#[trigger] ORIGIN_COUNTRY_ALIASES@[i])@))
        == SemanticField::OriginCountry by {
        assert(told_meaning(header_key("origin"@)) == SemanticField::OriginCountry) by {
            reveal(told_meaning);
            reveal_strlit("origin");
            key_of_one("origin"@);
        }
        assert(told_meaning(header_key("origin country"@)) == SemanticField::OriginCountry) by {
            reveal(told_meaning);
            reveal_strlit("origin country");
            reveal_strlit("origin");
            reveal_strlit("country");
            assert("origin country"@ =~= "origin"@ + seq![' '] + "country"@);
            key_of_two("origin country"@, "origin"@, "country"@);
        }
        assert(told_meaning(header_key("country of origin"@)) == SemanticField::OriginCountry) by {
            reveal(told_meaning);
            reveal_strlit("country of origin");
            reveal_strlit("country");
            reveal_strlit("of");
            reveal_strlit("origin");
            assert("country of origin"@ =~= "country"@ + seq![' '] + "of"@ + seq![' '] + "origin"@);
            key_of_three("country of origin"@, "country"@, "of"@, "origin"@);
        }
        assert(told_meaning(header_key("country origin"@)) == SemanticField::OriginCountry) by {
            reveal(told_meaning);
            reveal_strlit("country origin");
            reveal_strlit("country");
            reveal_strlit("origin");
            assert("country origin"@ =~= "country"@ + seq![' '] + "origin"@);
            key_of_two("country origin"@, "country"@, "origin"@);
        }
        assert(told_meaning(header_key("країна походження"@)) == SemanticField::OriginCountry) by {
            reveal(told_meaning);
            reveal_strlit("країна походження");
            reveal_strlit("країна");
            reveal_strlit("походження");
            assert("країна походження"@ =~= "країна"@ + seq![' '] + "походження"@);
            key_of_two("країна походження"@, "країна"@, "походження"@);
        }
        assert(told_meaning(header_key("кр походж"@)) == SemanticField::OriginCountry) by {
            reveal(told_meaning);
            reveal_strlit("кр походж");
            reveal_strlit("кр");
            reveal_strlit("походж");
            assert("кр походж"@ =~= "кр"@ + seq![' '] + "походж"@);
            key_of_two("кр походж"@, "кр"@, "походж"@);
        }
        assert(told_meaning(header_key("страна происхождения"@)) == SemanticField::OriginCountry) by {
            reveal(told_meaning);
            reveal_strlit("страна происхождения");
            reveal_strlit("страна");
            reveal_strlit("происхождения");
            assert("страна происхождения"@ =~= "страна"@ + seq![' '] + "происхождения"@);
            key_of_two("страна происхождения"@, "страна"@, "происхождения"@);
        }
    }
}

/// The keys that are listed as dispatch country tell it.
#[verifier::spinoff_prover]
#[verifier::rlimit(80)]
proof fn dispatch_country_keys()
    requires
        letters_are_read(),
    ensures
        forall|i: int|
            0 <= i < 9 ==> told_meaning(header_key((#[trigger] DISPATCH_COUNTRY_ALIASES@[i])@)) == SemanticField::DispatchCountry,
{
    assert forall|i: int| 0 <= i < 9 implies told_meaning(header_key((#[trigger] DISPATCH_COUNTRY_ALIASES@[i])@))
        == SemanticField::DispatchCountry by {
        assert(told_meaning(header_key("dispatch country"@)) == SemanticField::DispatchCountry) by {
            reveal(told_meaning);
            reveal_strlit("dispatch country");
            reveal_strlit("dispatch");
            reveal_strlit("country");
            assert("dispatch country"@ =~= "dispatch"@ + seq![' '] + "country"@);
            key_of_two("dispatch country"@, "dispatch"@, "country"@);
        }
        assert(told_meaning(header_key("country of dispatch"@)) == SemanticField::DispatchCountry) by {
            reveal(told_meaning);
            reveal_strlit("country of dispatch");
            reveal_strlit("country");
            reveal_strlit("of");
            reveal_strlit("dispatch");
            assert("country of dispatch"@ =~= "country"@ + seq![' '] + "of"@ + seq![' '] + "dispatch"@);
            key_of_three("country of dispatch"@, "country"@, "of"@, "dispatch"@);
        }
        assert(told_meaning(header_key("ship from"@)) == SemanticField::DispatchCountry) by {
            reveal(told_meaning);
            reveal_strlit("ship from");
            reveal_strlit("ship");
            reveal_strlit("from");
            assert("ship from"@ =~= "ship"@ + seq![' '] + "from"@);
            key_of_two("ship from"@, "ship"@, "from"@);
        }
        assert(told_meaning(header_key("shipping country"@)) == SemanticField::DispatchCountry) by {
            reveal(told_meaning);
            reveal_strlit("shipping country");
            reveal_strlit("shipping");
            reveal_strlit("country");
            assert("shipping country"@ =~= "shipping"@ + seq![' '] + "country"@);
            key_of_two("shipping country"@, "shipping"@, "country"@);
        }
        assert(told_meaning(header_key("departure country"@)) == SemanticField::DispatchCountry) by {
            reveal(told_meaning);
            reveal_strlit("departure country");
            reveal_strlit("departure");
            reveal_strlit("country");
            assert("departure country"@ =~= "departure"@ + seq![' '] + "country"@);
            key_of_two("departure country"@, "departure"@, "country"@);
        }
        assert(told_meaning(header_key("source country"@)) == SemanticField::DispatchCountry) by {
            reveal(told_meaning);
            reveal_strlit("source country");
            reveal_strlit("source");
            reveal_strlit("country");
            assert("source country"@ =~= "source"@ + seq![' '] + "country"@);
            key_of_two("source country"@, "source"@, "country"@);
        }
        assert(told_meaning(header_key("країна відправлення"@)) == SemanticField::DispatchCountry) by {
            reveal(told_meaning);
            reveal_strlit("країна відправлення");
            reveal_strlit("країна");
            reveal_strlit("відправлення");
            assert("країна відправлення"@ =~= "країна"@ + seq![' '] + "відправлення"@);
            key_of_two("країна відправлення"@, "країна"@, "відправлення"@);
        }
        assert(told_meaning(header_key("кр відпр"@)) == SemanticField::DispatchCountry) by {
            reveal(told_meaning);
            reveal_strlit("кр відпр");
            reveal_strlit("кр");
            reveal_strlit("відпр");
            assert("кр відпр"@ =~= "кр"@ + seq![' '] + "відпр"@);
            key_of_two("кр відпр"@, "кр"@, "відпр"@);
        }
        assert(told_meaning(header_key("страна отправления"@)) == SemanticField::DispatchCountry) by {
            reveal(told_meaning);
            reveal_strlit("страна отправления");
            reveal_strlit("страна");
            reveal_strlit("отправления");
            assert("страна отправления"@ =~= "страна"@ + seq![' '] + "отправления"@);
            key_of_two("страна отправления"@, "страна"@, "отправления"@);
        }
    }
}

/// The keys that are listed as trade country tell it.
#[verifier::spinoff_prover]
#[verifier::rlimit(80)]
proof fn trade_country_keys()
    requires
        letters_are_read(),
    ensures
        forall|i: int|
            0 <= i < 9 ==> told_meaning(header_key((#[trigger] TRADE_COUNTRY_ALIASES@[i])@)) == SemanticField::TradeCountry,
{
    assert forall|i: int| 0 <= i < 9 implies told_meaning(header_key((#[trigger] TRADE_COUNTRY_ALIASES@[i])@))
        == SemanticField::TradeCountry by {
        assert(told_meaning(header_key("trade country"@)) == SemanticField::TradeCountry) by {
            reveal(told_meaning);
            reveal_strlit("trade country");
            reveal_strlit("trade");
            reveal_strlit("country");
            assert("trade country"@ =~= "trade"@ + seq![' '] + "country"@);
            key_of_two("trade country"@, "trade"@, "country"@);
        }
        assert(told_meaning(header_key("trading country"@)) == SemanticField::TradeCountry) by {
            reveal(told_meaning);
            reveal_strlit("trading country");
            reveal_strlit("trading");
            reveal_strlit("country");
            assert("trading country"@ =~= "trading"@ + seq![' '] + "country"@);
            key_of_two("trading country"@, "trading"@, "country"@);
        }
        assert(told_meaning(header_key("country of trade"@)) == SemanticField::TradeCountry) by {
            reveal(told_meaning);
            reveal_strlit("country of trade");
            reveal_strlit("country");
            reveal_strlit("of");
            reveal_strlit("trade");
            assert("country of trade"@ =~= "country"@ + seq![' '] + "of"@ + seq![' '] + "trade"@);
            key_of_three("country of trade"@, "country"@, "of"@, "trade"@);
        }
        assert(told_meaning(header_key("seller country"@)) == SemanticField::TradeCountry) by {
            reveal(told_meaning);
            reveal_strlit("seller country");
            reveal_strlit("seller");
            reveal_strlit("country");
            assert("seller country"@ =~= "seller"@ + seq![' '] + "country"@);
            key_of_two("seller country"@, "seller"@, "country"@);
        }
        assert(told_meaning(header_key("торгуюча країна"@)) == SemanticField::TradeCountry) by {
            reveal(told_meaning);
            reveal_strlit("торгуюча країна");
            reveal_strlit("торгуюча");
            reveal_strlit("країна");
            assert("торгуюча країна"@ =~= "торгуюча"@ + seq![' '] + "країна"@);
            key_of_two("торгуюча країна"@, "торгуюча"@, "країна"@);
        }
        assert(told_meaning(header_key("країна торгівлі"@)) == SemanticField::TradeCountry) by {
            reveal(told_meaning);
            reveal_strlit("країна торгівлі");
            reveal_strlit("країна");
            reveal_strlit("торгівлі");
            assert("країна торгівлі"@ =~= "країна"@ + seq![' '] + "торгівлі"@);
            key_of_two("країна торгівлі"@, "країна"@, "торгівлі"@);
        }
        assert(told_meaning(header_key("кр торг"@)) == SemanticField::TradeCountry) by {
            reveal(told_meaning);
            reveal_strlit("кр торг");
            reveal_strlit("кр");
            reveal_strlit("торг");
            assert("кр торг"@ =~= "кр"@ + seq![' '] + "торг"@);
            key_of_two("кр торг"@, "кр"@, "торг"@);
        }
        assert(told_meaning(header_key("торгующая страна"@)) == SemanticField::TradeCountry) by {
            reveal(told_meaning);
            reveal_strlit("торгующая страна");
            reveal_strlit("торгующая");
            reveal_strlit("страна");
            assert("торгующая страна"@ =~= "торгующая"@ + seq![' '] + "страна"@);
            key_of_two("торгующая страна"@, "торгующая"@, "страна"@);
        }
        assert(told_meaning(header_key("страна торговли"@)) == SemanticField::TradeCountry) by {
            reveal(told_meaning);
            reveal_strlit("страна торговли");
            reveal_strlit("страна");
            reveal_strlit("торговли");
            assert("страна торговли"@ =~= "страна"@ + seq![' '] + "торговли"@);
            key_of_two("страна торговли"@, "страна"@, "торговли"@);
        }
    }
}

/// The keys that are listed as quantity tell it.
#[verifier::spinoff_prover]
#[verifier::rlimit(80)]
proof fn quantity_keys()
    requires
        letters_are_read(),
    ensures
        forall|i: int|
            0 <= i < 7 ==> told_meaning(header_key((#[trigger] QUANTITY_ALIASES@[i])@)) == SemanticField::Quantity,
{
    assert forall|i: int| 0 <= i < 7 implies told_meaning(header_key((#[trigger] QUANTITY_ALIASES@[i])@))
        == SemanticField::Quantity by {
        assert(told_meaning(header_key("quantity"@)) == SemanticField::Quantity) by {
            reveal(told_meaning);
            reveal_strlit("quantity");
            key_of_one("quantity"@);
        }
        assert(told_meaning(header_key("qty"@)) == SemanticField::Quantity) by {
            reveal(told_meaning);
            reveal_strlit("qty");
            key_of_one("qty"@);
        }
        assert(told_meaning(header_key("count"@)) == SemanticField::Quantity) by {
            reveal(told_meaning);
            reveal_strlit("count");
            key_of_one("count"@);
        }
        assert(told_meaning(header_key("unit count"@)) == SemanticField::Quantity) by {
            reveal(told_meaning);
            reveal_strlit("unit count");
            reveal_strlit("unit");
            reveal_strlit("count");
            assert("unit count"@ =~= "unit"@ + seq![' '] + "count"@);
            key_of_two("unit count"@, "unit"@, "count"@);
        }
        assert(told_meaning(header_key("кількість"@)) == SemanticField::Quantity) by {
            reveal(told_meaning);
            reveal_strlit("кількість");
            key_of_one("кількість"@);
        }
        assert(told_meaning(header_key("к ть"@)) == SemanticField::Quantity) by {
            reveal(told_meaning);
            reveal_strlit("к ть");
            reveal_strlit("к");
            reveal_strlit("ть");
            assert("к ть"@ =~= "к"@ + seq![' '] + "ть"@);
            key_of_two("к ть"@, "к"@, "ть"@);
        }
        assert(told_meaning(header_key("количество"@)) == SemanticField::Quantity) by {
            reveal(told_meaning);
            reveal_strlit("количество");
            key_of_one("количество"@);
        }
    }
}

/// The keys that are listed as net weight tell it.
#[verifier::spinoff_prover]
#[verifier::rlimit(80)]
proof fn net_weight_keys()
    requires
        letters_are_read(),
    ensures
        forall|i: int|
            0 <= i < 10 ==> told_meaning(header_key((#[trigger] NET_WEIGHT_ALIASES@[i])@)) == SemanticField::NetWeight,
{
    assert forall|i: int| 0 <= i < 10 implies told_meaning(header_key((#[trigger] NET_WEIGHT_ALIASES@[i])@))
        == SemanticField::NetWeight by {
        assert(told_meaning(header_key("net kg"@)) == SemanticField::NetWeight) by {
            reveal(told_meaning);
            reveal_strlit("net kg");
            reveal_strlit("net");
            reveal_strlit("kg");
            assert("net kg"@ =~= "net"@ + seq![' '] + "kg"@);
            key_of_two("net kg"@, "net"@, "kg"@);
        }
        assert(told_meaning(header_key("net weight"@)) == SemanticField::NetWeight) by {
            reveal(told_meaning);
            reveal_strlit("net weight");
            reveal_strlit("net");
            reveal_strlit("weight");
            assert("net weight"@ =~= "net"@ + seq![' '] + "weight"@);
            key_of_two("net weight"@, "net"@, "weight"@);
        }
        assert(told_meaning(header_key("net weight kg"@)) == SemanticField::NetWeight) by {
            reveal(told_meaning);
            reveal_strlit("net weight kg");
            reveal_strlit("net");
            reveal_strlit("weight");
            reveal_strlit("kg");
            assert("net weight kg"@ =~= "net"@ + seq![' '] + "weight"@ + seq![' '] + "kg"@);
            key_of_three("net weight kg"@, "net"@, "weight"@, "kg"@);
        }
        assert(told_meaning(header_key("weight net"@)) == SemanticField::NetWeight) by {
            reveal(told_meaning);
            reveal_strlit("weight net");
            reveal_strlit("weight");
            reveal_strlit("net");
            assert("weight net"@ =~= "weight"@ + seq![' '] + "net"@);
            key_of_two("weight net"@, "weight"@, "net"@);
        }
        assert(told_meaning(header_key("weight net kg"@)) == SemanticField::NetWeight) by {
            reveal(told_meaning);
            reveal_strlit("weight net kg");
            reveal_strlit("weight");
            reveal_strlit("net");
            reveal_strlit("kg");
            assert("weight net kg"@ =~= "weight"@ + seq![' '] + "net"@ + seq![' '] + "kg"@);
            key_of_three("weight net kg"@, "weight"@, "net"@, "kg"@);
        }
        assert(told_meaning(header_key("вага нетто"@)) == SemanticField::NetWeight) by {
            reveal(told_meaning);
            reveal_strlit("вага нетто");
            reveal_strlit("вага");
            reveal_strlit("нетто");
            assert("вага нетто"@ =~= "вага"@ + seq![' '] + "нетто"@);
            key_of_two("вага нетто"@, "вага"@, "нетто"@);
        }
        assert(told_meaning(header_key("вага нетто кг"@)) == SemanticField::NetWeight) by {
            reveal(told_meaning);
            reveal_strlit("вага нетто кг");
            reveal_strlit("вага");
            reveal_strlit("нетто");
            reveal_strlit("кг");
            assert("вага нетто кг"@ =~= "вага"@ + seq![' '] + "нетто"@ + seq![' '] + "кг"@);
            key_of_three("вага нетто кг"@, "вага"@, "нетто"@, "кг"@);
        }
        assert(told_meaning(header_key("нетто кг"@)) == SemanticField::NetWeight) by {
            reveal(told_meaning);
            reveal_strlit("нетто кг");
            reveal_strlit("нетто");
            reveal_strlit("кг");
            assert("нетто кг"@ =~= "нетто"@ + seq![' '] + "кг"@);
            key_of_two("нетто кг"@, "нетто"@, "кг"@);
        }
        assert(told_meaning(header_key("вес нетто"@)) == SemanticField::NetWeight) by {
            reveal(told_meaning);
            reveal_strlit("вес нетто");
            reveal_strlit("вес");
            reveal_strlit("нетто");
            assert("вес нетто"@ =~= "вес"@ + seq![' '] + "нетто"@);
            key_of_two("вес нетто"@, "вес"@, "нетто"@);
        }
        assert(told_meaning(header_key("вес нетто кг"@)) == SemanticField::NetWeight) by {
            reveal(told_meaning);
            reveal_strlit("вес нетто кг");
            reveal_strlit("вес");
            reveal_strlit("нетто");
            reveal_strlit("кг");
            assert("вес нетто кг"@ =~= "вес"@ + seq![' '] + "нетто"@ + seq![' '] + "кг"@);
            key_of_three("вес нетто кг"@, "вес"@, "нетто"@, "кг"@);
        }
    }
}

/// The keys that are listed as gross weight tell it.
#[verifier::spinoff_prover]
#[verifier::rlimit(80)]
proof fn gross_weight_keys()
    requires
        letters_are_read(),
    ensures
        forall|i: int|
            0 <= i < 10 ==> told_meaning(header_key((#[trigger] GROSS_WEIGHT_ALIASES@[i])@)) == SemanticField::GrossWeight,
{
    assert forall|i: int| 0 <= i < 10 implies told_meaning(header_key((#[trigger] GROSS_WEIGHT_ALIASES@[i])@))
        == SemanticField::GrossWeight by {
        assert(told_meaning(header_key("gross kg"@)) == SemanticField::GrossWeight) by {
            reveal(told_meaning);
            reveal_strlit("gross kg");
            reveal_strlit("gross");
            reveal_strlit("kg");
            assert("gross kg"@ =~= "gross"@ + seq![' '] + "kg"@);
            key_of_two("gross kg"@, "gross"@, "kg"@);
        }
        assert(told_meaning(header_key("gross weight"@)) == SemanticField::GrossWeight) by {
            reveal(told_meaning);
            reveal_strlit("gross weight");
            reveal_strlit("gross");
            reveal_strlit("weight");
            assert("gross weight"@ =~= "gross"@ + seq![' '] + "weight"@);
            key_of_two("gross weight"@, "gross"@, "weight"@);
        }
        assert(told_meaning(header_key("gross weight kg"@)) == SemanticField::GrossWeight) by {
            reveal(told_meaning);
            reveal_strlit("gross weight kg");
            reveal_strlit("gross");
            reveal_strlit("weight");
            reveal_strlit("kg");
            assert("gross weight kg"@ =~= "gross"@ + seq![' '] + "weight"@ + seq![' '] + "kg"@);
            key_of_three("gross weight kg"@, "gross"@, "weight"@, "kg"@);
        }
        assert(told_meaning(header_key("weight gross"@)) == SemanticField::GrossWeight) by {
            reveal(told_meaning);
            reveal_strlit("weight gross");
            reveal_strlit("weight");
            reveal_strlit("gross");
            assert("weight gross"@ =~= "weight"@ + seq![' '] + "gross"@);
            key_of_two("weight gross"@, "weight"@, "gross"@);
        }
        assert(told_meaning(header_key("weight gross kg"@)) == SemanticField::GrossWeight) by {
            reveal(told_meaning);
            reveal_strlit("weight gross kg");
            reveal_strlit("weight");
            reveal_strlit("gross");
            reveal_strlit("kg");
            assert("weight gross kg"@ =~= "weight"@ + seq![' '] + "gross"@ + seq![' '] + "kg"@);
            key_of_three("weight gross kg"@, "weight"@, "gross"@, "kg"@);
        }
        assert(told_meaning(header_key("вага брутто"@)) == SemanticField::GrossWeight) by {
            reveal(told_meaning);
            reveal_strlit("вага брутто");
            reveal_strlit("вага");
            reveal_strlit("брутто");
            assert("вага брутто"@ =~= "вага"@ + seq![' '] + "брутто"@);
            key_of_two("вага брутто"@, "вага"@, "брутто"@);
        }
        assert(told_meaning(header_key("вага брутто кг"@)) == SemanticField::GrossWeight) by {
            reveal(told_meaning);
            reveal_strlit("вага брутто кг");
            reveal_strlit("вага");
            reveal_strlit("брутто");
            reveal_strlit("кг");
            assert("вага брутто кг"@ =~= "вага"@ + seq![' '] + "брутто"@ + seq![' '] + "кг"@);
            key_of_three("вага брутто кг"@, "вага"@, "брутто"@, "кг"@);
        }
        assert(told_meaning(header_key("брутто кг"@)) == SemanticField::GrossWeight) by {
            reveal(told_meaning);
            reveal_strlit("брутто кг");
            reveal_strlit("брутто");
            reveal_strlit("кг");
            assert("брутто кг"@ =~= "брутто"@ + seq![' '] + "кг"@);
            key_of_two("брутто кг"@, "брутто"@, "кг"@);
        }
        assert(told_meaning(header_key("вес брутто"@)) == SemanticField::GrossWeight) by {
            reveal(told_meaning);
            reveal_strlit("вес брутто");
            reveal_strlit("вес");
            reveal_strlit("брутто");
            assert("вес брутто"@ =~= "вес"@ + seq![' '] + "брутто"@);
            key_of_two("вес брутто"@, "вес"@, "брутто"@);
        }
        assert(told_meaning(header_key("вес брутто кг"@)) == SemanticField::GrossWeight) by {
            reveal(told_meaning);
            reveal_strlit("вес брутто кг");
            reveal_strlit("вес");
            reveal_strlit("брутто");
            reveal_strlit("кг");
            assert("вес брутто кг"@ =~= "вес"@ + seq![' '] + "брутто"@ + seq![' '] + "кг"@);
            key_of_three("вес брутто кг"@, "вес"@, "брутто"@, "кг"@);
        }
    }
}

/// The keys that are listed as value tell it.
#[verifier::spinoff_prover]
#[verifier::rlimit(80)]
proof fn value_keys()
    requires
        letters_are_read(),
    ensures
        forall|i: int|
            0 <= i < 18 ==> told_meaning(header_key((#[trigger] VALUE_ALIASES@[i])@)) == SemanticField::Value,
{
    assert forall|i: int| 0 <= i < 18 implies told_meaning(header_key((#[trigger] VALUE_ALIASES@[i])@))
        == SemanticField::Value by {
        assert(told_meaning(header_key("value"@)) == SemanticField::Value) by {
            reveal(told_meaning);
            reveal_strlit("value");
            key_of_one("value"@);
        }
        assert(told_meaning(header_key("value usd"@)) == SemanticField::Value) by {
            reveal(told_meaning);
            reveal_strlit("value usd");
            reveal_strlit("value");
            reveal_strlit("usd");
            assert("value usd"@ =~= "value"@ + seq![' '] + "usd"@);
            key_of_two("value usd"@, "value"@, "usd"@);
        }
        assert(told_meaning(header_key("amount"@)) == SemanticField::Value) by {
            reveal(told_meaning);
            reveal_strlit("amount");
            key_of_one("amount"@);
        }
        assert(told_meaning(header_key("amount usd"@)) == SemanticField::Value) by {
            reveal(told_meaning);
            reveal_strlit("amount usd");
            reveal_strlit("amount");
            reveal_strlit("usd");
            assert("amount usd"@ =~= "amount"@ + seq![' '] + "usd"@);
            key_of_two("amount usd"@, "amount"@, "usd"@);
        }
        assert(told_meaning(header_key("total value"@)) == SemanticField::Value) by {
            reveal(told_meaning);
            reveal_strlit("total value");
            reveal_strlit("total");
            reveal_strlit("value");
            assert("total value"@ =~= "total"@ + seq![' '] + "value"@);
            key_of_two("total value"@, "total"@, "value"@);
        }
        assert(told_meaning(header_key("total amount"@)) == SemanticField::Value) by {
            reveal(told_meaning);
            reveal_strlit("total amount");
            reveal_strlit("total");
            reveal_strlit("amount");
            assert("total amount"@ =~= "total"@ + seq![' '] + "amount"@);
            key_of_two("total amount"@, "total"@, "amount"@);
        }
        assert(told_meaning(header_key("invoice value"@)) == SemanticField::Value) by {
            reveal(told_meaning);
            reveal_strlit("invoice value");
            reveal_strlit("invoice");
            reveal_strlit("value");
            assert("invoice value"@ =~= "invoice"@ + seq![' '] + "value"@);
            key_of_two("invoice value"@, "invoice"@, "value"@);
        }
        assert(told_meaning(header_key("customs value"@)) == SemanticField::Value) by {
            reveal(told_meaning);
            reveal_strlit("customs value");
            reveal_strlit("customs");
            reveal_strlit("value");
            assert("customs value"@ =~= "customs"@ + seq![' '] + "value"@);
            key_of_two("customs value"@, "customs"@, "value"@);
        }
        assert(told_meaning(header_key("сума"@)) == SemanticField::Value) by {
            reveal(told_meaning);
            reveal_strlit("сума");
            key_of_one("сума"@);
        }
        assert(told_meaning(header_key("сума рахунку"@)) == SemanticField::Value) by {
            reveal(told_meaning);
            reveal_strlit("сума рахунку");
            reveal_strlit("сума");
            reveal_strlit("рахунку");
            assert("сума рахунку"@ =~= "сума"@ + seq![' '] + "рахунку"@);
            key_of_two("сума рахунку"@, "сума"@, "рахунку"@);
        }
        assert(told_meaning(header_key("загальна сума"@)) == SemanticField::Value) by {
            reveal(told_meaning);
            reveal_strlit("загальна сума");
            reveal_strlit("загальна");
            reveal_strlit("сума");
            assert("загальна сума"@ =~= "загальна"@ + seq![' '] + "сума"@);
            key_of_two("загальна сума"@, "загальна"@, "сума"@);
        }
        assert(told_meaning(header_key("вартість"@)) == SemanticField::Value) by {
            reveal(told_meaning);
            reveal_strlit("вартість");
            key_of_one("вартість"@);
        }
        assert(told_meaning(header_key("фактурна вартість"@)) == SemanticField::Value) by {
            reveal(told_meaning);
            reveal_strlit("фактурна вартість");
            reveal_strlit("фактурна");
            reveal_strlit("вартість");
            assert("фактурна вартість"@ =~= "фактурна"@ + seq![' '] + "вартість"@);
            key_of_two("фактурна вартість"@, "фактурна"@, "вартість"@);
        }
        assert(told_meaning(header_key("сумма"@)) == SemanticField::Value) by {
            reveal(told_meaning);
            reveal_strlit("сумма");
            key_of_one("сумма"@);
        }
        assert(told_meaning(header_key("сумма счета"@)) == SemanticField::Value) by {
            reveal(told_meaning);
            reveal_strlit("сумма счета");
            reveal_strlit("сумма");
            reveal_strlit("счета");
            assert("сумма счета"@ =~= "сумма"@ + seq![' '] + "счета"@);
            key_of_two("сумма счета"@, "сумма"@, "счета"@);
        }
        assert(told_meaning(header_key("общая сумма"@)) == SemanticField::Value) by {
            reveal(told_meaning);
            reveal_strlit("общая сумма");
            reveal_strlit("общая");
            reveal_strlit("сумма");
            assert("общая сумма"@ =~= "общая"@ + seq![' '] + "сумма"@);
            key_of_two("общая сумма"@, "общая"@, "сумма"@);
        }
        assert(told_meaning(header_key("стоимость"@)) == SemanticField::Value) by {
            reveal(told_meaning);
            reveal_strlit("стоимость");
            key_of_one("стоимость"@);
        }
        assert(told_meaning(header_key("фактурная стоимость"@)) == SemanticField::Value) by {
            reveal(told_meaning);
            reveal_strlit("фактурная стоимость");
            reveal_strlit("фактурная");
            reveal_strlit("стоимость");
            assert("фактурная стоимость"@ =~= "фактурная"@ + seq![' '] + "стоимость"@);
            key_of_two("фактурная стоимость"@, "фактурная"@, "стоимость"@);
        }
    }
}

/// The keys that are listed as currency tell it.
#[verifier::spinoff_prover]
#[verifier::rlimit(80)]
proof fn currency_keys()
    requires
        letters_are_read(),
    ensures
        forall|i: int|
            0 <= i < 11 ==> told_meaning(header_key((#[trigger] CURRENCY_ALIASES@[i])@)) == SemanticField::Currency,
{
    assert forall|i: int| 0 <= i < 11 implies told_meaning(header_key((#[trigger] CURRENCY_ALIASES@[i])@))
        == SemanticField::Currency by {
        assert(told_meaning(header_key("currency"@)) == SemanticField::Currency) by {
            reveal(told_meaning);
            reveal_strlit("currency");
            key_of_one("currency"@);
        }
        assert(told_meaning(header_key("currency code"@)) == SemanticField::Currency) by {
            reveal(told_meaning);
            reveal_strlit("currency code");
            reveal_strlit("currency");
            reveal_strlit("code");
            assert("currency code"@ =~= "currency"@ + seq![' '] + "code"@);
            key_of_two("currency code"@, "currency"@, "code"@);
        }
        assert(told_meaning(header_key("value currency"@)) == SemanticField::Currency) by {
            reveal(told_meaning);
            reveal_strlit("value currency");
            reveal_strlit("value");
            reveal_strlit("currency");
            assert("value currency"@ =~= "value"@ + seq![' '] + "currency"@);
            key_of_two("value currency"@, "value"@, "currency"@);
        }
        assert(told_meaning(header_key("amount currency"@)) == SemanticField::Currency) by {
            reveal(told_meaning);
            reveal_strlit("amount currency");
            reveal_strlit("amount");
            reveal_strlit("currency");
            assert("amount currency"@ =~= "amount"@ + seq![' '] + "currency"@);
            key_of_two("amount currency"@, "amount"@, "currency"@);
        }
        assert(told_meaning(header_key("ccy"@)) == SemanticField::Currency) by {
            reveal(told_meaning);
            reveal_strlit("ccy");
            key_of_one("ccy"@);
        }
        assert(told_meaning(header_key("iso currency"@)) == SemanticField::Currency) by {
            reveal(told_meaning);
            reveal_strlit("iso currency");
            reveal_strlit("iso");
            reveal_strlit("currency");
            assert("iso currency"@ =~= "iso"@ + seq![' '] + "currency"@);
            key_of_two("iso currency"@, "iso"@, "currency"@);
        }
        assert(told_meaning(header_key("валюта"@)) == SemanticField::Currency) by {
            reveal(told_meaning);
            reveal_strlit("валюта");
            key_of_one("валюта"@);
        }
        assert(told_meaning(header_key("код валюти"@)) == SemanticField::Currency) by {
            reveal(told_meaning);
            reveal_strlit("код валюти");
            reveal_strlit("код");
            reveal_strlit("валюти");
            assert("код валюти"@ =~= "код"@ + seq![' '] + "валюти"@);
            key_of_two("код валюти"@, "код"@, "валюти"@);
        }
        assert(told_meaning(header_key("валюта суми"@)) == SemanticField::Currency) by {
            reveal(told_meaning);
            reveal_strlit("валюта суми");
            reveal_strlit("валюта");
            reveal_strlit("суми");
            assert("валюта суми"@ =~= "валюта"@ + seq![' '] + "суми"@);
            key_of_two("валюта суми"@, "валюта"@, "суми"@);
        }
        assert(told_meaning(header_key("код валюты"@)) == SemanticField::Currency) by {
            reveal(told_meaning);
            reveal_strlit("код валюты");
            reveal_strlit("код");
            reveal_strlit("валюты");
            assert("код валюты"@ =~= "код"@ + seq![' '] + "валюты"@);
            key_of_two("код валюты"@, "код"@, "валюты"@);
        }
        assert(told_meaning(header_key("валюта суммы"@)) == SemanticField::Currency) by {
            reveal(told_meaning);
            reveal_strlit("валюта суммы");
            reveal_strlit("валюта");
            reveal_strlit("суммы");
            assert("валюта суммы"@ =~= "валюта"@ + seq![' '] + "суммы"@);
            key_of_two("валюта суммы"@, "валюта"@, "суммы"@);
        }
    }
}

/// The keys that are listed as weight unit tell it.
#[verifier::spinoff_prover]
#[verifier::rlimit(80)]
proof fn weight_unit_keys()
    requires
        letters_are_read(),
    ensures
        forall|i: int|
            0 <= i < 9 ==> told_meaning(header_key((#[trigger] WEIGHT_UNIT_ALIASES@[i])@)) == SemanticField::WeightUnit,
{
    assert forall|i: int| 0 <= i < 9 implies told_meaning(header_key((#[trigger] WEIGHT_UNIT_ALIASES@[i])@))
        == SemanticField::WeightUnit by {
        assert(told_meaning(header_key("weight unit"@)) == SemanticField::WeightUnit) by {
            reveal(told_meaning);
            reveal_strlit("weight unit");
            reveal_strlit("weight");
            reveal_strlit("unit");
            assert("weight unit"@ =~= "weight"@ + seq![' '] + "unit"@);
            key_of_two("weight unit"@, "weight"@, "unit"@);
        }
        assert(told_meaning(header_key("net weight unit"@)) == SemanticField::WeightUnit) by {
            reveal(told_meaning);
            reveal_strlit("net weight unit");
            reveal_strlit("net");
            reveal_strlit("weight");
            reveal_strlit("unit");
            assert("net weight unit"@ =~= "net"@ + seq![' '] + "weight"@ + seq![' '] + "unit"@);
            key_of_three("net weight unit"@, "net"@, "weight"@, "unit"@);
        }
        assert(told_meaning(header_key("mass unit"@)) == SemanticField::WeightUnit) by {
            reveal(told_meaning);
            reveal_strlit("mass unit");
            reveal_strlit("mass");
            reveal_strlit("unit");
            assert("mass unit"@ =~= "mass"@ + seq![' '] + "unit"@);
            key_of_two("mass unit"@, "mass"@, "unit"@);
        }
        assert(told_meaning(header_key("weight uom"@)) == SemanticField::WeightUnit) by {
            reveal(told_meaning);
            reveal_strlit("weight uom");
            reveal_strlit("weight");
            reveal_strlit("uom");
            assert("weight uom"@ =~= "weight"@ + seq![' '] + "uom"@);
            key_of_two("weight uom"@, "weight"@, "uom"@);
        }
        assert(told_meaning(header_key("mass uom"@)) == SemanticField::WeightUnit) by {
            reveal(told_meaning);
            reveal_strlit("mass uom");
            reveal_strlit("mass");
            reveal_strlit("uom");
            assert("mass uom"@ =~= "mass"@ + seq![' '] + "uom"@);
            key_of_two("mass uom"@, "mass"@, "uom"@);
        }
        assert(told_meaning(header_key("одиниця ваги"@)) == SemanticField::WeightUnit) by {
            reveal(told_meaning);
            reveal_strlit("одиниця ваги");
            reveal_strlit("одиниця");
            reveal_strlit("ваги");
            assert("одиниця ваги"@ =~= "одиниця"@ + seq![' '] + "ваги"@);
            key_of_two("одиниця ваги"@, "одиниця"@, "ваги"@);
        }
        assert(told_meaning(header_key("одиниця маси"@)) == SemanticField::WeightUnit) by {
            reveal(told_meaning);
            reveal_strlit("одиниця маси");
            reveal_strlit("одиниця");
            reveal_strlit("маси");
            assert("одиниця маси"@ =~= "одиниця"@ + seq![' '] + "маси"@);
            key_of_two("одиниця маси"@, "одиниця"@, "маси"@);
        }
        assert(told_meaning(header_key("единица веса"@)) == SemanticField::WeightUnit) by {
            reveal(told_meaning);
            reveal_strlit("единица веса");
            reveal_strlit("единица");
            reveal_strlit("веса");
            assert("единица веса"@ =~= "единица"@ + seq![' '] + "веса"@);
            key_of_two("единица веса"@, "единица"@, "веса"@);
        }
        assert(told_meaning(header_key("единица массы"@)) == SemanticField::WeightUnit) by {
            reveal(told_meaning);
            reveal_strlit("единица массы");
            reveal_strlit("единица");
            reveal_strlit("массы");
            assert("единица массы"@ =~= "единица"@ + seq![' '] + "массы"@);
            key_of_two("единица массы"@, "единица"@, "массы"@);
        }
    }
}

/// A key that is listed under a meaning tells it.
proof fn listed_keys_tell_their_meaning(key: Seq<char>, meaning: SemanticField)
    requires
        letters_are_read(),
        alias_key(key, headers_of(meaning)),
    ensures
        told_meaning(key) == meaning,
{
    let i = choose|i: int|
        0 <= i < headers_of(meaning).len() && header_key((#[trigger] headers_of(meaning)[i])@) == key;
    match meaning {
        SemanticField::Date => {
            date_keys();
            assert(header_key(DATE_ALIASES@[i]@) == key);
        },
        SemanticField::DeclarationNumber => {
            declaration_number_keys();
            assert(header_key(DECLARATION_NUMBER_ALIASES@[i]@) == key);
        },
        SemanticField::CompanyCode => {
            company_code_keys();
            assert(header_key(COMPANY_CODE_ALIASES@[i]@) == key);
        },
        SemanticField::Sender => {
            sender_keys();
            assert(header_key(SENDER_ALIASES@[i]@) == key);
        },
        SemanticField::Recipient => {
            recipient_keys();
            assert(header_key(RECIPIENT_ALIASES@[i]@) == key);
        },
        SemanticField::ProductCode => {
            product_code_keys();
            assert(header_key(PRODUCT_CODE_ALIASES@[i]@) == key);
        },
        SemanticField::Description => {
            description_keys();
            assert(header_key(DESCRIPTION_ALIASES@[i]@) == key);
        },
        SemanticField::Trademark => {
            trademark_keys();
            assert(header_key(TRADEMARK_ALIASES@[i]@) == key);
        },
        SemanticField::Country => {
            country_keys();
            assert(header_key(COUNTRY_ALIASES@[i]@) == key);
        },
        SemanticField::OriginCountry => {
            origin_country_keys();
            assert(header_key(ORIGIN_COUNTRY_ALIASES@[i]@) == key);
        },
        SemanticField::DispatchCountry => {
            dispatch_country_keys();
            assert(header_key(DISPATCH_COUNTRY_ALIASES@[i]@) == key);
        },
        SemanticField::TradeCountry => {
            trade_country_keys();
            assert(header_key(TRADE_COUNTRY_ALIASES@[i]@) == key);
        },
        SemanticField::Quantity => {
            quantity_keys();
            assert(header_key(QUANTITY_ALIASES@[i]@) == key);
        },
        SemanticField::NetWeight => {
            net_weight_keys();
            assert(header_key(NET_WEIGHT_ALIASES@[i]@) == key);
        },
        SemanticField::GrossWeight => {
            gross_weight_keys();
            assert(header_key(GROSS_WEIGHT_ALIASES@[i]@) == key);
        },
        SemanticField::Value => {
            value_keys();
            assert(header_key(VALUE_ALIASES@[i]@) == key);
        },
        SemanticField::Currency => {
            currency_keys();
            assert(header_key(CURRENCY_ALIASES@[i]@) == key);
        },
        SemanticField::WeightUnit => {
            weight_unit_keys();
            assert(header_key(WEIGHT_UNIT_ALIASES@[i]@) == key);
        },
    }
}

/// No header is listed under two meanings: where letters are read as letters, each
/// listed header is recognised, and its meaning is the one that lists it.
pub proof fn every_listed_header_means_what_lists_it(meaning: SemanticField, i: int)
    requires
        0 <= i < headers_of(meaning).len(),
    ensures
        letters_are_read() ==> header_match(headers_of(meaning)[i]@) is Some && header_match(
            headers_of(meaning)[i]@,
        )->0.semantic == meaning,
{
    if letters_are_read() {
        let key = header_key(headers_of(meaning)[i]@);
        assert(alias_key(key, headers_of(meaning)));
        listed_keys_tell_their_meaning(key, meaning);
        assert forall|other: SemanticField|
            alias_key(key, #[trigger] headers_of(other)) implies other == meaning by {
            listed_keys_tell_their_meaning(key, other);
        }
        a_header_of_one_meaning_has_it(key, meaning);
    }
}

/// A header of the list of net weights means a net weight, and one of the list of
/// gross weights a gross weight.
pub proof fn weights_mean_their_weight(i: int)
    ensures
        letters_are_read() && 0 <= i < 10 ==> header_match(NET_WEIGHT_ALIASES@[i]@) is Some
            && header_match(NET_WEIGHT_ALIASES@[i]@)->0.semantic == SemanticField::NetWeight,
        letters_are_read() && 0 <= i < 10 ==> header_match(GROSS_WEIGHT_ALIASES@[i]@) is Some
            && header_match(GROSS_WEIGHT_ALIASES@[i]@)->0.semantic == SemanticField::GrossWeight,
{
    if 0 <= i < 10 {
        every_listed_header_means_what_lists_it(SemanticField::NetWeight, i);
    }
    if 0 <= i < 10 {
        every_listed_header_means_what_lists_it(SemanticField::GrossWeight, i);
    }
}

/// A header of the lists of senders, recipients and company codes means a sender, a
/// recipient or a company code.
pub proof fn parties_mean_their_party(i: int)
    ensures
        letters_are_read() && 0 <= i < 17 ==> header_match(SENDER_ALIASES@[i]@) is Some
            && header_match(SENDER_ALIASES@[i]@)->0.semantic == SemanticField::Sender,
        letters_are_read() && 0 <= i < 22 ==> header_match(RECIPIENT_ALIASES@[i]@) is Some
            && header_match(RECIPIENT_ALIASES@[i]@)->0.semantic == SemanticField::Recipient,
        letters_are_read() && 0 <= i < 17 ==> header_match(COMPANY_CODE_ALIASES@[i]@) is Some
            && header_match(COMPANY_CODE_ALIASES@[i]@)->0.semantic == SemanticField::CompanyCode,
{
    if 0 <= i < 17 {
        every_listed_header_means_what_lists_it(SemanticField::Sender, i);
    }
    if 0 <= i < 22 {
        every_listed_header_means_what_lists_it(SemanticField::Recipient, i);
    }
    if 0 <= i < 17 {
        every_listed_header_means_what_lists_it(SemanticField::CompanyCode, i);
    }
}

/// A header of a list of countries means a country, that of origin, that of dispatch
/// or that of trade.
pub proof fn countries_mean_their_country(i: int)
    ensures
        letters_are_read() && 0 <= i < 3 ==> header_match(COUNTRY_ALIASES@[i]@) is Some
            && header_match(COUNTRY_ALIASES@[i]@)->0.semantic == SemanticField::Country,
        letters_are_read() && 0 <= i < 7 ==> header_match(ORIGIN_COUNTRY_ALIASES@[i]@) is Some
            && header_match(ORIGIN_COUNTRY_ALIASES@[i]@)->0.semantic == SemanticField::OriginCountry,
        letters_are_read() && 0 <= i < 9 ==> header_match(DISPATCH_COUNTRY_ALIASES@[i]@) is Some
            && header_match(DISPATCH_COUNTRY_ALIASES@[i]@)->0.semantic == SemanticField::DispatchCountry,
        letters_are_read() && 0 <= i < 9 ==> header_match(TRADE_COUNTRY_ALIASES@[i]@) is Some
            && header_match(TRADE_COUNTRY_ALIASES@[i]@)->0.semantic == SemanticField::TradeCountry,
{
    if 0 <= i < 3 {
        every_listed_header_means_what_lists_it(SemanticField::Country, i);
    }
    if 0 <= i < 7 {
        every_listed_header_means_what_lists_it(SemanticField::OriginCountry, i);
    }
    if 0 <= i < 9 {
        every_listed_header_means_what_lists_it(SemanticField::DispatchCountry, i);
    }
    if 0 <= i < 9 {
        every_listed_header_means_what_lists_it(SemanticField::TradeCountry, i);
    }
}

/// A header of the lists of product codes, descriptions and trademarks means what
/// its list names.
pub proof fn goods_mean_their_goods(i: int)
    ensures
        letters_are_read() && 0 <= i < 22 ==> header_match(PRODUCT_CODE_ALIASES@[i]@) is Some
            && header_match(PRODUCT_CODE_ALIASES@[i]@)->0.semantic == SemanticField::ProductCode,
        letters_are_read() && 0 <= i < 17 ==> header_match(DESCRIPTION_ALIASES@[i]@) is Some
            && header_match(DESCRIPTION_ALIASES@[i]@)->0.semantic == SemanticField::Description,
        letters_are_read() && 0 <= i < 9 ==> header_match(TRADEMARK_ALIASES@[i]@) is Some
            && header_match(TRADEMARK_ALIASES@[i]@)->0.semantic == SemanticField::Trademark,
{
    if 0 <= i < 22 {
        every_listed_header_means_what_lists_it(SemanticField::ProductCode, i);
    }
    if 0 <= i < 17 {
        every_listed_header_means_what_lists_it(SemanticField::Description, i);
    }
    if 0 <= i < 9 {
        every_listed_header_means_what_lists_it(SemanticField::Trademark, i);
    }
}

/// A header of the lists of quantities, values, currencies and weight units means
/// what its list names.
pub proof fn measures_mean_their_measure(i: int)
    ensures
        letters_are_read() && 0 <= i < 7 ==> header_match(QUANTITY_ALIASES@[i]@) is Some
            && header_match(QUANTITY_ALIASES@[i]@)->0.semantic == SemanticField::Quantity,
        letters_are_read() && 0 <= i < 18 ==> header_match(VALUE_ALIASES@[i]@) is Some
            && header_match(VALUE_ALIASES@[i]@)->0.semantic == SemanticField::Value,
        letters_are_read() && 0 <= i < 11 ==> header_match(CURRENCY_ALIASES@[i]@) is Some
            && header_match(CURRENCY_ALIASES@[i]@)->0.semantic == SemanticField::Currency,
        letters_are_read() && 0 <= i < 9 ==> header_match(WEIGHT_UNIT_ALIASES@[i]@) is Some
            && header_match(WEIGHT_UNIT_ALIASES@[i]@)->0.semantic == SemanticField::WeightUnit,
{
    if 0 <= i < 7 {
        every_listed_header_means_what_lists_it(SemanticField::Quantity, i);
    }
    if 0 <= i < 18 {
        every_listed_header_means_what_lists_it(SemanticField::Value, i);
    }
    if 0 <= i < 11 {
        every_listed_header_means_what_lists_it(SemanticField::Currency, i);
    }
    if 0 <= i < 9 {
        every_listed_header_means_what_lists_it(SemanticField::WeightUnit, i);
    }
}

/// A header of the list of dates means a date, and one of the list of declaration
/// numbers a declaration number.
pub proof fn documents_mean_their_document(i: int)
    ensures
        letters_are_read() && 0 <= i < 13 ==> header_match(DATE_ALIASES@[i]@) is Some
            && header_match(DATE_ALIASES@[i]@)->0.semantic == SemanticField::Date,
        letters_are_read() && 0 <= i < 14 ==> header_match(DECLARATION_NUMBER_ALIASES@[i]@) is Some
            && header_match(DECLARATION_NUMBER_ALIASES@[i]@)->0.semantic == SemanticField::DeclarationNumber,
{
    if 0 <= i < 13 {
        every_listed_header_means_what_lists_it(SemanticField::Date, i);
    }
    if 0 <= i < 14 {
        every_listed_header_means_what_lists_it(SemanticField::DeclarationNumber, i);
    }
}

} // verus!
