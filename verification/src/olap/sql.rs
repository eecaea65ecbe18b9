//! Statement texts: quoted literals, and templates with holes.
use vstd::prelude::*;
use vstd::string::*;

use crate::counting::count_upto;
use crate::text::{chars_of, glued};

verus! {

/// A text with every quotation mark doubled.
pub open spec fn doubled_quotes(s: Seq<char>) -> Seq<char>
    decreases s.len(),
{
    if s.len() == 0 {
        Seq::empty()
    } else if s.last() == '\'' {
        doubled_quotes(s.drop_last()).push('\'').push('\'')
    } else {
        doubled_quotes(s.drop_last()).push(s.last())
    }
}

/// A text as a literal of a statement.
pub open spec fn literal(s: Seq<char>) -> Seq<char> {
    seq!['\''] + doubled_quotes(s) + seq!['\'']
}

/// A text as a literal of a statement.
pub fn sql_string(value: &str) -> (r: String)
    ensures
        r@ == literal(value@),
{
    let v = chars_of(value);
    let mut out = String::new();
    out.push('\'');
    let mut i: usize = 0;
    assert(out@ =~= seq!['\''] + doubled_quotes(v@.take(0)));
    while i < v.len()
        invariant
            i <= v@.len(),
            out@ == seq!['\''] + doubled_quotes(v@.take(i as int)),
        decreases v.len() - i,
    {
        assert(v@.take(i + 1).drop_last() =~= v@.take(i as int));
        assert(v@.take(i + 1).last() == v@[i as int]);
        if v[i] == '\'' {
            out.push('\'');
        }
        out.push(v[i]);
        assert(out@ =~= seq!['\''] + doubled_quotes(v@.take(i + 1)));
        i += 1;
    }
    assert(v@.take(i as int) =~= v@);
    out.push('\'');
    assert(out@ =~= literal(value@));
    out
}

/// What a reader of a literal's inside makes of it: two quotation marks stand for
/// one, and a single one would end the literal.
pub open spec fn undoubled(s: Seq<char>) -> Option<Seq<char>>
    decreases s.len(),
{
    if s.len() == 0 {
        Some(Seq::empty())
    } else if s[0] == '\'' {
        if s.len() >= 2 && s[1] == '\'' {
            match undoubled(s.skip(2)) {
                Some(rest) => Some(seq!['\''] + rest),
                None => None,
            }
        } else {
            None
        }
    } else {
        match undoubled(s.drop_first()) {
            Some(rest) => Some(seq![s[0]] + rest),
            None => None,
        }
    }
}

/// Reading what stands behind a doubled part goes on with the rest.
proof fn undoubled_past(a: Seq<char>, b: Seq<char>)
    ensures
        undoubled(doubled_quotes(a) + b) == (match undoubled(b) {
            Some(rest) => Some(a + rest),
            None => None,
        }),
    decreases a.len(),
{
    if a.len() == 0 {
        assert(doubled_quotes(a) + b =~= b);
        match undoubled(b) {
            Some(rest) => {
                assert(a + rest =~= rest);
            },
            None => {},
        }
    } else {
        let start = a.drop_last();
        let c = a.last();
        let tail = if c == '\'' {
            seq!['\'', '\''] + b
        } else {
            seq![c] + b
        };
        undoubled_past(start, tail);
        assert(doubled_quotes(a) + b =~= doubled_quotes(start) + tail);
        if c == '\'' {
            assert(tail.skip(2) =~= b);
        } else {
            assert(tail.drop_first() =~= b);
        }
        match undoubled(b) {
            Some(rest) => {
                assert(start + (seq![c] + rest) =~= a + rest);
            },
            None => {},
        }
    }
}

/// A literal keeps its text: read back by the rule for quotation marks, its
/// inside is the text that was quoted, and it does not end early.
pub proof fn literal_keeps_its_text(s: Seq<char>)
    ensures
        literal(s).len() >= 2,
        literal(s)[0] == '\'',
        literal(s).last() == '\'',
        undoubled(literal(s).subrange(1, literal(s).len() - 1)) == Some(s),
{
    let inside = literal(s).subrange(1, literal(s).len() - 1);
    assert(inside =~= doubled_quotes(s) + Seq::<char>::empty());
    undoubled_past(s, Seq::empty());
    assert(s + Seq::<char>::empty() =~= s);
}

/// A place of a template that is filled in.
pub open spec fn is_hole(template: Seq<char>, i: int) -> bool {
    template[i] == '@'
}

/// How many of the first `n` places of a template are filled in.
pub open spec fn holes(template: Seq<char>, n: int) -> nat {
    count_upto(n, |i: int| is_hole(template, i))
}

/// The first `n` places of a template with its holes filled in order. A hole
/// that no part is given for stays empty.
pub open spec fn filled_upto(template: Seq<char>, parts: Seq<Seq<char>>, n: int) -> Seq<char>
    decreases n,
{
    if n <= 0 {
        Seq::empty()
    } else if !is_hole(template, n - 1) {
        filled_upto(template, parts, n - 1).push(template[n - 1])
    } else if holes(template, n - 1) < parts.len() {
        filled_upto(template, parts, n - 1) + parts[holes(template, n - 1) as int]
    } else {
        filled_upto(template, parts, n - 1)
    }
}

/// A template with its holes filled in order.
pub open spec fn filled(template: Seq<char>, parts: Seq<Seq<char>>) -> Seq<char> {
    filled_upto(template, parts, template.len() as int)
}

/// What some texts say.
pub open spec fn str_views(parts: Seq<&str>) -> Seq<Seq<char>> {
    parts.map_values(|p: &str| p@)
}

/// Fills the holes of a template in order.
pub fn fill(template: &str, parts: &[&str]) -> (r: String)
    ensures
        r@ == filled(template@, str_views(parts@)),
{
    let ghost texts = str_views(parts@);
    let v = chars_of(template);
    let mut out = String::new();
    let mut next: usize = 0;
    let mut i: usize = 0;
    while i < v.len()
        invariant
            i <= v@.len(),
            next <= i,
            v@ == template@,
            texts == str_views(parts@),
            next == holes(v@, i as int),
            out@ == filled_upto(v@, texts, i as int),
        decreases v.len() - i,
    {
        if v[i] == '@' {
            assert(is_hole(v@, i as int));
            if next < parts.len() {
                assert(texts[next as int] == parts@[next as int]@);
                out.append(parts[next]);
            }
            next += 1;
        } else {
            assert(!is_hole(v@, i as int));
            out.push(v[i]);
        }
        i += 1;
    }
    out
}

/// Writes some texts one behind the other.
pub fn glue(pieces: &[&str]) -> (r: String)
    ensures
        r@ == glued(str_views(pieces@)),
{
    let ghost texts = str_views(pieces@);
    let mut out = String::new();
    let mut i: usize = 0;
    assert(texts.take(0) =~= Seq::empty());
    while i < pieces.len()
        invariant
            i <= pieces@.len(),
            texts == str_views(pieces@),
            out@ == glued(texts.take(i as int)),
        decreases pieces.len() - i,
    {
        out.append(pieces[i]);
        assert(texts.take(i + 1).drop_last() =~= texts.take(i as int));
        assert(texts.take(i + 1).last() == pieces@[i as int]@);
        i += 1;
    }
    assert(texts.take(i as int) =~= texts);
    out
}

} // verus!
