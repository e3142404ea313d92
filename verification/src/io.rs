use vstd::prelude::*;

use crate::model::Rgba;

verus! {

/// The character for the decimal digit `d` (0 to 9).
pub open spec fn digit_char(d: nat) -> char {
    (48 + d) as char
}

/// The decimal numeral of `n`, without leading zeros.
pub open spec fn decimal(n: nat) -> Seq<char>
    decreases n,
{
    if n < 10 {
        seq![digit_char(n)]
    } else {
        decimal(n / 10) + seq![digit_char(n % 10)]
    }
}

/// `a / 255` in units of 1/10000, rounded to the nearest integer.
pub open spec fn alpha_ten_thousandths(a: u8) -> nat {
    ((a * 20000 + 255) / 510) as nat
}

/// The numeral of `q / 10000` with exactly four decimals.
pub open spec fn four_decimals(q: nat) -> Seq<char> {
    decimal(q / 10000) + seq![
        '.',
        digit_char((q / 1000) % 10),
        digit_char((q / 100) % 10),
        digit_char((q / 10) % 10),
        digit_char(q % 10),
    ]
}

/// The CSS notation `rgba(r, g, b, alpha)` of a color, alpha as a fraction
/// of 255 with four decimals.
pub open spec fn css_color_text(color: Rgba) -> Seq<char> {
    seq!['r', 'g', 'b', 'a', '('] + decimal(color.r as nat) + seq![',', ' '] + decimal(
        color.g as nat,
    ) + seq![',', ' '] + decimal(color.b as nat) + seq![',', ' '] + four_decimals(
        alpha_ten_thousandths(color.a),
    ) + seq![')']
}

/// The entity for `&`.
pub open spec fn amp_entity() -> Seq<char> {
    seq!['&', 'a', 'm', 'p', ';']
}

/// The entity for `<`.
pub open spec fn lt_entity() -> Seq<char> {
    seq!['&', 'l', 't', ';']
}

/// The entity for `>`.
pub open spec fn gt_entity() -> Seq<char> {
    seq!['&', 'g', 't', ';']
}

/// The entity for `"`.
pub open spec fn quot_entity() -> Seq<char> {
    seq!['&', 'q', 'u', 'o', 't', ';']
}

/// The entity for `'`.
pub open spec fn apos_entity() -> Seq<char> {
    seq!['&', 'a', 'p', 'o', 's', ';']
}

/// What a character becomes in XML text or attribute values.
pub open spec fn escaped_char(c: char) -> Seq<char> {
    if c == '&' {
        amp_entity()
    } else if c == '<' {
        lt_entity()
    } else if c == '>' {
        gt_entity()
    } else if c == '"' {
        quot_entity()
    } else if c == '\'' {
        apos_entity()
    } else {
        seq![c]
    }
}

/// `text` with each character replaced by its XML escape.
pub open spec fn xml_escaped(text: Seq<char>) -> Seq<char>
    decreases text.len(),
{
    if text.len() == 0 {
        Seq::<char>::empty()
    } else {
        xml_escaped(text.drop_last()) + escaped_char(text.last())
    }
}

/// `String::push` from std: appends one character at the end of the string.
#[verifier::external_body]
fn push_char(s: &mut String, c: char)
    ensures
        final(s)@ == old(s)@.push(c),
{
    s.push(c);
}

fn digit_str(d: u32) -> (s: &'static str)
    requires
        d < 10,
    ensures
        s@ == seq![digit_char(d as nat)],
{
    proof {
        reveal_strlit("0");
        reveal_strlit("1");
        reveal_strlit("2");
        reveal_strlit("3");
        reveal_strlit("4");
        reveal_strlit("5");
        reveal_strlit("6");
        reveal_strlit("7");
        reveal_strlit("8");
        reveal_strlit("9");
    }
    match d {
        0 => "0",
        1 => "1",
        2 => "2",
        3 => "3",
        4 => "4",
        5 => "5",
        6 => "6",
        7 => "7",
        8 => "8",
        _ => "9",
    }
}

fn push_decimal(out: &mut String, n: u32)
    ensures
        final(out)@ == old(out)@ + decimal(n as nat),
    decreases n,
{
    if n >= 10 {
        push_decimal(out, n / 10);
    }
    out.append(digit_str(n % 10));
    assert(old(out)@ + decimal(n as nat) =~= if n >= 10 {
        old(out)@ + decimal((n / 10) as nat) + seq![digit_char((n % 10) as nat)]
    } else {
        old(out)@ + seq![digit_char((n % 10) as nat)]
    });
}

/// The CSS color notation of `color`, as written into SVG attributes.
pub fn css_color(color: Rgba) -> (s: String)
    ensures
        s@ == css_color_text(color),
{
    proof {
        reveal_strlit("rgba(");
        reveal_strlit(", ");
        reveal_strlit(".");
        reveal_strlit(")");
    }
    let q: u32 = (color.a as u32 * 20000 + 255) / 510;
    assert(q <= 10000);
    let mut out = String::new();
    out.append("rgba(");
    push_decimal(&mut out, color.r as u32);
    out.append(", ");
    push_decimal(&mut out, color.g as u32);
    out.append(", ");
    push_decimal(&mut out, color.b as u32);
    out.append(", ");
    push_decimal(&mut out, q / 10000);
    out.append(".");
    out.append(digit_str((q / 1000) % 10));
    out.append(digit_str((q / 100) % 10));
    out.append(digit_str((q / 10) % 10));
    out.append(digit_str(q % 10));
    out.append(")");
    assert(out@ =~= css_color_text(color));
    out
}

/// `text` with the five XML special characters replaced by their entities.
pub fn xml_escape(text: &str) -> (s: String)
    ensures
        s@ == xml_escaped(text@),
{
    let mut out = String::new();
    let chars = text.chars();
    proof {
        broadcast use vstd::string::axiom_spec_iter;
    }
    for c in it: chars
        invariant
            it.seq() == text@,
            out@ == xml_escaped(it.seq().take(it.index() as int)),
    {
        let ghost i = it.index() as int;
        let ghost done = it.seq().take(i);
        let ghost before = out@;
        proof {
            reveal_strlit("&amp;");
            reveal_strlit("&lt;");
            reveal_strlit("&gt;");
            reveal_strlit("&quot;");
            reveal_strlit("&apos;");
        }
        assert(i < it.seq().len() && c == it.seq()[i]);
        if c == '&' {
            out.append("&amp;");
        } else if c == '<' {
            out.append("&lt;");
        } else if c == '>' {
            out.append("&gt;");
        } else if c == '"' {
            out.append("&quot;");
        } else if c == '\'' {
            out.append("&apos;");
        } else {
            push_char(&mut out, c);
        }
        assert(out@ =~= before + escaped_char(c));
        assert(it.seq().take(i + 1).drop_last() =~= done);
        assert(it.seq().take(i + 1).last() == c);
        assert(out@ == xml_escaped(it.seq().take(i + 1)));
    }
    assert(text@.take(text@.len() as int) =~= text@);
    out
}

/// True of a character that XML escaping leaves alone.
pub open spec fn plain_char(c: char) -> bool {
    c != '&' && c != '<' && c != '>' && c != '"' && c != '\''
}

/// Escaped text holds none of the characters that end an XML text node or an
/// attribute value.
pub proof fn lemma_escaped_has_no_markup(text: Seq<char>)
    ensures
        forall|i: int|
            0 <= i < xml_escaped(text).len() ==> {
                let c = #[trigger] xml_escaped(text)[i];
                c != '<' && c != '>' && c != '"' && c != '\''
            },
    decreases text.len(),
{
    if text.len() > 0 {
        lemma_escaped_has_no_markup(text.drop_last());
        let prev = xml_escaped(text.drop_last());
        let tail = escaped_char(text.last());
        assert(xml_escaped(text) == prev + tail);
        assert forall|i: int| 0 <= i < xml_escaped(text).len() implies {
            let c = #[trigger] xml_escaped(text)[i];
            c != '<' && c != '>' && c != '"' && c != '\''
        } by {
            if i < prev.len() {
                assert(xml_escaped(text)[i] == prev[i]);
            } else {
                assert(xml_escaped(text)[i] == tail[i - prev.len()]);
            }
        }
    }
}

/// Text without special characters is left as it is.
pub proof fn lemma_plain_text_unchanged(text: Seq<char>)
    requires
        forall|i: int| 0 <= i < text.len() ==> plain_char(#[trigger] text[i]),
    ensures
        xml_escaped(text) == text,
    decreases text.len(),
{
    if text.len() > 0 {
        lemma_plain_text_unchanged(text.drop_last());
        assert(plain_char(text[text.len() - 1]));
        assert(text.drop_last().push(text.last()) =~= text);
    }
}

/// `s` holds the entity `e` starting at position `i`.
pub open spec fn entity_at(s: Seq<char>, i: int, e: Seq<char>) -> bool {
    &&& 0 <= i
    &&& i + e.len() <= s.len()
    &&& s.subrange(i, i + e.len()) == e
}

/// One of the five entities starts at position `i` of `s`.
pub open spec fn starts_entity(s: Seq<char>, i: int) -> bool {
    ||| entity_at(s, i, amp_entity())
    ||| entity_at(s, i, lt_entity())
    ||| entity_at(s, i, gt_entity())
    ||| entity_at(s, i, quot_entity())
    ||| entity_at(s, i, apos_entity())
}

/// Decodes the five entities, left to right; every other character stands
/// for itself.
pub open spec fn unescaped(s: Seq<char>) -> Seq<char>
    decreases s.len(),
{
    if s.len() == 0 {
        Seq::<char>::empty()
    } else if entity_at(s, 0, amp_entity()) {
        seq!['&'] + unescaped(s.skip(5))
    } else if entity_at(s, 0, lt_entity()) {
        seq!['<'] + unescaped(s.skip(4))
    } else if entity_at(s, 0, gt_entity()) {
        seq!['>'] + unescaped(s.skip(4))
    } else if entity_at(s, 0, quot_entity()) {
        seq!['"'] + unescaped(s.skip(6))
    } else if entity_at(s, 0, apos_entity()) {
        seq!['\''] + unescaped(s.skip(6))
    } else {
        seq![s[0]] + unescaped(s.skip(1))
    }
}

/// Every `&` in escaped text begins one of the five entities.
pub proof fn lemma_escaped_ampersands_start_entities(text: Seq<char>)
    ensures
        forall|i: int|
            0 <= i < xml_escaped(text).len() && #[trigger] xml_escaped(text)[i] == '&'
                ==> starts_entity(xml_escaped(text), i),
    decreases text.len(),
{
    if text.len() > 0 {
        lemma_escaped_ampersands_start_entities(text.drop_last());
        let prev = xml_escaped(text.drop_last());
        let tail = escaped_char(text.last());
        let out = xml_escaped(text);
        assert(out == prev + tail);
        assert forall|i: int| 0 <= i < out.len() && #[trigger] out[i] == '&' implies starts_entity(
            out,
            i,
        ) by {
            if i < prev.len() {
                assert(prev[i] == '&');
                assert(starts_entity(prev, i));
                assert forall|e: Seq<char>| entity_at(prev, i, e) implies entity_at(out, i, e) by {
                    assert(out.subrange(i, i + e.len()) =~= prev.subrange(i, i + e.len()));
                }
            } else {
                let k = i - prev.len();
                assert(tail[k] == '&');
                assert(k == 0);
                assert(out.subrange(i, i + tail.len()) =~= tail);
            }
        }
    }
}

/// Escaping text piece by piece is escaping it whole.
pub proof fn lemma_escape_concat(a: Seq<char>, b: Seq<char>)
    ensures
        xml_escaped(a + b) == xml_escaped(a) + xml_escaped(b),
    decreases b.len(),
{
    if b.len() == 0 {
        assert(a + b =~= a);
        assert(xml_escaped(a) + xml_escaped(b) =~= xml_escaped(a));
    } else {
        lemma_escape_concat(a, b.drop_last());
        assert((a + b).drop_last() =~= a + b.drop_last());
        assert((a + b).last() == b.last());
        assert(xml_escaped(a) + xml_escaped(b) =~= xml_escaped(a) + xml_escaped(b.drop_last())
            + escaped_char(b.last()));
    }
}

proof fn lemma_unescape_one(c: char, rest: Seq<char>)
    ensures
        unescaped(escaped_char(c) + rest) == seq![c] + unescaped(rest),
{
    let s = escaped_char(c) + rest;
    let e = escaped_char(c);
    assert(s.subrange(0, e.len() as int) =~= e);
    assert(s.skip(e.len() as int) =~= rest);
    assert(s[0] == e[0]);
    if c == '&' {
    } else if c == '<' {
        assert(s[1] == 'l');
    } else if c == '>' {
        assert(s[1] == 'g');
    } else if c == '"' {
        assert(s[1] == 'q');
    } else if c == '\'' {
        assert(s[1] == 'a' && s[2] == 'p');
        assert(!entity_at(s, 0, amp_entity()));
    } else {
        assert(s[0] == c);
        assert(!entity_at(s, 0, amp_entity()) && !entity_at(s, 0, lt_entity()) && !entity_at(
            s,
            0,
            gt_entity(),
        ) && !entity_at(s, 0, quot_entity()) && !entity_at(s, 0, apos_entity())) by {
            if s.len() >= 4 {
                assert(s.subrange(0, 4)[0] == c);
            }
            if s.len() >= 5 {
                assert(s.subrange(0, 5)[0] == c);
            }
            if s.len() >= 6 {
                assert(s.subrange(0, 6)[0] == c);
            }
        }
    }
}

/// Decoding the entities of escaped text gives the text back.
pub proof fn lemma_unescape_escaped(text: Seq<char>)
    ensures
        unescaped(xml_escaped(text)) == text,
    decreases text.len(),
{
    if text.len() > 0 {
        let first = seq![text[0]];
        let rest = text.skip(1);
        assert(first + rest =~= text);
        lemma_escape_concat(first, rest);
        assert(first.drop_last() =~= Seq::<char>::empty());
        assert(xml_escaped(first.drop_last()) =~= Seq::<char>::empty());
        assert(first.last() == text[0]);
        assert(xml_escaped(first) =~= escaped_char(text[0]));
        lemma_unescape_one(text[0], xml_escaped(rest));
        lemma_unescape_escaped(rest);
    }
}

/// True of the characters `0` to `9`.
pub open spec fn is_digit(c: char) -> bool {
    '0' <= c <= '9'
}

/// The number that a string of decimal digits denotes.
pub open spec fn digits_value(s: Seq<char>) -> int
    decreases s.len(),
{
    if s.len() == 0 {
        0
    } else {
        digits_value(s.drop_last()) * 10 + (s.last() as int - '0' as int)
    }
}

proof fn lemma_digits_push(s: Seq<char>, c: char)
    ensures
        digits_value(s.push(c)) == digits_value(s) * 10 + (c as int - '0' as int),
{
    assert(s.push(c).drop_last() =~= s);
}

/// The numeral of `n` is made of decimal digits, reads back as `n`, and has
/// no leading zero (it is `0` only for zero).
pub proof fn lemma_decimal_reads_back(n: nat)
    ensures
        decimal(n).len() > 0,
        forall|i: int| 0 <= i < decimal(n).len() ==> is_digit(#[trigger] decimal(n)[i]),
        digits_value(decimal(n)) == n,
        decimal(n).len() > 1 ==> decimal(n)[0] != '0',
        n > 0 ==> decimal(n)[0] != '0',
    decreases n,
{
    if n < 10 {
        assert(decimal(n) == seq![digit_char(n)]);
        assert((digit_char(n) as int) == 48 + n);
        lemma_digits_push(Seq::<char>::empty(), digit_char(n));
        assert(Seq::<char>::empty().push(digit_char(n)) =~= seq![digit_char(n)]);
        assert(digits_value(Seq::<char>::empty()) == 0);
    } else {
        lemma_decimal_reads_back(n / 10);
        let d = n % 10;
        let prefix = decimal(n / 10);
        assert(decimal(n) == prefix + seq![digit_char(d)]);
        assert(prefix + seq![digit_char(d)] =~= prefix.push(digit_char(d)));
        lemma_digits_push(prefix, digit_char(d));
        assert((digit_char(d) as int) == 48 + d);
        assert((n / 10) * 10 + n % 10 == n);
        assert(decimal(n)[0] == prefix[0]);
        assert forall|i: int| 0 <= i < decimal(n).len() implies is_digit(#[trigger] decimal(n)[i]) by {
            if i < prefix.len() {
                assert(decimal(n)[i] == prefix[i]);
            }
        }
    }
}

proof fn lemma_alpha_rounding(a: int, q: int)
    by (nonlinear_arith)
    requires
        0 <= a <= 255,
        q == (a * 20000 + 255) / 510,
    ensures
        0 <= q <= 10000,
        2 * (q * 255 - a * 10000) <= 255,
        2 * (a * 10000 - q * 255) < 255,
{
}

/// The alpha part of a CSS color is a digit, a point and four digits, and
/// reads back as `a / 255` rounded to four decimals: the number it denotes
/// in ten-thousandths is the nearest integer to `a * 10000 / 255`.
#[verifier::rlimit(40)]
pub proof fn lemma_alpha_reads_back(a: u8)
    ensures
        ({
            let text = four_decimals(alpha_ten_thousandths(a));
            &&& text.len() == 6
            &&& text[1] == '.'
            &&& is_digit(text[0]) && is_digit(text[2]) && is_digit(text[3]) && is_digit(text[4])
                && is_digit(text[5])
            &&& digits_value(seq![text[0], text[2], text[3], text[4], text[5]])
                == alpha_ten_thousandths(a)
            &&& 2 * (alpha_ten_thousandths(a) * 255 - a * 10000) <= 255
            &&& 2 * (a * 10000 - alpha_ten_thousandths(a) * 255) < 255
        }),
{
    let q = alpha_ten_thousandths(a);
    lemma_alpha_rounding(a as int, q as int);
    let w = q / 10000;
    assert(decimal(w) == seq![digit_char(w)]);
    let text = four_decimals(q);
    let d0 = digit_char(w);
    let d1 = digit_char((q / 1000) % 10);
    let d2 = digit_char((q / 100) % 10);
    let d3 = digit_char((q / 10) % 10);
    let d4 = digit_char(q % 10);
    assert(text =~= seq![d0, '.', d1, d2, d3, d4]);
    assert((d0 as int) == 48 + w);
    assert((d1 as int) == 48 + (q / 1000) % 10);
    assert((d2 as int) == 48 + (q / 100) % 10);
    assert((d3 as int) == 48 + (q / 10) % 10);
    assert((d4 as int) == 48 + q % 10);
    let e = Seq::<char>::empty();
    lemma_digits_push(e, d0);
    lemma_digits_push(e.push(d0), d1);
    lemma_digits_push(e.push(d0).push(d1), d2);
    lemma_digits_push(e.push(d0).push(d1).push(d2), d3);
    lemma_digits_push(e.push(d0).push(d1).push(d2).push(d3), d4);
    assert(digits_value(e) == 0);
    assert(e.push(d0).push(d1).push(d2).push(d3).push(d4) =~= seq![d0, d1, d2, d3, d4]);
    lemma_four_digit_expansion(q as int);
}

proof fn lemma_four_digit_expansion(q: int)
    requires
        0 <= q <= 10000,
    ensures
        ((((q / 10000) * 10 + (q / 1000) % 10) * 10 + (q / 100) % 10) * 10 + (q / 10) % 10) * 10
            + q % 10 == q,
{
    assert((q / 10) * 10 + q % 10 == q);
    assert((q / 100) * 10 + (q / 10) % 10 == q / 10);
    assert((q / 1000) * 10 + (q / 100) % 10 == q / 100);
    assert((q / 10000) * 10 + (q / 1000) % 10 == q / 1000);
}

} // verus!
