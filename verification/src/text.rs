//! Text building blocks shared by the renderers: decimal integers and
//! bracketed, comma-separated lists, each with the exact text it produces.
use vstd::prelude::*;

verus! {

/// The character of a decimal digit.
pub open spec fn digit_char(d: int) -> char {
    if d == 0 {
        '0'
    } else if d == 1 {
        '1'
    } else if d == 2 {
        '2'
    } else if d == 3 {
        '3'
    } else if d == 4 {
        '4'
    } else if d == 5 {
        '5'
    } else if d == 6 {
        '6'
    } else if d == 7 {
        '7'
    } else if d == 8 {
        '8'
    } else {
        '9'
    }
}

/// Decimal digits of a natural number, most significant first, without
/// leading zeros (zero itself is `0`).
pub open spec fn nat_text(n: nat) -> Seq<char>
    decreases n,
{
    if n < 10 {
        seq![digit_char(n as int)]
    } else {
        nat_text(n / 10).push(digit_char((n % 10) as int))
    }
}

/// Decimal text of an integer: a `-` before the digits of its magnitude when
/// it is negative.
pub open spec fn int_text(n: int) -> Seq<char> {
    if n < 0 {
        seq!['-'] + nat_text((-n) as nat)
    } else {
        nat_text(n as nat)
    }
}

/// The items separated by `, `.
pub open spec fn join(items: Seq<Seq<char>>) -> Seq<char>
    decreases items.len(),
{
    if items.len() == 0 {
        Seq::empty()
    } else if items.len() == 1 {
        items[0]
    } else {
        join(items.drop_last()) + ", "@ + items.last()
    }
}

/// The items separated by `, ` between square brackets, as `Debug` writes a list.
pub open spec fn list_text(items: Seq<Seq<char>>) -> Seq<char> {
    "["@ + join(items) + "]"@
}

/// Joining one more item: the first item stands alone, any later one follows `, `.
pub proof fn lemma_join_take_step(items: Seq<Seq<char>>, i: int)
    requires
        0 <= i < items.len(),
    ensures
        join(items.take(i + 1)) == if i == 0 {
            items[0]
        } else {
            join(items.take(i)) + ", "@ + items[i]
        },
{
    let t = items.take(i + 1);
    if i > 0 {
        assert(t.drop_last() =~= items.take(i));
    }
}

/// Appends one decimal digit.
fn push_digit(out: &mut String, d: u64)
    requires
        d < 10,
    ensures
        final(out)@ == old(out)@.push(digit_char(d as int)),
{
    let s: &str = if d == 0 {
        proof { reveal_strlit("0"); }
        "0"
    } else if d == 1 {
        proof { reveal_strlit("1"); }
        "1"
    } else if d == 2 {
        proof { reveal_strlit("2"); }
        "2"
    } else if d == 3 {
        proof { reveal_strlit("3"); }
        "3"
    } else if d == 4 {
        proof { reveal_strlit("4"); }
        "4"
    } else if d == 5 {
        proof { reveal_strlit("5"); }
        "5"
    } else if d == 6 {
        proof { reveal_strlit("6"); }
        "6"
    } else if d == 7 {
        proof { reveal_strlit("7"); }
        "7"
    } else if d == 8 {
        proof { reveal_strlit("8"); }
        "8"
    } else {
        proof { reveal_strlit("9"); }
        "9"
    };
    assert(s@ =~= seq![digit_char(d as int)]);
    out.append(s);
    assert(out@ =~= old(out)@.push(digit_char(d as int)));
}

/// Appends the decimal digits of `n`.
pub fn push_nat(out: &mut String, n: u64)
    ensures
        final(out)@ == old(out)@ + nat_text(n as nat),
    decreases n,
{
    if n >= 10 {
        push_nat(out, n / 10);
    }
    push_digit(out, n % 10);
    assert(out@ =~= old(out)@ + nat_text(n as nat));
}

/// `n` spaces.
pub open spec fn spaces(n: nat) -> Seq<char> {
    Seq::new(n, |i: int| ' ')
}

/// One entry of a pretty-printed list or struct: a new line, indented four
/// spaces deeper than the enclosing value, holding the item and `,`.
pub open spec fn pretty_entry(item: Seq<char>, indent: nat) -> Seq<char> {
    "\n"@ + spaces(indent + 4) + item + ","@
}

/// The entries of a pretty-printed list, each on a line of its own.
pub open spec fn pretty_entries(items: Seq<Seq<char>>, indent: nat) -> Seq<char>
    decreases items.len(),
{
    if items.len() == 0 {
        Seq::empty()
    } else {
        pretty_entries(items.drop_last(), indent) + pretty_entry(items.last(), indent)
    }
}

/// A list as `{:#?}` writes it when its own lines are indented by `indent`
/// spaces: `[]` when empty, else `[`, one entry per line, and `]` on a line
/// of its own. The entries are expected rendered at `indent + 4`.
pub open spec fn pretty_list_text(items: Seq<Seq<char>>, indent: nat) -> Seq<char> {
    if items.len() == 0 {
        "[]"@
    } else {
        "["@ + pretty_entries(items, indent) + "\n"@ + spaces(indent) + "]"@
    }
}

/// Adding one more entry to a pretty-printed list.
pub proof fn lemma_pretty_entries_take_step(items: Seq<Seq<char>>, indent: nat, i: int)
    requires
        0 <= i < items.len(),
    ensures
        pretty_entries(items.take(i + 1), indent) == pretty_entries(items.take(i), indent)
            + pretty_entry(items[i], indent),
{
    assert(items.take(i + 1).drop_last() =~= items.take(i));
}

/// Appends `n` spaces.
pub fn push_spaces(out: &mut String, n: usize)
    ensures
        final(out)@ == old(out)@ + spaces(n as nat),
{
    let ghost start = old(out)@;
    let mut i: usize = 0;
    while i < n
        invariant
            i <= n,
            out@ == start + spaces(i as nat),
        decreases n - i,
    {
        proof { reveal_strlit(" "); }
        out.append(" ");
        assert(out@ =~= start + spaces((i + 1) as nat));
        i = i + 1;
    }
}

/// Where padding goes when a value is narrower than the requested width.
#[derive(Clone, Copy, Debug, PartialEq, Eq)]
pub enum Align {
    Left,
    Right,
    Center,
    /// No alignment requested: numbers are then aligned to the right.
    Unspecified,
}

/// The formatting options that `Debug` applies to integers: `+` (`sign_plus`),
/// `0` (`zero_pad`), the width, and the fill character and alignment.
#[derive(Clone, Copy, Debug)]
pub struct IntFormat {
    pub sign_plus: bool,
    pub zero_pad: bool,
    pub width: Option<usize>,
    pub fill: char,
    pub align: Align,
}

impl IntFormat {
    /// The options of a plain `{:?}`: no sign, no width, space fill.
    pub fn plain() -> (res: IntFormat)
        ensures
            res == plain_format(),
    {
        IntFormat { sign_plus: false, zero_pad: false, width: None, fill: ' ', align: Align::Unspecified }
    }
}

/// The options of a plain `{:?}`.
pub open spec fn plain_format() -> IntFormat {
    IntFormat { sign_plus: false, zero_pad: false, width: None, fill: ' ', align: Align::Unspecified }
}

/// One fill character as it lands in the output. A newline used as fill is
/// followed by the indentation of the line it opens (`indent` spaces), as
/// the pretty printer indents every new line of a nested value.
pub open spec fn fill_unit(c: char, indent: nat) -> Seq<char> {
    if c == '\n' {
        seq!['\n'] + spaces(indent)
    } else {
        seq![c]
    }
}

/// `n` fill characters.
pub open spec fn fill_text(c: char, n: nat, indent: nat) -> Seq<char>
    decreases n,
{
    if n == 0 {
        Seq::empty()
    } else {
        fill_text(c, (n - 1) as nat, indent) + fill_unit(c, indent)
    }
}

/// The sign written before the digits: `-` for a negative number, `+` for
/// another one when `sign_plus` is set, else nothing.
pub open spec fn sign_text(n: int, o: IntFormat) -> Seq<char> {
    if n < 0 {
        seq!['-']
    } else if o.sign_plus {
        seq!['+']
    } else {
        Seq::empty()
    }
}

/// Decimal text of `n` under the options `o`, as `Debug` writes an integer.
/// Without a width larger than sign and digits, it is the sign and the
/// digits. Otherwise the missing characters are zeros between sign and
/// digits when `zero_pad` is set, else fill characters placed by the
/// alignment (right by default, the smaller half first when centred).
/// `indent` is the indentation of new lines (see `fill_unit`).
#[verifier::opaque]
pub open spec fn int_formatted(n: int, o: IntFormat, indent: nat) -> Seq<char> {
    let sign = sign_text(n, o);
    let digits = nat_text(if n < 0 { (-n) as nat } else { n as nat });
    let len = sign.len() + digits.len();
    match o.width {
        Some(w) if w > len => {
            let pad = (w - len) as nat;
            if o.zero_pad {
                sign + fill_text('0', pad, indent) + digits
            } else {
                let pre: nat = match o.align {
                    Align::Left => 0,
                    Align::Center => pad / 2,
                    _ => pad,
                };
                fill_text(o.fill, pre, indent) + sign + digits + fill_text(
                    o.fill,
                    (pad - pre) as nat,
                    indent,
                )
            }
        },
        _ => sign + digits,
    }
}

/// Under the plain options an integer is its decimal text.
pub proof fn lemma_plain_int(n: int, indent: nat)
    ensures
        int_formatted(n, plain_format(), indent) == int_text(n),
{
    reveal(int_formatted);
    assert(sign_text(n, plain_format()) + nat_text(if n < 0 { (-n) as nat } else { n as nat })
        =~= int_text(n));
}

/// Appends one character: `String::push`.
#[verifier::external_body]
fn push_char(out: &mut String, c: char)
    ensures
        final(out)@ == old(out)@.push(c),
{
    out.push(c)
}

/// Appends `n` fill characters.
pub fn push_fill(out: &mut String, c: char, n: usize, indent: usize)
    ensures
        final(out)@ == old(out)@ + fill_text(c, n as nat, indent as nat),
{
    let ghost start = old(out)@;
    let mut i: usize = 0;
    while i < n
        invariant
            i <= n,
            out@ == start + fill_text(c, i as nat, indent as nat),
        decreases n - i,
    {
        let ghost before = out@;
        if c == '\n' {
            push_char(out, '\n');
            push_spaces(out, indent);
        } else {
            push_char(out, c);
        }
        assert(out@ =~= before + fill_unit(c, indent as nat));
        assert(out@ =~= start + fill_text(c, (i + 1) as nat, indent as nat));
        i = i + 1;
    }
}

/// Appends the sign of `n` under the options `o`.
fn push_sign(out: &mut String, n: i64, o: &IntFormat)
    ensures
        final(out)@ == old(out)@ + sign_text(n as int, *o),
{
    if n < 0 {
        push_char(out, '-');
    } else if o.sign_plus {
        push_char(out, '+');
    } else {
        assert(out@ =~= old(out)@ + sign_text(n as int, *o));
    }
}

/// The decimal digits of the magnitude of `n`.
fn magnitude_digits(n: i64) -> (res: String)
    ensures
        res@ == nat_text(if n < 0 { (-n) as nat } else { n as nat }),
{
    let magnitude: u64 = if n < 0 { (-(n + 1)) as u64 + 1 } else { n as u64 };
    let mut digits = String::new();
    push_nat(&mut digits, magnitude);
    digits
}

/// Appends the text of `n` under the options `o`, new lines indented by `indent`.
#[verifier::rlimit(50)]
pub fn push_int_with(out: &mut String, n: i64, o: &IntFormat, indent: usize)
    ensures
        final(out)@ == old(out)@ + int_formatted(n as int, *o, indent as nat),
{
    let ghost start = old(out)@;
    let digits = magnitude_digits(n);
    let dl = digits.as_str().unicode_len();
    let sl: usize = if n < 0 || o.sign_plus { 1 } else { 0 };
    let ghost sign = sign_text(n as int, *o);
    let ghost ds = nat_text(if n < 0 { (-n) as nat } else { n as nat });
    assert(sign.len() == sl);
    assert(digits@ == ds);
    let ghost target = int_formatted(n as int, *o, indent as nat);
    proof { reveal(int_formatted); }
    let wide = match o.width {
        Some(w) => w > dl && w - dl > sl,
        None => false,
    };
    if wide {
        let w = o.width.unwrap();
        let pad = w - dl - sl;
        if o.zero_pad {
            assert(target == sign + fill_text('0', pad as nat, indent as nat) + ds);
            push_sign(out, n, o);
            push_fill(out, '0', pad, indent);
            out.append(digits.as_str());
            assert(out@ =~= start + target);
        } else {
            let pre: usize = match o.align {
                Align::Left => 0,
                Align::Center => pad / 2,
                _ => pad,
            };
            assert(target == fill_text(o.fill, pre as nat, indent as nat) + sign + ds + fill_text(
                o.fill,
                (pad - pre) as nat,
                indent as nat,
            ));
            push_fill(out, o.fill, pre, indent);
            push_sign(out, n, o);
            out.append(digits.as_str());
            push_fill(out, o.fill, pad - pre, indent);
            assert(out@ =~= start + target);
        }
    } else {
        assert(target == sign + ds);
        push_sign(out, n, o);
        out.append(digits.as_str());
        assert(out@ =~= start + target);
    }
}

/// The items joined by `, ` are the first item followed by every later item,
/// each preceded by `, `.
pub proof fn lemma_join_as_flatten(items: Seq<Seq<char>>)
    requires
        items.len() > 0,
    ensures
        join(items) == items[0] + items.drop_first().map_values(|x: Seq<char>| ", "@ + x).flatten(),
    decreases items.len(),
{
    let m = items.drop_first().map_values(|x: Seq<char>| ", "@ + x);
    if items.len() == 1 {
        assert(m =~= Seq::<Seq<char>>::empty());
        assert(items[0] + m.flatten() =~= items[0]);
    } else {
        let d = items.drop_last();
        lemma_join_as_flatten(d);
        let md = d.drop_first().map_values(|x: Seq<char>| ", "@ + x);
        m.lemma_flatten_and_flatten_alt_are_equivalent();
        md.lemma_flatten_and_flatten_alt_are_equivalent();
        assert(m.drop_last() =~= md);
        assert(m.last() == ", "@ + items.last());
        assert(m.flatten_alt() == m.drop_last().flatten_alt() + m.last());
        assert(join(items) == join(d) + ", "@ + items.last());
        assert(d[0] == items[0]);
        assert(join(items) =~= items[0] + m.flatten());
    }
}

/// The entries of a pretty-printed list are every item, in order, each on a
/// new line indented by `indent + 4` and followed by `,`.
pub proof fn lemma_pretty_entries_as_flatten(items: Seq<Seq<char>>, indent: nat)
    ensures
        pretty_entries(items, indent) == items.map_values(
            |x: Seq<char>| "\n"@ + spaces(indent + 4) + x + ","@,
        ).flatten(),
    decreases items.len(),
{
    let m = items.map_values(|x: Seq<char>| "\n"@ + spaces(indent + 4) + x + ","@);
    m.lemma_flatten_and_flatten_alt_are_equivalent();
    if items.len() == 0 {
        assert(m =~= Seq::<Seq<char>>::empty());
    } else {
        let d = items.drop_last();
        lemma_pretty_entries_as_flatten(d, indent);
        let md = d.map_values(|x: Seq<char>| "\n"@ + spaces(indent + 4) + x + ","@);
        md.lemma_flatten_and_flatten_alt_are_equivalent();
        assert(m.drop_last() =~= md);
        assert(m.flatten_alt() == m.drop_last().flatten_alt() + m.last());
    }
}

/// The value of a decimal digit character.
pub open spec fn digit_value(c: char) -> int {
    (c as int) - ('0' as int)
}

/// The value of a string of decimal digits, most significant first.
pub open spec fn decimal_value(s: Seq<char>) -> int
    decreases s.len(),
{
    if s.len() == 0 {
        0
    } else {
        decimal_value(s.drop_last()) * 10 + digit_value(s.last())
    }
}

/// Each digit character has the value of its digit.
pub proof fn lemma_digit_char_value(d: int)
    requires
        0 <= d <= 9,
    ensures
        digit_value(digit_char(d)) == d,
{
}

/// The decimal text of `n` is made of digits only, reads back as `n`, and
/// starts with `0` only when it is the single digit of zero.
pub proof fn lemma_nat_text_is_decimal(n: nat)
    ensures
        forall|i: int|
            0 <= i < nat_text(n).len() ==> 0 <= #[trigger] digit_value(nat_text(n)[i]) <= 9,
        decimal_value(nat_text(n)) == n,
        nat_text(n).len() >= 1,
        nat_text(n)[0] == '0' ==> n == 0,
    decreases n,
{
    lemma_digit_char_value((n % 10) as int);
    if n >= 10 {
        lemma_nat_text_is_decimal(n / 10);
        let t = nat_text(n);
        assert(t.drop_last() =~= nat_text(n / 10));
        assert(t[0] == nat_text(n / 10)[0]);
        assert(t.last() == digit_char((n % 10) as int));
        assert(decimal_value(t) == decimal_value(t.drop_last()) * 10 + digit_value(t.last()));
        assert(decimal_value(t) == (n / 10) * 10 + n % 10);
    } else {
        lemma_digit_char_value(n as int);
        let t = nat_text(n);
        assert(t.drop_last() =~= Seq::<char>::empty());
        assert(decimal_value(t) == decimal_value(t.drop_last()) * 10 + digit_value(t.last()));
    }
}

/// Fill characters other than a newline are written as they are, `n` times.
pub proof fn lemma_fill_text_plain(c: char, n: nat, indent: nat)
    requires
        c != '\n',
    ensures
        fill_text(c, n, indent) == Seq::new(n, |i: int| c),
    decreases n,
{
    if n > 0 {
        lemma_fill_text_plain(c, (n - 1) as nat, indent);
        assert(fill_text(c, n, indent) =~= Seq::new(n, |i: int| c));
    } else {
        assert(fill_text(c, n, indent) =~= Seq::new(n, |i: int| c));
    }
}

/// An integer is its sign and digits when no width exceeds them; otherwise,
/// unless a newline is the fill, its text is exactly as wide as requested.
pub proof fn lemma_int_formatted_width(n: int, o: IntFormat, indent: nat)
    ensures
        ({
            let body = sign_text(n, o) + nat_text(if n < 0 { (-n) as nat } else { n as nat });
            &&& (o.width is None || o.width.unwrap() <= body.len()) ==> int_formatted(n, o, indent)
                == body
            &&& (o.width is Some && o.width.unwrap() > body.len() && (o.zero_pad || o.fill != '\n'))
                ==> int_formatted(n, o, indent).len() == o.width.unwrap()
        }),
{
    reveal(int_formatted);
    let body = sign_text(n, o) + nat_text(if n < 0 { (-n) as nat } else { n as nat });
    if o.width is Some && o.width.unwrap() > body.len() {
        let w = o.width.unwrap();
        let pad = (w - body.len()) as nat;
        if o.zero_pad {
            lemma_fill_text_plain('0', pad, indent);
        } else if o.fill != '\n' {
            let pre: nat = match o.align {
                Align::Left => 0,
                Align::Center => pad / 2,
                _ => pad,
            };
            lemma_fill_text_plain(o.fill, pre, indent);
            lemma_fill_text_plain(o.fill, (pad - pre) as nat, indent);
        }
    }
}

} // verus!
