//! Text building blocks: truncation, padding, decimal numbers and
//! terminal colouring.

use vstd::prelude::*;
use vstd::string::*;
use vstd::utf8::*;
use colored::Colorize;

verus! {

/// The first `n` characters of `s`, or all of `s` when it is shorter
/// (what `{:.n}` does to a string).
pub open spec fn truncated(s: Seq<char>, n: nat) -> Seq<char> {
    if s.len() <= n { s } else { s.take(n as int) }
}

/// Keeps at most `n` characters of `s`.
pub fn truncate_chars(s: &str, n: usize) -> (res: String)
    ensures
        res@ == truncated(s@, n as nat),
{
    let len = s.unicode_len();
    if len <= n {
        String::from_str(s)
    } else {
        String::from_str(s.substring_char(0, n))
    }
}

} // verus!

verus! {

/// `n` blanks.
pub open spec fn blanks(n: nat) -> Seq<char> {
    Seq::new(n, |i: int| ' ')
}

/// `s` followed by blanks up to `width` characters (what `{:<width}` does).
pub open spec fn padded_right(s: Seq<char>, width: nat) -> Seq<char> {
    if s.len() >= width { s } else { s + blanks((width - s.len()) as nat) }
}

/// `s` preceded by blanks up to `width` characters (what `{:>width}` does,
/// and what `{:width}` does to a number).
pub open spec fn padded_left(s: Seq<char>, width: nat) -> Seq<char> {
    if s.len() >= width { s } else { blanks((width - s.len()) as nat) + s }
}

/// Appends `n` blanks to `s`.
fn append_blanks(s: &mut String, n: usize)
    ensures
        final(s)@ == old(s)@ + blanks(n as nat),
{
    let ghost start = s@;
    let mut k: usize = 0;
    while k < n
        invariant
            k <= n,
            s@ == start + blanks(k as nat),
        decreases n - k,
    {
        proof {
            reveal_strlit(" ");
        }
        s.append(" ");
        k = k + 1;
        assert(s@ =~= start + blanks(k as nat));
    }
}

/// Left-aligns `s` in a field of `width` characters.
pub fn pad_right(s: &str, width: usize) -> (res: String)
    ensures
        res@ == padded_right(s@, width as nat),
{
    let len = s.unicode_len();
    let mut res = String::from_str(s);
    if len < width {
        append_blanks(&mut res, width - len);
    }
    res
}

/// Right-aligns `s` in a field of `width` characters.
pub fn pad_left(s: &str, width: usize) -> (res: String)
    ensures
        res@ == padded_left(s@, width as nat),
{
    let len = s.unicode_len();
    let mut res = String::new();
    if len < width {
        append_blanks(&mut res, width - len);
    }
    res.append(s);
    assert(len >= width ==> res@ =~= s@);
    res
}

/// Truncation keeps the first characters: the result is as long as `s` or
/// `n`, whichever is shorter, and each of its characters is the one at the
/// same place in `s`.
pub proof fn law_truncated_keeps_first_characters(s: Seq<char>, n: nat)
    ensures
        truncated(s, n).len() == if s.len() <= n { s.len() } else { n },
        forall|i: int| 0 <= i < truncated(s, n).len() ==> #[trigger] truncated(s, n)[i] == s[i],
{
}

/// Padding keeps the text and adds blanks up to the width: on the right
/// for `padded_right`, on the left for `padded_left`; text at least as wide
/// as the field stays as it is.
pub proof fn law_padding_adds_blanks_to_width(s: Seq<char>, width: nat)
    ensures
        padded_right(s, width).len() == if s.len() >= width { s.len() } else { width },
        padded_left(s, width).len() == if s.len() >= width { s.len() } else { width },
        padded_right(s, width).take(s.len() as int) == s,
        forall|i: int| s.len() <= i < padded_right(s, width).len() ==> #[trigger] padded_right(s, width)[i] == ' ',
        padded_left(s, width).skip(padded_left(s, width).len() - s.len()) == s,
        forall|i: int|
            0 <= i < padded_left(s, width).len() - s.len() ==> #[trigger] padded_left(s, width)[i] == ' ',
{
    assert(padded_right(s, width).take(s.len() as int) =~= s);
    assert(padded_left(s, width).skip(padded_left(s, width).len() - s.len()) =~= s);
}

/// The value that decimal digits stand for.
pub open spec fn digits_value(ds: Seq<char>) -> int
    decreases ds.len(),
{
    if ds.len() == 0 { 0 } else { digits_value(ds.drop_last()) * 10 + (ds.last() as int - '0' as int) }
}

/// Decimal writing is exact and has no leading zero: its digits stand for
/// `n`, each is one of `0`..`9`, and only `0` itself starts with `0`.
pub proof fn law_decimal_writes_the_number(n: nat)
    ensures
        digits_value(decimal(n)) == n,
        decimal(n).len() >= 1,
        forall|i: int| 0 <= i < decimal(n).len() ==> '0' <= #[trigger] decimal(n)[i] <= '9',
        decimal(n)[0] == '0' ==> n == 0,
    decreases n,
{
    lemma_digit_value(n % 10);
    if n >= 10 {
        law_decimal_writes_the_number(n / 10);
        assert(decimal(n).drop_last() =~= decimal(n / 10));
        assert(decimal(n)[0] == decimal(n / 10)[0]);
        assert(decimal(n).last() == digit(n % 10));
        assert(n == (n / 10) * 10 + n % 10);
    } else {
        assert(decimal(n).drop_last() =~= Seq::<char>::empty());
        assert(digits_value(Seq::<char>::empty()) == 0);
    }
}

proof fn lemma_digit_value(d: nat)
    requires
        d < 10,
    ensures
        digit(d) as int - '0' as int == d,
        '0' <= digit(d) <= '9',
        digit(d) == '0' ==> d == 0,
{
}

/// The decimal digit for `d < 10`.
pub open spec fn digit(d: nat) -> char {
    if d == 0 { '0' }
    else if d == 1 { '1' }
    else if d == 2 { '2' }
    else if d == 3 { '3' }
    else if d == 4 { '4' }
    else if d == 5 { '5' }
    else if d == 6 { '6' }
    else if d == 7 { '7' }
    else if d == 8 { '8' }
    else { '9' }
}

/// The decimal representation of `n`, without leading zeros.
pub open spec fn decimal(n: nat) -> Seq<char>
    decreases n,
{
    if n < 10 { seq![digit(n)] } else { decimal(n / 10).push(digit(n % 10)) }
}

fn digit_str(d: usize) -> (res: &'static str)
    requires
        d < 10,
    ensures
        res@ == seq![digit(d as nat)],
{
    if d == 0 { proof { reveal_strlit("0"); } "0" }
    else if d == 1 { proof { reveal_strlit("1"); } "1" }
    else if d == 2 { proof { reveal_strlit("2"); } "2" }
    else if d == 3 { proof { reveal_strlit("3"); } "3" }
    else if d == 4 { proof { reveal_strlit("4"); } "4" }
    else if d == 5 { proof { reveal_strlit("5"); } "5" }
    else if d == 6 { proof { reveal_strlit("6"); } "6" }
    else if d == 7 { proof { reveal_strlit("7"); } "7" }
    else if d == 8 { proof { reveal_strlit("8"); } "8" }
    else { proof { reveal_strlit("9"); } "9" }
}

/// Writes `n` in decimal (what `{}` does to an unsigned number).
pub fn decimal_string(n: usize) -> (res: String)
    ensures
        res@ == decimal(n as nat),
    decreases n,
{
    if n < 10 {
        String::from_str(digit_str(n))
    } else {
        let mut res = decimal_string(n / 10);
        res.append(digit_str(n % 10));
        res
    }
}

} // verus!

verus! {

/// The four terminal colours used when rendering a source chain.
#[derive(Clone, Copy, Debug, PartialEq, Eq, Structural)]
pub enum Tint {
    Yellow,
    Green,
    Red,
    Blue,
}

/// The ANSI sequence that ends any colouring.
pub open spec fn reset_sequence() -> Seq<char> {
    seq!['\u{1b}', '[', '0', 'm']
}

/// The ANSI sequence that selects `tint` as foreground colour.
pub open spec fn style_sequence(tint: Tint) -> Seq<char> {
    match tint {
        Tint::Yellow => seq!['\u{1b}', '[', '3', '3', 'm'],
        Tint::Green => seq!['\u{1b}', '[', '3', '2', 'm'],
        Tint::Red => seq!['\u{1b}', '[', '3', '1', 'm'],
        Tint::Blue => seq!['\u{1b}', '[', '3', '4', 'm'],
    }
}

/// `s` with `style` inserted after every reset sequence, so that text that
/// was coloured inside `s` falls back to the outer colour afterwards.
pub open spec fn rearm_resets(s: Seq<char>, style: Seq<char>) -> Seq<char>
    decreases s.len(),
{
    if s.len() == 0 {
        s
    } else if s.len() >= 4 && s.take(4) == reset_sequence() {
        reset_sequence() + style + rearm_resets(s.skip(4), style)
    } else {
        seq![s[0]] + rearm_resets(s.skip(1), style)
    }
}

/// `style` when `on`, nothing otherwise.
pub open spec fn style_if(tint: Tint, on: bool) -> Seq<char> {
    if on { style_sequence(tint) } else { Seq::empty() }
}

/// What `colored` makes of `s` once it has decided to colour it: the style
/// sequence (or nothing, when the switch was off by the time the prefix was
/// written), `s` with the style (or nothing) inserted after each inner reset
/// sequence, and a reset sequence.
pub open spec fn coloured(s: Seq<char>, tint: Tint, style_first: bool, rearmed: bool) -> Seq<char> {
    style_if(tint, style_first) + rearm_resets(s, style_if(tint, rearmed)) + reset_sequence()
}

/// How one rendering through `colored` came out.
#[derive(Clone, Copy, Debug, PartialEq, Eq, Structural)]
pub enum Colouring {
    /// Colouring was off: the text came back unchanged.
    Off,
    /// Colouring was on when the rendering started; `style_first` and
    /// `rearmed` say whether it was still on when the style sequence was
    /// written and when the inner reset sequences were re-armed.
    On { style_first: bool, rearmed: bool },
}

/// `s` rendered in `tint` as `colouring` says.
pub open spec fn painted(s: Seq<char>, tint: Tint, colouring: Colouring) -> Seq<char> {
    match colouring {
        Colouring::Off => s,
        Colouring::On { style_first, rearmed } => coloured(s, tint, style_first, rearmed),
    }
}

/// Renders `s` in `tint` through `colored` (`Colorize::color`, then
/// `Display`). The crate reads its colouring switch (set from the
/// environment: `NO_COLOR`, `CLICOLOR`, `CLICOLOR_FORCE`, whether stdout is
/// a terminal; or by `colored::control::set_override`) first to decide
/// whether to colour at all, and then again while it re-arms the inner reset
/// sequences and while it writes the style sequence. When the switch is off
/// at the first read, `s` comes back unchanged; otherwise the result is
/// `coloured(s, tint, ..)`, with the style sequence and the re-armed styles
/// present or absent as the switch stood at the later reads (all present
/// when no other thread flips the switch during the call). Which of these
/// happens is not stated.
#[verifier::external_body]
pub fn paint(s: &str, tint: Tint) -> (res: String)
    ensures
        res@ == s@
            || res@ == coloured(s@, tint, true, true)
            || res@ == coloured(s@, tint, true, false)
            || res@ == coloured(s@, tint, false, true)
            || res@ == coloured(s@, tint, false, false),
{
    let colour = match tint {
        Tint::Yellow => colored::Color::Yellow,
        Tint::Green => colored::Color::Green,
        Tint::Red => colored::Color::Red,
        Tint::Blue => colored::Color::Blue,
    };
    s.color(colour).to_string()
}

/// What `String::from_utf8_lossy` makes of `bytes`.
pub uninterp spec fn utf8_lossy(bytes: Seq<u8>) -> Seq<char>;

/// Decodes `bytes` with `String::from_utf8_lossy`: valid UTF-8 is decoded
/// as it stands; what it makes of invalid sequences (replacement
/// characters) is only named.
#[verifier::external_body]
pub fn decode_utf8_lossy(bytes: &[u8]) -> (res: String)
    ensures
        res@ == utf8_lossy(bytes@),
        valid_utf8(bytes@) ==> res@ == decode_utf8(bytes@),
{
    String::from_utf8_lossy(bytes).into_owned()
}

} // verus!
