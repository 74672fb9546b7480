use vstd::prelude::*;
use vstd::string::*;

verus! {

/// How wide the number in a sequence's file names is.
#[derive(Clone, Copy, Debug, PartialEq, Eq)]
pub enum Padding {
    /// As wide as the page count needs.
    Auto,
    /// At least this many digits.
    Width(usize),
}

/// The number of decimal digits of `n`; 0 has one.
pub open spec fn decimal_width(n: nat) -> nat
    decreases n,
{
    if n < 10 {
        1
    } else {
        1 + decimal_width(n / 10)
    }
}

/// Ten to the power `e`.
pub open spec fn pow10(e: nat) -> nat
    decreases e,
{
    if e == 0 {
        1
    } else {
        10 * pow10((e - 1) as nat)
    }
}

/// The character of one decimal digit.
pub open spec fn digit_char(d: nat) -> char {
    if d == 0 {
        '0'
    } else if d == 1 {
        '1'
    } else if d == 2 {
        '2'
    } else if d == 3 {
        '3'
    } else if d == 4 {
        '4'
    } else if d == 5 {
        '5'
    } else if d == 6 {
        '6'
    } else if d == 7 {
        '7'
    } else if d == 8 {
        '8'
    } else {
        '9'
    }
}

/// `n` in decimal, without leading zeros.
pub open spec fn decimal_text(n: nat) -> Seq<char>
    decreases n,
{
    if n < 10 {
        seq![digit_char(n)]
    } else {
        decimal_text(n / 10).push(digit_char(n % 10))
    }
}

/// `count` zeros.
pub open spec fn zeros(count: nat) -> Seq<char> {
    Seq::new(count, |i: int| '0')
}

/// `index` in decimal, with zeros in front until it has `width` characters.
/// A number that needs more than `width` digits keeps them all.
pub open spec fn folio_text(index: nat, width: nat) -> Seq<char> {
    let digits = decimal_width(index);
    zeros(if width > digits { (width - digits) as nat } else { 0 }) + decimal_text(index)
}

/// `pattern` with every `{}` replaced by `folio`, read from left to right.
pub open spec fn fill(pattern: Seq<char>, folio: Seq<char>) -> Seq<char>
    decreases pattern.len(),
{
    if pattern.len() == 0 {
        Seq::empty()
    } else if pattern.len() >= 2 && pattern[0] == '{' && pattern[1] == '}' {
        folio + fill(pattern.skip(2), folio)
    } else {
        seq![pattern[0]] + fill(pattern.skip(1), folio)
    }
}

/// How often `fill` puts the folio into `pattern`: the number of `{}` in it,
/// read from left to right.
pub open spec fn placeholder_count(pattern: Seq<char>) -> nat
    decreases pattern.len(),
{
    if pattern.len() == 0 {
        0
    } else if pattern.len() >= 2 && pattern[0] == '{' && pattern[1] == '}' {
        1 + placeholder_count(pattern.skip(2))
    } else {
        placeholder_count(pattern.skip(1))
    }
}

/// The number of characters of `pattern` that `fill` copies as they are.
pub open spec fn literal_count(pattern: Seq<char>) -> nat
    decreases pattern.len(),
{
    if pattern.len() == 0 {
        0
    } else if pattern.len() >= 2 && pattern[0] == '{' && pattern[1] == '}' {
        literal_count(pattern.skip(2))
    } else {
        1 + literal_count(pattern.skip(1))
    }
}

/// The number of characters of `pattern` in front of its first `{}`; all of
/// them where it holds none.
pub open spec fn first_placeholder(pattern: Seq<char>) -> nat
    decreases pattern.len(),
{
    if pattern.len() == 0 {
        0
    } else if pattern.len() >= 2 && pattern[0] == '{' && pattern[1] == '}' {
        0
    } else {
        1 + first_placeholder(pattern.skip(1))
    }
}

/// Whether `pattern` holds a `{}`, which says where the page number goes.
pub open spec fn has_placeholder(pattern: Seq<char>) -> bool {
    placeholder_count(pattern) > 0
}

/// The number that a decimal digit stands for; 0 for every other character.
pub open spec fn digit_value(c: char) -> nat {
    if c == '1' {
        1
    } else if c == '2' {
        2
    } else if c == '3' {
        3
    } else if c == '4' {
        4
    } else if c == '5' {
        5
    } else if c == '6' {
        6
    } else if c == '7' {
        7
    } else if c == '8' {
        8
    } else if c == '9' {
        9
    } else {
        0
    }
}

/// The number that `text` is in decimal, leading zeros allowed.
pub open spec fn decimal_value(text: Seq<char>) -> nat
    decreases text.len(),
{
    if text.len() == 0 {
        0
    } else {
        decimal_value(text.drop_last()) * 10 + digit_value(text.last())
    }
}

/// The padding that a caller's number asks for: a number from zero up is the
/// width; a negative one, or none at all, leaves the width to the page count.
pub open spec fn padding_for(number: Option<i64>) -> Padding {
    match number {
        Some(n) => if n >= 0 {
            Padding::Width(n as usize)
        } else {
            Padding::Auto
        },
        None => Padding::Auto,
    }
}

/// The width that a sequence of `page_count` pages is numbered with.
pub open spec fn resolved_padding(padding: Padding, page_count: nat) -> nat {
    match padding {
        Padding::Auto => decimal_width(page_count),
        Padding::Width(width) => width as nat,
    }
}

/// Whether `c` parts the components of a path.
pub open spec fn is_separator(c: char) -> bool {
    c == '/' || c == '\\'
}

/// Where the extension of the file name begins, going back from `upto`: the
/// place of the last `.` among the first `upto` characters that no path
/// separator follows; the end of the pattern where there is none.
pub open spec fn extension_start(pattern: Seq<char>, upto: nat) -> nat
    decreases upto,
{
    if upto == 0 {
        pattern.len()
    } else if is_separator(pattern[upto - 1]) {
        pattern.len()
    } else if pattern[upto - 1] == '.' {
        (upto - 1) as nat
    } else {
        extension_start(pattern, (upto - 1) as nat)
    }
}

/// Where the folio goes into a name made from `pattern`: where the first
/// `{}` stands, or else in front of the file name's extension, or else at
/// the end.
pub open spec fn folio_place(pattern: Seq<char>) -> nat {
    if has_placeholder(pattern) {
        first_placeholder(pattern)
    } else {
        extension_start(pattern, pattern.len())
    }
}

/// `pattern` with the folio put into it: in place of every `{}` where it
/// holds one, else once in front of the file name's extension, so that the
/// folio is part of the name whatever the pattern is.
pub open spec fn numbered(pattern: Seq<char>, folio: Seq<char>) -> Seq<char> {
    if has_placeholder(pattern) {
        fill(pattern, folio)
    } else {
        pattern.take(folio_place(pattern) as int) + folio + pattern.skip(
            folio_place(pattern) as int,
        )
    }
}

/// The name of the file that page `index` of a sequence is written to. Pages
/// are counted from zero.
pub open spec fn file_name(pattern: Seq<char>, index: nat, width: nat) -> Seq<char> {
    numbered(pattern, folio_text(index, width))
}

/// A number has as many characters in decimal as it has digits.
pub proof fn decimal_text_len(n: nat)
    ensures
        decimal_text(n).len() == decimal_width(n),
    decreases n,
{
    if n >= 10 {
        decimal_text_len(n / 10);
    }
}

/// The digit count `w` of a positive `n` is the least with `n + 1 <= 10^w`:
/// `10^(w-1) < n + 1 <= 10^w`, which makes `w` the logarithm of `n + 1` to
/// base ten, rounded up.
pub proof fn decimal_width_is_rounded_up_log(n: nat)
    requires
        n >= 1,
    ensures
        decimal_width(n) >= 1,
        pow10((decimal_width(n) - 1) as nat) < n + 1 <= pow10(decimal_width(n)),
    decreases n,
{
    reveal_with_fuel(pow10, 2);
    if n >= 10 {
        decimal_width_is_rounded_up_log(n / 10);
        let w = decimal_width(n / 10);
        assert(pow10(w) == 10 * pow10((w - 1) as nat));
        assert(pow10(w + 1) == 10 * pow10(w));
        assert(decimal_width(n) == w + 1);
    }
}

/// A folio is never shorter than the width asked for, nor than the number's
/// own digits, and is exactly the longer of the two.
pub proof fn folio_text_len(index: nat, width: nat)
    ensures
        folio_text(index, width).len() == if width > decimal_width(index) {
            width
        } else {
            decimal_width(index)
        },
{
    decimal_text_len(index);
}

/// A larger number has at least as many digits.
pub proof fn decimal_width_grows(small: nat, large: nat)
    requires
        small <= large,
    ensures
        decimal_width(small) <= decimal_width(large),
    decreases large,
{
    if small >= 10 {
        decimal_width_grows(small / 10, large / 10);
    }
}

/// In a sequence of `page_count` pages that is numbered automatically, the
/// numbers run from zero and every one of them is written with exactly as
/// many digits as `page_count` has: the logarithm of `page_count + 1` to
/// base ten, rounded up.
pub proof fn auto_padding_fits_every_page(page_count: nat, index: nat)
    requires
        index < page_count,
    ensures
        folio_text(index, resolved_padding(Padding::Auto, page_count)).len() == decimal_width(
            page_count,
        ),
        pow10((decimal_width(page_count) - 1) as nat) < page_count + 1 <= pow10(
            decimal_width(page_count),
        ),
{
    decimal_width_grows(index, page_count);
    folio_text_len(index, decimal_width(page_count));
    decimal_width_is_rounded_up_log(page_count);
}

/// A number written in decimal reads back as itself.
pub proof fn decimal_text_reads_back(n: nat)
    ensures
        decimal_value(decimal_text(n)) == n,
    decreases n,
{
    let text = decimal_text(n);
    if n < 10 {
        assert(text.drop_last() =~= Seq::<char>::empty());
        assert(text.last() == digit_char(n));
        assert(decimal_value(text.drop_last()) == 0);
    } else {
        decimal_text_reads_back(n / 10);
        assert(text.drop_last() =~= decimal_text(n / 10));
        assert(text.last() == digit_char(n % 10));
    }
}

/// Zeros in front do not change the number that a text reads as.
pub proof fn leading_zeros_read_as_nothing(count: nat, text: Seq<char>)
    ensures
        decimal_value(zeros(count) + text) == decimal_value(text),
    decreases text.len(), count,
{
    let whole = zeros(count) + text;
    if text.len() == 0 {
        assert(whole =~= zeros(count));
        if count > 0 {
            assert(whole.drop_last() =~= zeros((count - 1) as nat) + text);
            assert(whole.last() == '0');
            leading_zeros_read_as_nothing((count - 1) as nat, text);
        }
    } else {
        assert(whole.drop_last() =~= zeros(count) + text.drop_last());
        assert(whole.last() == text.last());
        leading_zeros_read_as_nothing(count, text.drop_last());
    }
}

/// A folio reads back as the page's number, whatever its width.
pub proof fn folio_reads_back(index: nat, width: nat)
    ensures
        decimal_value(folio_text(index, width)) == index,
{
    let digits = decimal_width(index);
    let count: nat = if width > digits { (width - digits) as nat } else { 0 };
    leading_zeros_read_as_nothing(count, decimal_text(index));
    decimal_text_reads_back(index);
}

/// Two pages of a sequence never get the same folio.
pub proof fn folios_differ(first: nat, second: nat, width: nat)
    requires
        first != second,
    ensures
        folio_text(first, width) != folio_text(second, width),
{
    folio_reads_back(first, width);
    folio_reads_back(second, width);
}

/// A filled pattern is as long as what is copied of it and one folio for
/// each `{}`.
pub proof fn fill_len(pattern: Seq<char>, folio: Seq<char>)
    ensures
        fill(pattern, folio).len() == literal_count(pattern) + placeholder_count(pattern)
            * folio.len(),
    decreases pattern.len(),
{
    let each = folio.len() as int;
    if pattern.len() == 0 {
        assert(0 * each == 0) by (nonlinear_arith);
    } else if pattern.len() >= 2 && pattern[0] == '{' && pattern[1] == '}' {
        fill_len(pattern.skip(2), folio);
        let rest = placeholder_count(pattern.skip(2)) as int;
        assert((1 + rest) * each == each + rest * each) by (nonlinear_arith);
        assert(fill(pattern, folio).len() == each + fill(pattern.skip(2), folio).len());
    } else {
        fill_len(pattern.skip(1), folio);
        assert(fill(pattern, folio).len() == 1 + fill(pattern.skip(1), folio).len());
    }
}

/// A name made from a pattern with a `{}` holds the folio: the pattern's
/// characters up to the first `{}`, and then the folio in full.
pub proof fn name_holds_the_folio(pattern: Seq<char>, folio: Seq<char>)
    requires
        has_placeholder(pattern),
    ensures
        first_placeholder(pattern) + folio.len() <= fill(pattern, folio).len(),
        first_placeholder(pattern) <= pattern.len(),
        fill(pattern, folio).take(first_placeholder(pattern) as int) == pattern.take(
            first_placeholder(pattern) as int,
        ),
        fill(pattern, folio).subrange(
            first_placeholder(pattern) as int,
            (first_placeholder(pattern) + folio.len()) as int,
        ) == folio,
    decreases pattern.len(),
{
    let name = fill(pattern, folio);
    let at = first_placeholder(pattern) as int;
    if pattern.len() >= 2 && pattern[0] == '{' && pattern[1] == '}' {
        assert(name.take(at) =~= pattern.take(at));
        assert(name.subrange(at, at + folio.len()) =~= folio);
    } else {
        let rest = pattern.skip(1);
        name_holds_the_folio(rest, folio);
        let inner = fill(rest, folio);
        assert(name =~= seq![pattern[0]] + inner);
        assert(name.take(at) =~= seq![pattern[0]] + inner.take(at - 1));
        assert(pattern.take(at) =~= seq![pattern[0]] + rest.take(at - 1));
        assert(name.subrange(at, at + folio.len()) =~= inner.subrange(
            at - 1,
            at - 1 + folio.len(),
        ));
    }
}

/// Two folios of one length that fill a pattern with a `{}` alike are the
/// same folio.
proof fn fill_tells_equal_lengths_apart(pattern: Seq<char>, first: Seq<char>, second: Seq<char>)
    requires
        has_placeholder(pattern),
        first.len() == second.len(),
        fill(pattern, first) == fill(pattern, second),
    ensures
        first == second,
    decreases pattern.len(),
{
    let one = fill(pattern, first);
    let other = fill(pattern, second);
    if pattern.len() >= 2 && pattern[0] == '{' && pattern[1] == '}' {
        assert(first =~= one.subrange(0, first.len() as int));
        assert(second =~= other.subrange(0, second.len() as int));
    } else {
        assert(fill(pattern.skip(1), first) =~= one.skip(1));
        assert(fill(pattern.skip(1), second) =~= other.skip(1));
        fill_tells_equal_lengths_apart(pattern.skip(1), first, second);
    }
}

/// A pattern with a `{}` gives different names for different folios.
pub proof fn fill_tells_folios_apart(pattern: Seq<char>, first: Seq<char>, second: Seq<char>)
    requires
        has_placeholder(pattern),
        first != second,
    ensures
        fill(pattern, first) != fill(pattern, second),
{
    if fill(pattern, first) == fill(pattern, second) {
        fill_len(pattern, first);
        fill_len(pattern, second);
        let count = placeholder_count(pattern) as int;
        let one = first.len() as int;
        let other = second.len() as int;
        assert(one == other) by (nonlinear_arith)
            requires
                count > 0,
                count * one == count * other,
        ;
        fill_tells_equal_lengths_apart(pattern, first, second);
    }
}

/// The extension never begins behind the end of the pattern.
pub proof fn extension_start_is_inside(pattern: Seq<char>, upto: nat)
    requires
        upto <= pattern.len(),
    ensures
        extension_start(pattern, upto) <= pattern.len(),
    decreases upto,
{
    if upto > 0 && !is_separator(pattern[upto - 1]) && pattern[upto - 1] != '.' {
        extension_start_is_inside(pattern, (upto - 1) as nat);
    }
}

/// A numbered name holds the folio, whatever the pattern is: the pattern's
/// characters up to the folio's place, and then the folio in full.
pub proof fn numbered_name_holds_the_folio(pattern: Seq<char>, folio: Seq<char>)
    ensures
        folio_place(pattern) <= pattern.len(),
        folio_place(pattern) + folio.len() <= numbered(pattern, folio).len(),
        numbered(pattern, folio).take(folio_place(pattern) as int) == pattern.take(
            folio_place(pattern) as int,
        ),
        numbered(pattern, folio).subrange(
            folio_place(pattern) as int,
            (folio_place(pattern) + folio.len()) as int,
        ) == folio,
{
    let at = folio_place(pattern) as int;
    let name = numbered(pattern, folio);
    if has_placeholder(pattern) {
        name_holds_the_folio(pattern, folio);
    } else {
        extension_start_is_inside(pattern, pattern.len());
        assert(name.take(at) =~= pattern.take(at));
        assert(name.subrange(at, at + folio.len()) =~= folio);
    }
}

/// Different folios give different names, whatever the pattern is.
pub proof fn numbered_names_differ(pattern: Seq<char>, first: Seq<char>, second: Seq<char>)
    requires
        first != second,
    ensures
        numbered(pattern, first) != numbered(pattern, second),
{
    if has_placeholder(pattern) {
        fill_tells_folios_apart(pattern, first, second);
    } else if numbered(pattern, first) == numbered(pattern, second) {
        let at = folio_place(pattern) as int;
        extension_start_is_inside(pattern, pattern.len());
        numbered_name_holds_the_folio(pattern, first);
        numbered_name_holds_the_folio(pattern, second);
        assert(numbered(pattern, first).len() == pattern.len() + first.len());
        assert(numbered(pattern, second).len() == pattern.len() + second.len());
        assert(first.len() == second.len());
    }
}

/// No two pages of a sequence are written to the same file, whatever the
/// pattern and the width are.
pub proof fn sequence_names_differ(pattern: Seq<char>, first: nat, second: nat, width: nat)
    requires
        first != second,
    ensures
        file_name(pattern, first, width) != file_name(pattern, second, width),
{
    folios_differ(first, second, width);
    numbered_names_differ(pattern, folio_text(first, width), folio_text(second, width));
}

/// In a sequence of `page_count` pages that is numbered automatically, the
/// name of every page's file holds, at the folio's place, the page's number
/// in exactly as many digits as `page_count` has.
pub proof fn auto_numbered_name(pattern: Seq<char>, page_count: nat, index: nat)
    requires
        index < page_count,
    ensures
        ({
            let width = decimal_width(page_count);
            let name = file_name(pattern, index, resolved_padding(Padding::Auto, page_count));
            let at = folio_place(pattern) as int;
            &&& at + width <= name.len()
            &&& name.subrange(at, at + width) == folio_text(index, width)
            &&& decimal_value(name.subrange(at, at + width)) == index
        }),
{
    let width = decimal_width(page_count);
    auto_padding_fits_every_page(page_count, index);
    numbered_name_holds_the_folio(pattern, folio_text(index, width));
    folio_reads_back(index, width);
}

/// The number of decimal digits of `n`.
pub fn digits_of(n: usize) -> (width: usize)
    ensures
        width == decimal_width(n as nat),
        1 <= width <= 20,
{
    let mut width: usize = 1;
    let mut rest: usize = n;
    proof {
        reveal_with_fuel(pow10, 21);
        assert(pow10(20) == 100_000_000_000_000_000_000);
        width_bound(n as nat, 20);
    }
    while rest >= 10
        invariant
            width + decimal_width(rest as nat) == 1 + decimal_width(n as nat),
            1 <= width,
            1 <= decimal_width(rest as nat),
            decimal_width(n as nat) <= 20,
        decreases rest,
    {
        rest = rest / 10;
        width = width + 1;
    }
    width
}

/// A number below `10^e` has at most `e` digits.
proof fn width_bound(n: nat, e: nat)
    requires
        e >= 1,
        n < pow10(e),
    ensures
        decimal_width(n) <= e,
    decreases n,
{
    reveal_with_fuel(pow10, 2);
    if n >= 10 {
        if e == 1 {
            assert(pow10(1) == 10);
        } else {
            assert(pow10(e) == 10 * pow10((e - 1) as nat));
            width_bound(n / 10, (e - 1) as nat);
        }
    }
}

/// The width that a sequence of `page_count` pages is numbered with: the
/// width asked for, or the digit count of `page_count`.
pub fn sequence_padding(padding: Padding, page_count: usize) -> (width: usize)
    ensures
        width == resolved_padding(padding, page_count as nat),
{
    match padding {
        Padding::Auto => digits_of(page_count),
        Padding::Width(width) => width,
    }
}

/// The padding that a caller's number asks for: a number from zero up is the
/// width; a negative one, or none at all, leaves the width to the page count.
pub fn padding_from(number: Option<i64>) -> (padding: Padding)
    ensures
        padding == padding_for(number),
{
    match number {
        Some(n) => if n >= 0 {
            Padding::Width(n as usize)
        } else {
            Padding::Auto
        },
        None => Padding::Auto,
    }
}

/// Passing one character of the pattern, or one `{}`, leaves the count of
/// what follows as `placeholder_count` says.
proof fn count_step(pattern: Seq<char>, at: int)
    requires
        0 <= at < pattern.len(),
    ensures
        at + 1 < pattern.len() && pattern[at] == '{' && pattern[at + 1] == '}'
            ==> placeholder_count(pattern.skip(at)) == 1 + placeholder_count(
            pattern.skip(at + 2),
        ),
        !(at + 1 < pattern.len() && pattern[at] == '{' && pattern[at + 1] == '}')
            ==> placeholder_count(pattern.skip(at)) == placeholder_count(pattern.skip(at + 1)),
{
    let rest = pattern.skip(at);
    assert(rest.len() == pattern.len() - at);
    assert(rest[0] == pattern[at]);
    if at + 1 < pattern.len() {
        assert(rest[1] == pattern[at + 1]);
    }
    assert(rest.skip(1) =~= pattern.skip(at + 1));
    if rest.len() >= 2 {
        assert(rest.skip(2) =~= pattern.skip(at + 2));
    }
}

/// Whether `pattern` holds a `{}`.
pub fn holds_placeholder(pattern: &str) -> (found: bool)
    ensures
        found == has_placeholder(pattern@),
{
    let len: usize = pattern.unicode_len();
    let mut at: usize = 0;
    assert(pattern@.skip(0) =~= pattern@);
    while at < len
        invariant
            len == pattern@.len(),
            at <= len,
            placeholder_count(pattern@.skip(at as int)) == placeholder_count(pattern@),
        decreases len - at,
    {
        proof {
            count_step(pattern@, at as int);
        }
        if at + 1 < len && pattern.get_char(at) == '{' && pattern.get_char(at + 1) == '}' {
            return true;
        }
        at = at + 1;
    }
    assert(pattern@.skip(at as int) =~= Seq::<char>::empty());
    false
}

fn digit_str(d: usize) -> (text: &'static str)
    requires
        d < 10,
    ensures
        text@ == seq![digit_char(d as nat)],
{
    proof {
        reveal_strlit("0");
        reveal_strlit("1");
        reveal_strlit("2");
        reveal_strlit("3");
        reveal_strlit("4");
        reveal_strlit("5");
        reveal_strlit("6");
        reveal_strlit("7");
        reveal_strlit("8");
        reveal_strlit("9");
    }
    let text = if d == 0 {
        "0"
    } else if d == 1 {
        "1"
    } else if d == 2 {
        "2"
    } else if d == 3 {
        "3"
    } else if d == 4 {
        "4"
    } else if d == 5 {
        "5"
    } else if d == 6 {
        "6"
    } else if d == 7 {
        "7"
    } else if d == 8 {
        "8"
    } else {
        "9"
    };
    assert(text@ =~= seq![digit_char(d as nat)]);
    text
}

/// Appends `n` in decimal to `out`.
fn append_decimal(out: &mut String, n: usize)
    ensures
        final(out)@ == old(out)@ + decimal_text(n as nat),
    decreases n,
{
    if n >= 10 {
        append_decimal(out, n / 10);
    }
    out.append(digit_str(n % 10));
    assert(out@ =~= old(out)@ + decimal_text(n as nat));
}

/// `index` in decimal, with zeros in front until it has `width` characters.
pub fn folio(index: usize, width: usize) -> (text: String)
    ensures
        text@ == folio_text(index as nat, width as nat),
{
    let digits: usize = digits_of(index);
    let missing: usize = if width > digits { width - digits } else { 0 };
    let mut text = String::new();
    let mut done: usize = 0;
    while done < missing
        invariant
            done <= missing,
            text@ == zeros(done as nat),
        decreases missing - done,
    {
        text.append("0");
        done = done + 1;
        proof {
            reveal_strlit("0");
        }
        assert(text@ =~= zeros(done as nat));
    }
    append_decimal(&mut text, index);
    text
}

/// Copying one character of the pattern, or replacing one `{}`, leaves what
/// is still to be filled as `fill` says.
proof fn fill_step(pattern: Seq<char>, folio: Seq<char>, at: int)
    requires
        0 <= at < pattern.len(),
    ensures
        at + 1 < pattern.len() && pattern[at] == '{' && pattern[at + 1] == '}' ==> fill(
            pattern.skip(at),
            folio,
        ) == folio + fill(pattern.skip(at + 2), folio),
        !(at + 1 < pattern.len() && pattern[at] == '{' && pattern[at + 1] == '}') ==> fill(
            pattern.skip(at),
            folio,
        ) == seq![pattern[at]] + fill(pattern.skip(at + 1), folio),
{
    let rest = pattern.skip(at);
    assert(rest.len() == pattern.len() - at);
    assert(rest[0] == pattern[at]);
    if at + 1 < pattern.len() {
        assert(rest[1] == pattern[at + 1]);
    }
    assert(rest.skip(1) =~= pattern.skip(at + 1));
    if rest.len() >= 2 {
        assert(rest.skip(2) =~= pattern.skip(at + 2));
    }
}

/// `pattern` with every `{}` replaced by `folio`.
pub fn fill_pattern(pattern: &str, folio: &str) -> (name: String)
    ensures
        name@ == fill(pattern@, folio@),
{
    let len: usize = pattern.unicode_len();
    let mut name = String::new();
    let mut at: usize = 0;
    assert(pattern@.skip(0) =~= pattern@);
    while at < len
        invariant
            len == pattern@.len(),
            at <= len,
            name@ + fill(pattern@.skip(at as int), folio@) == fill(pattern@, folio@),
        decreases len - at,
    {
        proof {
            fill_step(pattern@, folio@, at as int);
        }
        let ghost before = name@;
        if at + 1 < len && pattern.get_char(at) == '{' && pattern.get_char(at + 1) == '}' {
            name.append(folio);
            at = at + 2;
            assert(name@ + fill(pattern@.skip(at as int), folio@) =~= before + (folio@ + fill(
                pattern@.skip(at as int),
                folio@,
            )));
        } else {
            name.append(pattern.substring_char(at, at + 1));
            assert(pattern@.subrange(at as int, at + 1) =~= seq![pattern@[at as int]]);
            at = at + 1;
            assert(name@ + fill(pattern@.skip(at as int), folio@) =~= before + (seq![
                pattern@[at - 1],
            ] + fill(pattern@.skip(at as int), folio@)));
        }
    }
    assert(pattern@.skip(at as int) =~= Seq::<char>::empty());
    assert(name@ + Seq::<char>::empty() =~= name@);
    name
}

/// Where the extension of the file name begins: the place of the last `.`
/// that no path separator follows, or the end of the pattern.
pub fn extension_place(pattern: &str) -> (place: usize)
    ensures
        place == extension_start(pattern@, pattern@.len()),
        place <= pattern@.len(),
{
    let len: usize = pattern.unicode_len();
    let mut upto: usize = len;
    proof {
        extension_start_is_inside(pattern@, pattern@.len());
    }
    while upto > 0
        invariant
            len == pattern@.len(),
            upto <= len,
            extension_start(pattern@, upto as nat) == extension_start(pattern@, len as nat),
        decreases upto,
    {
        let c = pattern.get_char(upto - 1);
        if c == '/' || c == '\\' {
            return len;
        }
        if c == '.' {
            return upto - 1;
        }
        upto = upto - 1;
    }
    len
}

/// `pattern` with the folio put into it: in place of every `{}` where it
/// holds one, else once in front of the file name's extension.
pub fn number_pattern(pattern: &str, folio: &str) -> (name: String)
    ensures
        name@ == numbered(pattern@, folio@),
{
    if holds_placeholder(pattern) {
        fill_pattern(pattern, folio)
    } else {
        let len: usize = pattern.unicode_len();
        let place: usize = extension_place(pattern);
        let mut name = String::from_str(pattern.substring_char(0, place));
        name.append(folio);
        name.append(pattern.substring_char(place, len));
        assert(name@ =~= numbered(pattern@, folio@));
        name
    }
}

/// The name of the file that page `index` of a sequence is written to: the
/// pattern with the page's number, zero-padded to `width`, put into it.
/// Pages are counted from zero.
pub fn sequence_file_name(pattern: &str, index: usize, width: usize) -> (name: String)
    ensures
        name@ == file_name(pattern@, index as nat, width as nat),
{
    let number = folio(index, width);
    number_pattern(pattern, number.as_str())
}

/// The names of the files of a sequence of `page_count` pages, in page order.
/// Every name holds its page's number, so no two of them are alike.
pub fn sequence_file_names(pattern: &str, page_count: usize, padding: Padding) -> (names: Vec<
    String,
>)
    ensures
        names@.len() == page_count,
        forall|i: int|
            0 <= i < page_count ==> (#[trigger] names@[i])@ == file_name(
                pattern@,
                i as nat,
                resolved_padding(padding, page_count as nat),
            ),
{
    let width: usize = sequence_padding(padding, page_count);
    let mut names: Vec<String> = Vec::new();
    let mut index: usize = 0;
    while index < page_count
        invariant
            index <= page_count,
            names@.len() == index,
            width == resolved_padding(padding, page_count as nat),
            forall|i: int|
                0 <= i < index ==> (#[trigger] names@[i])@ == file_name(
                    pattern@,
                    i as nat,
                    width as nat,
                ),
        decreases page_count - index,
    {
        names.push(sequence_file_name(pattern, index, width));
        index = index + 1;
    }
    names
}

} // verus!
