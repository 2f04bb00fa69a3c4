//! JSON text construction for the wire bodies.
//!
//! The service accepts JSON bodies; this module states, as spec functions
//! over character sequences, exactly which text each value encodes to, and
//! provides verified encoders that produce that text.

use vstd::prelude::*;

verus! {

/// A decimal digit.
pub open spec fn is_digit(c: char) -> bool {
    48 <= c as u32 && c as u32 <= 57
}

/// Length of the run of digits in `s` starting at position `i`.
pub open spec fn digit_run(s: Seq<char>, i: int) -> int
    decreases s.len() - i when 0 <= i <= s.len()
{
    if i < 0 || i >= s.len() || !is_digit(s[i]) {
        0
    } else {
        1 + digit_run(s, i + 1)
    }
}

/// A JSON number token: optional minus sign, an integer part that is `0` or
/// starts with a nonzero digit, an optional fraction, an optional exponent.
pub open spec fn is_json_number(s: Seq<char>) -> bool {
    let i: int = if s.len() > 0 && s[0] == '-' { 1 } else { 0 };
    &&& i < s.len()
    &&& is_digit(s[i])
    &&& {
        let k: int = if s[i] == '0' { i + 1 } else { i + digit_run(s, i) };
        frac_exp_ok(s, k)
    }
}

/// After the integer part ends at `i`, the remainder of `s` is an optional
/// fraction followed by an optional exponent.
pub open spec fn frac_exp_ok(s: Seq<char>, i: int) -> bool {
    if i == s.len() {
        true
    } else if 0 <= i < s.len() && s[i] == '.' {
        let d = digit_run(s, i + 1);
        &&& d >= 1
        &&& (i + 1 + d == s.len() || exp_at(s, i + 1 + d))
    } else {
        exp_at(s, i)
    }
}

/// At position `i` of `s` stands a complete exponent part that runs to the
/// end of `s`.
pub open spec fn exp_at(s: Seq<char>, i: int) -> bool {
    &&& 0 <= i < s.len()
    &&& (s[i] == 'e' || s[i] == 'E')
    &&& {
        let j: int = if i + 1 < s.len() && (s[i + 1] == '+' || s[i + 1] == '-') {
            i + 2
        } else {
            i + 1
        };
        let d = digit_run(s, j);
        d >= 1 && j + d == s.len()
    }
}

/// The text that stands for a non-finite embedding value.
pub open spec fn null_token() -> Seq<char> {
    seq!['n', 'u', 'l', 'l']
}

/// The texts accepted as one embedding value on the wire: a JSON number
/// token, or `null`.
pub open spec fn is_number_or_null(s: Seq<char>) -> bool {
    is_json_number(s) || s == null_token()
}

fn digit(c: char) -> (b: bool)
    ensures
        b == is_digit(c),
{
    let u: u32 = c as u32;
    48 <= u && u <= 57
}

fn digit_run_from(s: &str, i: usize) -> (n: usize)
    requires
        i <= s@.len(),
    ensures
        i + n <= s@.len(),
        n as int == digit_run(s@, i as int),
    decreases s@.len() - i,
{
    let len = s.unicode_len();
    if i < len && digit(s.get_char(i)) {
        let m = digit_run_from(s, i + 1);
        m + 1
    } else {
        0
    }
}

fn check_exp_at(s: &str, i: usize) -> (b: bool)
    requires
        i <= s@.len(),
    ensures
        b == exp_at(s@, i as int),
{
    let len = s.unicode_len();
    if i >= len {
        return false;
    }
    let c = s.get_char(i);
    if !(c == 'e' || c == 'E') {
        return false;
    }
    let j: usize = if i + 1 < len {
        let c1 = s.get_char(i + 1);
        if c1 == '+' || c1 == '-' {
            i + 2
        } else {
            i + 1
        }
    } else {
        i + 1
    };
    let d = digit_run_from(s, j);
    d >= 1 && j + d == len
}

fn check_frac_exp(s: &str, i: usize) -> (b: bool)
    requires
        i <= s@.len(),
    ensures
        b == frac_exp_ok(s@, i as int),
{
    let len = s.unicode_len();
    if i == len {
        return true;
    }
    if s.get_char(i) == '.' {
        let d = digit_run_from(s, i + 1);
        if d < 1 {
            return false;
        }
        if i + 1 + d == len {
            true
        } else {
            check_exp_at(s, i + 1 + d)
        }
    } else {
        check_exp_at(s, i)
    }
}

/// Decides whether `s` is a JSON number token.
pub fn check_json_number(s: &str) -> (b: bool)
    ensures
        b == is_json_number(s@),
{
    let len = s.unicode_len();
    let i: usize = if len > 0 && s.get_char(0) == '-' {
        1
    } else {
        0
    };
    if i >= len {
        return false;
    }
    let c = s.get_char(i);
    if !digit(c) {
        return false;
    }
    let k: usize = if c == '0' {
        i + 1
    } else {
        i + digit_run_from(s, i)
    };
    check_frac_exp(s, k)
}

/// The lower-case hexadecimal digit for `n`.
pub open spec fn hex_digit(n: int) -> char {
    if n == 0 {
        '0'
    } else if n == 1 {
        '1'
    } else if n == 2 {
        '2'
    } else if n == 3 {
        '3'
    } else if n == 4 {
        '4'
    } else if n == 5 {
        '5'
    } else if n == 6 {
        '6'
    } else if n == 7 {
        '7'
    } else if n == 8 {
        '8'
    } else if n == 9 {
        '9'
    } else if n == 10 {
        'a'
    } else if n == 11 {
        'b'
    } else if n == 12 {
        'c'
    } else if n == 13 {
        'd'
    } else if n == 14 {
        'e'
    } else {
        'f'
    }
}

/// How one character appears inside a JSON string: quote and backslash get a
/// backslash escape, the named control characters get their short escapes,
/// the other control characters get a `\u00XX` escape, and every other
/// character stands for itself.
pub open spec fn escape_char(c: char) -> Seq<char> {
    if c == '"' {
        seq!['\\', '"']
    } else if c == '\\' {
        seq!['\\', '\\']
    } else if c == '\u{8}' {
        seq!['\\', 'b']
    } else if c == '\t' {
        seq!['\\', 't']
    } else if c == '\n' {
        seq!['\\', 'n']
    } else if c == '\u{c}' {
        seq!['\\', 'f']
    } else if c == '\r' {
        seq!['\\', 'r']
    } else if (c as u32) < 32 {
        seq!['\\', 'u', '0', '0', hex_digit(c as u32 as int / 16), hex_digit(c as u32 as int % 16)]
    } else {
        seq![c]
    }
}

/// The body of a JSON string: each character of `s` escaped, in order.
pub open spec fn escape_string(s: Seq<char>) -> Seq<char>
    decreases s.len(),
{
    if s.len() == 0 {
        Seq::empty()
    } else {
        escape_string(s.drop_last()) + escape_char(s.last())
    }
}

/// The JSON string that encodes `s`: its escaped characters in quotes.
pub open spec fn json_string(s: Seq<char>) -> Seq<char> {
    seq!['"'] + escape_string(s) + seq!['"']
}

/// The given texts joined with commas.
pub open spec fn join_comma(items: Seq<Seq<char>>) -> Seq<char>
    decreases items.len(),
{
    if items.len() == 0 {
        Seq::empty()
    } else if items.len() == 1 {
        items[0]
    } else {
        join_comma(items.drop_last()) + seq![','] + items.last()
    }
}

/// The JSON array whose elements are the given texts, in order.
pub open spec fn json_array(items: Seq<Seq<char>>) -> Seq<char> {
    seq!['['] + join_comma(items) + seq![']']
}

/// Extending a joined list appends a comma (after a nonempty prefix) and the
/// new element: the elements appear in order, separated by single commas.
pub proof fn lemma_join_comma_step(items: Seq<Seq<char>>, k: int)
    requires
        0 <= k < items.len(),
    ensures
        join_comma(items.take(k + 1)) == join_comma(items.take(k)) + (if k == 0 {
            Seq::<char>::empty()
        } else {
            seq![',']
        }) + items[k],
{
    let pre = items.take(k + 1);
    assert(pre.drop_last() =~= items.take(k));
    assert(pre.last() == items[k]);
    if k == 0 {
        assert(join_comma(items.take(1)) == items[0]);
        assert(join_comma(items.take(0)) =~= Seq::<char>::empty());
        assert(join_comma(items.take(0)) + Seq::<char>::empty() + items[0] =~= items[0]);
    }
}

fn hex_char(n: u32) -> (c: char)
    requires
        n < 16,
    ensures
        c == hex_digit(n as int),
{
    if n == 0 {
        '0'
    } else if n == 1 {
        '1'
    } else if n == 2 {
        '2'
    } else if n == 3 {
        '3'
    } else if n == 4 {
        '4'
    } else if n == 5 {
        '5'
    } else if n == 6 {
        '6'
    } else if n == 7 {
        '7'
    } else if n == 8 {
        '8'
    } else if n == 9 {
        '9'
    } else if n == 10 {
        'a'
    } else if n == 11 {
        'b'
    } else if n == 12 {
        'c'
    } else if n == 13 {
        'd'
    } else if n == 14 {
        'e'
    } else {
        'f'
    }
}

/// Appends the escape of one character to `out`.
fn push_escaped_char(out: &mut Vec<char>, c: char)
    ensures
        final(out)@ == old(out)@ + escape_char(c),
{
    if c == '"' {
        out.push('\\');
        out.push('"');
    } else if c == '\\' {
        out.push('\\');
        out.push('\\');
    } else if c == '\u{8}' {
        out.push('\\');
        out.push('b');
    } else if c == '\t' {
        out.push('\\');
        out.push('t');
    } else if c == '\n' {
        out.push('\\');
        out.push('n');
    } else if c == '\u{c}' {
        out.push('\\');
        out.push('f');
    } else if c == '\r' {
        out.push('\\');
        out.push('r');
    } else {
        let u: u32 = c as u32;
        if u < 32 {
            out.push('\\');
            out.push('u');
            out.push('0');
            out.push('0');
            out.push(hex_char(u / 16));
            out.push(hex_char(u % 16));
        } else {
            out.push(c);
        }
    }
    proof {
        assert(final(out)@ =~= old(out)@ + escape_char(c));
    }
}

/// Appends the characters of `s` to `out`, unchanged.
pub fn push_str_chars(out: &mut Vec<char>, s: &str)
    ensures
        final(out)@ == old(out)@ + s@,
{
    let len = s.unicode_len();
    let mut k: usize = 0;
    while k < len
        invariant
            k <= len,
            len == s@.len(),
            out@ == old(out)@ + s@.take(k as int),
        decreases len - k,
    {
        out.push(s.get_char(k));
        proof {
            assert(s@.take(k + 1 as int) =~= s@.take(k as int).push(s@[k as int]));
        }
        k += 1;
    }
    proof {
        assert(s@.take(len as int) =~= s@);
    }
}

/// Appends the escaped characters of `s` to `out`.
fn push_escaped(out: &mut Vec<char>, s: &str)
    ensures
        final(out)@ == old(out)@ + escape_string(s@),
{
    let len = s.unicode_len();
    let mut k: usize = 0;
    while k < len
        invariant
            k <= len,
            len == s@.len(),
            out@ == old(out)@ + escape_string(s@.take(k as int)),
        decreases len - k,
    {
        push_escaped_char(out, s.get_char(k));
        proof {
            let pre = s@.take(k + 1 as int);
            assert(pre.drop_last() =~= s@.take(k as int));
            assert(pre.last() == s@[k as int]);
            assert(escape_string(pre) == escape_string(s@.take(k as int)) + escape_char(
                s@[k as int],
            ));
        }
        k += 1;
    }
    proof {
        assert(s@.take(len as int) =~= s@);
    }
}

/// Appends the JSON string that encodes `s` to `out`.
pub fn push_json_string(out: &mut Vec<char>, s: &str)
    ensures
        final(out)@ == old(out)@ + json_string(s@),
{
    out.push('"');
    push_escaped(out, s);
    out.push('"');
    proof {
        assert(final(out)@ =~= old(out)@ + json_string(s@));
    }
}

/// Appends the JSON array whose elements are the given texts to `out`.
pub fn push_json_array_of(out: &mut Vec<char>, items: &Vec<String>)
    ensures
        final(out)@ == old(out)@ + json_array(items.deep_view()),
{
    out.push('[');
    let ghost all = items.deep_view();
    let mut k: usize = 0;
    while k < items.len()
        invariant
            k <= items.len(),
            all == items.deep_view(),
            all.len() == items@.len(),
            out@ == old(out)@ + seq!['['] + join_comma(all.take(k as int)),
        decreases items.len() - k,
    {
        if k > 0 {
            out.push(',');
        }
        push_str_chars(out, items[k].as_str());
        proof {
            assert(all[k as int] == items@[k as int]@);
            lemma_join_comma_step(all, k as int);
        }
        k += 1;
    }
    out.push(']');
    proof {
        assert(all.take(items@.len() as int) =~= all);
        assert(final(out)@ =~= old(out)@ + json_array(items.deep_view()));
    }
}

/// Decides whether `s` is accepted as one embedding value: a JSON number
/// token or the text `null`.
pub fn check_number_or_null(s: &str) -> (b: bool)
    ensures
        b == is_number_or_null(s@),
{
    if check_json_number(s) {
        return true;
    }
    let len = s.unicode_len();
    if len == 4 && s.get_char(0) == 'n' && s.get_char(1) == 'u' && s.get_char(2) == 'l'
        && s.get_char(3) == 'l' {
        proof {
            assert(s@ =~= null_token());
        }
        true
    } else {
        proof {
            assert(s@ != null_token());
        }
        false
    }
}

} // verus!
