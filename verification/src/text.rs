//! Character and string utilities shared by the role resolver and the
//! workflow engine: case folding for emoji shortcodes, the character classes
//! stripped from role names, and decimal rendering/parsing of record ids.

use vstd::prelude::*;

verus! {

/// Uppercase ASCII letters fold to their lowercase counterparts; every other
/// character is kept as it is.
pub open spec fn fold_char(c: char) -> char {
    if 'A' <= c && c <= 'Z' {
        ((c as u8) + 0x20) as char
    } else {
        c
    }
}

/// One character of the shortcode derived from a country name: spaces become
/// underscores, letters are folded to lowercase.
pub open spec fn shortcode_char(c: char) -> char {
    if c == ' ' {
        '_'
    } else {
        fold_char(c)
    }
}

/// The emoji shortcode derived from a country display name.
pub open spec fn shortcode_of(name: Seq<char>) -> Seq<char> {
    name.map_values(|c: char| shortcode_char(c))
}

fn fold_char_exec(c: char) -> (r: char)
    ensures
        r == fold_char(c),
{
    if 'A' <= c && c <= 'Z' {
        ((c as u8) + 0x20) as char
    } else {
        c
    }
}

/// Relies on `String::push`: appends the given character at the end of the
/// string.
#[verifier::external_body]
pub(crate) fn push_char(s: &mut String, c: char)
    ensures
        final(s)@ == old(s)@.push(c),
{
    s.push(c);
}

/// Derives the emoji shortcode for a country display name: lowercased, with
/// spaces replaced by underscores.
pub fn shortcode_for(name: &str) -> (r: String)
    ensures
        r@ == shortcode_of(name@),
{
    let n = name.unicode_len();
    let mut out = String::new();
    let mut i: usize = 0;
    while i < n
        invariant
            i <= n,
            n == name@.len(),
            out@ == shortcode_of(name@).take(i as int),
        decreases n - i,
    {
        let c = name.get_char(i);
        let mapped = if c == ' ' {
            '_'
        } else {
            fold_char_exec(c)
        };
        push_char(&mut out, mapped);
        proof {
            assert(shortcode_of(name@).take(i + 1) =~= shortcode_of(name@).take(i as int).push(
                shortcode_char(name@[i as int]),
            ));
        }
        i += 1;
    }
    proof {
        assert(shortcode_of(name@).take(n as int) =~= shortcode_of(name@));
    }
    out
}

/// The characters that Unicode assigns the `White_Space` property, the ones
/// `char::is_whitespace` accepts.
pub open spec fn is_white_space(c: char) -> bool {
    ||| ('\u{0009}' <= c && c <= '\u{000D}')
    ||| c == ' '
    ||| c == '\u{0085}'
    ||| c == '\u{00A0}'
    ||| c == '\u{1680}'
    ||| ('\u{2000}' <= c && c <= '\u{200A}')
    ||| c == '\u{2028}'
    ||| c == '\u{2029}'
    ||| c == '\u{202F}'
    ||| c == '\u{205F}'
    ||| c == '\u{3000}'
}

fn is_white_space_exec(c: char) -> (r: bool)
    ensures
        r == is_white_space(c),
{
    ('\u{0009}' <= c && c <= '\u{000D}') || c == ' ' || c == '\u{0085}' || c == '\u{00A0}' || c
        == '\u{1680}' || ('\u{2000}' <= c && c <= '\u{200A}') || c == '\u{2028}' || c == '\u{2029}'
        || c == '\u{202F}' || c == '\u{205F}' || c == '\u{3000}'
}

/// Removes every whitespace character, keeping the others in order.
pub fn remove_whitespace(s: &str) -> (r: String)
    ensures
        r@ == s@.filter(|c: char| !is_white_space(c)),
{
    let ghost pred = |c: char| !is_white_space(c);
    let n = s.unicode_len();
    let mut out = String::new();
    let mut i: usize = 0;
    while i < n
        invariant
            i <= n,
            n == s@.len(),
            out@ == s@.take(i as int).filter(|c: char| !is_white_space(c)),
        decreases n - i,
    {
        let c = s.get_char(i);
        proof {
            reveal(Seq::filter);
            assert(s@.take(i + 1).drop_last() =~= s@.take(i as int));
            assert(s@.take(i + 1).last() == s@[i as int]);
        }
        if !is_white_space_exec(c) {
            push_char(&mut out, c);
        }
        i += 1;
    }
    proof {
        assert(s@.take(n as int) =~= s@);
    }
    out
}

/// The index of the first space in a sequence, if any.
pub open spec fn first_space(s: Seq<char>) -> Option<int>
    decreases s.len(),
{
    if s.len() == 0 {
        None
    } else if s[0] == ' ' {
        Some(0int)
    } else {
        match first_space(s.drop_first()) {
            Some(j) => Some(j + 1),
            None => None,
        }
    }
}

pub proof fn lemma_first_space_found(s: Seq<char>, j: int)
    requires
        0 <= j < s.len(),
        s[j] == ' ',
        forall|t: int| 0 <= t < j ==> s[t] != ' ',
    ensures
        first_space(s) == Some(j),
    decreases j,
{
    if j > 0 {
        lemma_first_space_found(s.drop_first(), j - 1);
    }
}

pub proof fn lemma_first_space_none(s: Seq<char>)
    requires
        forall|t: int| 0 <= t < s.len() ==> s[t] != ' ',
    ensures
        first_space(s) is None,
    decreases s.len(),
{
    if s.len() > 0 {
        lemma_first_space_none(s.drop_first());
    }
}

/// Finds the first space.
pub fn find_space(s: &str) -> (r: Option<usize>)
    ensures
        match r {
            Some(j) => first_space(s@) == Some(j as int) && j < s@.len() && s@[j as int] == ' ',
            None => first_space(s@) is None,
        },
{
    let n = s.unicode_len();
    let mut j: usize = 0;
    while j < n
        invariant
            j <= n,
            n == s@.len(),
            forall|t: int| 0 <= t < j ==> s@[t] != ' ',
        decreases n - j,
    {
        if s.get_char(j) == ' ' {
            proof {
                lemma_first_space_found(s@, j as int);
            }
            return Some(j);
        }
        j += 1;
    }
    proof {
        lemma_first_space_none(s@);
    }
    None
}

// --- decimal rendering and parsing of ids ---

pub open spec fn is_digit(c: char) -> bool {
    '0' <= c && c <= '9'
}

pub open spec fn digit_val(c: char) -> int {
    (c as u32) - ('0' as u32)
}

pub open spec fn digit_char(d: int) -> char
    recommends
        0 <= d <= 9,
{
    ((('0' as u8) + d) as u8) as char
}

pub open spec fn all_digits(s: Seq<char>) -> bool {
    forall|i: int| 0 <= i < s.len() ==> is_digit(#[trigger] s[i])
}

/// The numeric value of a sequence of decimal digits, most significant first.
pub open spec fn dec_value(s: Seq<char>) -> int
    decreases s.len(),
{
    if s.len() == 0 {
        0
    } else {
        10 * dec_value(s.drop_last()) + digit_val(s.last())
    }
}

/// The decimal rendering of a natural number, without leading zeroes.
pub open spec fn dec_digits(n: nat) -> Seq<char>
    decreases n,
{
    if n < 10 {
        seq![digit_char(n as int)]
    } else {
        dec_digits(n / 10).push(digit_char((n % 10) as int))
    }
}

pub proof fn lemma_dec_digits_wf(n: nat)
    ensures
        all_digits(dec_digits(n)),
        dec_digits(n).len() >= 1,
    decreases n,
{
    if n >= 10 {
        lemma_dec_digits_wf(n / 10);
    }
}

/// Rendering a number and reading the digits back gives the number again.
pub proof fn lemma_dec_digits_value(n: nat)
    ensures
        dec_value(dec_digits(n)) == n,
    decreases n,
{
    if n < 10 {
        assert(('0' as u8) == 48);
        assert(('0' as u32) == 48);
        assert(digit_char(n as int) as u32 == 48 + n);
        assert(digit_val(digit_char(n as int)) == n);
        assert(dec_digits(n).drop_last() =~= Seq::<char>::empty());
        assert(dec_digits(n).last() == digit_char(n as int));
        assert(dec_value(dec_digits(n)) == 10 * dec_value(Seq::<char>::empty()) + digit_val(
            digit_char(n as int),
        ));
    } else {
        lemma_dec_digits_value(n / 10);
        assert(digit_char((n % 10) as int) as u32 == 48 + n % 10);
        assert(dec_digits(n).drop_last() =~= dec_digits(n / 10));
        assert(dec_digits(n).last() == digit_char((n % 10) as int));
    }
}

pub proof fn lemma_dec_value_nonneg(s: Seq<char>)
    requires
        all_digits(s),
    ensures
        dec_value(s) >= 0,
    decreases s.len(),
{
    if s.len() > 0 {
        assert(all_digits(s.drop_last()));
        lemma_dec_value_nonneg(s.drop_last());
    }
}

/// A prefix of a digit string never exceeds the whole string in value.
pub proof fn lemma_dec_value_take_le(s: Seq<char>, k: int)
    requires
        all_digits(s),
        0 <= k <= s.len(),
    ensures
        dec_value(s.take(k)) <= dec_value(s),
    decreases s.len() - k,
{
    if k == s.len() {
        assert(s.take(k) =~= s);
    } else {
        assert(s.take(k + 1).drop_last() =~= s.take(k));
        assert(all_digits(s.take(k)));
        lemma_dec_value_nonneg(s.take(k));
        lemma_dec_value_take_le(s, k + 1);
    }
}

/// Renders a number in decimal.
pub fn u64_to_dec(n: u64) -> (r: String)
    ensures
        r@ == dec_digits(n as nat),
{
    let mut digits: Vec<char> = Vec::new();
    let mut m: u64 = n;
    while m >= 10
        invariant
            dec_digits(n as nat) == dec_digits(m as nat) + digits@.reverse(),
        decreases m,
    {
        let d: u8 = (m % 10) as u8;
        proof {
            assert(dec_digits(m as nat) == dec_digits((m as nat) / 10).push(
                digit_char((m % 10) as int),
            ));
            assert((dec_digits((m as nat) / 10).push(digit_char((m % 10) as int)))
                + digits@.reverse() =~= dec_digits((m as nat) / 10) + (digits@.push(
                digit_char((m % 10) as int),
            )).reverse());
        }
        digits.push((0x30u8 + d) as char);
        m = m / 10;
    }
    let d: u8 = m as u8;
    digits.push(0x30u8.wrapping_add(d) as char);
    proof {
        assert(digits@.reverse() =~= dec_digits(m as nat) + digits@.drop_last().reverse());
        assert(dec_digits(n as nat) =~= digits@.reverse());
    }
    let mut out = String::new();
    let mut i: usize = digits.len();
    while i > 0
        invariant
            i <= digits@.len(),
            out@ == digits@.skip(i as int).reverse(),
        decreases i,
    {
        i = i - 1;
        push_char(&mut out, digits[i]);
        proof {
            assert(digits@.skip(i as int).reverse() =~= digits@.skip(i + 1).reverse().push(
                digits@[i as int],
            ));
        }
    }
    proof {
        assert(digits@.skip(0).reverse() =~= digits@.reverse());
    }
    out
}

/// Reads a decimal number.  Succeeds exactly on nonempty strings of digits
/// whose value fits in a `u64`.
pub fn parse_u64(s: &str) -> (r: Option<u64>)
    ensures
        r is Some <==> (s@.len() > 0 && all_digits(s@) && dec_value(s@) <= u64::MAX),
        r matches Some(v) ==> v == dec_value(s@),
{
    let n = s.unicode_len();
    if n == 0 {
        return None;
    }
    let mut acc: u64 = 0;
    let mut i: usize = 0;
    while i < n
        invariant
            i <= n,
            n == s@.len(),
            n > 0,
            all_digits(s@.take(i as int)),
            acc == dec_value(s@.take(i as int)),
        decreases n - i,
    {
        let c = s.get_char(i);
        proof {
            assert(s@.take(i + 1).drop_last() =~= s@.take(i as int));
            assert(s@.take(i + 1).last() == s@[i as int]);
        }
        if !('0' <= c && c <= '9') {
            return None;
        }
        let d: u8 = (c as u8) - 0x30u8;
        if acc > (u64::MAX - (d as u64)) / 10 {
            proof {
                if all_digits(s@) {
                    lemma_dec_value_take_le(s@, i + 1);
                }
            }
            return None;
        }
        acc = acc * 10 + (d as u64);
        i += 1;
    }
    proof {
        assert(s@.take(n as int) =~= s@);
    }
    Some(acc)
}

} // verus!
