//! Character classes of the identifier alphabets, and the text helpers that
//! the recognizers share.

use vstd::prelude::*;
use vstd::string::*;

verus! {

/// `0`-`9`.
pub open spec fn is_digit(c: char) -> bool {
    '0' <= c <= '9'
}

/// `a`-`z`.
pub open spec fn is_lower(c: char) -> bool {
    'a' <= c <= 'z'
}

/// `A`-`Z`.
pub open spec fn is_upper(c: char) -> bool {
    'A' <= c <= 'Z'
}

/// A hexadecimal digit in lower case: `0`-`9` or `a`-`f`.
pub open spec fn is_lower_hex(c: char) -> bool {
    is_digit(c) || 'a' <= c <= 'f'
}

/// A hexadecimal digit in either case.
pub open spec fn is_hex(c: char) -> bool {
    is_lower_hex(c) || 'A' <= c <= 'F'
}

/// A lower-case letter or a digit.
pub open spec fn is_lower_alnum(c: char) -> bool {
    is_digit(c) || is_lower(c)
}

/// A character of the URL-safe alphabet `[A-Za-z0-9_-]`.
pub open spec fn is_url_safe(c: char) -> bool {
    is_digit(c) || is_lower(c) || is_upper(c) || c == '_' || c == '-'
}

/// A character of Crockford's Base32 alphabet in upper case: the digits and
/// the capital letters without `I`, `L`, `O` and `U`.
pub open spec fn is_crockford_upper(c: char) -> bool {
    is_digit(c) || (is_upper(c) && c != 'I' && c != 'L' && c != 'O' && c != 'U')
}

/// The number that a hexadecimal digit stands for; 0 for any other character.
pub open spec fn hex_value(c: char) -> int {
    if is_digit(c) {
        c as int - '0' as int
    } else if 'a' <= c <= 'f' {
        c as int - 'a' as int + 10
    } else if 'A' <= c <= 'F' {
        c as int - 'A' as int + 10
    } else {
        0
    }
}

/// The lower-case hexadecimal digit for a number below 16.
pub open spec fn lower_hex_digit(n: int) -> char {
    if n < 10 {
        ('0' as int + n) as char
    } else {
        ('a' as int + (n - 10)) as char
    }
}

pub fn char_is_digit(c: char) -> (r: bool)
    ensures
        r == is_digit(c),
{
    '0' <= c && c <= '9'
}

pub fn char_is_hex(c: char) -> (r: bool)
    ensures
        r == is_hex(c),
{
    ('0' <= c && c <= '9') || ('a' <= c && c <= 'f') || ('A' <= c && c <= 'F')
}

pub fn char_is_lower_alnum(c: char) -> (r: bool)
    ensures
        r == is_lower_alnum(c),
{
    ('0' <= c && c <= '9') || ('a' <= c && c <= 'z')
}

pub fn char_is_url_safe(c: char) -> (r: bool)
    ensures
        r == is_url_safe(c),
{
    ('0' <= c && c <= '9') || ('a' <= c && c <= 'z') || ('A' <= c && c <= 'Z') || c == '_' || c
        == '-'
}

/// The value of one hexadecimal digit.
pub fn hex_digit_value(c: char) -> (r: u32)
    requires
        is_hex(c),
    ensures
        r == hex_value(c),
        r < 16,
{
    let n: u32 = c as u32;
    if '0' <= c && c <= '9' {
        n - 48
    } else if 'a' <= c && c <= 'f' {
        n - 87
    } else {
        n - 55
    }
}

/// Whether two strings hold the same characters.
pub fn same_text(a: &str, b: &str) -> (r: bool)
    ensures
        r == (a@ == b@),
{
    let x = String::from_str(a);
    let y = String::from_str(b);
    x == y
}

} // verus!
