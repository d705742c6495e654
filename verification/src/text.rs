//! Text that ends up in error messages and logs.
use vstd::prelude::*;
use vstd::utf8::{decode_utf8, valid_utf8};

verus! {

/// The digit of `d`, for `d < 16`: `0` to `9`, then `a` to `f`.
pub open spec fn digit_char(d: nat) -> char {
    if d < 10 {
        (48 + d) as char
    } else {
        (87 + d) as char
    }
}

/// `n` written with the digits of `base`, without leading zeros.
pub open spec fn digits(n: nat, base: nat) -> Seq<char>
    decreases n,
{
    if base < 2 || n < base {
        seq![digit_char(n)]
    } else {
        proof {
            assert(n / base < n) by (nonlinear_arith)
                requires
                    2 <= base <= n,
            ;
        }
        digits(n / base, base).push(digit_char(n % base))
    }
}

/// `n` in decimal.
pub open spec fn decimal_text(n: nat) -> Seq<char> {
    digits(n, 10)
}

/// `n` in lower-case hexadecimal.
pub open spec fn hex_text(n: nat) -> Seq<char> {
    digits(n, 16)
}

fn digit(d: u64) -> (s: &'static str)
    requires
        d < 16,
    ensures
        s@ == seq![digit_char(d as nat)],
{
    proof {
        reveal_strlit("0");
        reveal_strlit("1");
        reveal_strlit("2");
        reveal_strlit("3");
        reveal_strlit("4");
        reveal_strlit("5");
        reveal_strlit("6");
        reveal_strlit("7");
        reveal_strlit("8");
        reveal_strlit("9");
        reveal_strlit("a");
        reveal_strlit("b");
        reveal_strlit("c");
        reveal_strlit("d");
        reveal_strlit("e");
        reveal_strlit("f");
    }
    match d {
        0 => "0",
        1 => "1",
        2 => "2",
        3 => "3",
        4 => "4",
        5 => "5",
        6 => "6",
        7 => "7",
        8 => "8",
        9 => "9",
        10 => "a",
        11 => "b",
        12 => "c",
        13 => "d",
        14 => "e",
        _ => "f",
    }
}

/// Appends `n` to `out` in base 10 or 16.
fn push_digits(out: &mut String, n: u64, base: u64)
    requires
        base == 10 || base == 16,
    ensures
        final(out)@ == old(out)@ + digits(n as nat, base as nat),
    decreases n,
{
    if n < base {
        out.append(digit(n));
    } else {
        push_digits(out, n / base, base);
        out.append(digit(n % base));
        assert(out@ =~= old(out)@ + digits(n as nat, base as nat));
    }
}

/// Appends `n` to `out` in decimal.
pub fn push_decimal(out: &mut String, n: u64)
    ensures
        final(out)@ == old(out)@ + decimal_text(n as nat),
{
    push_digits(out, n, 10);
}

/// Appends `n` to `out` in lower-case hexadecimal.
pub fn push_hex(out: &mut String, n: u64)
    ensures
        final(out)@ == old(out)@ + hex_text(n as nat),
{
    push_digits(out, n, 16);
}

/// What stands before the last `:` of `s`.
pub open spec fn before_last_colon(s: Seq<char>) -> Option<Seq<char>> {
    match s.index_of_last(':') {
        Some(i) => Some(s.take(i)),
        None => None,
    }
}

/// What stands before the last `:` of `server`, the separator of a port.
pub fn split_host(server: &str) -> (host: Option<String>)
    ensures
        match host {
            Some(h) => before_last_colon(server@) == Some(h@),
            None => before_last_colon(server@) is None,
        },
{
    proof {
        server@.index_of_last_ensures(':');
    }
    let n: usize = server.unicode_len();
    let mut i: usize = n;
    while i > 0
        invariant
            i <= n,
            n == server@.len(),
            forall|j: int| i <= j < n ==> server@[j] != ':',
        decreases i,
    {
        if server.get_char(i - 1) == ':' {
            let host = server.substring_char(0, i - 1);
            proof {
                server@.index_of_last_ensures(':');
                assert(server@.contains(':'));
            }
            assert(host@ =~= server@.take(i - 1));
            return Some(host.to_owned());
        }
        i -= 1;
    }
    assert(!server@.contains(':'));
    None
}

/// Whether `needle` stands somewhere in `s`.
pub open spec fn is_substring(s: Seq<char>, needle: Seq<char>) -> bool {
    exists|i: int|
        0 <= i && i + needle.len() <= s.len() && #[trigger] s.subrange(i, i + needle.len())
            == needle
}

/// `str::contains`: whether `needle` stands somewhere in `s`.
#[verifier::external_body]
pub(crate) fn contains(s: &str, needle: &str) -> (r: bool)
    ensures
        r == is_substring(s@, needle@),
{
    s.contains(needle)
}

/// A text in lower case, as `str::to_lowercase` writes it.
pub uninterp spec fn lowercase(s: Seq<char>) -> Seq<char>;

/// `str::to_lowercase`: the text in lower case. How a letter is lowered is left
/// to the name.
#[verifier::external_body]
pub(crate) fn to_lowercase(s: &str) -> (r: String)
    ensures
        r@ == lowercase(s@),
{
    s.to_lowercase()
}

/// A byte as two hexadecimal digits.
pub open spec fn hex_byte_text(b: u8) -> Seq<char> {
    seq![digit_char(b as nat / 16), digit_char(b as nat % 16)]
}

/// Appends `b` to `out` as two hexadecimal digits.
pub fn push_hex_byte(out: &mut String, b: u8)
    ensures
        final(out)@ == old(out)@ + hex_byte_text(b),
{
    out.append(digit(b as u64 / 16));
    out.append(digit(b as u64 % 16));
    assert(out@ =~= old(out)@ + hex_byte_text(b));
}

/// A whole number of seconds, as a length of time is usually written.
pub open spec fn seconds_text(secs: nat) -> Seq<char> {
    if secs == 0 {
        "0ns"@
    } else {
        decimal_text(secs) + "s"@
    }
}

/// Appends a whole number of seconds to `out`.
pub fn push_seconds(out: &mut String, secs: u64)
    ensures
        final(out)@ == old(out)@ + seconds_text(secs as nat),
{
    if secs == 0 {
        out.append("0ns");
    } else {
        push_decimal(out, secs);
        out.append("s");
        assert(out@ =~= old(out)@ + seconds_text(secs as nat));
    }
}

/// What `String::from_utf8_lossy` makes of bytes that need not be UTF-8.
pub uninterp spec fn utf8_lossy(bytes: Seq<u8>) -> Seq<char>;

/// `String::from_utf8_lossy`: the text of the bytes. Bytes that are UTF-8 are
/// kept as they are; what stands in for the others is left to the name.
#[verifier::external_body]
pub(crate) fn from_utf8_lossy(bytes: &[u8]) -> (s: String)
    ensures
        s@ == utf8_lossy(bytes@),
        valid_utf8(bytes@) ==> s@ == decode_utf8(bytes@),
{
    String::from_utf8_lossy(bytes).into_owned()
}

/// `str::from_utf8`: the text of the bytes, where they are UTF-8.
#[verifier::external_body]
pub(crate) fn from_utf8(bytes: &[u8]) -> (s: Option<&str>)
    ensures
        s is Some <==> valid_utf8(bytes@),
        s matches Some(t) ==> t@ == decode_utf8(bytes@),
{
    std::str::from_utf8(bytes).ok()
}

/// The number that a digit stands for.
pub open spec fn digit_value(c: char) -> int {
    if '0' <= c <= '9' {
        c as int - '0' as int
    } else {
        c as int - 'a' as int + 10
    }
}

/// The number that digits stand for, the highest first.
pub open spec fn number_of(s: Seq<char>, base: int) -> int
    decreases s.len(),
{
    if s.len() == 0 {
        0
    } else {
        number_of(s.drop_last(), base) * base + digit_value(s.last())
    }
}

/// Whether a text is nothing but digits of a base.
pub open spec fn is_numeral(s: Seq<char>, base: int) -> bool {
    forall|i: int|
        0 <= i < s.len() ==> ('0' <= #[trigger] s[i] <= '9' || 'a' <= s[i] <= 'f') && digit_value(
            s[i],
        ) < base
}

pub(crate) proof fn lemma_digits_read_back(n: nat, base: nat)
    requires
        base == 10 || base == 16,
    ensures
        digits(n, base).len() > 0,
        is_numeral(digits(n, base), base as int),
        number_of(digits(n, base), base as int) == n,
        digits(n, base)[0] == '0' ==> n == 0 && digits(n, base).len() == 1,
    decreases n,
{
    let s = digits(n, base);
    if n < base {
        assert(s =~= seq![digit_char(n)]);
        assert(s.drop_last() =~= Seq::<char>::empty());
        assert(number_of(s.drop_last(), base as int) == 0);
        assert(digit_value(s.last()) == n);
        assert(number_of(s, base as int) == 0 * (base as int) + n);
    } else {
        let rest = n / base;
        assert(0 < rest < n) by (nonlinear_arith)
            requires
                2 <= base <= n,
                rest == n / base,
        ;
        lemma_digits_read_back(rest, base);
        assert(s =~= digits(rest, base).push(digit_char(n % base)));
        assert(s.drop_last() =~= digits(rest, base));
        assert(digit_value(s.last()) == n % base);
        assert(rest * base + n % base == n) by (nonlinear_arith)
            requires
                base > 0,
                rest == n / base,
        ;
        assert(s[0] == digits(rest, base)[0]);
        assert forall|i: int| 0 <= i < s.len() implies ('0' <= #[trigger] s[i] <= '9' || 'a' <= s[i]
            <= 'f') && digit_value(s[i]) < base by {
            if i < s.len() - 1 {
                assert(s[i] == digits(rest, base)[i]);
            }
        }
    }
}

/// A number is appended as decimal digits that read back as it, and no zero leads unless
/// it is the number.
pub proof fn law_decimal_reads_back(out: &mut String, n: u64)
    requires
        call_ensures(push_decimal, (out, n), ()),
    ensures
        ({
            let k = old(out)@.len() as int;
            let s = final(out)@.skip(k);
            &&& final(out)@.take(k) == old(out)@
            &&& s.len() > 0
            &&& is_numeral(s, 10)
            &&& number_of(s, 10) == n
            &&& s[0] == '0' ==> n == 0 && s.len() == 1
        }),
{
    let k = old(out)@.len() as int;
    lemma_digits_read_back(n as nat, 10);
    assert(final(out)@.skip(k) =~= decimal_text(n as nat));
    assert(final(out)@.take(k) =~= old(out)@);
}

/// A number is appended as hexadecimal digits that read back as it, and no zero leads
/// unless it is the number.
pub proof fn law_hexadecimal_reads_back(out: &mut String, n: u64)
    requires
        call_ensures(push_hex, (out, n), ()),
    ensures
        ({
            let k = old(out)@.len() as int;
            let s = final(out)@.skip(k);
            &&& final(out)@.take(k) == old(out)@
            &&& s.len() > 0
            &&& is_numeral(s, 16)
            &&& number_of(s, 16) == n
            &&& s[0] == '0' ==> n == 0 && s.len() == 1
        }),
{
    let k = old(out)@.len() as int;
    lemma_digits_read_back(n as nat, 16);
    assert(final(out)@.skip(k) =~= hex_text(n as nat));
    assert(final(out)@.take(k) =~= old(out)@);
}

/// A byte is appended as two hexadecimal digits that read back as it.
pub proof fn law_hex_byte_reads_back(out: &mut String, b: u8)
    requires
        call_ensures(push_hex_byte, (out, b), ()),
    ensures
        ({
            let k = old(out)@.len() as int;
            let s = final(out)@;
            &&& s.take(k) == old(out)@
            &&& s.len() == k + 2
            &&& is_numeral(s.skip(k), 16)
            &&& digit_value(s[k]) * 16 + digit_value(s[k + 1]) == b
        }),
{
    let k = old(out)@.len() as int;
    let s = final(out)@;
    assert(s.take(k) =~= old(out)@);
    assert(s[k] == hex_byte_text(b)[0] && s[k + 1] == hex_byte_text(b)[1]);
    assert(s.skip(k)[0] == s[k] && s.skip(k)[1] == s[k + 1]);
}

/// A length of time is its number and an `s`, and none at all is `0ns`.
pub proof fn law_seconds_read_back(out: &mut String, secs: u64)
    requires
        call_ensures(push_seconds, (out, secs), ()),
    ensures
        ({
            let k = old(out)@.len() as int;
            let s = final(out)@.skip(k);
            &&& final(out)@.take(k) == old(out)@
            &&& secs == 0 ==> s == seq!['0', 'n', 's']
            &&& secs > 0 ==> s.len() > 1 && s.last() == 's' && is_numeral(s.drop_last(), 10)
                && number_of(s.drop_last(), 10) == secs
        }),
{
    let k = old(out)@.len() as int;
    let s = final(out)@.skip(k);
    reveal_strlit("0ns");
    reveal_strlit("s");
    lemma_digits_read_back(secs as nat, 10);
    assert(final(out)@.take(k) =~= old(out)@);
    if secs == 0 {
        assert(s =~= seq!['0', 'n', 's']);
    } else {
        assert(s.drop_last() =~= decimal_text(secs as nat));
    }
}

/// A host and a port with a `:` between them give the host, whatever the host holds; a text
/// without a `:` gives none.
pub proof fn law_host_stands_before_the_port(server: &str, host: Seq<char>, port: Seq<char>, r: Option<
    String,
>)
    requires
        call_ensures(split_host, (server,), r),
        !port.contains(':'),
    ensures
        server@ == host + seq![':'] + port ==> (r matches Some(h) && h@ == host),
        r is Some <==> server@.contains(':'),
{
    let s = server@;
    s.index_of_last_ensures(':');
    if s == host + seq![':'] + port {
        assert(s[host.len() as int] == ':');
        assert(s.contains(':'));
        let i = s.index_of_last(':')->0;
        assert forall|j: int| host.len() < j < s.len() implies s[j] != ':' by {
            assert(s[j] == port[j - host.len() - 1]);
        }
        assert(i == host.len());
        assert(s.take(i) =~= host);
    }
}

} // verus!
