//! Decimal rendering and parsing of machine integers, and joining of path
//! components, all over character sequences.
use vstd::prelude::*;

verus! {

/// The character of a decimal digit.
pub open spec fn digit_char(d: nat) -> char {
    if d == 0 { '0' }
    else if d == 1 { '1' }
    else if d == 2 { '2' }
    else if d == 3 { '3' }
    else if d == 4 { '4' }
    else if d == 5 { '5' }
    else if d == 6 { '6' }
    else if d == 7 { '7' }
    else if d == 8 { '8' }
    else { '9' }
}

/// The shortest decimal rendering of `n`, as `Display` writes an unsigned integer.
pub open spec fn decimal(n: nat) -> Seq<char>
    decreases n,
{
    if n < 10 {
        seq![digit_char(n)]
    } else {
        decimal(n / 10).push(digit_char(n % 10))
    }
}

fn digit_str(d: usize) -> (s: &'static str)
    requires
        d < 10,
    ensures
        s@ == seq![digit_char(d as nat)],
{
    if d == 0 {
        proof { reveal_strlit("0"); }
        "0"
    } else if d == 1 {
        proof { reveal_strlit("1"); }
        "1"
    } else if d == 2 {
        proof { reveal_strlit("2"); }
        "2"
    } else if d == 3 {
        proof { reveal_strlit("3"); }
        "3"
    } else if d == 4 {
        proof { reveal_strlit("4"); }
        "4"
    } else if d == 5 {
        proof { reveal_strlit("5"); }
        "5"
    } else if d == 6 {
        proof { reveal_strlit("6"); }
        "6"
    } else if d == 7 {
        proof { reveal_strlit("7"); }
        "7"
    } else if d == 8 {
        proof { reveal_strlit("8"); }
        "8"
    } else {
        proof { reveal_strlit("9"); }
        "9"
    }
}

/// Appends the decimal rendering of `n` to `s`.
pub fn push_decimal(s: &mut String, n: usize)
    ensures
        final(s)@ == old(s)@ + decimal(n as nat),
    decreases n,
{
    if n >= 10 {
        push_decimal(s, n / 10);
    }
    s.append(digit_str(n % 10));
    proof {
        if n >= 10 {
            assert(old(s)@ + decimal(n as nat) =~= old(s)@ + decimal((n / 10) as nat) + seq![digit_char((n % 10) as nat)]);
        }
    }
}

/// `name` joined under `base` with a `/` separator, as a path component is
/// pushed onto a path on Unix: no separator is added after an empty base or
/// one that already ends in `/`.
pub open spec fn join_path(base: Seq<char>, name: Seq<char>) -> Seq<char> {
    if base.len() == 0 {
        name
    } else if base.last() == '/' {
        base + name
    } else {
        base + "/"@ + name
    }
}

/// The path `name` under `base`.
pub fn join(base: &str, name: &str) -> (r: String)
    ensures
        r@ == join_path(base@, name@),
{
    let n = base.unicode_len();
    let mut r = String::from_str(base);
    if n > 0 && base.get_char(n - 1) != '/' {
        r.append("/");
    }
    r.append(name);
    proof {
        reveal_strlit("/");
        if n > 0 {
            assert(base@.last() == base@[n - 1]);
        }
    }
    r
}

/// Whether `c` is an ASCII decimal digit.
pub open spec fn is_digit(c: char) -> bool {
    '0' <= c && c <= '9'
}

/// The value of a digit character.
pub open spec fn digit_value(c: char) -> nat {
    (c as int - '0' as int) as nat
}

/// The number that a string of decimal digits denotes.
pub open spec fn digits_value(s: Seq<char>) -> nat
    decreases s.len(),
{
    if s.len() == 0 {
        0
    } else {
        digits_value(s.drop_last()) * 10 + digit_value(s.last())
    }
}

/// Whether every character of `s` is a decimal digit.
pub open spec fn all_digits(s: Seq<char>) -> bool {
    forall|i: int| 0 <= i < s.len() ==> is_digit(#[trigger] s[i])
}

/// The pieces of `s` between dots, in order (one piece when there is no dot).
pub open spec fn split_dots(s: Seq<char>) -> Seq<Seq<char>>
    decreases s.len(),
{
    if s.len() == 0 {
        seq![Seq::<char>::empty()]
    } else {
        let before = split_dots(s.drop_last());
        if s.last() == '.' {
            before.push(Seq::<char>::empty())
        } else {
            before.update(before.len() - 1, before.last().push(s.last()))
        }
    }
}

/// Whether `s` is one octet of a dotted IPv4 address: one to three digits
/// without a leading zero, at most 255.
pub open spec fn is_ipv4_octet(s: Seq<char>) -> bool {
    &&& 1 <= s.len() <= 3
    &&& all_digits(s)
    &&& (s.len() == 1 || s[0] != '0')
    &&& digits_value(s) <= 255
}

/// Whether `s` is an IPv4 address in dotted form, as `Ipv4Addr` parses it:
/// four octets separated by dots.
pub open spec fn is_ipv4_text(s: Seq<char>) -> bool {
    let parts = split_dots(s);
    &&& parts.len() == 4
    &&& forall|i: int| 0 <= i < 4 ==> is_ipv4_octet(#[trigger] parts[i])
}

/// The number that `s` denotes when read as a `usize` the way `str::parse`
/// reads one: an optional `+`, then one or more decimal digits, of a value
/// that fits; `None` otherwise.
pub open spec fn parse_usize_text(s: Seq<char>) -> Option<nat> {
    let digits = if s.len() > 0 && s[0] == '+' { s.skip(1) } else { s };
    if digits.len() > 0 && all_digits(digits) && digits_value(digits) <= usize::MAX {
        Some(digits_value(digits))
    } else {
        None
    }
}

/// Appending digits never makes a number smaller.
pub proof fn lemma_digits_value_grows(p: Seq<char>, t: Seq<char>)
    requires
        all_digits(t),
    ensures
        digits_value(p + t) >= digits_value(p),
    decreases t.len(),
{
    if t.len() > 0 {
        lemma_digits_value_grows(p, t.drop_last());
        assert((p + t).drop_last() =~= p + t.drop_last());
    } else {
        assert(p + t =~= p);
    }
}

/// Reads `s` as a `usize` the way `str::parse` does.
pub fn parse_usize(s: &str) -> (r: Option<usize>)
    ensures
        r matches Some(v) ==> parse_usize_text(s@) == Some(v as nat),
        r is None ==> parse_usize_text(s@) is None,
{
    let n = s.unicode_len();
    let start: usize = if n > 0 && s.get_char(0) == '+' { 1 } else { 0 };
    let ghost digits = if s@.len() > 0 && s@[0] == '+' { s@.skip(1) } else { s@ };
    assert(digits =~= s@.subrange(start as int, n as int));
    assert(parse_usize_text(s@) == if digits.len() > 0 && all_digits(digits) && digits_value(digits) <= usize::MAX {
        Some(digits_value(digits))
    } else {
        None::<nat>
    });
    if start == n {
        return None;
    }
    let mut v: usize = 0;
    let mut i: usize = start;
    while i < n
        invariant
            start <= i <= n,
            n == s@.len(),
            digits =~= s@.subrange(start as int, n as int),
            parse_usize_text(s@) == if digits.len() > 0 && all_digits(digits) && digits_value(digits) <= usize::MAX {
                Some(digits_value(digits))
            } else {
                None::<nat>
            },
            all_digits(s@.subrange(start as int, i as int)),
            v as nat == digits_value(s@.subrange(start as int, i as int)),
        decreases n - i,
    {
        let c = s.get_char(i);
        if !('0' <= c && c <= '9') {
            assert(digits[i - start] == c);
            assert(!is_digit(digits[i - start]));
            assert(!all_digits(digits));
            assert(parse_usize_text(s@) is None);
            return None;
        }
        let d = (c as u32 - 48) as usize;
        assert(s@.subrange(start as int, i + 1).drop_last() =~= s@.subrange(start as int, i as int));
        let next = match v.checked_mul(10) {
            Some(t) => t.checked_add(d),
            None => None,
        };
        match next {
            Some(w) => {
                v = w;
            },
            None => {
                proof {
                    let p = s@.subrange(start as int, i + 1);
                    let rest = s@.subrange(i + 1, n as int);
                    assert(p + rest =~= digits);
                    if all_digits(digits) {
                        assert forall|k: int| 0 <= k < rest.len() implies is_digit(#[trigger] rest[k]) by {
                            assert(rest[k] == digits[i + 1 - start + k]);
                        }
                        lemma_digits_value_grows(p, rest);
                        assert(p.drop_last() =~= s@.subrange(start as int, i as int));
                        assert(p.last() == c);
                        assert(digit_value(c) == d);
                        assert(digits_value(p) == v * 10 + d);
                        assert(digits_value(digits) > usize::MAX);
                    }
                    assert(parse_usize_text(s@) is None);
                }
                return None;
            },
        }
        i = i + 1;
    }
    Some(v)
}

/// The number that a string of digits denotes, capped at 256.
pub open spec fn capped_value(s: Seq<char>) -> nat {
    let v = digits_value(s);
    if v > 256 { 256 } else { v }
}

/// Whether `s` is an IPv4 address in dotted form (see [`is_ipv4_text`]).
pub fn is_ipv4(s: &str) -> (r: bool)
    ensures
        r == is_ipv4_text(s@),
{
    let n = s.unicode_len();
    let mut done: usize = 0;
    let mut done_valid = true;
    let mut cur_len: usize = 0;
    let mut cur_digits = true;
    let mut cur_value: u32 = 0;
    let mut cur_zero_first = false;
    let mut i: usize = 0;
    while i < n
        invariant
            i <= n,
            n == s@.len(),
            ({
                let parts = split_dots(s@.take(i as int));
                &&& parts.len() == done + 1
                &&& done <= i
                &&& cur_len <= i
                &&& done_valid == (forall|k: int| 0 <= k < done ==> is_ipv4_octet(#[trigger] parts[k]))
                &&& cur_len == parts.last().len()
                &&& cur_digits == all_digits(parts.last())
                &&& cur_digits ==> cur_value == capped_value(parts.last())
                &&& cur_len > 0 ==> (cur_zero_first == (parts.last()[0] == '0'))
            }),
        decreases n - i,
    {
        let c = s.get_char(i);
        let ghost before = split_dots(s@.take(i as int));
        assert(s@.take(i + 1).drop_last() =~= s@.take(i as int));
        assert(s@.take(i + 1).last() == c);
        if c == '.' {
            let cur_valid = cur_len >= 1 && cur_len <= 3 && cur_digits && (cur_len == 1 || !cur_zero_first) && cur_value <= 255;
            proof {
                let last = before.last();
                if cur_valid != is_ipv4_octet(last) {
                    if cur_digits {
                        assert(cur_value == capped_value(last));
                    }
                }
            }
            done_valid = done_valid && cur_valid;
            done = done + 1;
            cur_len = 0;
            cur_digits = true;
            cur_value = 0;
            cur_zero_first = false;
            proof {
                let after = split_dots(s@.take(i + 1));
                assert(after == before.push(Seq::<char>::empty()));
                assert(after.last() =~= Seq::<char>::empty());
                assert forall|k: int| 0 <= k < done implies after[k] == #[trigger] before.push(Seq::<char>::empty())[k] by {}
                if done_valid {
                    assert forall|k: int| 0 <= k < done implies is_ipv4_octet(#[trigger] after[k]) by {
                        if k < done - 1 {
                            assert(after[k] == before[k]);
                        }
                    }
                }
                if !done_valid {
                    if forall|k: int| 0 <= k < done - 1 ==> is_ipv4_octet(#[trigger] before[k]) {
                        assert(!is_ipv4_octet(after[done - 1]));
                    } else {
                        let k = choose|k: int| 0 <= k < done - 1 && !is_ipv4_octet(#[trigger] before[k]);
                        assert(after[k] == before[k]);
                    }
                }
            }
        } else {
            let is_d = '0' <= c && c <= '9';
            let ghost last = before.last();
            let ghost new_last = last.push(c);
            proof {
                let after = split_dots(s@.take(i + 1));
                assert(after == before.update(before.len() - 1, new_last));
                assert(new_last.drop_last() =~= last);
                assert forall|k: int| 0 <= k < done implies after[k] == before[k] by {}
            }
            if cur_len == 0 {
                cur_zero_first = c == '0';
            }
            if cur_digits && is_d {
                let d = (c as u32) - 48;
                cur_value = if cur_value >= 256 { 256 } else if cur_value * 10 + d > 256 { 256 } else { cur_value * 10 + d };
                proof {
                    assert(digits_value(new_last) == digits_value(last) * 10 + digit_value(c));
                    assert(all_digits(new_last)) by {
                        assert forall|k: int| 0 <= k < new_last.len() implies is_digit(#[trigger] new_last[k]) by {
                            if k < last.len() {
                                assert(new_last[k] == last[k]);
                            }
                        }
                    }
                }
            } else {
                cur_digits = false;
                proof {
                    if all_digits(new_last) {
                        if !is_d {
                            assert(is_digit(new_last[new_last.len() - 1]));
                        } else {
                            assert(is_digit(new_last[0]));
                            assert forall|k: int| 0 <= k < last.len() implies is_digit(#[trigger] last[k]) by {
                                assert(last[k] == new_last[k]);
                            }
                        }
                    }
                }
            }
            cur_len = cur_len + 1;
            proof {
                if cur_len > 1 {
                    assert(new_last[0] == last[0]);
                }
            }
        }
        i = i + 1;
    }
    assert(s@.take(n as int) =~= s@);
    let cur_valid = cur_len >= 1 && cur_len <= 3 && cur_digits && (cur_len == 1 || !cur_zero_first) && cur_value <= 255;
    proof {
        let parts = split_dots(s@);
        let last = parts.last();
        if cur_valid != is_ipv4_octet(last) {
            if cur_digits {
                assert(cur_value == capped_value(last));
            }
        }
        if done == 3 {
            if done_valid && cur_valid {
                assert forall|k: int| 0 <= k < 4 implies is_ipv4_octet(#[trigger] parts[k]) by {
                    if k == 3 {
                        assert(parts[k] == last);
                    }
                }
            }
            if is_ipv4_text(s@) {
                assert(is_ipv4_octet(parts[3]));
                assert(parts[3] == last);
            }
        }
    }
    done == 3 && done_valid && cur_valid
}

/// Whether two texts are the same.
pub fn same_text(a: &str, b: &str) -> (r: bool)
    ensures
        r == (a@ == b@),
{
    let x = a.to_owned();
    let y = b.to_owned();
    x == y
}

proof fn lemma_digit_char(k: nat)
    requires
        k < 10,
    ensures
        is_digit(digit_char(k)),
        digit_value(digit_char(k)) == k,
{
}

/// The decimal rendering of `n`: digits only, at least one, the first
/// not `0` unless `n` is, and denoting `n`.
pub proof fn lemma_decimal(n: nat)
    ensures
        decimal(n).len() >= 1,
        n >= 10 ==> decimal(n).len() >= 2,
        all_digits(decimal(n)),
        digits_value(decimal(n)) == n,
        decimal(n)[0] != '+',
        decimal(n)[0] != '/',
    decreases n,
{
    lemma_digit_char(n % 10);
    if n < 10 {
        assert(decimal(n).drop_last() =~= Seq::<char>::empty());
        assert(digits_value(decimal(n)) == digits_value(decimal(n).drop_last()) * 10 + digit_value(decimal(n).last()));
    }
    if n >= 10 {
        lemma_decimal(n / 10);
        let d = decimal(n);
        assert(n == (n / 10) * 10 + n % 10) by (nonlinear_arith);
        assert(d.last() == digit_char(n % 10));
        assert(digits_value(d) == digits_value(d.drop_last()) * 10 + digit_value(d.last()));
        assert(d.drop_last() =~= decimal(n / 10));
        assert forall|i: int| 0 <= i < d.len() implies is_digit(#[trigger] d[i]) by {
            if i < d.len() - 1 {
                assert(d[i] == decimal(n / 10)[i]);
            }
        }
    }
}

/// Different numbers have different decimal renderings.
pub proof fn lemma_decimal_injective(a: nat, b: nat)
    requires
        decimal(a) == decimal(b),
    ensures
        a == b,
    decreases a,
{
    lemma_decimal(a);
    lemma_decimal(b);
    if a >= 10 && b >= 10 {
        assert(decimal(a).drop_last() == decimal(b).drop_last());
        lemma_decimal_injective(a / 10, b / 10);
        assert(decimal(a).last() == decimal(b).last());
    } else {
        assert(digits_value(decimal(a)) == digits_value(decimal(b)));
    }
}

/// Reading back the decimal rendering of a `usize` gives the number.
pub proof fn lemma_parse_decimal(n: usize)
    ensures
        parse_usize_text(decimal(n as nat)) == Some(n as nat),
{
    lemma_decimal(n as nat);
}

} // verus!
