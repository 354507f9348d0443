//! Character-level grammar shared by the parsers and formatters of the
//! library: digits in a radix, Rust's unsigned integer syntax, hexadecimal and
//! decimal renderings, and splitting and joining at a separator.
use vstd::prelude::*;
use crate::foreign::string_push;

verus! {

/// Value of `c` as a digit of base `radix`, as `char::to_digit` computes it.
pub open spec fn digit_value(c: char, radix: nat) -> Option<nat> {
    let u = c as u32;
    let v: int = if 48 <= u <= 57 {
        u - 48
    } else if 97 <= u <= 122 {
        u - 97 + 10
    } else if 65 <= u <= 90 {
        u - 65 + 10
    } else {
        -1
    };
    if 0 <= v < radix {
        Some(v as nat)
    } else {
        None
    }
}

/// Every char of `s` is a digit of base `radix`.
pub open spec fn all_digits(s: Seq<char>, radix: nat) -> bool {
    forall|i: int| 0 <= i < s.len() ==> (#[trigger] digit_value(s[i], radix)) is Some
}

/// Numeric value of the digit string `s`, most significant digit first.
pub open spec fn digits_value(s: Seq<char>, radix: nat) -> nat
    decreases s.len(),
{
    if s.len() == 0 {
        0
    } else {
        digits_value(s.drop_last(), radix) * radix + match digit_value(s.last(), radix) {
            Some(d) => d,
            None => 0,
        }
    }
}

/// The digits that `from_str_radix` reads: `s` without one leading `+`.
pub open spec fn unsigned_digits(s: Seq<char>) -> Seq<char> {
    if s.len() > 0 && s[0] == '+' {
        s.drop_first()
    } else {
        s
    }
}

/// Result of `from_str_radix(s, radix)` for an unsigned integer type whose
/// largest value is `max`: an optional `+`, then at least one digit, and a
/// value that fits.
pub open spec fn parse_unsigned(s: Seq<char>, radix: nat, max: nat) -> Option<nat> {
    let d = unsigned_digits(s);
    if d.len() > 0 && all_digits(d, radix) && digits_value(d, radix) <= max {
        Some(digits_value(d, radix))
    } else {
        None
    }
}

/// Appending a digit never lowers the value.
pub proof fn lemma_digits_value_grows(s: Seq<char>, radix: nat, k: int)
    requires
        radix >= 1,
        0 <= k <= s.len(),
    ensures
        digits_value(s.take(k), radix) <= digits_value(s, radix),
    decreases s.len() - k,
{
    if k < s.len() {
        lemma_digits_value_grows(s, radix, k + 1);
        assert(s.take(k + 1).drop_last() =~= s.take(k));
        let a = digits_value(s.take(k), radix);
        let b = digits_value(s.take(k + 1), radix);
        assert(a <= a * radix) by (nonlinear_arith)
            requires
                radix >= 1,
        ;
    } else {
        assert(s.take(k) =~= s);
    }
}

/// The char that stands for digit `d` (below 16) in upper-case hexadecimal.
pub open spec fn hex_char_upper(d: nat) -> char {
    if d < 10 {
        (d + 48) as char
    } else {
        (d + 55) as char
    }
}

/// The char that stands for digit `d` (below 16) in lower-case hexadecimal.
pub open spec fn hex_char_lower(d: nat) -> char {
    if d < 10 {
        (d + 48) as char
    } else {
        (d + 87) as char
    }
}

/// `{:02X}` of a byte.
pub open spec fn hex2_upper(b: u8) -> Seq<char> {
    seq![hex_char_upper(b as nat / 16), hex_char_upper(b as nat % 16)]
}

/// `{:04x}` of a 16-bit value.
pub open spec fn hex4_lower(v: u16) -> Seq<char> {
    seq![
        hex_char_lower(v as nat / 4096),
        hex_char_lower((v as nat / 256) % 16),
        hex_char_lower((v as nat / 16) % 16),
        hex_char_lower(v as nat % 16),
    ]
}

/// Decimal rendering of `n` without leading zeros, as `Display` of an
/// unsigned integer prints it.
pub open spec fn dec_string(n: nat) -> Seq<char>
    decreases n,
{
    if n < 10 {
        seq![(n + 48) as char]
    } else {
        dec_string(n / 10).push(((n % 10) + 48) as char)
    }
}

/// Fields of `s` separated by `sep`, as `str::split` yields them.
pub open spec fn split_on(s: Seq<char>, sep: char) -> Seq<Seq<char>>
    decreases s.len(),
{
    if s.len() == 0 {
        seq![Seq::<char>::empty()]
    } else {
        let fields = split_on(s.drop_last(), sep);
        if s.last() == sep {
            fields.push(Seq::<char>::empty())
        } else {
            fields.update(fields.len() - 1, fields.last().push(s.last()))
        }
    }
}

/// `fields` joined with `sep` between consecutive fields.
pub open spec fn join_on(fields: Seq<Seq<char>>, sep: char) -> Seq<char>
    decreases fields.len(),
{
    if fields.len() == 0 {
        Seq::<char>::empty()
    } else if fields.len() == 1 {
        fields[0]
    } else {
        join_on(fields.drop_last(), sep).push(sep) + fields.last()
    }
}

/// `sep` does not occur in `s`.
pub open spec fn free_of(s: Seq<char>, sep: char) -> bool {
    forall|i: int| 0 <= i < s.len() ==> s[i] != sep
}

pub proof fn lemma_split_nonempty(s: Seq<char>, sep: char)
    ensures
        split_on(s, sep).len() >= 1,
    decreases s.len(),
{
    if s.len() > 0 {
        lemma_split_nonempty(s.drop_last(), sep);
    }
}

/// Appending text without a separator extends the last field.
pub proof fn lemma_split_append_plain(a: Seq<char>, b: Seq<char>, sep: char)
    requires
        free_of(b, sep),
    ensures
        split_on(a + b, sep) == split_on(a, sep).update(
            split_on(a, sep).len() - 1,
            split_on(a, sep).last() + b,
        ),
    decreases b.len(),
{
    lemma_split_nonempty(a, sep);
    let fa = split_on(a, sep);
    if b.len() == 0 {
        assert(a + b =~= a);
        assert(fa.last() + b =~= fa.last());
        assert(fa.update(fa.len() - 1, fa.last() + b) =~= fa);
    } else {
        let b0 = b.drop_last();
        lemma_split_append_plain(a, b0, sep);
        assert((a + b).drop_last() =~= a + b0);
        assert((a + b).last() == b.last());
        assert(b.last() != sep);
        let f0 = split_on(a + b0, sep);
        assert(f0.last() == fa.last() + b0);
        assert((fa.last() + b0).push(b.last()) =~= fa.last() + b);
        assert(split_on(a + b, sep) =~= f0.update(f0.len() - 1, f0.last().push(b.last())));
        assert(f0.update(f0.len() - 1, f0.last().push(b.last())) =~= fa.update(
            fa.len() - 1,
            fa.last() + b,
        ));
    }
}

/// Splitting undoes joining when no field holds the separator.
pub proof fn lemma_split_join(fields: Seq<Seq<char>>, sep: char)
    requires
        fields.len() >= 1,
        forall|i: int| 0 <= i < fields.len() ==> free_of(#[trigger] fields[i], sep),
    ensures
        split_on(join_on(fields, sep), sep) == fields,
    decreases fields.len(),
{
    if fields.len() == 1 {
        lemma_split_append_plain(Seq::<char>::empty(), fields[0], sep);
        assert(Seq::<char>::empty() + fields[0] =~= fields[0]);
        assert(split_on(Seq::<char>::empty(), sep) =~= seq![Seq::<char>::empty()]);
        assert(Seq::<char>::empty() + fields[0] =~= fields[0]);
        assert(split_on(join_on(fields, sep), sep) =~= fields);
    } else {
        let init = fields.drop_last();
        assert forall|i: int| 0 <= i < init.len() implies free_of(#[trigger] init[i], sep) by {
            assert(init[i] == fields[i]);
        }
        lemma_split_join(init, sep);
        let j = join_on(init, sep);
        let js = j.push(sep);
        assert(js.drop_last() =~= j);
        assert(split_on(js, sep) == split_on(j, sep).push(Seq::<char>::empty()));
        assert(fields[fields.len() - 1] == fields.last());
        lemma_split_append_plain(js, fields.last(), sep);
        assert(Seq::<char>::empty() + fields.last() =~= fields.last());
        assert(split_on(join_on(fields, sep), sep) =~= init.push(fields.last()));
        assert(init.push(fields.last()) =~= fields);
    }
}

/// The char of upper-case hexadecimal digit `d`.
pub fn hex_digit_upper(d: u8) -> (c: char)
    requires
        d < 16,
    ensures
        c == hex_char_upper(d as nat),
{
    if d < 10 {
        (d + 48) as char
    } else {
        (d + 55) as char
    }
}

/// The char of lower-case hexadecimal digit `d`.
pub fn hex_digit_lower(d: u8) -> (c: char)
    requires
        d < 16,
    ensures
        c == hex_char_lower(d as nat),
{
    if d < 10 {
        (d + 48) as char
    } else {
        (d + 87) as char
    }
}

/// Appends the decimal rendering of `n`.
pub fn push_dec(s: &mut String, n: u64)
    ensures
        final(s)@ == old(s)@ + dec_string(n as nat),
    decreases n,
{
    if n >= 10 {
        push_dec(s, n / 10);
    }
    let d = (n % 10) as u8;
    string_push(s, (d + 48) as char);
    proof {
        if n < 10 {
            assert(old(s)@.push((d + 48) as char) =~= old(s)@ + dec_string(n as nat));
        } else {
            assert(dec_string(n as nat) == dec_string((n / 10) as nat).push(
                (((n % 10) as nat) + 48) as char,
            ));
            assert((old(s)@ + dec_string((n / 10) as nat)).push((d + 48) as char)
                =~= old(s)@ + dec_string(n as nat));
        }
    }
}

/// `from_str_radix` for an unsigned type whose largest value is `max`.
pub fn parse_unsigned_str(s: &str, radix: u32, max: u64) -> (r: Option<u64>)
    requires
        2 <= radix <= 36,
    ensures
        r matches Some(v) ==> parse_unsigned(s@, radix as nat, max as nat) == Some(v as nat),
        r is None ==> parse_unsigned(s@, radix as nat, max as nat) is None,
{
    let n = s.unicode_len();
    let mut start: usize = 0;
    if n > 0 && s.get_char(0) == '+' {
        start = 1;
    }
    let ghost d = unsigned_digits(s@);
    proof {
        if start == 1 {
            assert(d =~= s@.subrange(1, n as int));
        } else {
            assert(d =~= s@.subrange(0, n as int));
        }
    }
    if start >= n {
        return None;
    }
    let mut acc: u64 = 0;
    let mut i: usize = start;
    while i < n
        invariant
            start <= i <= n,
            n == s@.len(),
            d == s@.subrange(start as int, n as int),
            d == unsigned_digits(s@),
            2 <= radix <= 36,
            all_digits(d.take(i - start), radix as nat),
            acc as nat == digits_value(d.take(i - start), radix as nat),
            acc <= max,
        decreases n - i,
    {
        let c = s.get_char(i);
        let u = c as u32;
        let v: u32 = if 48 <= u && u <= 57 {
            u - 48
        } else if 97 <= u && u <= 122 {
            u - 97 + 10
        } else if 65 <= u && u <= 90 {
            u - 65 + 10
        } else {
            99
        };
        let ghost k = (i - start) as int;
        assert(d[k] == c);
        if v >= radix {
            assert(digit_value(d[k], radix as nat) is None);
            assert(!all_digits(d, radix as nat));
            return None;
        }
        assert(digit_value(d[k], radix as nat) == Some(v as nat));
        assert((acc as u128) * (radix as u128) <= 0xffff_ffff_ffff_ffffu128 * 36) by (nonlinear_arith)
            requires
                acc <= 0xffff_ffff_ffff_ffffu64,
                radix <= 36,
        ;
        let wide: u128 = (acc as u128) * (radix as u128) + (v as u128);
        assert(d.take(k + 1).drop_last() =~= d.take(k));
        assert(d.take(k + 1).last() == d[k]);
        assert(wide == digits_value(d.take(k + 1), radix as nat));
        assert(all_digits(d.take(k + 1), radix as nat)) by {
            assert forall|j: int| 0 <= j < d.take(k + 1).len() implies (#[trigger] digit_value(
                d.take(k + 1)[j],
                radix as nat,
            )) is Some by {
                if j < k {
                    assert(d.take(k + 1)[j] == d.take(k)[j]);
                }
            }
        }
        if wide > max as u128 {
            proof {
                lemma_digits_value_grows(d, radix as nat, k + 1);
            }
            return None;
        }
        acc = wide as u64;
        i = i + 1;
    }
    assert(d.take(n - start) =~= d);
    Some(acc)
}

} // verus!

verus! {

/// Splits `s` at every `sep`, as `str::split(sep)` does.
pub fn split_str(s: &str, sep: char) -> (r: Vec<String>)
    ensures
        r@.map_values(|f: String| f@) == split_on(s@, sep),
{
    let n = s.unicode_len();
    let mut fields: Vec<String> = Vec::new();
    let mut cur = String::new();
    let mut i: usize = 0;
    assert(s@.take(0) =~= Seq::<char>::empty());
    while i < n
        invariant
            i <= n,
            n == s@.len(),
            fields@.map_values(|f: String| f@).push(cur@) == split_on(s@.take(i as int), sep),
        decreases n - i,
    {
        let c = s.get_char(i);
        assert(s@.take(i + 1).drop_last() =~= s@.take(i as int));
        assert(s@.take(i + 1).last() == c);
        let ghost before = fields@.map_values(|f: String| f@);
        if c == sep {
            let done = cur;
            fields.push(done);
            cur = String::new();
            assert(fields@.map_values(|f: String| f@) =~= before.push(done@));
        } else {
            let ghost cur_old = cur@;
            string_push(&mut cur, c);
            assert(fields@.map_values(|f: String| f@) =~= before);
            let ghost f = before.push(cur_old);
            assert(f.last() == cur_old);
            assert(before.push(cur@) =~= f.update(f.len() - 1, f.last().push(c)));
        }
        i = i + 1;
    }
    assert(s@.take(n as int) =~= s@);
    let ghost before = fields@.map_values(|f: String| f@);
    fields.push(cur);
    assert(fields@.map_values(|f: String| f@) =~= before.push(cur@));
    fields
}

} // verus!

verus! {

/// Whether two strings hold the same chars.
pub fn str_eq(a: &str, b: &str) -> (r: bool)
    ensures
        r == (a@ == b@),
{
    let n = a.unicode_len();
    if n != b.unicode_len() {
        return false;
    }
    let mut i: usize = 0;
    while i < n
        invariant
            i <= n,
            n == a@.len(),
            n == b@.len(),
            a@.take(i as int) == b@.take(i as int),
        decreases n - i,
    {
        if a.get_char(i) != b.get_char(i) {
            return false;
        }
        assert(a@.take(i + 1) =~= a@.take(i as int).push(a@[i as int]));
        assert(b@.take(i + 1) =~= b@.take(i as int).push(b@[i as int]));
        i = i + 1;
    }
    assert(a@.take(n as int) =~= a@);
    assert(b@.take(n as int) =~= b@);
    true
}

/// `s` begins with `p`.
pub open spec fn has_prefix(s: Seq<char>, p: Seq<char>) -> bool {
    p.len() <= s.len() && s.take(p.len() as int) == p
}

/// `str::strip_prefix`: the rest of `s` after `p`, when `s` begins with `p`.
pub fn strip_prefix<'a>(s: &'a str, p: &str) -> (r: Option<&'a str>)
    ensures
        r is Some <==> has_prefix(s@, p@),
        r matches Some(rest) ==> rest@ == s@.skip(p@.len() as int),
{
    let n = s.unicode_len();
    let m = p.unicode_len();
    if m > n {
        return None;
    }
    let head = s.substring_char(0, m);
    if str_eq(head, p) {
        Some(s.substring_char(m, n))
    } else {
        None
    }
}

/// Index of the first `c` in `s`, or the length of `s` when there is none
/// (`find(c).unwrap_or(len)`).
pub open spec fn find_or_len(s: Seq<char>, c: char) -> int
    decreases s.len(),
{
    if s.len() == 0 {
        0
    } else if s[0] == c {
        0
    } else {
        1 + find_or_len(s.drop_first(), c)
    }
}

pub proof fn lemma_find_or_len(s: Seq<char>, c: char)
    ensures
        0 <= find_or_len(s, c) <= s.len(),
        forall|i: int| 0 <= i < find_or_len(s, c) ==> s[i] != c,
        find_or_len(s, c) < s.len() ==> s[find_or_len(s, c)] == c,
    decreases s.len(),
{
    if s.len() > 0 && s[0] != c {
        lemma_find_or_len(s.drop_first(), c);
        assert forall|i: int| 0 <= i < find_or_len(s, c) implies s[i] != c by {
            if i > 0 {
                assert(s[i] == s.drop_first()[i - 1]);
            }
        }
    }
}

/// `find_or_len` is the index of the first `c`.
pub proof fn lemma_find_or_len_at(s: Seq<char>, c: char, k: int)
    requires
        0 <= k <= s.len(),
        forall|i: int| 0 <= i < k ==> s[i] != c,
        k < s.len() ==> s[k] == c,
    ensures
        find_or_len(s, c) == k,
    decreases s.len(),
{
    if s.len() > 0 && k > 0 {
        assert forall|i: int| 0 <= i < k - 1 implies s.drop_first()[i] != c by {
            assert(s.drop_first()[i] == s[i + 1]);
        }
        lemma_find_or_len_at(s.drop_first(), c, k - 1);
    }
}

/// Position of the first `c` in `s`, or its length when `c` is absent.
pub fn find_char_or_len(s: &str, c: char) -> (r: usize)
    ensures
        r == find_or_len(s@, c),
{
    let n = s.unicode_len();
    let mut i: usize = 0;
    while i < n
        invariant
            i <= n,
            n == s@.len(),
            forall|j: int| 0 <= j < i ==> s@[j] != c,
        decreases n - i,
    {
        if s.get_char(i) == c {
            proof {
                lemma_find_or_len_at(s@, c, i as int);
            }
            return i;
        }
        i = i + 1;
    }
    proof {
        lemma_find_or_len_at(s@, c, n as int);
    }
    n
}

/// A string holding exactly the chars of a literal or slice.
pub fn owned(s: &str) -> (r: String)
    ensures
        r@ == s@,
{
    s.to_owned()
}

} // verus!

verus! {

/// Index of the last `c` in `s` (`rfind`), if any.
pub open spec fn rfind(s: Seq<char>, c: char) -> Option<int>
    decreases s.len(),
{
    if s.len() == 0 {
        None
    } else if s.last() == c {
        Some(s.len() - 1)
    } else {
        rfind(s.drop_last(), c)
    }
}

/// `rfind` is the index of the last `c`.
pub proof fn lemma_rfind_at(s: Seq<char>, c: char, k: int)
    requires
        0 <= k < s.len(),
        s[k] == c,
        forall|i: int| k < i < s.len() ==> s[i] != c,
    ensures
        rfind(s, c) == Some(k),
    decreases s.len(),
{
    if k < s.len() - 1 {
        assert(s.last() != c);
        assert forall|i: int| k < i < s.drop_last().len() implies s.drop_last()[i] != c by {
            assert(s.drop_last()[i] == s[i]);
        }
        lemma_rfind_at(s.drop_last(), c, k);
    }
}

/// `rfind` finds nothing in a text without `c`.
pub proof fn lemma_rfind_none(s: Seq<char>, c: char)
    requires
        free_of(s, c),
    ensures
        rfind(s, c) is None,
    decreases s.len(),
{
    if s.len() > 0 {
        assert(s.last() == s[s.len() - 1]);
        lemma_rfind_none(s.drop_last(), c);
    }
}

/// What `rfind` returns: an index of `c` with no `c` after it, or `None`
/// when `c` is absent.
pub proof fn lemma_rfind(s: Seq<char>, c: char)
    ensures
        rfind(s, c) matches Some(k) ==> 0 <= k < s.len() && s[k] == c && forall|i: int|
            k < i < s.len() ==> s[i] != c,
        rfind(s, c) is None ==> free_of(s, c),
    decreases s.len(),
{
    if s.len() > 0 && s.last() != c {
        lemma_rfind(s.drop_last(), c);
        assert forall|i: int| 0 <= i < s.len() - 1 implies s[i] == s.drop_last()[i] by {}
    }
}

/// Position of the last `c` in `s`.
pub fn rfind_char(s: &str, c: char) -> (r: Option<usize>)
    ensures
        r matches Some(k) ==> rfind(s@, c) == Some(k as int),
        r is None ==> rfind(s@, c) is None,
{
    let n = s.unicode_len();
    let mut i: usize = n;
    while i > 0
        invariant
            i <= n,
            n == s@.len(),
            forall|j: int| i <= j < n ==> s@[j] != c,
        decreases i,
    {
        if s.get_char(i - 1) == c {
            proof {
                lemma_rfind_at(s@, c, i - 1);
            }
            return Some(i - 1);
        }
        i = i - 1;
    }
    proof {
        lemma_rfind_none(s@, c);
    }
    None
}

/// The decimal rendering of `n` is a non-empty string of decimal digits
/// whose value is `n`; it holds no sign.
pub proof fn lemma_dec_string(n: nat)
    ensures
        dec_string(n).len() > 0,
        all_digits(dec_string(n), 10),
        digits_value(dec_string(n), 10) == n,
        digit_value(dec_string(n)[0], 10) is Some,
    decreases n,
{
    if n < 10 {
        let s = dec_string(n);
        assert(s.drop_last() =~= Seq::<char>::empty());
        assert(digit_value(s.last(), 10) == Some(n));
        assert(digits_value(Seq::<char>::empty(), 10) == 0);
        assert(digits_value(s, 10) == 0 * 10 + n);
    }
    if n >= 10 {
        lemma_dec_string(n / 10);
        let p = dec_string(n / 10);
        let s = dec_string(n);
        assert(s.drop_last() =~= p);
        assert(s[0] == p[0]);
        assert(s.last() == ((n % 10) + 48) as char);
        assert(digit_value(s.last(), 10) == Some(n % 10));
        assert(digits_value(s, 10) == (n / 10) * 10 + n % 10);
        assert((n / 10) * 10 + n % 10 == n) by (nonlinear_arith);
        assert forall|i: int| 0 <= i < s.len() implies (#[trigger] digit_value(s[i], 10)) is Some by {
            if i < p.len() {
                assert(s[i] == p[i]);
            }
        }
    }
}

/// Parsing the decimal rendering of `n` (within the limit) gives `n`;
/// the rendering holds no separator other than digits.
pub proof fn lemma_dec_string_parses(n: nat, max: nat)
    requires
        n <= max,
    ensures
        parse_unsigned(dec_string(n), 10, max) == Some(n),
        forall|c: char| (#[trigger] digit_value(c, 10)) is None ==> free_of(dec_string(n), c),
{
    lemma_dec_string(n);
    let s = dec_string(n);
    assert(s[0] != '+');
    assert(unsigned_digits(s) == s);
    assert forall|c: char| (#[trigger] digit_value(c, 10)) is None implies free_of(s, c) by {
        assert forall|i: int| 0 <= i < s.len() implies s[i] != c by {
            assert(digit_value(s[i], 10) is Some);
        }
    }
}

} // verus!

verus! {

/// `s` with every `from` replaced by `to` (`str::replace` of one char).
pub open spec fn replace_char(s: Seq<char>, from: char, to: char) -> Seq<char> {
    s.map_values(|c: char| if c == from { to } else { c })
}

/// Replacing `to` back by `from` undoes a replacement when `to` did not
/// occur before.
pub proof fn lemma_replace_char_back(s: Seq<char>, from: char, to: char)
    requires
        free_of(s, to),
    ensures
        replace_char(replace_char(s, from, to), to, from) == s,
{
    assert(replace_char(replace_char(s, from, to), to, from) =~= s);
}

/// Copy of `s` with every `from` replaced by `to`.
pub fn replace_chars(s: &str, from: char, to: char) -> (r: String)
    ensures
        r@ == replace_char(s@, from, to),
{
    let n = s.unicode_len();
    let mut r = String::new();
    let mut i: usize = 0;
    while i < n
        invariant
            i <= n,
            n == s@.len(),
            r@ == replace_char(s@.take(i as int), from, to),
        decreases n - i,
    {
        let c = s.get_char(i);
        let d = if c == from { to } else { c };
        string_push(&mut r, d);
        assert(replace_char(s@.take(i + 1), from, to) =~= replace_char(s@.take(i as int), from, to).push(d));
        i = i + 1;
    }
    assert(s@.take(n as int) =~= s@);
    r
}

/// Appends `{:04x}` of `v`.
pub fn push_hex4_lower(s: &mut String, v: u16)
    ensures
        final(s)@ == old(s)@ + hex4_lower(v),
{
    string_push(s, hex_digit_lower((v / 4096) as u8));
    string_push(s, hex_digit_lower(((v / 256) % 16) as u8));
    string_push(s, hex_digit_lower(((v / 16) % 16) as u8));
    string_push(s, hex_digit_lower((v % 16) as u8));
    assert(final(s)@ =~= old(s)@ + hex4_lower(v));
}

/// `{:04x}` of `v` parses back to `v` in base 16, and is made of digits
/// only.
pub proof fn lemma_hex4_lower_parses(v: u16)
    ensures
        parse_unsigned(hex4_lower(v), 16, 65535) == Some(v as nat),
        forall|c: char| (#[trigger] digit_value(c, 16)) is None ==> free_of(hex4_lower(v), c),
{
    let s = hex4_lower(v);
    let d0 = v as nat / 4096;
    let d1 = (v as nat / 256) % 16;
    let d2 = (v as nat / 16) % 16;
    let d3 = v as nat % 16;
    assert(digit_value(hex_char_lower(d0), 16) == Some(d0));
    assert(digit_value(hex_char_lower(d1), 16) == Some(d1));
    assert(digit_value(hex_char_lower(d2), 16) == Some(d2));
    assert(digit_value(hex_char_lower(d3), 16) == Some(d3));
    assert(unsigned_digits(s) == s);
    assert(s.drop_last() =~= seq![hex_char_lower(d0), hex_char_lower(d1), hex_char_lower(d2)]);
    assert(s.drop_last().drop_last() =~= seq![hex_char_lower(d0), hex_char_lower(d1)]);
    assert(s.drop_last().drop_last().drop_last() =~= seq![hex_char_lower(d0)]);
    assert(seq![hex_char_lower(d0)].drop_last() =~= Seq::<char>::empty());
    assert(digits_value(Seq::<char>::empty(), 16) == 0);
    assert(digits_value(seq![hex_char_lower(d0)], 16) == 0 * 16 + d0);
    assert(digits_value(seq![hex_char_lower(d0), hex_char_lower(d1)], 16) == d0 * 16 + d1);
    assert(digits_value(seq![hex_char_lower(d0), hex_char_lower(d1), hex_char_lower(d2)], 16) == (d0
        * 16 + d1) * 16 + d2);
    assert(digits_value(s, 16) == ((d0 * 16 + d1) * 16 + d2) * 16 + d3);
    assert(((d0 * 16 + d1) * 16 + d2) * 16 + d3 == v as nat) by (nonlinear_arith)
        requires
            d0 == v as nat / 4096,
            d1 == (v as nat / 256) % 16,
            d2 == (v as nat / 16) % 16,
            d3 == v as nat % 16,
            v as nat <= 65535,
    ;
    assert(all_digits(s, 16));
    assert forall|c: char| (#[trigger] digit_value(c, 16)) is None implies free_of(s, c) by {
        assert forall|i: int| 0 <= i < s.len() implies s[i] != c by {
            assert(digit_value(s[i], 16) is Some);
        }
    }
}

} // verus!

verus! {

/// Joining fields that lack a char, with another char between them, gives
/// a text that lacks it.
pub proof fn lemma_join_free_of(fields: Seq<Seq<char>>, sep: char, c: char)
    requires
        c != sep,
        forall|i: int| 0 <= i < fields.len() ==> free_of(#[trigger] fields[i], c),
    ensures
        free_of(join_on(fields, sep), c),
    decreases fields.len(),
{
    if fields.len() == 1 {
        assert(free_of(fields[0], c));
    } else if fields.len() > 1 {
        let init = fields.drop_last();
        assert forall|i: int| 0 <= i < init.len() implies free_of(#[trigger] init[i], c) by {
            assert(init[i] == fields[i]);
        }
        lemma_join_free_of(init, sep, c);
        assert(free_of(fields[fields.len() - 1], c));
        let j = join_on(init, sep).push(sep);
        let s = j + fields.last();
        assert forall|i: int| 0 <= i < s.len() implies s[i] != c by {
            if i < j.len() {
                assert(s[i] == j[i]);
            } else {
                assert(s[i] == fields.last()[i - j.len()]);
            }
        }
    }
}

/// A replacement of `from` by `to` leaves a text free of every char other
/// than `to` that it was free of, and free of `from` when `from != to`.
pub proof fn lemma_replace_free_of(s: Seq<char>, from: char, to: char, c: char)
    requires
        c != to,
        c == from || free_of(s, c),
    ensures
        free_of(replace_char(s, from, to), c),
{
}

} // verus!

verus! {

/// The low `n` hexadecimal digits of `v` in lower case, most significant
/// first.
pub open spec fn hex_lower_n(v: nat, n: nat) -> Seq<char>
    decreases n,
{
    if n == 0 {
        Seq::empty()
    } else {
        hex_lower_n(v / 16, (n - 1) as nat).push(hex_char_lower(v % 16))
    }
}

/// The rendering of a UUID without hyphens: 32 lower-case hexadecimal
/// digits (`Uuid::as_simple`).
pub open spec fn uuid_simple_text(v: u128) -> Seq<char> {
    hex_lower_n(v as nat, 32)
}

/// The hyphenated rendering of a UUID: its 32 lower-case hexadecimal digits
/// in groups of 8, 4, 4, 4 and 12 (the `Display` form of `Uuid`).
pub open spec fn uuid_text(v: u128) -> Seq<char> {
    let s = uuid_simple_text(v);
    s.subrange(0, 8) + seq!['-'] + s.subrange(8, 12) + seq!['-'] + s.subrange(12, 16) + seq!['-']
        + s.subrange(16, 20) + seq!['-'] + s.subrange(20, 32)
}

/// `s` is the hyphenated rendering of some UUID.
pub open spec fn is_uuid_text(s: Seq<char>) -> bool {
    exists|v: u128| uuid_text(v) == s
}

proof fn lemma_hex_lower_n_len(v: nat, n: nat)
    ensures
        hex_lower_n(v, n).len() == n,
    decreases n,
{
    if n > 0 {
        lemma_hex_lower_n_len(v / 16, (n - 1) as nat);
    }
}

/// Appends the low `n` hexadecimal digits of `v`.
pub fn push_hex_lower_n(s: &mut String, v: u128, n: u32)
    ensures
        final(s)@ == old(s)@ + hex_lower_n(v as nat, n as nat),
    decreases n,
{
    if n > 0 {
        push_hex_lower_n(s, v / 16, n - 1);
        string_push(s, hex_digit_lower((v % 16) as u8));
        assert(final(s)@ =~= old(s)@ + hex_lower_n(v as nat, n as nat));
    } else {
        assert(final(s)@ =~= old(s)@ + hex_lower_n(v as nat, n as nat));
    }
}

/// The rendering of a UUID without hyphens.
pub fn uuid_simple_string(v: u128) -> (r: String)
    ensures
        r@ == uuid_simple_text(v),
{
    let mut s = String::new();
    push_hex_lower_n(&mut s, v, 32);
    assert(s@ =~= uuid_simple_text(v));
    s
}

/// The hyphenated rendering of a UUID.
pub fn uuid_string(v: u128) -> (r: String)
    ensures
        r@ == uuid_text(v),
{
    let simple = uuid_simple_string(v);
    proof {
        lemma_hex_lower_n_len(v as nat, 32);
    }
    let t = simple.as_str();
    let mut s = String::new();
    s.append(t.substring_char(0, 8));
    string_push(&mut s, '-');
    s.append(t.substring_char(8, 12));
    string_push(&mut s, '-');
    s.append(t.substring_char(12, 16));
    string_push(&mut s, '-');
    s.append(t.substring_char(16, 20));
    string_push(&mut s, '-');
    s.append(t.substring_char(20, 32));
    assert(s@ =~= uuid_text(v));
    s
}

} // verus!

verus! {

/// Why an integer text does not parse (`std::num::IntErrorKind`, the kinds
/// an unsigned parse reports).
#[derive(Clone, Copy, Debug, PartialEq, Eq, Structural)]
pub enum IntErrorKind {
    /// The text is empty.
    Empty,
    /// A char is no digit of the radix (or the text is a lone sign).
    InvalidDigit,
    /// The value is too large for the type.
    PosOverflow,
}

/// The first error met reading digits `d` left to right with the value
/// `acc` read so far: a char that is no digit, or a value beyond `max`.
pub open spec fn int_scan(d: Seq<char>, radix: nat, max: nat, acc: nat) -> Option<IntErrorKind>
    decreases d.len(),
{
    if d.len() == 0 {
        None
    } else {
        match digit_value(d[0], radix) {
            None => Some(IntErrorKind::InvalidDigit),
            Some(v) => if acc * radix + v > max {
                Some(IntErrorKind::PosOverflow)
            } else {
                int_scan(d.drop_first(), radix, max, acc * radix + v)
            },
        }
    }
}

/// The error that `from_str_radix` of an unsigned type whose largest value
/// is `max` reports for `s`, if any.
pub open spec fn int_parse_error(s: Seq<char>, radix: nat, max: nat) -> Option<IntErrorKind> {
    if s.len() == 0 {
        Some(IntErrorKind::Empty)
    } else if unsigned_digits(s).len() == 0 {
        Some(IntErrorKind::InvalidDigit)
    } else {
        int_scan(unsigned_digits(s), radix, max, 0)
    }
}

/// The error kind reported for a text that does not parse.
pub open spec fn int_error_kind_of(s: Seq<char>, radix: nat, max: nat) -> IntErrorKind {
    match int_parse_error(s, radix, max) {
        Some(k) => k,
        None => IntErrorKind::InvalidDigit,
    }
}

/// The message of an integer parse error (`Display` of `ParseIntError`).
pub open spec fn int_error_text(k: IntErrorKind) -> Seq<char> {
    match k {
        IntErrorKind::Empty => "cannot parse integer from empty string"@,
        IntErrorKind::InvalidDigit => "invalid digit found in string"@,
        IntErrorKind::PosOverflow => "number too large to fit in target type"@,
    }
}

/// The error kind of a text that does not parse as an unsigned integer.
pub fn int_error_kind(s: &str, radix: u32, max: u64) -> (r: IntErrorKind)
    requires
        2 <= radix <= 36,
    ensures
        r == int_error_kind_of(s@, radix as nat, max as nat),
{
    let n = s.unicode_len();
    if n == 0 {
        return IntErrorKind::Empty;
    }
    let mut start: usize = 0;
    if s.get_char(0) == '+' {
        start = 1;
    }
    let ghost d = unsigned_digits(s@);
    proof {
        if start == 1 {
            assert(d =~= s@.subrange(1, n as int));
        } else {
            assert(d =~= s@.subrange(0, n as int));
        }
    }
    if start >= n {
        return IntErrorKind::InvalidDigit;
    }
    let mut acc: u64 = 0;
    let mut i: usize = start;
    assert(d.skip(0) =~= d);
    while i < n
        invariant
            start <= i <= n,
            n == s@.len(),
            d == s@.subrange(start as int, n as int),
            2 <= radix <= 36,
            acc <= max,
            int_parse_error(s@, radix as nat, max as nat) == int_scan(d.skip(i - start), radix as nat, max as nat, acc as nat),
            d.len() > 0,
            s@.len() > 0,
            d == unsigned_digits(s@),
        decreases n - i,
    {
        let c = s.get_char(i);
        let u = c as u32;
        let v: u32 = if 48 <= u && u <= 57 {
            u - 48
        } else if 97 <= u && u <= 122 {
            u - 97 + 10
        } else if 65 <= u && u <= 90 {
            u - 65 + 10
        } else {
            99
        };
        let ghost rest = d.skip(i - start);
        assert(rest[0] == c);
        assert(rest.drop_first() =~= d.skip(i - start + 1));
        if v >= radix {
            assert(digit_value(c, radix as nat) is None);
            return IntErrorKind::InvalidDigit;
        }
        assert(digit_value(c, radix as nat) == Some(v as nat));
        assert((acc as u128) * (radix as u128) <= 0xffff_ffff_ffff_ffffu128 * 36) by (nonlinear_arith)
            requires
                acc <= 0xffff_ffff_ffff_ffffu64,
                radix <= 36,
        ;
        let wide: u128 = (acc as u128) * (radix as u128) + (v as u128);
        if wide > max as u128 {
            return IntErrorKind::PosOverflow;
        }
        acc = wide as u64;
        i = i + 1;
    }
    assert(d.skip(n - start) =~= Seq::<char>::empty());
    IntErrorKind::InvalidDigit
}

/// The message of an integer parse error.
pub fn int_error_message(k: IntErrorKind) -> (r: String)
    ensures
        r@ == int_error_text(k),
{
    match k {
        IntErrorKind::Empty => owned("cannot parse integer from empty string"),
        IntErrorKind::InvalidDigit => owned("invalid digit found in string"),
        IntErrorKind::PosOverflow => owned("number too large to fit in target type"),
    }
}

/// Strings by view.
pub open spec fn texts(v: Seq<String>) -> Seq<Seq<char>> {
    v.map_values(|s: String| s@)
}

/// The hyphenated texts of UUIDs.
pub fn uuid_texts(v: &Vec<u128>) -> (r: Vec<String>)
    ensures
        texts(r@) == v@.map_values(|u: u128| uuid_text(u)),
{
    let mut r: Vec<String> = Vec::new();
    let mut i: usize = 0;
    while i < v.len()
        invariant
            i <= v@.len(),
            texts(r@) == v@.take(i as int).map_values(|u: u128| uuid_text(u)),
        decreases v@.len() - i,
    {
        let ghost before = r@;
        r.push(uuid_string(v[i]));
        assert(texts(r@) =~= texts(before).push(uuid_text(v@[i as int])));
        assert(v@.take(i + 1).map_values(|u: u128| uuid_text(u)) =~= v@.take(i as int).map_values(
            |u: u128| uuid_text(u),
        ).push(uuid_text(v@[i as int])));
        i = i + 1;
    }
    assert(v@.take(v@.len() as int) =~= v@);
    r
}

} // verus!
