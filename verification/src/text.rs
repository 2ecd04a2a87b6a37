use vstd::prelude::*;

verus! {

/// Whether a byte is an ASCII decimal digit.
pub open spec fn is_digit(b: u8) -> bool {
    48 <= b <= 57
}

/// Whether every byte of `s` is an ASCII decimal digit.
pub open spec fn all_digits(s: Seq<u8>) -> bool {
    forall|i: int| 0 <= i < s.len() ==> is_digit(#[trigger] s[i])
}

/// The number that a run of ASCII decimal digits spells (most significant first).
pub open spec fn decimal_value(s: Seq<u8>) -> nat
    decreases s.len(),
{
    if s.len() == 0 {
        0
    } else {
        decimal_value(s.drop_last()) * 10 + ((s.last() - 48) as nat)
    }
}

/// The shortest run of ASCII decimal digits that spells `n`.
pub open spec fn decimal_digits(n: nat) -> Seq<u8>
    decreases n,
{
    if n < 10 {
        seq![(n + 48) as u8]
    } else {
        decimal_digits(n / 10).push(((n % 10) + 48) as u8)
    }
}

/// Extending a run of digits never lowers the number it spells.
pub proof fn lemma_decimal_value_prefix(t: Seq<u8>, k: int)
    requires
        0 <= k <= t.len(),
        all_digits(t),
    ensures
        decimal_value(t.subrange(0, k)) <= decimal_value(t),
    decreases t.len() - k,
{
    if k < t.len() {
        lemma_decimal_value_prefix(t, k + 1);
        let p = t.subrange(0, k + 1);
        assert(p.drop_last() =~= t.subrange(0, k));
        assert(is_digit(t[k]));
    } else {
        assert(t.subrange(0, k) =~= t);
    }
}

/// `decimal_digits` spells exactly its argument, with digits only.
pub proof fn lemma_decimal_digits(n: nat)
    ensures
        all_digits(decimal_digits(n)),
        decimal_value(decimal_digits(n)) == n,
        1 <= decimal_digits(n).len(),
    decreases n,
{
    if n < 10 {
        let s = decimal_digits(n);
        assert(s.drop_last() =~= Seq::<u8>::empty());
        assert(decimal_value(s.drop_last()) == 0);
        assert(s.last() == (n + 48) as u8);
    } else {
        lemma_decimal_digits(n / 10);
        let s = decimal_digits(n);
        assert(s.drop_last() =~= decimal_digits(n / 10));
        assert(s.last() == ((n % 10) + 48) as u8);
        assert(n == (n / 10) * 10 + n % 10);
        assert forall|i: int| 0 <= i < s.len() implies is_digit(#[trigger] s[i]) by {
            if i < s.len() - 1 {
                assert(s[i] == decimal_digits(n / 10)[i]);
            }
        }
    }
}

/// Ten to the power `k`.
pub open spec fn pow10(k: nat) -> nat
    decreases k,
{
    if k == 0 {
        1
    } else {
        10 * pow10((k - 1) as nat)
    }
}

/// A number below `10^k` has at most `k` digits.
pub proof fn lemma_decimal_digits_len(n: nat, k: nat)
    requires
        1 <= k,
        n < pow10(k),
    ensures
        decimal_digits(n).len() <= k,
    decreases k,
{
    if n >= 10 {
        if k == 1 {
            assert(pow10(0) == 1);
        } else {
            assert(n / 10 < pow10((k - 1) as nat));
            lemma_decimal_digits_len(n / 10, (k - 1) as nat);
        }
    }
}

/// Whether `hay` ends with `suffix`.
pub open spec fn has_suffix(hay: Seq<u8>, suffix: Seq<u8>) -> bool {
    suffix.len() <= hay.len() && hay.subrange(hay.len() - suffix.len(), hay.len() as int) == suffix
}

/// Decides `has_suffix` on byte slices.
pub fn ends_with(hay: &[u8], suffix: &[u8]) -> (b: bool)
    ensures
        b == has_suffix(hay@, suffix@),
{
    if suffix.len() > hay.len() {
        return false;
    }
    let off = hay.len() - suffix.len();
    let mut i: usize = 0;
    while i < suffix.len()
        invariant
            off + suffix@.len() == hay@.len(),
            0 <= i <= suffix@.len(),
            hay@.len() <= usize::MAX,
            forall|j: int| 0 <= j < i ==> hay@[off + j] == suffix@[j],
        decreases suffix@.len() - i,
    {
        if hay[off + i] != suffix[i] {
            assert(hay@.subrange(off as int, hay@.len() as int)[i as int] != suffix@[i as int]);
            return false;
        }
        i = i + 1;
    }
    assert(hay@.subrange(off as int, hay@.len() as int) =~= suffix@);
    true
}

/// Decides equality of byte slices.
pub fn bytes_eq(a: &[u8], b: &[u8]) -> (r: bool)
    ensures
        r == (a@ == b@),
{
    if a.len() != b.len() {
        return false;
    }
    let mut i: usize = 0;
    while i < a.len()
        invariant
            a@.len() == b@.len(),
            0 <= i <= a@.len(),
            forall|j: int| 0 <= j < i ==> a@[j] == b@[j],
        decreases a@.len() - i,
    {
        if a[i] != b[i] {
            return false;
        }
        i = i + 1;
    }
    assert(a@ =~= b@);
    true
}

/// The bytes `"true"`.
pub open spec fn true_text() -> Seq<u8> {
    seq![116u8, 114u8, 117u8, 101u8]
}

/// The bytes `"false"`.
pub open spec fn false_text() -> Seq<u8> {
    seq![102u8, 97u8, 108u8, 115u8, 101u8]
}

/// What `bool`'s `FromStr` gives on a payload: exactly `"true"` and `"false"` are accepted.
pub open spec fn spec_parse_flag(s: Seq<u8>) -> Option<bool> {
    if s == true_text() {
        Some(true)
    } else if s == false_text() {
        Some(false)
    } else {
        None
    }
}

/// The digits of an unsigned number: one leading `+` is dropped where digits follow it.
pub open spec fn number_digits(s: Seq<u8>) -> Seq<u8> {
    if s.len() > 1 && s[0] == 43 {
        s.drop_first()
    } else {
        s
    }
}

/// What `u32`'s `FromStr` gives on a payload: an optional `+`, then at least
/// one ASCII digit and nothing else, spelling a number that fits in 32 bits.
pub open spec fn spec_parse_number(s: Seq<u8>) -> Option<u32> {
    let d = number_digits(s);
    if d.len() > 0 && all_digits(d) && decimal_value(d) <= u32::MAX {
        Some(decimal_value(d) as u32)
    } else {
        None
    }
}

/// Parses a payload as a boolean flag (`"true"` or `"false"`).
pub fn parse_flag(data: &[u8]) -> (r: Option<bool>)
    ensures
        r == spec_parse_flag(data@),
{
    let t: [u8; 4] = [116u8, 114u8, 117u8, 101u8];
    let f: [u8; 5] = [102u8, 97u8, 108u8, 115u8, 101u8];
    assert(t@ =~= true_text());
    assert(f@ =~= false_text());
    if bytes_eq(data, t.as_slice()) {
        Some(true)
    } else if bytes_eq(data, f.as_slice()) {
        Some(false)
    } else {
        None
    }
}

/// Parses a payload as an unsigned 32-bit decimal number.
pub fn parse_number(data: &[u8]) -> (r: Option<u32>)
    ensures
        r == spec_parse_number(data@),
{
    let start: usize = if data.len() > 1 && data[0] == 43u8 {
        1
    } else {
        0
    };
    let ghost d = number_digits(data@);
    assert(d =~= data@.subrange(start as int, data@.len() as int));
    if start == data.len() {
        return None;
    }
    let mut value: u32 = 0;
    let mut i: usize = start;
    while i < data.len()
        invariant
            d == data@.subrange(start as int, data@.len() as int),
            d == number_digits(data@),
            start <= i <= data@.len(),
            all_digits(d.subrange(0, i - start)),
            value as nat == decimal_value(d.subrange(0, i - start)),
        decreases data@.len() - i,
    {
        let b = data[i];
        let ghost k: int = i - start;
        if b < 48u8 || b > 57u8 {
            assert(!is_digit(d[k]));
            assert(!all_digits(d));
            return None;
        }
        let digit: u32 = (b - 48u8) as u32;
        assert(d.subrange(0, k + 1).drop_last() =~= d.subrange(0, k));
        assert(all_digits(d.subrange(0, k + 1))) by {
            assert forall|j: int| 0 <= j < k + 1 implies is_digit(#[trigger] d.subrange(0, k + 1)[j]) by {
                if j < k {
                    assert(d.subrange(0, k + 1)[j] == d.subrange(0, k)[j]);
                }
            }
        }
        assert(d.subrange(0, k + 1).last() == b);
        assert(decimal_value(d.subrange(0, k + 1)) == value as nat * 10 + digit as nat);
        if value > (u32::MAX - digit) / 10 {
            assert(value as nat * 10 + digit as nat > u32::MAX);
            proof {
                if all_digits(d) {
                    lemma_decimal_value_prefix(d, k + 1);
                }
            }
            return None;
        }
        value = value * 10 + digit;
        i = i + 1;
    }
    assert(d.subrange(0, d.len() as int) =~= d);
    Some(value)
}

/// Writes the decimal digits of `num` at the end of `buf` and returns the
/// index of the first digit written; the bytes before it are left as they were.
pub fn to_str(num: u64, buf: &mut [u8]) -> (start: usize)
    requires
        decimal_digits(num as nat).len() <= old(buf)@.len(),
    ensures
        final(buf)@.len() == old(buf)@.len(),
        start == old(buf)@.len() - decimal_digits(num as nat).len(),
        final(buf)@.subrange(0, start as int) == old(buf)@.subrange(0, start as int),
        final(buf)@.subrange(start as int, final(buf)@.len() as int) == decimal_digits(
            num as nat,
        ),
{
    let ghost digits = decimal_digits(num as nat);
    let mut len = buf.len();
    let mut n = num;
    if n == 0 {
        len = len - 1;
        buf[len] = 48u8;
        assert(buf@.subrange(len as int, buf@.len() as int) =~= digits);
        assert(buf@.subrange(0, len as int) =~= old(buf)@.subrange(0, len as int));
        return len;
    }
    while n > 0
        invariant
            buf@.len() == old(buf)@.len(),
            0 < num,
            digits == decimal_digits(num as nat),
            digits.len() <= buf@.len(),
            n == 0 ==> len == buf@.len() - digits.len(),
            n > 0 ==> decimal_digits(n as nat).len() + (buf@.len() - len) == digits.len(),
            n > 0 ==> digits == decimal_digits(n as nat) + buf@.subrange(len as int, buf@.len() as int),
            n == 0 ==> digits == buf@.subrange(len as int, buf@.len() as int),
            len <= buf@.len(),
            buf@.subrange(0, len as int) == old(buf)@.subrange(0, len as int),
        decreases n,
    {
        let ghost tail = buf@.subrange(len as int, buf@.len() as int);
        let ghost old_len = len;
        let d = (n % 10) as u8;
        len = len - 1;
        buf[len] = 48u8 + d;
        let ghost new_tail = buf@.subrange(len as int, buf@.len() as int);
        assert(new_tail =~= seq![(48u8 + d) as u8] + tail);
        assert(buf@.subrange(0, len as int) =~= old(buf)@.subrange(0, len as int)) by {
            assert forall|j: int| 0 <= j < len implies buf@[j] == old(buf)@[j] by {
                assert(buf@.subrange(0, old_len as int)[j] == old(buf)@.subrange(0, old_len as int)[j]);
            }
        }
        if n >= 10 {
            assert(decimal_digits(n as nat) == decimal_digits((n / 10) as nat).push(((n % 10) + 48) as u8));
            assert(decimal_digits(n as nat) + tail =~= decimal_digits((n / 10) as nat) + new_tail);
        } else {
            assert(decimal_digits(n as nat) =~= seq![(n + 48) as u8]);
            assert(digits =~= new_tail);
        }
        n = n / 10;
    }
    len
}

/// The decimal digits of a number.
pub fn decimal_text(num: u64) -> (t: Vec<u8>)
    ensures
        t@ == decimal_digits(num as nat),
    decreases num,
{
    if num < 10 {
        let mut t: Vec<u8> = Vec::new();
        t.push(num as u8 + 48u8);
        assert(t@ =~= decimal_digits(num as nat));
        t
    } else {
        let mut t = decimal_text(num / 10);
        t.push((num % 10) as u8 + 48u8);
        assert(t@ =~= decimal_digits(num as nat));
        t
    }
}

/// Law: the decimal digits of a 32-bit number parse back to it.
pub proof fn law_number_round_trip(n: u32)
    ensures
        spec_parse_number(decimal_digits(n as nat)) == Some(n),
{
    let d = decimal_digits(n as nat);
    lemma_decimal_digits(n as nat);
    assert(is_digit(d[0]));
    assert(number_digits(d) == d);
}

} // verus!
