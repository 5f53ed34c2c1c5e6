use vstd::prelude::*;

verus! {

/// The ASCII code of the lowercase hexadecimal digit for `n` (0 to 15).
pub open spec fn hex_digit(n: u8) -> u8 {
    if n < 10 { (48 + n) as u8 } else { (87 + n) as u8 }
}

/// The value of an ASCII hexadecimal digit, either case, or `None`.
pub open spec fn digit_value(c: u8) -> Option<u8> {
    if 48 <= c && c <= 57 {
        Some((c - 48) as u8)
    } else if 97 <= c && c <= 102 {
        Some((c - 87) as u8)
    } else if 65 <= c && c <= 70 {
        Some((c - 55) as u8)
    } else {
        None
    }
}

/// Lowercase hexadecimal text of `b`: two digits per byte, high nibble first.
pub open spec fn hex_of(b: Seq<u8>) -> Seq<u8>
    decreases b.len(),
{
    if b.len() == 0 {
        Seq::empty()
    } else {
        hex_of(b.drop_last()).push(hex_digit(b.last() / 16)).push(hex_digit(b.last() % 16))
    }
}

/// Whether every character of `t` is a hexadecimal digit and their count is even.
pub open spec fn is_hex_text(t: Seq<u8>) -> bool {
    t.len() % 2 == 0 && forall|i: int| 0 <= i < t.len() ==> (#[trigger] digit_value(t[i])).is_some()
}

/// The bytes spelled by hexadecimal text `t` (meaningful where `is_hex_text(t)`).
pub open spec fn bytes_of_hex(t: Seq<u8>) -> Seq<u8> {
    Seq::new(
        t.len() / 2,
        |i: int| (digit_value(t[2 * i]).unwrap() * 16 + digit_value(t[2 * i + 1]).unwrap()) as u8,
    )
}

fn digit(n: u8) -> (c: u8)
    requires
        n < 16,
    ensures
        c == hex_digit(n),
{
    if n < 10 { 48 + n } else { 87 + n }
}

/// Lowercase hexadecimal encoding of `b`.
pub fn encode_hex(b: &[u8]) -> (r: Vec<u8>)
    ensures
        r@ == hex_of(b@),
{
    let mut r: Vec<u8> = Vec::new();
    let mut i: usize = 0;
    while i < b.len()
        invariant
            i <= b@.len(),
            r@ == hex_of(b@.subrange(0, i as int)),
        decreases b@.len() - i,
    {
        let x = b[i];
        r.push(digit(x / 16));
        r.push(digit(x % 16));
        proof {
            let s = b@.subrange(0, i + 1);
            assert(s.drop_last() == b@.subrange(0, i as int));
            assert(s.last() == x);
        }
        i = i + 1;
    }
    assert(b@.subrange(0, b@.len() as int) == b@);
    r
}

fn value_of(c: u8) -> (r: Option<u8>)
    ensures
        r == digit_value(c),
{
    if 48 <= c && c <= 57 {
        Some(c - 48)
    } else if 97 <= c && c <= 102 {
        Some(c - 87)
    } else if 65 <= c && c <= 70 {
        Some(c - 55)
    } else {
        None
    }
}

/// Decodes hexadecimal text of either case, with no prefix.
/// `None` exactly when the text has odd length or a character that is no hex digit.
pub fn decode_hex(t: &[u8]) -> (r: Option<Vec<u8>>)
    ensures
        r.is_some() == is_hex_text(t@),
        r.is_some() ==> r.unwrap()@ == bytes_of_hex(t@),
{
    if t.len() % 2 != 0 {
        return None;
    }
    let n = t.len() / 2;
    let mut r: Vec<u8> = Vec::new();
    let mut i: usize = 0;
    while i < n
        invariant
            n == t@.len() / 2,
            t@.len() % 2 == 0,
            i <= n,
            r@.len() == i,
            forall|k: int| 0 <= k < 2 * i ==> (#[trigger] digit_value(t@[k])).is_some(),
            forall|k: int| 0 <= k < i ==> r@[k] == #[trigger] bytes_of_hex(t@)[k],
        decreases n - i,
    {
        let hi = value_of(t[2 * i]);
        let lo = value_of(t[2 * i + 1]);
        match (hi, lo) {
            (Some(h), Some(l)) => {
                assert(h < 16 && l < 16);
                r.push(h * 16 + l);
                assert(forall|k: int| 0 <= k < 2 * i + 2 ==> (#[trigger] digit_value(t@[k])).is_some());
            },
            _ => {
                assert(!is_hex_text(t@)) by {
                    if hi.is_none() {
                        assert(digit_value(t@[2 * i as int]).is_none());
                    } else {
                        assert(digit_value(t@[2 * i + 1]).is_none());
                    }
                }
                return None;
            },
        }
        i = i + 1;
    }
    assert(r@ =~= bytes_of_hex(t@));
    Some(r)
}

/// Whether `a` and `b` hold the same bytes.
pub fn bytes_equal(a: &[u8], b: &[u8]) -> (r: bool)
    ensures
        r == (a@ == b@),
{
    if a.len() != b.len() {
        return false;
    }
    let mut i: usize = 0;
    while i < a.len()
        invariant
            a@.len() == b@.len(),
            i <= a@.len(),
            forall|k: int| 0 <= k < i ==> a@[k] == b@[k],
        decreases a@.len() - i,
    {
        if a[i] != b[i] {
            return false;
        }
        i = i + 1;
    }
    assert(a@ =~= b@);
    true
}

} // verus!
