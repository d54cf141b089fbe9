use vstd::prelude::*;

verus! {

/// The ASCII code of hex digit `n` (0-15), upper case.
pub open spec fn hex_digit(n: int) -> u8 {
    if n < 10 { (48 + n) as u8 } else { (55 + n) as u8 }
}

/// A byte as two upper-case hex digits (`{:02X}`).
pub open spec fn hex2(b: u8) -> Seq<u8> {
    seq![hex_digit((b / 16) as int), hex_digit((b % 16) as int)]
}

/// A word as four upper-case hex digits (`{:04X}`).
pub open spec fn hex4(w: u16) -> Seq<u8> {
    seq![
        hex_digit((w / 4096) as int),
        hex_digit(((w / 256) % 16) as int),
        hex_digit(((w / 16) % 16) as int),
        hex_digit((w % 16) as int),
    ]
}

/// A byte as eight binary digits (`{:08b}`).
pub open spec fn bin8(b: u8) -> Seq<u8> {
    Seq::new(8, |i: int| if ((b as int) / pow2_u8(7 - i)) % 2 == 1 { 49u8 } else { 48u8 })
}

/// 2 to the `k` (0-7).
pub open spec fn pow2_u8(k: int) -> int {
    if k <= 0 { 1 } else if k == 1 { 2 } else if k == 2 { 4 } else if k == 3 { 8 } else if k == 4 { 16 } else if k
        == 5 { 32 } else if k == 6 { 64 } else { 128 }
}

/// A number below 1000 as decimal digits, zero-padded to `width` (2 or 3)
/// digits (`{:02}`, `{:03}`).
pub open spec fn dec(n: int, width: int) -> Seq<u8> {
    if width == 3 {
        seq![(48 + n / 100) as u8, (48 + (n / 10) % 10) as u8, (48 + n % 10) as u8]
    } else {
        seq![(48 + n / 10) as u8, (48 + n % 10) as u8]
    }
}

/// `s` padded with spaces on the right to `n` characters (`{:<n}`).
pub open spec fn pad_right(s: Seq<u8>, n: int) -> Seq<u8> {
    if s.len() >= n { s } else { s + Seq::new((n - s.len()) as nat, |i: int| 32u8) }
}

/// Whether every byte is ASCII.
pub open spec fn is_ascii(s: Seq<u8>) -> bool {
    forall|i: int| 0 <= i < s.len() ==> s[i] < 128
}

/// Appends `s`.
pub fn push_all(v: &mut Vec<u8>, s: &[u8])
    ensures
        final(v)@ == old(v)@ + s@,
        is_ascii(old(v)@) && is_ascii(s@) ==> is_ascii(final(v)@),
{
    let mut i: usize = 0;
    while i < s.len()
        invariant
            i <= s@.len(),
            v@ == old(v)@ + s@.subrange(0, i as int),
        decreases s@.len() - i,
    {
        v.push(s[i]);
        i = i + 1;
        assert(v@ =~= old(v)@ + s@.subrange(0, i as int));
    }
    assert(s@.subrange(0, s@.len() as int) =~= s@);
}

/// Appends the bytes of `s`.
pub fn push_vec(v: &mut Vec<u8>, s: &Vec<u8>)
    ensures
        final(v)@ == old(v)@ + s@,
        is_ascii(old(v)@) && is_ascii(s@) ==> is_ascii(final(v)@),
{
    let mut i: usize = 0;
    while i < s.len()
        invariant
            i <= s@.len(),
            v@ == old(v)@ + s@.subrange(0, i as int),
        decreases s@.len() - i,
    {
        v.push(s[i]);
        i = i + 1;
        assert(v@ =~= old(v)@ + s@.subrange(0, i as int));
    }
    assert(s@.subrange(0, s@.len() as int) =~= s@);
}

fn hex_digit_exec(n: u8) -> (r: u8)
    requires
        n < 16,
    ensures
        r == hex_digit(n as int),
{
    if n < 10 { 48 + n } else { 55 + n }
}

/// Appends a byte as two hex digits.
pub fn push_hex2(v: &mut Vec<u8>, b: u8)
    ensures
        final(v)@ == old(v)@ + hex2(b),
        is_ascii(old(v)@) ==> is_ascii(final(v)@),
{
    v.push(hex_digit_exec(b / 16));
    v.push(hex_digit_exec(b % 16));
    assert(v@ =~= old(v)@ + hex2(b));
}

/// Appends a word as four hex digits.
pub fn push_hex4(v: &mut Vec<u8>, w: u16)
    ensures
        final(v)@ == old(v)@ + hex4(w),
        is_ascii(old(v)@) ==> is_ascii(final(v)@),
{
    v.push(hex_digit_exec((w / 4096) as u8));
    v.push(hex_digit_exec(((w / 256) % 16) as u8));
    v.push(hex_digit_exec(((w / 16) % 16) as u8));
    v.push(hex_digit_exec((w % 16) as u8));
    assert(v@ =~= old(v)@ + hex4(w));
}

/// Appends a byte as eight binary digits.
pub fn push_bin8(v: &mut Vec<u8>, b: u8)
    ensures
        final(v)@ == old(v)@ + bin8(b),
        is_ascii(old(v)@) ==> is_ascii(final(v)@),
{
    let mut i: u8 = 0;
    let mut p: u8 = 128;
    while i < 8
        invariant
            i <= 8,
            i < 8 ==> p as int == pow2_u8(7 - i),
            v@ == old(v)@ + bin8(b).subrange(0, i as int),
        decreases 8 - i,
    {
        v.push(if (b / p) % 2 == 1 { 49 } else { 48 });
        i = i + 1;
        p = p / 2;
        assert(v@ =~= old(v)@ + bin8(b).subrange(0, i as int));
    }
    assert(bin8(b).subrange(0, 8) =~= bin8(b));
}

/// Appends a number below 1000 as `width` (2 or 3) decimal digits.
pub fn push_dec(v: &mut Vec<u8>, n: u16, width: u8)
    requires
        n < 1000,
        width == 2 ==> n < 100,
        width == 2 || width == 3,
    ensures
        final(v)@ == old(v)@ + dec(n as int, width as int),
        is_ascii(old(v)@) ==> is_ascii(final(v)@),
{
    if width == 3 {
        v.push((48 + n / 100) as u8);
    }
    v.push((48 + (n / 10) % 10) as u8);
    v.push((48 + n % 10) as u8);
    assert(v@ =~= old(v)@ + dec(n as int, width as int));
}

/// Appends spaces until `v` holds `n` bytes from `start` on.
pub fn pad_to(v: &mut Vec<u8>, start: usize, n: usize)
    requires
        start <= old(v)@.len(),
    ensures
        final(v)@ == old(v)@.subrange(0, start as int) + pad_right(old(v)@.subrange(start as int, old(v)@.len() as int), n as int),
        is_ascii(old(v)@) ==> is_ascii(final(v)@),
{
    let ghost s: Seq<u8> = old(v)@.subrange(start as int, old(v)@.len() as int);
    assert(old(v)@ =~= old(v)@.subrange(0, start as int) + s);
    while v.len() - start < n
        invariant
            start <= v@.len(),
            v@.subrange(0, start as int) == old(v)@.subrange(0, start as int),
            v@.len() <= start + n ==> v@ == old(v)@.subrange(0, start as int) + s + Seq::new(
                (v@.len() - start - s.len()) as nat,
                |i: int| 32u8,
            ),
            v@.len() > start + n ==> v@ == old(v)@,
            v@.len() >= old(v)@.len(),
            is_ascii(old(v)@) ==> is_ascii(v@),
        decreases start + n - v@.len(),
    {
        v.push(32);
        assert(v@ =~= old(v)@.subrange(0, start as int) + s + Seq::new(
            (v@.len() - start - s.len()) as nat,
            |i: int| 32u8,
        ));
    }
    proof {
        if s.len() >= n as nat {
            assert(v@ =~= old(v)@);
        } else {
            assert(v@ =~= old(v)@.subrange(0, start as int) + pad_right(s, n as int));
        }
    }
}

/// `String::from_utf8` on ASCII bytes: ASCII is valid UTF-8, so the
/// conversion succeeds, and each byte becomes the char with that code.
#[verifier::external_body]
pub fn string_from_ascii(bytes: Vec<u8>) -> (s: String)
    requires
        is_ascii(bytes@),
    ensures
        s@ == Seq::new(bytes@.len(), |i: int| bytes@[i] as char),
{
    String::from_utf8(bytes).unwrap()
}

} // verus!
