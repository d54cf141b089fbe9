use vstd::prelude::*;

verus! {

/// The value of `c` as a hex digit (either case), if it is one.
pub open spec fn nybble_of(c: char) -> Option<u8> {
    if '0' <= c && c <= '9' {
        Some((c as u32 - 48) as u8)
    } else if 'a' <= c && c <= 'f' {
        Some((c as u32 - 87) as u8)
    } else if 'A' <= c && c <= 'F' {
        Some((c as u32 - 55) as u8)
    } else {
        None
    }
}

/// The hex digits of `s` as values, in order; other characters are
/// skipped.
pub open spec fn nybbles(s: Seq<char>) -> Seq<u8>
    decreases s.len(),
{
    if s.len() == 0 {
        Seq::empty()
    } else {
        nybbles(s.drop_last()) + match nybble_of(s.last()) {
            Some(n) => seq![n],
            None => Seq::empty(),
        }
    }
}

/// Nybbles packed into bytes, the high nybble first; an odd last nybble is
/// the high half of a last byte.
pub open spec fn packed(ns: Seq<u8>) -> Seq<u8> {
    Seq::new(
        ((ns.len() + 1) / 2) as nat,
        |k: int| (ns[2 * k] * 16 + if 2 * k + 1 < ns.len() { ns[2 * k + 1] as int } else { 0 }) as u8,
    )
}

fn nybble_exec(c: char) -> (r: Option<u8>)
    ensures
        r == nybble_of(c),
{
    if '0' <= c && c <= '9' {
        Some((c as u32 - 48) as u8)
    } else if 'a' <= c && c <= 'f' {
        Some((c as u32 - 87) as u8)
    } else if 'A' <= c && c <= 'F' {
        Some((c as u32 - 55) as u8)
    } else {
        None
    }
}

proof fn lemma_nybble_bits(hi: u8, lo: u8)
    by (bit_vector)
    requires
        hi < 16,
        lo < 16,
    ensures
        0u8 | (hi << 4u8) == hi * 16,
        (hi * 16) as u8 | lo == hi * 16 + lo,
{
}

/// The bytes that the bus editor's search box asks for: the hex digits of
/// the search text (other characters are skipped), two to a byte, the high
/// nybble first. No hex digit at all means no search.
pub fn search_pattern(s: &Vec<char>) -> (r: Option<Vec<u8>>)
    ensures
        r.is_none() <==> nybbles(s@).len() == 0,
        r matches Some(v) ==> v@ == packed(nybbles(s@)),
{
    let mut bytes: Vec<u8> = Vec::new();
    let mut nybble_idx: usize = 0;
    let mut i: usize = 0;
    while i < s.len()
        invariant
            i <= s@.len(),
            nybble_idx == nybbles(s@.take(i as int)).len(),
            nybble_idx <= i,
            bytes@ == packed(nybbles(s@.take(i as int))),
            forall|j: int| 0 <= j < nybbles(s@.take(i as int)).len() ==> #[trigger] nybbles(s@.take(i as int))[j] < 16,
        decreases s@.len() - i,
    {
        let ghost ns: Seq<u8> = nybbles(s@.take(i as int));
        assert(s@.take(i + 1).drop_last() =~= s@.take(i as int));
        assert(s@.take(i + 1).last() == s@[i as int]);
        let maybe_nybble: Option<u8> = nybble_exec(s[i]);
        if let Some(nybble) = maybe_nybble {
            let byte_idx: usize = nybble_idx / 2;
            let ghost ns2: Seq<u8> = ns.push(nybble);
            assert(nybbles(s@.take(i + 1)) == ns2);
            if nybble_idx % 2 == 0 {
                proof {
                    lemma_nybble_bits(nybble, 0);
                }
                bytes.push(0x00 | (nybble << 4));
                assert(bytes@ =~= packed(ns2));
            } else {
                let hi: u8 = bytes[byte_idx];
                proof {
                    lemma_nybble_bits(ns[2 * byte_idx as int], nybble);
                }
                bytes.set(byte_idx, hi | nybble);
                assert(bytes@ =~= packed(ns2));
            }
            nybble_idx = nybble_idx + 1;
        } else {
            assert(nybbles(s@.take(i + 1)) =~= ns);
        }
        i = i + 1;
    }
    assert(s@.take(s@.len() as int) =~= s@);
    if bytes.len() > 0 {
        Some(bytes)
    } else {
        None
    }
}

/// The lines of the disassembly listing that the debugger shows: from eight
/// lines before the current instruction's line, at most 32, within a
/// listing of `len` lines.
pub fn listing_window(pc_idx: i32, len: usize) -> (r: (usize, usize))
    requires
        len <= i32::MAX,
    ensures
        r.0 == if pc_idx - 8 < 0 { 0 } else if pc_idx - 8 > len { len as int } else { pc_idx - 8 },
        r.1 == if r.0 + 32 > len { len as int } else { r.0 + 32 },
{
    let from: i64 = pc_idx as i64 - 8;
    let start: i64 = if from < 0 { 0 } else if from > len as i64 { len as i64 } else { from };
    let end: i64 = if start + 32 > len as i64 { len as i64 } else { start + 32 };
    (start as usize, end as usize)
}

} // verus!
