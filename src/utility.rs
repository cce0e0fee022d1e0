//! Text and number helpers shared by the decoders and the report writers.

use vstd::prelude::*;

verus! {

/// Relies on `String::push`: the character is appended at the end.
pub assume_specification[ String::push ](s: &mut String, ch: char)
    ensures
        final(s)@ == old(s)@.push(ch),
;

/// The character that writes the digit `d` (below 16) in lowercase hexadecimal.
pub open spec fn hex_digit(d: nat) -> char {
    if d < 10 {
        (d + 48) as char
    } else {
        (d + 87) as char
    }
}

/// `n` in decimal, without leading zeros.
pub open spec fn decimal(n: nat) -> Seq<char>
    decreases n,
{
    if n < 10 {
        seq![hex_digit(n)]
    } else {
        decimal(n / 10).push(hex_digit(n % 10))
    }
}

/// Appends `n` in decimal.
pub fn push_decimal(s: &mut String, n: u64)
    ensures
        final(s)@ == old(s)@ + decimal(n as nat),
    decreases n,
{
    if n >= 10 {
        push_decimal(s, n / 10);
    }
    let d: u8 = (n % 10) as u8;
    s.push((d + 48) as char);
    proof {
        assert(old(s)@ + decimal(n as nat) =~= s@);
    }
}

/// `n` in lowercase hexadecimal, without leading zeros.
pub open spec fn hex(n: nat) -> Seq<char>
    decreases n,
{
    if n < 16 {
        seq![hex_digit(n)]
    } else {
        hex(n / 16).push(hex_digit(n % 16))
    }
}

/// `k` copies of the character `c`.
pub open spec fn repeat(c: char, k: nat) -> Seq<char> {
    Seq::new(k, |i: int| c)
}

/// `n` in lowercase hexadecimal, with leading zeros up to `width` digits.
pub open spec fn hex_padded(n: nat, width: nat) -> Seq<char> {
    if hex(n).len() < width {
        repeat('0', (width - hex(n).len()) as nat) + hex(n)
    } else {
        hex(n)
    }
}

/// Two hexadecimal digits for one byte.
pub open spec fn hex_byte(b: u8) -> Seq<char> {
    seq![hex_digit(b as nat / 16), hex_digit(b as nat % 16)]
}

/// The bytes of `b`, two hexadecimal digits each, back to back.
pub open spec fn hex_bytes(b: Seq<u8>) -> Seq<char>
    decreases b.len(),
{
    if b.len() == 0 {
        Seq::empty()
    } else {
        hex_bytes(b.drop_last()) + hex_byte(b.last())
    }
}

/// `s` followed by spaces up to `width` characters, like a left-aligned
/// field of that width.
pub open spec fn padded(s: Seq<char>, width: nat) -> Seq<char> {
    if s.len() < width {
        s + repeat(' ', (width - s.len()) as nat)
    } else {
        s
    }
}

/// The number that two bytes hold in network (big-endian) order.
pub open spec fn be16(hi: u8, lo: u8) -> nat {
    hi as nat * 256 + lo as nat
}

/// The number that four bytes hold in network (big-endian) order.
pub open spec fn be32(b0: u8, b1: u8, b2: u8, b3: u8) -> nat {
    be16(b0, b1) * 65536 + be16(b2, b3)
}

/// Appends `n` in lowercase hexadecimal.
pub fn push_hex(s: &mut String, n: u64)
    ensures
        final(s)@ == old(s)@ + hex(n as nat),
    decreases n,
{
    if n >= 16 {
        push_hex(s, n / 16);
    }
    let d: u8 = (n % 16) as u8;
    if d < 10 {
        s.push((d + 48) as char);
    } else {
        s.push((d + 87) as char);
    }
    proof {
        assert(old(s)@ + hex(n as nat) =~= s@);
    }
}

/// Sixteen to the power `k`.
pub open spec fn pow16(k: nat) -> nat
    decreases k,
{
    if k == 0 {
        1
    } else {
        16 * pow16((k - 1) as nat)
    }
}

proof fn lemma_hex_len(n: nat, k: nat)
    requires
        n < pow16(k),
    ensures
        1 <= hex(n).len() <= k || (n == 0 && k == 0),
        1 <= hex(n).len(),
    decreases n,
{
    if n >= 16 {
        assert(k > 0);
        assert(n / 16 < pow16((k - 1) as nat));
        lemma_hex_len(n / 16, (k - 1) as nat);
    } else if k == 0 {
        assert(n == 0);
    }
}

/// Appends `n` in lowercase hexadecimal, zero-filled up to `width` digits.
pub fn push_hex_padded(s: &mut String, n: u64, width: usize)
    ensures
        final(s)@ == old(s)@ + hex_padded(n as nat, width as nat),
{
    proof {
        reveal_with_fuel(pow16, 17);
        assert(pow16(16) == 0x1_0000_0000_0000_0000);
        lemma_hex_len(n as nat, 16);
    }
    let mut digits: usize = 1;
    let mut rest: u64 = n;
    while rest >= 16
        invariant
            1 <= digits <= 16,
            hex(n as nat).len() <= 16,
            pow16(16) == 0x1_0000_0000_0000_0000,
            hex(n as nat).len() == digits - 1 + hex(rest as nat).len(),
        decreases rest,
    {
        proof {
            lemma_hex_len(rest as nat / 16, 16);
        }
        rest = rest / 16;
        digits = digits + 1;
    }
    let ghost start = s@;
    let mut k: usize = digits;
    while k < width
        invariant
            digits <= width ==> digits <= k <= width,
            digits > width ==> k == digits,
            hex(n as nat).len() == digits,
            s@ == start + repeat('0', (k - digits) as nat),
        decreases width - k,
    {
        s.push('0');
        k = k + 1;
        proof {
            assert(s@ =~= start + repeat('0', (k - digits) as nat));
        }
    }
    push_hex(s, n);
    proof {
        if digits >= width {
            assert(repeat('0', 0) =~= Seq::<char>::empty());
        }
        assert(s@ =~= start + hex_padded(n as nat, width as nat));
    }
}

/// Appends the two hexadecimal digits of one byte.
pub fn push_hex_byte(s: &mut String, b: u8)
    ensures
        final(s)@ == old(s)@ + hex_byte(b),
{
    let hi: u8 = b / 16;
    let lo: u8 = b % 16;
    if hi < 10 {
        s.push((hi + 48) as char);
    } else {
        s.push((hi + 87) as char);
    }
    if lo < 10 {
        s.push((lo + 48) as char);
    } else {
        s.push((lo + 87) as char);
    }
    proof {
        assert(s@ =~= old(s)@ + hex_byte(b));
    }
}

/// Appends the characters of `t`.
pub fn push_str(s: &mut String, t: &str)
    ensures
        final(s)@ == old(s)@ + t@,
{
    let n = t.unicode_len();
    let ghost start = s@;
    let mut i: usize = 0;
    while i < n
        invariant
            n == t@.len(),
            i <= n,
            s@ == start + t@.subrange(0, i as int),
        decreases n - i,
    {
        let c = t.get_char(i);
        s.push(c);
        i = i + 1;
        proof {
            assert(s@ =~= start + t@.subrange(0, i as int));
        }
    }
    proof {
        assert(t@.subrange(0, n as int) =~= t@);
    }
}

/// Appends `t` as a left-aligned field of `width` characters.
pub fn push_padded(s: &mut String, t: &str, width: usize)
    ensures
        final(s)@ == old(s)@ + padded(t@, width as nat),
{
    push_str(s, t);
    let n = t.unicode_len();
    let ghost mid = s@;
    let mut k: usize = n;
    while k < width
        invariant
            n == t@.len(),
            n <= width ==> n <= k <= width,
            n > width ==> k == n,
            s@ == mid + repeat(' ', (k - n) as nat),
        decreases width - k,
    {
        s.push(' ');
        k = k + 1;
        proof {
            assert(s@ =~= mid + repeat(' ', (k - n) as nat));
        }
    }
    proof {
        assert(s@ =~= old(s)@ + padded(t@, width as nat));
    }
}

/// Reads a big-endian 16-bit number from two bytes.
pub fn to_u16(array: &[u8; 2]) -> (r: u16)
    ensures
        r as nat == be16(array[0], array[1]),
{
    array[0] as u16 * 256 + array[1] as u16
}

/// Reads a big-endian 16-bit number at `at`.
pub fn read_u16(data: &[u8], at: usize) -> (r: u16)
    requires
        at + 2 <= data@.len(),
    ensures
        r as nat == be16(data@[at as int], data@[at + 1]),
{
    data[at] as u16 * 256 + data[at + 1] as u16
}

/// Reads a big-endian 32-bit number at `at`.
pub fn read_u32(data: &[u8], at: usize) -> (r: u32)
    requires
        at + 4 <= data@.len(),
    ensures
        r as nat == be32(data@[at as int], data@[at + 1], data@[at + 2], data@[at + 3]),
{
    let _n = data.len();
    let hi = read_u16(data, at);
    let lo = read_u16(data, at + 2);
    hi as u32 * 65536 + lo as u32
}

/// Copies `data[from..to]` into a new vector.
pub fn copy_range(data: &[u8], from: usize, to: usize) -> (r: Vec<u8>)
    requires
        from <= to <= data@.len(),
    ensures
        r@ == data@.subrange(from as int, to as int),
{
    let mut r: Vec<u8> = Vec::new();
    let mut i: usize = from;
    while i < to
        invariant
            from <= i <= to <= data@.len(),
            r@ == data@.subrange(from as int, i as int),
        decreases to - i,
    {
        r.push(data[i]);
        i = i + 1;
        proof {
            assert(r@ =~= data@.subrange(from as int, i as int));
        }
    }
    r
}

/// Copies a six-byte slice into an array.
pub fn clone_into_array(slice: &[u8]) -> (r: [u8; 6])
    requires
        slice@.len() == 6,
    ensures
        r@ == slice@,
{
    let r: [u8; 6] = [slice[0], slice[1], slice[2], slice[3], slice[4], slice[5]];
    proof {
        assert(r@ =~= slice@);
    }
    r
}

/// How many payload bytes a compact dump shows before it is cut short.
pub const MAXIMUM_PRINTABLE_PAYLOAD: usize = 75;

/// The compact dump of a payload: two hexadecimal digits per byte, and, from
/// 75 bytes on, only the first 75 followed by `...`.
pub open spec fn compact_hex(b: Seq<u8>) -> Seq<char> {
    if b.len() >= 75 {
        hex_bytes(b.subrange(0, 75)) + seq!['.', '.', '.']
    } else {
        hex_bytes(b)
    }
}

/// Writes a payload as compact hexadecimal.
pub fn to_compact_hex(vector_u8: &[u8]) -> (r: String)
    ensures
        r@ == compact_hex(vector_u8@),
{
    let mut res = String::new();
    let n = vector_u8.len();
    let limit: usize = if n < MAXIMUM_PRINTABLE_PAYLOAD { n } else { MAXIMUM_PRINTABLE_PAYLOAD };
    let mut i: usize = 0;
    while i < limit
        invariant
            limit <= n == vector_u8@.len(),
            i <= limit,
            res@ == hex_bytes(vector_u8@.subrange(0, i as int)),
        decreases limit - i,
    {
        push_hex_byte(&mut res, vector_u8[i]);
        i = i + 1;
        proof {
            assert(vector_u8@.subrange(0, i as int).drop_last() =~= vector_u8@.subrange(
                0,
                i - 1,
            ));
        }
    }
    if n >= MAXIMUM_PRINTABLE_PAYLOAD {
        res.push('.');
        res.push('.');
        res.push('.');
        proof {
            assert(res@ =~= compact_hex(vector_u8@));
        }
    } else {
        proof {
            assert(vector_u8@.subrange(0, n as int) =~= vector_u8@);
        }
    }
    res
}

/// Unicode `White_Space`: the characters at which `str::split_whitespace`
/// separates fields.
pub open spec fn is_ws(c: char) -> bool {
    ('\t' <= c && c <= '\r') || c == ' ' || c == '\u{85}' || c == '\u{a0}' || c == '\u{1680}'
        || ('\u{2000}' <= c && c <= '\u{200a}') || c == '\u{2028}' || c == '\u{2029}' || c
        == '\u{202f}' || c == '\u{205f}' || c == '\u{3000}'
}

/// Tells whether a character is white space.
pub fn is_whitespace(c: char) -> (r: bool)
    ensures
        r == is_ws(c),
{
    ('\t' <= c && c <= '\r') || c == ' ' || c == '\u{85}' || c == '\u{a0}' || c == '\u{1680}'
        || ('\u{2000}' <= c && c <= '\u{200a}') || c == '\u{2028}' || c == '\u{2029}' || c
        == '\u{202f}' || c == '\u{205f}' || c == '\u{3000}'
}

/// Reading `s` from the left: the fields already closed, and the field
/// being read.
pub open spec fn scan_fields(s: Seq<char>) -> (Seq<Seq<char>>, Seq<char>)
    decreases s.len(),
{
    if s.len() == 0 {
        (Seq::empty(), Seq::empty())
    } else {
        let (done, cur) = scan_fields(s.drop_last());
        if is_ws(s.last()) {
            if cur.len() > 0 {
                (done.push(cur), Seq::empty())
            } else {
                (done, cur)
            }
        } else {
            (done, cur.push(s.last()))
        }
    }
}

/// The whitespace-separated fields of `s`, in order, none of them empty.
pub open spec fn fields(s: Seq<char>) -> Seq<Seq<char>> {
    let (done, cur) = scan_fields(s);
    if cur.len() > 0 {
        done.push(cur)
    } else {
        done
    }
}

/// What a vector of strings holds, as character sequences.
pub open spec fn texts(v: Seq<String>) -> Seq<Seq<char>> {
    v.map_values(|t: String| t@)
}

/// Splits `s` into its whitespace-separated fields.
pub fn split_fields(s: &str) -> (r: Vec<String>)
    ensures
        texts(r@) == fields(s@),
{
    let n = s.unicode_len();
    let mut done: Vec<String> = Vec::new();
    let mut cur = String::new();
    let mut i: usize = 0;
    while i < n
        invariant
            n == s@.len(),
            i <= n,
            (texts(done@), cur@) == scan_fields(s@.subrange(0, i as int)),
        decreases n - i,
    {
        let c = s.get_char(i);
        proof {
            assert(s@.subrange(0, i + 1).drop_last() =~= s@.subrange(0, i as int));
        }
        if is_whitespace(c) {
            if cur.unicode_len() > 0 {
                let field = cur;
                let ghost before = done@;
                done.push(field);
                cur = String::new();
                proof {
                    assert(texts(done@) =~= texts(before).push(field@));
                }
            }
        } else {
            cur.push(c);
        }
        i = i + 1;
    }
    proof {
        assert(s@.subrange(0, n as int) =~= s@);
    }
    if cur.unicode_len() > 0 {
        let ghost before = done@;
        done.push(cur);
        proof {
            assert(texts(done@) =~= texts(before).push(cur@));
        }
    }
    done
}

} // verus!
