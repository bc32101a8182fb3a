use vstd::bytes::*;
use vstd::prelude::*;

use crate::keys::Key;

verus! {

/// Little-endian bytes of a sequence of `u32`s, one after another.
pub open spec fn u32s_le(s: Seq<u32>) -> Seq<u8>
    decreases s.len(),
{
    if s.len() == 0 {
        Seq::empty()
    } else {
        u32s_le(s.drop_last()) + spec_u32_to_le_bytes(s.last())
    }
}

/// The bytes of a sequence of 32-byte arrays, one after another.
pub open spec fn flatten32(s: Seq<[u8; 32]>) -> Seq<u8>
    decreases s.len(),
{
    if s.len() == 0 {
        Seq::empty()
    } else {
        flatten32(s.drop_last()) + s.last()@
    }
}

pub proof fn lemma_u32s_le_len(s: Seq<u32>)
    ensures
        u32s_le(s).len() == 4 * s.len(),
    decreases s.len(),
{
    lemma_auto_spec_u32_to_from_le_bytes();
    if s.len() > 0 {
        lemma_u32s_le_len(s.drop_last());
    }
}

pub proof fn lemma_flatten32_len(s: Seq<[u8; 32]>)
    ensures
        flatten32(s).len() == 32 * s.len(),
    decreases s.len(),
{
    if s.len() > 0 {
        lemma_flatten32_len(s.drop_last());
    }
}

/// Equal encodings of equally long sequences of `u32`s come from equal sequences.
pub proof fn lemma_u32s_le_injective(s: Seq<u32>, t: Seq<u32>)
    requires
        s.len() == t.len(),
        u32s_le(s) == u32s_le(t),
    ensures
        s == t,
    decreases s.len(),
{
    lemma_auto_spec_u32_to_from_le_bytes();
    if s.len() > 0 {
        let n = s.len() - 1;
        lemma_u32s_le_len(s.drop_last());
        lemma_u32s_le_len(t.drop_last());
        let es = u32s_le(s);
        assert(u32s_le(s.drop_last()) =~= es.subrange(0, 4 * n));
        assert(u32s_le(t.drop_last()) =~= es.subrange(0, 4 * n));
        assert(spec_u32_to_le_bytes(s.last()) =~= es.subrange(4 * n, 4 * n + 4));
        assert(spec_u32_to_le_bytes(t.last()) =~= es.subrange(4 * n, 4 * n + 4));
        lemma_u32s_le_injective(s.drop_last(), t.drop_last());
        assert(spec_u32_from_le_bytes(spec_u32_to_le_bytes(s.last())) == s.last());
        assert(spec_u32_from_le_bytes(spec_u32_to_le_bytes(t.last())) == t.last());
        assert(s =~= s.drop_last().push(s.last()));
        assert(t =~= t.drop_last().push(t.last()));
    }
}

/// Equal encodings of equally long sequences of arrays come from equal sequences.
pub proof fn lemma_flatten32_injective(s: Seq<[u8; 32]>, t: Seq<[u8; 32]>)
    requires
        s.len() == t.len(),
        flatten32(s) == flatten32(t),
    ensures
        s == t,
    decreases s.len(),
{
    broadcast use vstd::array::group_array_axioms;

    if s.len() > 0 {
        let n = s.len() - 1;
        lemma_flatten32_len(s.drop_last());
        lemma_flatten32_len(t.drop_last());
        let es = flatten32(s);
        assert(flatten32(s.drop_last()) =~= es.subrange(0, 32 * n));
        assert(flatten32(t.drop_last()) =~= es.subrange(0, 32 * n));
        assert(s.last()@ =~= es.subrange(32 * n, 32 * n + 32));
        assert(t.last()@ =~= es.subrange(32 * n, 32 * n + 32));
        lemma_flatten32_injective(s.drop_last(), t.drop_last());
        assert(s.last() =~= t.last());
        assert(s =~= s.drop_last().push(s.last()));
        assert(t =~= t.drop_last().push(t.last()));
    }
}

/// Appends the bytes of `src` to `out`.
pub fn append_bytes(out: &mut Vec<u8>, src: &[u8])
    ensures
        final(out)@ == old(out)@ + src@,
{
    let ghost start = out@;
    let mut i: usize = 0;
    while i < src.len()
        invariant
            0 <= i <= src@.len(),
            out@ == start + src@.subrange(0, i as int),
        decreases src@.len() - i,
    {
        out.push(src[i]);
        i = i + 1;
        assert(out@ =~= start + src@.subrange(0, i as int));
    }
    assert(src@.subrange(0, i as int) =~= src@);
}

/// Appends the little-endian bytes of `x` to `out`.
pub fn append_u32_le(out: &mut Vec<u8>, x: u32)
    ensures
        final(out)@ == old(out)@ + spec_u32_to_le_bytes(x),
{
    let mut b = u32_to_le_bytes(x);
    out.append(&mut b);
}

/// Appends the little-endian bytes of `x` to `out`.
pub fn append_u64_le(out: &mut Vec<u8>, x: u64)
    ensures
        final(out)@ == old(out)@ + spec_u64_to_le_bytes(x),
{
    let mut b = u64_to_le_bytes(x);
    out.append(&mut b);
}

/// Appends the little-endian bytes of each of `xs` in turn.
pub fn append_u32s_le(out: &mut Vec<u8>, xs: &[u32; 32])
    ensures
        final(out)@ == old(out)@ + u32s_le(xs@),
{
    let ghost start = out@;
    let mut i: usize = 0;
    while i < 32
        invariant
            0 <= i <= 32,
            out@ == start + u32s_le(xs@.take(i as int)),
        decreases 32 - i,
    {
        append_u32_le(out, xs[i]);
        assert(xs@.take(i + 1).drop_last() =~= xs@.take(i as int));
        i = i + 1;
    }
    assert(xs@.take(32) =~= xs@);
}

/// Appends the bytes of each of `xs` in turn.
pub fn append_arrays32(out: &mut Vec<u8>, xs: &[[u8; 32]; 32])
    ensures
        final(out)@ == old(out)@ + flatten32(xs@),
{
    let ghost start = out@;
    let mut i: usize = 0;
    while i < 32
        invariant
            0 <= i <= 32,
            out@ == start + flatten32(xs@.take(i as int)),
        decreases 32 - i,
    {
        let a: [u8; 32] = xs[i];
        append_bytes(out, a.as_slice());
        assert(xs@.take(i + 1).drop_last() =~= xs@.take(i as int));
        i = i + 1;
    }
    assert(xs@.take(32) =~= xs@);
}

/// The little-endian `u32` at `at`.
pub fn read_u32_le(data: &[u8], at: usize) -> (r: u32)
    requires
        at + 4 <= data@.len(),
    ensures
        spec_u32_to_le_bytes(r) == data@.subrange(at as int, at + 4),
{
    let len = data.len();
    assert(at + 4 <= len);
    let r = u32_from_le_bytes(vstd::slice::slice_subrange(data, at, at + 4));
    proof {
        lemma_auto_spec_u32_to_from_le_bytes();
    }
    r
}

/// The little-endian `u64` at `at`.
pub fn read_u64_le(data: &[u8], at: usize) -> (r: u64)
    requires
        at + 8 <= data@.len(),
    ensures
        spec_u64_to_le_bytes(r) == data@.subrange(at as int, at + 8),
{
    let len = data.len();
    assert(at + 8 <= len);
    let r = u64_from_le_bytes(vstd::slice::slice_subrange(data, at, at + 8));
    proof {
        lemma_auto_spec_u64_to_from_le_bytes();
    }
    r
}

/// The 32 bytes at `at`.
pub fn read_array32(data: &[u8], at: usize) -> (r: [u8; 32])
    requires
        at + 32 <= data@.len(),
    ensures
        r@ == data@.subrange(at as int, at + 32),
{
    let len = data.len();
    let mut r: [u8; 32] = [0u8; 32];
    let mut i: usize = 0;
    while i < 32
        invariant
            0 <= i <= 32,
            at + 32 <= data@.len(),
            len == data@.len(),
            forall|j: int| 0 <= j < i ==> r@[j] == data@[at + j],
        decreases 32 - i,
    {
        r[i] = data[at + i];
        i = i + 1;
    }
    assert(r@ =~= data@.subrange(at as int, at + 32));
    r
}

/// The 32 little-endian `u32`s starting at `at`.
pub fn read_u32s_le(data: &[u8], at: usize) -> (r: [u32; 32])
    requires
        at + 128 <= data@.len(),
    ensures
        u32s_le(r@) == data@.subrange(at as int, at + 128),
{
    let len = data.len();
    let mut r: [u32; 32] = [0u32; 32];
    let mut i: usize = 0;
    while i < 32
        invariant
            0 <= i <= 32,
            at + 128 <= data@.len(),
            len == data@.len(),
            u32s_le(r@.take(i as int)) == data@.subrange(at as int, at + 4 * i),
        decreases 32 - i,
    {
        let x = read_u32_le(data, at + 4 * i);
        let ghost before = r@;
        r[i] = x;
        assert(r@.take(i as int) =~= before.take(i as int));
        assert(r@.take(i + 1).drop_last() =~= r@.take(i as int));
        assert(data@.subrange(at as int, at + 4 * (i + 1)) =~= data@.subrange(at as int, at + 4 * i)
            + data@.subrange(at + 4 * i, at + 4 * i + 4));
        i = i + 1;
    }
    assert(r@.take(32) =~= r@);
    r
}

/// The 32 arrays of 32 bytes starting at `at`.
pub fn read_arrays32(data: &[u8], at: usize) -> (r: [[u8; 32]; 32])
    requires
        at + 1024 <= data@.len(),
    ensures
        flatten32(r@) == data@.subrange(at as int, at + 1024),
{
    let len = data.len();
    let mut r: [[u8; 32]; 32] = [[0u8; 32]; 32];
    let mut i: usize = 0;
    while i < 32
        invariant
            0 <= i <= 32,
            at + 1024 <= data@.len(),
            len == data@.len(),
            flatten32(r@.take(i as int)) == data@.subrange(at as int, at + 32 * i),
        decreases 32 - i,
    {
        let x = read_array32(data, at + 32 * i);
        let ghost before = r@;
        r[i] = x;
        assert(r@.take(i as int) =~= before.take(i as int));
        assert(r@.take(i + 1).drop_last() =~= r@.take(i as int));
        assert(data@.subrange(at as int, at + 32 * (i + 1)) =~= data@.subrange(
            at as int,
            at + 32 * i,
        ) + data@.subrange(at + 32 * i, at + 32 * i + 32));
        i = i + 1;
    }
    assert(r@.take(32) =~= r@);
    r
}

} // verus!

verus! {

/// The `N` bytes at `at`.
pub fn read_array<const N: usize>(data: &[u8], at: usize) -> (r: [u8; N])
    requires
        at + N <= data@.len(),
    ensures
        r@ == data@.subrange(at as int, at + N),
{
    let len = data.len();
    let mut r: [u8; N] = [0u8; N];
    let mut i: usize = 0;
    while i < N
        invariant
            0 <= i <= N,
            at + N <= data@.len(),
            len == data@.len(),
            r@.len() == N,
            forall|j: int| 0 <= j < i ==> r@[j] == data@[at + j],
        decreases N - i,
    {
        r[i] = data[at + i];
        i = i + 1;
    }
    assert(r@ =~= data@.subrange(at as int, at + N));
    r
}

} // verus!

verus! {

/// `b` cut or padded with zero bytes to exactly `n` bytes: its first `n` bytes
/// when it is at least that long, else all of it followed by zeros.
pub open spec fn padded(b: Seq<u8>, n: nat) -> Seq<u8> {
    if b.len() >= n {
        b.take(n as int)
    } else {
        b + Seq::new((n - b.len()) as nat, |i: int| 0u8)
    }
}

/// Law: a field of `n` bytes made from `b` holds, at each position, the byte
/// of `b` there while `b` lasts and zero after it: a longer `b` is cut to its
/// first `n` bytes, a shorter one is zero-filled.
pub proof fn lemma_padded_bytes(b: Seq<u8>, n: nat)
    ensures
        padded(b, n).len() == n,
        forall|i: int| 0 <= i < n ==> #[trigger] padded(b, n)[i] == (if i < b.len() {
            b[i]
        } else {
            0u8
        }),
{
}

/// `b` cut or padded with zero bytes to `N` bytes.
pub fn pad_array<const N: usize>(b: &[u8]) -> (r: [u8; N])
    ensures
        r@ == padded(b@, N as nat),
{
    let len = b.len();
    let mut r: [u8; N] = [0u8; N];
    let mut i: usize = 0;
    while i < N && i < len
        invariant
            0 <= i <= N,
            i <= len,
            len == b@.len(),
            r@.len() == N,
            forall|j: int| 0 <= j < i ==> r@[j] == b@[j],
            forall|j: int| i <= j < N ==> r@[j] == 0,
        decreases N - i,
    {
        r[i] = b[i];
        i = i + 1;
    }
    if len >= N {
        assert(r@ =~= b@.take(N as int));
    } else {
        assert(r@ =~= b@ + Seq::new((N - len) as nat, |k: int| 0u8));
    }
    r
}

/// `s` without its trailing zero bytes.
pub open spec fn trim_trailing_zeros(s: Seq<u8>) -> Seq<u8>
    decreases s.len(),
{
    if s.len() > 0 && s.last() == 0 {
        trim_trailing_zeros(s.drop_last())
    } else {
        s
    }
}

/// `s` without its leading zero bytes.
pub open spec fn trim_leading_zeros(s: Seq<u8>) -> Seq<u8>
    decreases s.len(),
{
    if s.len() > 0 && s[0] == 0 {
        trim_leading_zeros(s.drop_first())
    } else {
        s
    }
}

/// `s` without the zero bytes at either end.
pub open spec fn nul_trimmed(s: Seq<u8>) -> Seq<u8> {
    trim_leading_zeros(trim_trailing_zeros(s))
}

/// The bytes of `s` without the zero bytes at either end.
pub fn trim_nul(s: &[u8]) -> (r: Vec<u8>)
    ensures
        r@ == nul_trimmed(s@),
        r@.len() <= s@.len(),
{
    let len = s.len();
    let mut end: usize = len;
    assert(s@.take(len as int) =~= s@);
    while end > 0 && s[end - 1] == 0
        invariant
            0 <= end <= len,
            len == s@.len(),
            trim_trailing_zeros(s@.take(end as int)) == trim_trailing_zeros(s@),
        decreases end,
    {
        assert(s@.take(end as int).drop_last() =~= s@.take(end - 1));
        end = end - 1;
    }
    let ghost kept = s@.take(end as int);
    assert(trim_trailing_zeros(kept) == kept);
    let mut start: usize = 0;
    assert(kept.skip(0) =~= kept);
    while start < end && s[start] == 0
        invariant
            0 <= start <= end,
            end <= len,
            len == s@.len(),
            kept == s@.take(end as int),
            trim_leading_zeros(kept.skip(start as int)) == trim_leading_zeros(kept),
        decreases end - start,
    {
        assert(kept.skip(start as int).drop_first() =~= kept.skip(start + 1));
        start = start + 1;
    }
    assert(trim_leading_zeros(kept.skip(start as int)) == kept.skip(start as int));
    let mut r: Vec<u8> = Vec::new();
    let mut i: usize = start;
    while i < end
        invariant
            start <= i <= end,
            end <= len,
            len == s@.len(),
            r@ == s@.subrange(start as int, i as int),
        decreases end - i,
    {
        r.push(s[i]);
        i = i + 1;
        assert(r@ =~= s@.subrange(start as int, i as int));
    }
    assert(r@ =~= kept.skip(start as int));
    r
}

proof fn lemma_trim_trailing_zeros_len(s: Seq<u8>)
    ensures
        trim_trailing_zeros(s).len() <= s.len(),
    decreases s.len(),
{
    if s.len() > 0 && s.last() == 0 {
        lemma_trim_trailing_zeros_len(s.drop_last());
    }
}

proof fn lemma_trim_leading_zeros_len(s: Seq<u8>)
    ensures
        trim_leading_zeros(s).len() <= s.len(),
    decreases s.len(),
{
    if s.len() > 0 && s[0] == 0 {
        lemma_trim_leading_zeros_len(s.drop_first());
    }
}

proof fn lemma_trim_trailing_zeros_shape(s: Seq<u8>) -> (k: int)
    ensures
        0 <= k <= s.len(),
        trim_trailing_zeros(s) == s.take(k),
        forall|i: int| k <= i < s.len() ==> s[i] == 0u8,
        k > 0 ==> s[k - 1] != 0u8,
    decreases s.len(),
{
    if s.len() > 0 && s.last() == 0 {
        let k = lemma_trim_trailing_zeros_shape(s.drop_last());
        assert(s.drop_last().take(k) =~= s.take(k));
        assert forall|i: int| k <= i < s.len() implies s[i] == 0u8 by {
            if i < s.len() - 1 {
                assert(s[i] == s.drop_last()[i]);
            }
        }
        k
    } else {
        assert(s.take(s.len() as int) =~= s);
        s.len() as int
    }
}

proof fn lemma_trim_leading_zeros_shape(s: Seq<u8>) -> (j: int)
    ensures
        0 <= j <= s.len(),
        trim_leading_zeros(s) == s.skip(j),
        forall|i: int| 0 <= i < j ==> s[i] == 0u8,
        j < s.len() ==> s[j] != 0u8,
    decreases s.len(),
{
    if s.len() > 0 && s[0] == 0 {
        let j = lemma_trim_leading_zeros_shape(s.drop_first());
        assert(s.drop_first().skip(j) =~= s.skip(j + 1));
        assert forall|i: int| 0 <= i < j + 1 implies s[i] == 0u8 by {
            if i > 0 {
                assert(s[i] == s.drop_first()[i - 1]);
            }
        }
        j + 1
    } else {
        assert(s.skip(0) =~= s);
        0
    }
}

/// Law: trimming keeps one stretch of the bytes. Everything before the
/// returned start and after the stretch is a zero byte, and the stretch, when
/// not empty, neither starts nor ends with one.
pub proof fn lemma_nul_trimmed_shape(s: Seq<u8>) -> (start: int)
    ensures
        0 <= start,
        start + nul_trimmed(s).len() <= s.len(),
        s.subrange(start, start + nul_trimmed(s).len()) == nul_trimmed(s),
        forall|i: int| 0 <= i < start ==> s[i] == 0u8,
        forall|i: int| start + nul_trimmed(s).len() <= i < s.len() ==> s[i] == 0u8,
        nul_trimmed(s).len() > 0 ==> nul_trimmed(s)[0] != 0u8 && nul_trimmed(s).last() != 0u8,
{
    let k = lemma_trim_trailing_zeros_shape(s);
    let t = s.take(k);
    let j = lemma_trim_leading_zeros_shape(t);
    assert(nul_trimmed(s) == t.skip(j));
    assert(t.skip(j) =~= s.subrange(j, k));
    if j < k {
        assert(nul_trimmed(s).last() == s[k - 1]);
    }
    assert forall|i: int| 0 <= i < j implies s[i] == 0u8 by {
        assert(s[i] == t[i]);
    }
    j
}

/// Trimming zero bytes never lengthens.
pub proof fn lemma_nul_trimmed_len(s: Seq<u8>)
    ensures
        nul_trimmed(s).len() <= s.len(),
{
    lemma_trim_trailing_zeros_len(s);
    lemma_trim_leading_zeros_len(trim_trailing_zeros(s));
}

proof fn lemma_trim_trailing_padded(b: Seq<u8>, k: nat)
    requires
        b.len() == 0 || b.last() != 0,
    ensures
        trim_trailing_zeros(b + Seq::new(k, |i: int| 0u8)) == b,
    decreases k,
{
    let z = Seq::new(k, |i: int| 0u8);
    if k == 0 {
        assert(b + z =~= b);
    } else {
        let s = b + z;
        assert(s.last() == 0);
        assert(s.drop_last() =~= b + Seq::new((k - 1) as nat, |i: int| 0u8));
        lemma_trim_trailing_padded(b, (k - 1) as nat);
    }
}

/// Law: a field of `n` bytes padded from bytes `b` that hold no zero byte
/// and fit in the field gives `b` back once its zero bytes at either end are
/// trimmed.
pub proof fn lemma_padded_trims_back(b: Seq<u8>, n: nat)
    requires
        b.len() <= n,
        forall|i: int| 0 <= i < b.len() ==> b[i] != 0,
    ensures
        nul_trimmed(padded(b, n)) == b,
{
    if b.len() < n {
        lemma_trim_trailing_padded(b, (n - b.len()) as nat);
    } else {
        assert(padded(b, n) =~= b);
        if b.len() > 0 {
            assert(b.last() != 0);
        }
    }
    if b.len() > 0 {
        assert(b[0] != 0);
    }
}

} // verus!

verus! {

proof fn lemma_valid_utf8_drop_trailing_zero(s: Seq<u8>)
    requires
        vstd::utf8::valid_utf8(s),
        s.len() > 0,
        s.last() == 0,
    ensures
        vstd::utf8::valid_utf8(s.drop_last()),
{
    let i = s.len() - 1;
    vstd::utf8::is_char_boundary_iff_not_is_continuation_byte(s, i);
    vstd::utf8::valid_utf8_split(s, i);
    assert(s.subrange(0, i) =~= s.drop_last());
}

proof fn lemma_valid_utf8_drop_leading_zero(s: Seq<u8>)
    requires
        vstd::utf8::valid_utf8(s),
        s.len() > 0,
        s[0] == 0,
    ensures
        vstd::utf8::valid_utf8(s.drop_first()),
{
    assert(vstd::utf8::length_of_first_scalar(s) == 1);
    assert(vstd::utf8::pop_first_scalar(s) =~= s.drop_first());
}

proof fn lemma_valid_utf8_trim_trailing(s: Seq<u8>)
    requires
        vstd::utf8::valid_utf8(s),
    ensures
        vstd::utf8::valid_utf8(trim_trailing_zeros(s)),
    decreases s.len(),
{
    if s.len() > 0 && s.last() == 0 {
        lemma_valid_utf8_drop_trailing_zero(s);
        lemma_valid_utf8_trim_trailing(s.drop_last());
    }
}

proof fn lemma_valid_utf8_trim_leading(s: Seq<u8>)
    requires
        vstd::utf8::valid_utf8(s),
    ensures
        vstd::utf8::valid_utf8(trim_leading_zeros(s)),
    decreases s.len(),
{
    if s.len() > 0 && s[0] == 0 {
        lemma_valid_utf8_drop_leading_zero(s);
        lemma_valid_utf8_trim_leading(s.drop_first());
    }
}

proof fn lemma_valid_utf8_zero_byte()
    ensures
        vstd::utf8::valid_utf8(seq![0u8]),
{
    let z = seq![0u8];
    assert(0u8 & 0x7F == 0u8) by (bit_vector);
    assert(vstd::utf8::decode_first_codepoint(z) == 0);
    assert(vstd::utf8::valid_first_scalar(z));
    assert(vstd::utf8::length_of_first_scalar(z) == 1);
    assert(vstd::utf8::pop_first_scalar(z) =~= Seq::<u8>::empty());
    assert(vstd::utf8::valid_utf8(Seq::<u8>::empty()));
    assert(vstd::utf8::valid_utf8(vstd::utf8::pop_first_scalar(z)));
}

proof fn lemma_valid_utf8_untrim_trailing(s: Seq<u8>)
    requires
        vstd::utf8::valid_utf8(trim_trailing_zeros(s)),
    ensures
        vstd::utf8::valid_utf8(s),
    decreases s.len(),
{
    if s.len() > 0 && s.last() == 0 {
        lemma_valid_utf8_untrim_trailing(s.drop_last());
        lemma_valid_utf8_zero_byte();
        vstd::utf8::valid_utf8_concat(s.drop_last(), seq![0u8]);
        assert(s.drop_last() + seq![0u8] =~= s);
    }
}

proof fn lemma_valid_utf8_untrim_leading(s: Seq<u8>)
    requires
        vstd::utf8::valid_utf8(trim_leading_zeros(s)),
    ensures
        vstd::utf8::valid_utf8(s),
    decreases s.len(),
{
    if s.len() > 0 && s[0] == 0 {
        lemma_valid_utf8_untrim_leading(s.drop_first());
        lemma_valid_utf8_zero_byte();
        vstd::utf8::valid_utf8_concat(seq![0u8], s.drop_first());
        assert(seq![0u8] + s.drop_first() =~= s);
    }
}

/// Bytes are valid UTF-8 exactly when they are without the zero bytes at
/// either end.
pub proof fn lemma_valid_utf8_nul_trimmed(s: Seq<u8>)
    ensures
        vstd::utf8::valid_utf8(nul_trimmed(s)) <==> vstd::utf8::valid_utf8(s),
{
    if vstd::utf8::valid_utf8(s) {
        lemma_valid_utf8_trim_trailing(s);
        lemma_valid_utf8_trim_leading(trim_trailing_zeros(s));
    }
    if vstd::utf8::valid_utf8(nul_trimmed(s)) {
        lemma_valid_utf8_untrim_leading(trim_trailing_zeros(s));
        lemma_valid_utf8_untrim_trailing(s);
    }
}

} // verus!
