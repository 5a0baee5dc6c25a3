//! Strings handed to the shader compiler must hold no NUL character: the
//! compiler takes them as NUL-terminated wide strings.
use vstd::prelude::*;
use vstd::utf8::{encode_scalar, encode_utf8};

verus! {

/// One scalar's UTF-8 encoding holds a zero byte exactly when the scalar is
/// NUL.
proof fn lemma_scalar_zero_byte(c: char)
    ensures
        encode_scalar(c as u32).contains(0u8) <==> c == '\0',
{
    let v = c as u32;
    let e = encode_scalar(v);
    if 0 <= v <= 0x7F {
        assert(v <= 0x7F ==> ((v & 0x7F) as u8 == 0 <==> v == 0)) by (bit_vector);
        assert(e =~= seq![(v & 0x7F) as u8]);
        if c == '\0' {
            assert(e[0] == 0u8);
        }
    } else {
        assert(forall|x: u8| #![trigger (0x80u8 | x)] (0x80u8 | x) != 0u8) by (bit_vector);
        assert(forall|x: u8| #![trigger (0xC0u8 | x)] (0xC0u8 | x) != 0u8) by (bit_vector);
        assert(forall|x: u8| #![trigger (0xE0u8 | x)] (0xE0u8 | x) != 0u8) by (bit_vector);
        assert(forall|x: u8| #![trigger (0xF0u8 | x)] (0xF0u8 | x) != 0u8) by (bit_vector);
        assert forall|i: int| 0 <= i < e.len() implies e[i] != 0u8 by {}
    }
}

/// A string's UTF-8 encoding holds a zero byte exactly when the string
/// holds a NUL character.
pub proof fn lemma_utf8_zero_byte(s: Seq<char>)
    ensures
        encode_utf8(s).contains(0u8) <==> s.contains('\0'),
    decreases s.len(),
{
    if s.len() > 0 {
        let head = encode_scalar(s[0] as u32);
        let rest = encode_utf8(s.drop_first());
        lemma_scalar_zero_byte(s[0]);
        lemma_utf8_zero_byte(s.drop_first());
        assert(encode_utf8(s) == head + rest);
        if (head + rest).contains(0u8) {
            let i = choose|i: int| 0 <= i < (head + rest).len() && (head + rest)[i] == 0u8;
            if i < head.len() {
                assert(head[i] == 0u8);
                assert(s[0] == '\0');
            } else {
                assert(rest[i - head.len()] == 0u8);
                let j = choose|j: int| 0 <= j < s.len() - 1 && s.drop_first()[j] == '\0';
                assert(s[j + 1] == '\0');
            }
        }
        if s.contains('\0') {
            let j = choose|j: int| 0 <= j < s.len() && s[j] == '\0';
            if j == 0 {
                let i = choose|i: int| 0 <= i < head.len() && head[i] == 0u8;
                assert((head + rest)[i] == 0u8);
            } else {
                assert(s.drop_first()[j - 1] == '\0');
                let i = choose|i: int| 0 <= i < rest.len() && rest[i] == 0u8;
                assert((head + rest)[head.len() + i] == 0u8);
            }
        }
    }
}

/// Whether `s` holds a NUL character.
pub fn contains_nul(s: &str) -> (r: bool)
    ensures
        r == s@.contains('\0'),
{
    let bytes = s.as_bytes();
    proof {
        lemma_utf8_zero_byte(s@);
    }
    let mut i: usize = 0;
    while i < bytes.len()
        invariant
            bytes@ == encode_utf8(s@),
            encode_utf8(s@).contains(0u8) <==> s@.contains('\0'),
            i <= bytes@.len(),
            forall|j: int| 0 <= j < i ==> bytes@[j] != 0u8,
        decreases bytes@.len() - i,
    {
        if bytes[i] == 0 {
            assert(bytes@[i as int] == 0u8);
            assert(encode_utf8(s@).contains(0u8));
            return true;
        }
        i = i + 1;
    }
    assert(!encode_utf8(s@).contains(0u8));
    false
}

/// Whether any of `items` holds a NUL character.
pub fn any_contains_nul(items: &[&str]) -> (r: bool)
    ensures
        r == exists|i: int| 0 <= i < items@.len() && (#[trigger] items@[i])@.contains('\0'),
{
    let mut i: usize = 0;
    while i < items.len()
        invariant
            i <= items@.len(),
            forall|j: int| 0 <= j < i ==> !(#[trigger] items@[j])@.contains('\0'),
        decreases items@.len() - i,
    {
        if contains_nul(items[i]) {
            return true;
        }
        i = i + 1;
    }
    false
}

/// `b` without its leading `./` segments.
pub open spec fn strip_current_dir(b: Seq<u8>) -> Seq<u8>
    decreases b.len(),
{
    if b.len() >= 2 && b[0] == 46u8 && b[1] == 47u8 {
        strip_current_dir(b.subrange(2, b.len() as int))
    } else {
        b
    }
}

/// A source path as the registry identifies it: its UTF-8 bytes without
/// leading `./` segments, so `./a.hlsl` and `a.hlsl` name one file.
pub open spec fn normalized_path(p: Seq<char>) -> Seq<u8> {
    strip_current_dir(encode_utf8(p))
}

/// Length of the leading `./` segments of `b`.
fn current_dir_prefix_len(b: &[u8]) -> (r: usize)
    ensures
        r <= b@.len(),
        strip_current_dir(b@) == b@.subrange(r as int, b@.len() as int),
{
    let mut i: usize = 0;
    assert(b@.subrange(0, b@.len() as int) =~= b@);
    while b.len() - i >= 2 && b[i] == 46u8 && b[i + 1] == 47u8
        invariant
            i <= b@.len(),
            strip_current_dir(b@) == strip_current_dir(b@.subrange(i as int, b@.len() as int)),
        decreases b@.len() - i,
    {
        proof {
            let rest = b@.subrange(i as int, b@.len() as int);
            assert(rest.subrange(2, rest.len() as int) =~= b@.subrange(i + 2, b@.len() as int));
        }
        i = i + 2;
    }
    i
}

/// Whether `a` and `b` name the same path once leading `./` segments are
/// dropped.
pub fn same_path(a: &str, b: &str) -> (r: bool)
    ensures
        r == (normalized_path(a@) == normalized_path(b@)),
{
    let x = a.as_bytes();
    let y = b.as_bytes();
    let i = current_dir_prefix_len(x);
    let j = current_dir_prefix_len(y);
    let ghost xs = x@.subrange(i as int, x@.len() as int);
    let ghost ys = y@.subrange(j as int, y@.len() as int);
    assert(xs == normalized_path(a@));
    assert(ys == normalized_path(b@));
    if x.len() - i != y.len() - j {
        assert(xs.len() != ys.len());
        return false;
    }
    let n = x.len() - i;
    let xl = x.len();
    let yl = y.len();
    let mut k: usize = 0;
    while k < n
        invariant
            k <= n,
            xl == x@.len(),
            yl == y@.len(),
            n == x@.len() - i,
            n == y@.len() - j,
            i <= x@.len(),
            j <= y@.len(),
            xs == x@.subrange(i as int, x@.len() as int),
            ys == y@.subrange(j as int, y@.len() as int),
            xs == normalized_path(a@),
            ys == normalized_path(b@),
            forall|m: int| 0 <= m < k ==> xs[m] == ys[m],
        decreases n - k,
    {
        if x[i + k] != y[j + k] {
            assert(xs[k as int] != ys[k as int]);
            return false;
        }
        k = k + 1;
    }
    assert(xs =~= ys);
    true
}

} // verus!
