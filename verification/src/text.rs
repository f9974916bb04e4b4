//! String helpers, proved against the UTF-8 encoding of `str`.

use vstd::prelude::*;
use vstd::string::StringSliceAdditionalSpecFns;
use vstd::utf8::*;

verus! {

/// The byte that encodes `:`.
pub const COLON_BYTE: u8 = 0x3a;

/// Two character sequences with the same UTF-8 encoding are the same sequence.
pub proof fn lemma_encoding_injective(a: Seq<char>, b: Seq<char>)
    requires
        encode_utf8(a) == encode_utf8(b),
    ensures
        a == b,
{
    encode_utf8_decode_utf8(a);
    encode_utf8_decode_utf8(b);
}

/// The encoding of a concatenation is the concatenation of the encodings.
pub proof fn lemma_encoding_concat(a: Seq<char>, b: Seq<char>)
    ensures
        encode_utf8(a + b) == encode_utf8(a) + encode_utf8(b),
    decreases a.len(),
{
    if a.len() == 0 {
        assert(a + b =~= b);
        assert(encode_utf8(a) + encode_utf8(b) =~= encode_utf8(b));
    } else {
        assert((a + b).drop_first() =~= a.drop_first() + b);
        lemma_encoding_concat(a.drop_first(), b);
        assert(encode_utf8(a + b) =~= encode_utf8(a) + encode_utf8(b));
    }
}

/// A lone `:` is encoded as the single byte `COLON_BYTE`.
pub proof fn lemma_colon_encoding()
    ensures
        encode_utf8(seq![':']) == seq![COLON_BYTE],
{
    let one = seq![':'];
    assert(':' as u32 == 0x3au32);
    assert(0x3au32 & 0x7f == 0x3au32) by (bit_vector);
    assert(one.drop_first() =~= Seq::<char>::empty());
    reveal_with_fuel(encode_utf8, 2);
    assert(encode_utf8(one) =~= seq![COLON_BYTE]);
}

/// Where a character sequence holds a `:`, its encoding holds `COLON_BYTE`.
pub proof fn lemma_colon_is_encoded(chars: Seq<char>)
    requires
        chars.contains(':'),
    ensures
        encode_utf8(chars).contains(COLON_BYTE),
{
    let k = choose|k: int| 0 <= k < chars.len() && chars[k] == ':';
    let before = chars.subrange(0, k);
    let after = chars.subrange(k + 1, chars.len() as int);
    assert(chars =~= before + seq![':'] + after);
    lemma_encoding_concat(before + seq![':'], after);
    lemma_encoding_concat(before, seq![':']);
    lemma_colon_encoding();
    let bytes = encode_utf8(chars);
    let at = encode_utf8(before).len() as int;
    assert(bytes[at] == COLON_BYTE);
}

/// Whether two strings hold the same characters.
pub fn str_eq(a: &str, b: &str) -> (same: bool)
    ensures
        same == (a@ == b@),
{
    let x = a.as_bytes();
    let y = b.as_bytes();
    if x.len() != y.len() {
        return false;
    }
    let mut i: usize = 0;
    while i < x.len()
        invariant
            i <= x.len(),
            x.len() == y.len(),
            x@ == a.spec_bytes(),
            y@ == b.spec_bytes(),
            forall|j: int| 0 <= j < i ==> x@[j] == y@[j],
        decreases x.len() - i,
    {
        if x[i] != y[i] {
            return false;
        }
        i += 1;
    }
    proof {
        assert(x@ =~= y@);
        lemma_encoding_injective(a@, b@);
    }
    true
}

} // verus!
