use crate::deserialize::Fault;
use vstd::prelude::*;

verus! {

/// What decoding makes of a byte sequence: the value's model and the bytes left
/// over, or the reason it failed.
pub type Parsed<M> = Result<(M, Seq<u8>), Fault>;

/// `rest` is what remains of `data` after some prefix of it has been removed.
pub open spec fn is_suffix(rest: Seq<u8>, data: Seq<u8>) -> bool {
    &&& rest.len() <= data.len()
    &&& rest == data.skip(data.len() - rest.len())
}

/// Joining byte sequences does not depend on how the joins are grouped.
pub broadcast proof fn lemma_concat_assoc(a: Seq<u8>, b: Seq<u8>, c: Seq<u8>)
    ensures
        #[trigger] ((a + b) + c) == a + (b + c),
{
    assert((a + b) + c =~= a + (b + c));
}

/// Nothing removed leaves everything.
pub proof fn lemma_suffix_refl(data: Seq<u8>)
    ensures
        is_suffix(data, data),
{
    assert(data.skip(0) =~= data);
}

/// What remains of a remainder remains of the whole.
pub proof fn lemma_suffix_trans(a: Seq<u8>, b: Seq<u8>, c: Seq<u8>)
    requires
        is_suffix(a, b),
        is_suffix(b, c),
    ensures
        is_suffix(a, c),
{
    assert(a =~= c.skip(c.len() - a.len()));
}

/// Skipping a prefix leaves a remainder.
pub proof fn lemma_skip_is_suffix(data: Seq<u8>, n: int)
    requires
        0 <= n <= data.len(),
    ensures
        is_suffix(data.skip(n), data),
{
}

} // verus!
