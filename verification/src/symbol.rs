//! Encoding of a function name as the byte string the loader looks up.
use vstd::prelude::*;
use vstd::string::StringSliceAdditionalSpecFns;
use vstd::string::StrSliceExecFns;
use crate::error::{LaunchError, LaunchErrorView};

verus! {

/// `bytes` holds a zero byte somewhere.
pub open spec fn has_nul(bytes: Seq<u8>) -> bool {
    exists|i: int| 0 <= i < bytes.len() && bytes[i] == 0
}

/// `i` is the index of the first zero byte of `bytes`.
pub open spec fn is_first_nul(bytes: Seq<u8>, i: int) -> bool {
    &&& 0 <= i < bytes.len()
    &&& bytes[i] == 0
    &&& forall|j: int| 0 <= j < i ==> bytes[j] != 0
}

/// The index of the first zero byte of `bytes`, where there is one.
pub open spec fn first_nul(bytes: Seq<u8>) -> int {
    choose|i: int| is_first_nul(bytes, i)
}

/// What encoding the name with the UTF-8 bytes `name` yields: the bytes
/// followed by one terminating zero, or an encoding error that points at
/// the first zero byte inside the name.
pub open spec fn encode_symbol_spec(name: Seq<u8>) -> Result<Seq<u8>, LaunchErrorView> {
    if has_nul(name) {
        Err(LaunchErrorView::Encoding { position: first_nul(name) as nat })
    } else {
        Ok(name.push(0))
    }
}

/// A sequence has at most one first zero byte, so `first_nul` names it.
pub proof fn lemma_first_nul_unique(bytes: Seq<u8>, i: int)
    requires
        is_first_nul(bytes, i),
    ensures
        has_nul(bytes),
        first_nul(bytes) == i,
{
    let k = first_nul(bytes);
    assert(is_first_nul(bytes, k));
    if k < i {
        assert(bytes[k] != 0);
    } else if i < k {
        assert(bytes[i] != 0);
    }
}

/// After encoding, the terminator is the first zero byte: the loader reads
/// exactly the bytes of the name.
proof fn lemma_terminator_is_first_nul(name: Seq<u8>)
    requires
        !has_nul(name),
    ensures
        is_first_nul(name.push(0), name.len() as int),
{
    let encoded = name.push(0);
    assert forall|j: int| 0 <= j < name.len() implies encoded[j] != 0 by {
        assert(encoded[j] == name[j]);
    }
}

/// Encodes a function name as a zero-terminated byte string.
///
/// Fails exactly when the name itself holds a zero byte, and then reports
/// where the first one stands. On success the result is the name's UTF-8
/// bytes and one zero after them, which is the only zero in it.
pub fn encode_symbol_name(name: &str) -> (r: Result<Vec<u8>, LaunchError>)
    ensures
        has_nul(name.spec_bytes()) <==> r is Err,
        match r {
            Ok(bytes) => Ok(bytes@),
            Err(e) => Err(e@),
        } == encode_symbol_spec(name.spec_bytes()),
        r matches Ok(bytes) ==> is_first_nul(bytes@, bytes@.len() - 1),
        r matches Err(e) ==> e@ is Encoding && is_first_nul(
            name.spec_bytes(),
            e@->position as int,
        ),
{
    let mut bytes = name.as_bytes_vec();
    let n: usize = bytes.len();
    let mut i: usize = 0;
    while i < n
        invariant
            bytes@ == name.spec_bytes(),
            n == bytes@.len(),
            i <= n,
            forall|j: int| 0 <= j < i ==> bytes@[j] != 0,
        decreases n - i,
    {
        if bytes[i] == 0 {
            proof {
                lemma_first_nul_unique(bytes@, i as int);
            }
            return Err(LaunchError::Encoding { position: i });
        }
        i += 1;
    }
    proof {
        lemma_terminator_is_first_nul(bytes@);
    }
    bytes.push(0);
    Ok(bytes)
}

} // verus!
