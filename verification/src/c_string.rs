//! Destinations travel to `libdummy` as NUL-terminated byte strings.
use vstd::prelude::*;
use vstd::string::StringSliceAdditionalSpecFns;

verus! {

/// The bytes a C reader sees in `s`: everything before the first NUL byte
/// (all of `s` when it holds none).
pub open spec fn c_str_content(s: Seq<u8>) -> Seq<u8>
    decreases s.len(),
{
    if s.len() == 0 || s[0] == 0u8 {
        Seq::empty()
    } else {
        seq![s[0]] + c_str_content(s.drop_first())
    }
}

/// A destination can be handed to C exactly when its UTF-8 bytes hold no NUL.
pub open spec fn is_c_compatible(bytes: Seq<u8>) -> bool {
    !bytes.contains(0u8)
}

/// Builds the NUL-terminated form of `dest`: its UTF-8 bytes followed by one
/// `0`, or `None` when `dest` itself contains a NUL byte (the case in which
/// `CString::new` refuses it).
pub fn c_string_bytes(dest: &str) -> (res: Option<Vec<u8>>)
    ensures
        res is Some <==> is_c_compatible(dest.spec_bytes()),
        res matches Some(v) ==> v@ == dest.spec_bytes().push(0u8),
        res matches Some(v) ==> c_str_content(v@) == dest.spec_bytes(),
{
    let bytes = dest.as_bytes();
    let mut out: Vec<u8> = Vec::new();
    let mut i: usize = 0;
    while i < bytes.len()
        invariant
            bytes@ == dest.spec_bytes(),
            i <= bytes.len(),
            out@ == bytes@.subrange(0, i as int),
            !out@.contains(0u8),
        decreases bytes.len() - i,
    {
        let b = bytes[i];
        if b == 0u8 {
            assert(bytes@.contains(0u8)) by {
                assert(bytes@[i as int] == 0u8);
            }
            return None;
        }
        out.push(b);
        i = i + 1;
        assert(out@ =~= bytes@.subrange(0, i as int));
    }
    assert(out@ =~= bytes@);
    proof {
        lemma_c_str_content_reads_back(out@);
    }
    out.push(0u8);
    Some(out)
}

/// A byte string without NUL, once terminated, reads back as itself.
pub proof fn lemma_c_str_content_reads_back(bytes: Seq<u8>)
    requires
        is_c_compatible(bytes),
    ensures
        c_str_content(bytes.push(0u8)) == bytes,
    decreases bytes.len(),
{
    if bytes.len() == 0 {
        assert(bytes.push(0u8)[0] == 0u8);
        assert(bytes =~= Seq::<u8>::empty());
    } else {
        let rest = bytes.drop_first();
        assert(!rest.contains(0u8)) by {
            if rest.contains(0u8) {
                let k = choose|k: int| 0 <= k < rest.len() && rest[k] == 0u8;
                assert(bytes[k + 1] == 0u8);
            }
        }
        assert(bytes[0] != 0u8) by {
            if bytes[0] == 0u8 {
                assert(bytes.contains(0u8));
            }
        }
        lemma_c_str_content_reads_back(rest);
        assert(bytes.push(0u8).drop_first() =~= rest.push(0u8));
        assert(seq![bytes[0]] + rest =~= bytes);
    }
}

} // verus!
