use vstd::prelude::*;
use vstd::string::StringSliceAdditionalSpecFns;

verus! {

/// `s` begins with the bytes of `prefix`.
pub open spec fn has_prefix(s: Seq<u8>, prefix: Seq<u8>) -> bool {
    prefix.len() <= s.len() && s.subrange(0, prefix.len() as int) == prefix
}

/// Whether `s` begins with `prefix`.
pub fn starts_with(s: &str, prefix: &str) -> (r: bool)
    ensures
        r == has_prefix(s.spec_bytes(), prefix.spec_bytes()),
{
    let a = s.as_bytes();
    let b = prefix.as_bytes();
    if b.len() > a.len() {
        return false;
    }
    let mut i: usize = 0;
    while i < b.len()
        invariant
            a@ == s.spec_bytes(),
            b@ == prefix.spec_bytes(),
            b@.len() <= a@.len(),
            i <= b@.len(),
            forall|j: int| 0 <= j < i ==> a@[j] == b@[j],
        decreases b@.len() - i,
    {
        if a[i] != b[i] {
            assert(a@.subrange(0, b@.len() as int)[i as int] != b@[i as int]);
            return false;
        }
        i = i + 1;
    }
    assert(a@.subrange(0, b@.len() as int) =~= b@);
    true
}

/// Whether `s` and `t` hold the same bytes.
pub fn same_text(s: &str, t: &str) -> (r: bool)
    ensures
        r == (s.spec_bytes() == t.spec_bytes()),
{
    let a = s.as_bytes();
    let b = t.as_bytes();
    if a.len() != b.len() {
        return false;
    }
    let r = starts_with(s, t);
    proof {
        assert(a@.subrange(0, b@.len() as int) =~= a@);
    }
    r
}

} // verus!
