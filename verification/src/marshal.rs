use vstd::prelude::*;

verus! {

/// The image of a native byte string in host-interface layout: the same
/// bytes followed by a single terminating zero.
pub open spec fn c_bytes(s: Seq<u8>) -> Seq<u8> {
    s.push(0)
}

/// Copies a byte string, one for one.
pub fn copy_bytes(s: &Vec<u8>) -> (r: Vec<u8>)
    ensures
        r@ == s@,
{
    let mut r: Vec<u8> = Vec::new();
    let mut i: usize = 0;
    while i < s.len()
        invariant
            i <= s@.len(),
            r@.len() == i,
            forall|j: int| 0 <= j < i ==> r@[j] == s@[j],
        decreases s@.len() - i,
    {
        r.push(s[i]);
        i += 1;
    }
    proof {
        assert(r@ =~= s@);
    }
    r
}

/// Builds the null-terminated image of a byte string, as the host
/// interface expects its strings.
pub fn make_c_str(s: &Vec<u8>) -> (r: Vec<u8>)
    ensures
        r@ == c_bytes(s@),
{
    let mut r = copy_bytes(s);
    r.push(0);
    r
}

} // verus!
