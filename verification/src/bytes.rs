use vstd::prelude::*;

verus! {

/// Whether the byte string `k` occurs among the recorded keys `s`.
pub open spec fn contains_bytes(s: Seq<Vec<u8>>, k: Seq<u8>) -> bool {
    exists|i: int| 0 <= i < s.len() && (#[trigger] s[i])@ == k
}

/// Byte-string equality, stated over the views.
pub fn bytes_eq(a: &Vec<u8>, b: &Vec<u8>) -> (r: bool)
    ensures
        r == (a@ == b@),
{
    let r = a == b;
    proof {
        if a@.len() == b@.len() && (forall|i: int| 0 <= i < a@.len() ==> a@[i] == b@[i]) {
            assert(a@ =~= b@);
        }
    }
    r
}

/// The bytes of `data` from `start` (inclusive) to `end` (exclusive), copied
/// into a fresh byte string.
pub fn copy_range(data: &Vec<u8>, start: usize, end: usize) -> (r: Vec<u8>)
    requires
        start <= end <= data.len(),
    ensures
        r@ == data@.subrange(start as int, end as int),
{
    let mut out: Vec<u8> = Vec::new();
    let mut i: usize = start;
    proof {
        assert(out@ =~= data@.subrange(start as int, start as int));
    }
    while i < end
        invariant
            start <= i <= end <= data.len(),
            out@ == data@.subrange(start as int, i as int),
        decreases end - i,
    {
        out.push(data[i]);
        proof {
            assert(data@.subrange(start as int, i + 1 as int) =~= data@.subrange(
                start as int,
                i as int,
            ).push(data@[i as int]));
        }
        i = i + 1;
    }
    out
}

/// A copy of a whole byte string.
pub fn copy_bytes(data: &Vec<u8>) -> (r: Vec<u8>)
    ensures
        r@ == data@,
{
    let r = copy_range(data, 0, data.len());
    proof {
        assert(data@.subrange(0, data.len() as int) =~= data@);
    }
    r
}

/// Whether `key` occurs among the recorded keys.
pub fn contains_key(s: &Vec<Vec<u8>>, key: &Vec<u8>) -> (r: bool)
    ensures
        r == contains_bytes(s@, key@),
{
    let n = s.len();
    let mut i: usize = 0;
    while i < n
        invariant
            i <= n,
            n == s.len(),
            forall|j: int| 0 <= j < i ==> (#[trigger] s@[j])@ != key@,
        decreases n - i,
    {
        if bytes_eq(&s[i], key) {
            return true;
        }
        i = i + 1;
    }
    false
}

} // verus!
