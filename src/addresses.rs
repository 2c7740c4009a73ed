//! Listing the host's network addresses.

use vstd::prelude::*;
use crate::text::texts;

verus! {

/// `s` with every repeated element dropped after its first occurrence.
pub open spec fn first_occurrences(s: Seq<Seq<char>>) -> Seq<Seq<char>>
    decreases s.len(),
{
    if s.len() == 0 {
        s
    } else {
        let kept = first_occurrences(s.drop_last());
        if kept.contains(s.last()) {
            kept
        } else {
            kept.push(s.last())
        }
    }
}

/// The addresses in the order first listed, each once.
pub fn unique_addresses(addresses: &Vec<String>) -> (r: Vec<String>)
    ensures
        texts(r@) == first_occurrences(texts(addresses@)),
{
    let mut r: Vec<String> = Vec::new();
    let mut i: usize = 0;
    while i < addresses.len()
        invariant
            i <= addresses.len(),
            texts(r@) == first_occurrences(texts(addresses@).subrange(0, i as int)),
        decreases addresses.len() - i,
    {
        let a = &addresses[i];
        let mut seen = false;
        let mut j: usize = 0;
        while j < r.len()
            invariant
                j <= r.len(),
                seen <==> texts(r@).subrange(0, j as int).contains(a@),
            decreases r.len() - j,
        {
            if r[j] == *a {
                seen = true;
            }
            proof {
                let before = texts(r@).subrange(0, j as int);
                let after = texts(r@).subrange(0, j as int + 1);
                assert(texts(r@)[j as int] == r@[j as int]@);
                assert(after =~= before.push(r@[j as int]@));
                if r@[j as int]@ == a@ {
                    assert(after[j as int] == a@);
                }
                if before.contains(a@) {
                    let k = choose|k: int| 0 <= k < before.len() && before[k] == a@;
                    assert(after[k] == a@);
                }
                if after.contains(a@) && !before.contains(a@) {
                    let k = choose|k: int| 0 <= k < after.len() && after[k] == a@;
                    if k < j {
                        assert(before[k] == a@);
                    }
                }
            }
            j = j + 1;
        }
        proof {
            let done = texts(addresses@).subrange(0, i as int);
            let next = texts(addresses@).subrange(0, i as int + 1);
            assert(next.drop_last() =~= done);
            assert(next.last() == a@);
            assert(texts(r@).subrange(0, r.len() as int) =~= texts(r@));
        }
        if !seen {
            r.push(a.clone());
            proof {
                assert(texts(r@) =~= texts(r@).drop_last().push(a@));
            }
        }
        i = i + 1;
    }
    assert(texts(addresses@).subrange(0, addresses.len() as int) =~= texts(addresses@));
    r
}

} // verus!
