//! Ten-character identifiers drawn from a seed, each handed out once.
use vstd::prelude::*;

use crate::text::{chars_equal, chars_of, lemma_string_views_push, string_of, string_views};

verus! {

/// Hands out identifiers made from seeds, never the same one twice.
#[derive(Debug)]
pub struct UniqueIdGenerator {
    used_ids: Vec<String>,
}

/// The character of an index into `A`-`Z`, `a`-`z`, `0`-`9`.
pub open spec fn charset_char(i: nat) -> char {
    if i < 26 {
        (65 + i) as char
    } else if i < 52 {
        (97 + i - 26) as char
    } else {
        (48 + i - 52) as char
    }
}

/// One step of the seed: `seed * 6364136223846793005 + 1`, wrapping at 2^64.
pub open spec fn next_seed(s: u64) -> u64 {
    let m = (s as nat * 6364136223846793005nat) % 0x1_0000_0000_0000_0000nat;
    ((m + 1) % 0x1_0000_0000_0000_0000nat) as u64
}

/// The seed after `k` steps.
pub open spec fn seed_at(s: u64, k: nat) -> u64
    decreases k,
{
    if k == 0 {
        s
    } else {
        next_seed(seed_at(s, (k - 1) as nat))
    }
}

/// The identifier of a seed: ten characters, the `k`-th picked by the seed
/// after `k` steps, modulo 62.
pub open spec fn id_of_seed(s: u64) -> Seq<char> {
    Seq::new(10, |k: int| charset_char((seed_at(s, k as nat) % 62) as nat))
}

fn charset_at(i: u64) -> (res: char)
    requires
        i < 62,
    ensures
        res == charset_char(i as nat),
{
    if i < 26 {
        ((65 + i) as u8) as char
    } else if i < 52 {
        ((97 + i - 26) as u8) as char
    } else {
        ((48 + i - 52) as u8) as char
    }
}

/// The identifier that a seed gives.
pub fn id_from_seed(seed: u64) -> (res: String)
    ensures
        res@ == id_of_seed(seed),
{
    let mut out: Vec<char> = Vec::new();
    let mut s: u64 = seed;
    let mut k: usize = 0;
    while k < 10
        invariant
            k <= 10,
            s == seed_at(seed, k as nat),
            out@ == Seq::new(k as nat, |j: int| charset_char((seed_at(seed, j as nat) % 62) as nat)),
        decreases 10 - k,
    {
        let c = charset_at(s % 62);
        out.push(c);
        let m = s.wrapping_mul(6364136223846793005);
        s = m.wrapping_add(1);
        proof {
            assert(out@ =~= Seq::new(
                (k + 1) as nat,
                |j: int| charset_char((seed_at(seed, j as nat) % 62) as nat),
            ));
            assert(seed_at(seed, (k + 1) as nat) == next_seed(seed_at(seed, k as nat)));
        }
        k = k + 1;
    }
    assert(out@ =~= id_of_seed(seed));
    string_of(out.as_slice())
}

impl UniqueIdGenerator {
    /// The identifiers handed out so far.
    pub closed spec fn used(&self) -> Set<Seq<char>> {
        Set::new(|x: Seq<char>| string_views(self.used_ids@).contains(x))
    }

    pub fn new() -> (res: Self)
        ensures
            res.used() == Set::<Seq<char>>::empty(),
    {
        let res = UniqueIdGenerator { used_ids: Vec::new() };
        assert(res.used() =~= Set::<Seq<char>>::empty());
        res
    }

    /// Whether `id` was handed out already.
    fn is_used(&self, id: &[char]) -> (res: bool)
        ensures
            res == self.used().contains(id@),
    {
        let ghost all = string_views(self.used_ids@);
        let mut i: usize = 0;
        while i < self.used_ids.len()
            invariant
                i <= self.used_ids@.len(),
                all == string_views(self.used_ids@),
                forall|j: int| 0 <= j < i ==> all[j] != id@,
            decreases self.used_ids@.len() - i,
        {
            assert(all[i as int] == self.used_ids@[i as int]@);
            if chars_equal(chars_of(self.used_ids[i].as_str()).as_slice(), id) {
                assert(all.contains(id@));
                return true;
            }
            i = i + 1;
        }
        assert(!all.contains(id@));
        false
    }

    /// One attempt at a new identifier from a seed (the program draws it
    /// from the clock's nanoseconds): the identifier of the seed, recorded and
    /// returned when it was not handed out before; `None` when it was, in
    /// which case the caller tries again with a fresh seed.
    pub fn generate(&mut self, seed: u32) -> (res: Option<String>)
        ensures
            match res {
                Some(id) => id@ == id_of_seed(seed as u64) && !old(self).used().contains(id@)
                    && final(self).used() == old(self).used().insert(id@),
                None => old(self).used().contains(id_of_seed(seed as u64)) && final(self).used()
                    == old(self).used(),
            },
    {
        let id = id_from_seed(seed as u64);
        let cs = chars_of(id.as_str());
        if self.is_used(cs.as_slice()) {
            return None;
        }
        let ghost before = self.used_ids@;
        let copy = string_of(cs.as_slice());
        self.used_ids.push(copy);
        proof {
            lemma_string_views_push(before, self.used_ids@.last());
            assert(self.used_ids@ == before.push(self.used_ids@.last()));
            let sv = string_views(before);
            let nv = string_views(self.used_ids@);
            assert(nv == sv.push(id@));
            assert forall|x: Seq<char>| nv.contains(x) <==> (sv.contains(x) || x == id@) by {
                if nv.contains(x) {
                    let j = choose|j: int| 0 <= j < nv.len() && nv[j] == x;
                    if j < sv.len() {
                        assert(sv[j] == x);
                    }
                }
                if sv.contains(x) {
                    let j = choose|j: int| 0 <= j < sv.len() && sv[j] == x;
                    assert(nv[j] == x);
                }
                if x == id@ {
                    assert(nv[sv.len() as int] == x);
                }
            }
            assert(self.used() =~= old(self).used().insert(id@));
        }
        Some(id)
    }
}

} // verus!
