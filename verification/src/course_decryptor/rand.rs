//! The xorshift-family pseudo-random generator whose stream drives key
//! derivation. Its bit operations are a compatibility constant of the file
//! format: any deviation produces a different key and garbage plaintext.

use vstd::prelude::*;

verus! {

/// The next output for generator state `s` (four 32-bit words).
pub open spec fn rng_next(s: Seq<u32>) -> u32
    recommends
        s.len() == 4,
{
    let a = s[0] ^ (s[0] << 11u32);
    a ^ (a >> 8u32) ^ s[3] ^ (s[3] >> 19u32)
}

/// The state after one draw: the words shift down and the fresh output
/// becomes the last word.
pub open spec fn rng_step(s: Seq<u32>) -> Seq<u32>
    recommends
        s.len() == 4,
{
    seq![s[1], s[2], s[3], rng_next(s)]
}

/// The state after `n` draws.
pub open spec fn rng_steps(s: Seq<u32>, n: nat) -> Seq<u32>
    decreases n,
{
    if n == 0 {
        s
    } else {
        rng_step(rng_steps(s, (n - 1) as nat))
    }
}

pub struct Random {
    state: [u32; 4],
}

impl View for Random {
    type V = Seq<u32>;

    closed spec fn view(&self) -> Seq<u32> {
        self.state@
    }
}

impl Random {
    pub fn new(state: [u32; 4]) -> (r: Self)
        ensures
            r@ == state@,
    {
        Self { state }
    }

    pub fn gen(&mut self) -> (n: u32)
        ensures
            n == rng_next(old(self)@),
            final(self)@ == rng_step(old(self)@),
    {
        let s0 = self.state[0];
        let s1 = self.state[1];
        let s2 = self.state[2];
        let s3 = self.state[3];
        let a = s0 ^ (s0 << 11u32);
        let n = a ^ (a >> 8u32) ^ s3 ^ (s3 >> 19u32);
        self.state = [s1, s2, s3, n];
        proof {
            assert(self@ =~= rng_step(old(self)@));
        }
        n
    }
}

impl Default for Random {
    /// The library default seed; real course files carry their own seed.
    fn default() -> (r: Self)
        ensures
            r@ == seq![1u32, 0x6C078967u32, 0x714ACB41u32, 0x48077044u32],
    {
        let r = Self::new([1, 0x6C078967, 0x714ACB41, 0x48077044]);
        proof {
            assert(r@ =~= seq![1u32, 0x6C078967u32, 0x714ACB41u32, 0x48077044u32]);
        }
        r
    }
}

} // verus!
