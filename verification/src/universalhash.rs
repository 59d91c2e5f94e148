//! Multiply-shift universal hashing of 64-bit inputs.
//!
//! A function of the family is given by two 128-bit seeds `a` and `b` and a
//! number of result bits. An input `x` is mapped to the 128-bit word
//! `(a * x + b) mod 2^128`, of which the high-order bits are kept.

use rand::rngs::ThreadRng;
use rand::Rng;
use vstd::arithmetic::div_mod::*;
use vstd::arithmetic::power2::*;
use vstd::bits::*;
use vstd::prelude::*;

verus! {

/// Width of the word in which `a * x + b` is computed: twice the input width.
pub const WORD_BITS: usize = 128;

/// The word `(a * x + b) mod 2^128` that a function with seeds `a` and `b`
/// computes for the input `x`.
pub open spec fn seeded_word(seed_a: u128, seed_b: u128, val: u64) -> nat {
    ((seed_a as nat) * (val as nat) + (seed_b as nat)) % pow2(128)
}

/// The `bits` high-order bits of a 128-bit word, as a number. Asking for more
/// than 128 bits gives the whole word, asking for none gives zero.
pub open spec fn high_bits(word: nat, bits: nat) -> nat {
    if bits >= 128 {
        word
    } else {
        word / pow2((128 - bits) as nat)
    }
}

/// The smaller of two numbers of bits.
pub open spec fn at_most(bits: nat, limit: nat) -> nat {
    if bits <= limit {
        bits
    } else {
        limit
    }
}

/// `2^128` is one more than the largest `u128`.
pub proof fn lemma_pow2_128()
    ensures
        pow2(128) == 0x1_0000_0000_0000_0000_0000_0000_0000_0000,
        pow2(64) == 0x1_0000_0000_0000_0000,
{
    lemma2_to64();
    lemma_pow2_adds(64, 64);
}

/// The high-order bits of a word below `2^128` are a number below `2^bits`.
pub proof fn lemma_high_bits_bound(word: nat, bits: nat)
    requires
        word < pow2(128),
        bits <= 128,
    ensures
        high_bits(word, bits) < pow2(bits),
{
    if bits < 128 {
        let low = (128 - bits) as nat;
        lemma_pow2_adds(bits, low);
        lemma_pow2_pos(low);
        lemma_pow2_pos(bits);
        // word < 2^low * 2^bits, so word / 2^low < 2^bits
        vstd::arithmetic::mul::lemma_mul_is_commutative(pow2(bits) as int, pow2(low) as int);
        lemma_multiply_divide_lt(word as int, pow2(low) as int, pow2(bits) as int);
    }
}

/// The generator that `rand::rng` hands out. Nothing is known of its state.
#[verifier::external_type_specification]
#[verifier::external_body]
pub struct ExThreadRng(ThreadRng);

/// Calls `rand::rng`, which returns a handle to the generator of the current
/// thread. No property of the handle is claimed. The generator is seeded from
/// the operating system when a thread first asks for it.
#[verifier::external_body]
fn thread_generator() -> ThreadRng {
    rand::rng()
}

/// Calls `Rng::random::<u128>` on the generator. The value is drawn at random,
/// so nothing is claimed of it: every `u128` may come back.
#[verifier::external_body]
fn draw_seed(rng: &mut ThreadRng) -> u128 {
    rng.random::<u128>()
}

/// A family of multiply-shift hash functions that share a result width, with
/// its own source of randomness for drawing seeds.
pub struct UniversalHashFunctionsFamily {
    hash_results_num_bits: usize,
    rng: ThreadRng,
}

impl UniversalHashFunctionsFamily {
    /// Number of result bits of every function of this family.
    pub closed spec fn result_bits(&self) -> nat {
        self.hash_results_num_bits as nat
    }

    /// A family whose functions keep `hash_results_num_bits` bits.
    pub fn new(hash_results_num_bits: usize) -> (family: Self)
        ensures
            family.result_bits() == hash_results_num_bits,
    {
        UniversalHashFunctionsFamily { hash_results_num_bits, rng: thread_generator() }
    }

    /// The function of this family with the given seeds.
    pub fn construct_new_hash_function(&self, seed_a: u128, seed_b: u128) -> (function:
        UniversalHashFunction)
        ensures
            function.result_bits() == self.result_bits(),
            function.seed_a() == seed_a,
            function.seed_b() == seed_b,
    {
        UniversalHashFunction::new(self.hash_results_num_bits, seed_a, seed_b)
    }

    /// A function of this family with two freshly drawn seeds. The seeds are
    /// random, so only the width of the result is known; the family keeps its
    /// width.
    pub fn construct_new_hash_function_with_random_seeds(&mut self) -> (function:
        UniversalHashFunction)
        ensures
            function.result_bits() == old(self).result_bits(),
            final(self).result_bits() == old(self).result_bits(),
    {
        let a = draw_seed(&mut self.rng);
        let b = draw_seed(&mut self.rng);
        self.construct_new_hash_function(a, b)
    }
}

/// One multiply-shift hash function: two seeds and a number of result bits.
#[derive(Clone, Copy, Debug)]
pub struct UniversalHashFunction {
    hash_results_num_bits: usize,
    hash_function_parameter_seed_a: u128,
    hash_function_parameter_seed_b: u128,
}

impl UniversalHashFunction {
    /// Number of result bits.
    pub closed spec fn result_bits(&self) -> nat {
        self.hash_results_num_bits as nat
    }

    /// The multiplier.
    pub closed spec fn seed_a(&self) -> u128 {
        self.hash_function_parameter_seed_a
    }

    /// The summand.
    pub closed spec fn seed_b(&self) -> u128 {
        self.hash_function_parameter_seed_b
    }

    /// The word `(a * val + b) mod 2^128` of this function.
    pub open spec fn word(&self, val: u64) -> nat {
        seeded_word(self.seed_a(), self.seed_b(), val)
    }

    /// The hash value of `val`: the `result_bits` high-order bits of its word.
    pub open spec fn hash_value(&self, val: u64) -> nat {
        high_bits(self.word(val), self.result_bits())
    }

    /// The hash value cut to its 64 high-order bits, where it has more.
    pub open spec fn hash64_value(&self, val: u64) -> nat {
        high_bits(self.word(val), at_most(self.result_bits(), 64))
    }

    /// The hash value cut to its 32 high-order bits, where it has more.
    pub open spec fn hash32_value(&self, val: u64) -> nat {
        high_bits(self.word(val), at_most(self.result_bits(), 32))
    }

    /// A function is its width and its two seeds, and nothing else.
    pub proof fn lemma_same_parameters(self, other: UniversalHashFunction)
        requires
            self.result_bits() == other.result_bits(),
            self.seed_a() == other.seed_a(),
            self.seed_b() == other.seed_b(),
        ensures
            self == other,
    {
    }

    /// The function with the given width and seeds. A zero multiplier is
    /// accepted.
    pub fn new(
        hash_results_num_bits: usize,
        hash_function_parameter_a: u128,
        hash_function_parameter_b: u128,
    ) -> (function: Self)
        ensures
            function.result_bits() == hash_results_num_bits,
            function.seed_a() == hash_function_parameter_a,
            function.seed_b() == hash_function_parameter_b,
    {
        UniversalHashFunction {
            hash_results_num_bits,
            hash_function_parameter_seed_a: hash_function_parameter_a,
            hash_function_parameter_seed_b: hash_function_parameter_b,
        }
    }

    /// The `bits` high-order bits of the word of `val`.
    fn word_high_bits(&self, val: u64, bits: usize) -> (kept: u128)
        ensures
            kept as nat == high_bits(self.word(val), bits as nat),
    {
        let val_u128 = val as u128;
        let product = self.hash_function_parameter_seed_a.wrapping_mul(val_u128);
        let word = product.wrapping_add(self.hash_function_parameter_seed_b);
        proof {
            lemma_pow2_128();
            let a = self.hash_function_parameter_seed_a as int;
            let b = self.hash_function_parameter_seed_b as int;
            let range = pow2(128) as int;
            assert(product as int == (a * (val as int)) % range);
            assert(word as int == (product as int + b) % range) by {
                if product as int + b >= range {
                    lemma_fundamental_div_mod_converse(product as int + b, range, 1, product as int + b - range);
                } else {
                    lemma_small_mod((product as int + b) as nat, range as nat);
                }
            }
            lemma_add_mod_noop(a * (val as int), b, range);
            lemma_small_mod(b as nat, range as nat);
            assert(word as nat == self.word(val));
        }
        if bits >= WORD_BITS {
            word
        } else if bits == 0 {
            proof {
                lemma_pow2_128();
                lemma_basic_div(word as int, pow2(128) as int);
            }
            0
        } else {
            let shift: u128 = (WORD_BITS - bits) as u128;
            proof {
                lemma_u128_shr_is_div(word, shift);
            }
            word >> shift
        }
    }

    /// Hashes `val`.
    pub fn hash(&self, val: u64) -> (hashed: u128)
        ensures
            hashed as nat == self.hash_value(val),
    {
        self.hash128(val)
    }

    /// Hashes `val` to the high-order `result_bits` bits of its word.
    pub fn hash128(&self, val: u64) -> (hashed: u128)
        ensures
            hashed as nat == self.hash_value(val),
    {
        self.word_high_bits(val, self.hash_results_num_bits)
    }

    /// The hash of `val` as a 64-bit value: its 64 high-order bits where the
    /// function keeps more than 64, the whole hash value otherwise.
    pub fn hash64(&self, val: u64) -> (hashed: u64)
        ensures
            hashed as nat == self.hash64_value(val),
            self.result_bits() <= 64 ==> hashed as nat == self.hash_value(val),
    {
        let bits = if self.hash_results_num_bits <= 64 {
            self.hash_results_num_bits
        } else {
            64
        };
        let kept = self.word_high_bits(val, bits);
        proof {
            lemma_pow2_128();
            lemma_mod_bound(
                (self.seed_a() as nat * val as nat + self.seed_b() as nat) as int,
                pow2(128) as int,
            );
            lemma_high_bits_bound(self.word(val), bits as nat);
            if bits < 64 {
                lemma_pow2_strictly_increases(bits as nat, 64);
            }
        }
        kept as u64
    }

    /// The hash of `val` as a 32-bit value: its 32 high-order bits where the
    /// function keeps more than 32, the whole hash value otherwise.
    pub fn hash32(&self, val: u64) -> (hashed: u32)
        ensures
            hashed as nat == self.hash32_value(val),
            self.result_bits() <= 32 ==> hashed as nat == self.hash_value(val),
    {
        let bits = if self.hash_results_num_bits <= 32 {
            self.hash_results_num_bits
        } else {
            32
        };
        let kept = self.word_high_bits(val, bits);
        proof {
            lemma_pow2_128();
            lemma2_to64();
            lemma_mod_bound(
                (self.seed_a() as nat * val as nat + self.seed_b() as nat) as int,
                pow2(128) as int,
            );
            lemma_high_bits_bound(self.word(val), bits as nat);
            if bits < 32 {
                lemma_pow2_strictly_increases(bits as nat, 32);
            }
        }
        kept as u32
    }
}

} // verus!
