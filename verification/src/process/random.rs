//! Where random choices come from. Key and password generation take the
//! source as an argument, so that it can be chosen; `SystemRandom` is the
//! one to use outside tests.

use rand::seq::SliceRandom;
use vstd::prelude::*;

verus! {

/// A source of random choices. What is asked of an implementation is only
/// what holds of every outcome; how likely each outcome is, is its own
/// business, and for keys it has to be a secure one.
pub trait RandomSource {
    /// One byte of `set`, or nothing where `set` is empty.
    fn pick(&mut self, set: &[u8]) -> (picked: Option<u8>)
        ensures
            match picked {
                Some(byte) => set@.contains(byte),
                None => set@.len() == 0,
            },
    ;

    /// Brings `items` into a random order.
    fn shuffle(&mut self, items: &mut Vec<u8>)
        ensures
            final(items)@.to_multiset() == old(items)@.to_multiset(),
    ;

    /// The 32 bytes of a fresh Ed25519 secret key.
    fn secret(&mut self) -> (secret: [u8; 32])
    ;
}

/// The random sources of the system: the thread's generator for passwords,
/// the operating system's for secret keys.
#[derive(Clone, Copy, Debug, Default)]
pub struct SystemRandom;

/// `SliceRandom::choose` of the `rand` crate on the thread's generator.
/// Trusted: an empty slice gives nothing, any other gives one of its items.
#[verifier::external_body]
fn choose_byte(set: &[u8]) -> (picked: Option<u8>)
    ensures
        match picked {
            Some(byte) => set@.contains(byte),
            None => set@.len() == 0,
        },
{
    set.choose(&mut rand::thread_rng()).copied()
}

/// `SliceRandom::shuffle` of the `rand` crate on the thread's generator.
/// Trusted: the items are the same, each as often as before.
#[verifier::external_body]
fn shuffle_bytes(items: &mut Vec<u8>)
    ensures
        final(items)@.to_multiset() == old(items)@.to_multiset(),
{
    items.shuffle(&mut rand::thread_rng())
}

/// `SigningKey::generate` of `ed25519-dalek` on the operating system's
/// random source. Nothing is promised of the 32 secret bytes.
#[verifier::external_body]
fn fresh_secret() -> (secret: [u8; 32])
{
    ed25519_dalek::SigningKey::generate(&mut rand::rngs::OsRng).to_bytes()
}

impl RandomSource for SystemRandom {
    fn pick(&mut self, set: &[u8]) -> (picked: Option<u8>) {
        choose_byte(set)
    }

    fn shuffle(&mut self, items: &mut Vec<u8>) {
        shuffle_bytes(items)
    }

    fn secret(&mut self) -> (secret: [u8; 32]) {
        fresh_secret()
    }
}

} // verus!
