//! The proof that the order of the Ristretto group is prime: a ladder of
//! primes, each shown to be prime by an element whose order is the prime
//! below it.

pub mod fifth;
pub mod first;
pub mod fourth;
pub mod order;
pub mod second;
pub mod seventh;
pub mod sixth;
pub mod third;
