//! Short codes: fixed-length identifiers over a fixed alphabet, drawn at
//! random.

use rand::Rng;
use vstd::prelude::*;
use vstd::string::*;

verus! {

/// The number of characters of a short code.
pub const CODE_LENGTH: usize = 8;

/// The number of characters to draw from.
pub const ALPHABET_SIZE: u32 = 62;

/// The characters a short code is made of: digits and ASCII letters.
pub open spec fn alphabet() -> Seq<char> {
    "0123456789ABCDEFGHIJKLMNOPQRSTUVWXYZabcdefghijklmnopqrstuvwxyz"@
}

/// A well-formed short code: `CODE_LENGTH` characters of the alphabet.
pub open spec fn is_code(text: Seq<char>) -> bool {
    &&& text.len() == CODE_LENGTH
    &&& forall|i: int| 0 <= i < text.len() ==> alphabet().contains(#[trigger] text[i])
}

/// Draws a number from the thread-local generator of `rand`.
///
/// `Rng::gen_range` over the half-open range `low..high` returns a value
/// inside the range; it panics on an empty range, which `requires` leaves out.
/// Nothing is claimed about which value is drawn. `thread_rng` seeds the
/// generator from the operating system when a thread first uses it, and
/// gives up where the system has no randomness to offer.
#[verifier::external_body]
pub(crate) fn random_in_range(low: u32, high: u32) -> (drawn: u32)
    requires
        low < high,
    ensures
        low <= drawn < high,
{
    rand::thread_rng().gen_range(low..high)
}

/// A fresh random short code.
pub fn generate_id() -> (id: String)
    ensures
        is_code(id@),
{
    let letters: &str = "0123456789ABCDEFGHIJKLMNOPQRSTUVWXYZabcdefghijklmnopqrstuvwxyz";
    proof {
        reveal_strlit("0123456789ABCDEFGHIJKLMNOPQRSTUVWXYZabcdefghijklmnopqrstuvwxyz");
    }
    let mut id: String = String::new();
    let mut drawn: usize = 0;
    while drawn < CODE_LENGTH
        invariant
            drawn <= CODE_LENGTH,
            letters@ == alphabet(),
            letters@.len() == ALPHABET_SIZE,
            letters.is_ascii(),
            id@.len() == drawn,
            forall|i: int| 0 <= i < id@.len() ==> alphabet().contains(#[trigger] id@[i]),
        decreases CODE_LENGTH - drawn,
    {
        let pick: usize = random_in_range(0, ALPHABET_SIZE) as usize;
        let letter: &str = letters.substring_ascii(pick, pick + 1);
        let ghost before = id@;
        id.append(letter);
        proof {
            assert(letter@ =~= seq![alphabet()[pick as int]]);
            assert(id@ =~= before.push(alphabet()[pick as int]));
            assert forall|i: int| 0 <= i < id@.len() implies alphabet().contains(
                #[trigger] id@[i],
            ) by {
                if i < before.len() {
                    assert(id@[i] == before[i]);
                }
            }
        }
        drawn = drawn + 1;
    }
    id
}

} // verus!
