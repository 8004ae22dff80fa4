use crate::types::PollOptions;
use sha2::{Digest, Sha256};
use vstd::prelude::*;

verus! {

/// The lowercase hexadecimal text of the SHA-256 digest of `seed`.
pub uninterp spec fn digest_hex_of(seed: Seq<u8>) -> Seq<char>;

/// Relies on `sha2::Sha256::digest` for the digest of `seed`, and on the
/// `LowerHex` formatting of its output for the text.
#[verifier::external_body]
fn sha256_hex(seed: &[u8]) -> (r: String)
    ensures
        r@ == digest_hex_of(seed@),
{
    format!("{:x}", Sha256::digest(seed))
}

/// The character of the decimal digit `d`.
pub open spec fn digit_char(d: nat) -> char {
    if d == 0 {
        '0'
    } else if d == 1 {
        '1'
    } else if d == 2 {
        '2'
    } else if d == 3 {
        '3'
    } else if d == 4 {
        '4'
    } else if d == 5 {
        '5'
    } else if d == 6 {
        '6'
    } else if d == 7 {
        '7'
    } else if d == 8 {
        '8'
    } else {
        '9'
    }
}

/// The decimal text of `n`, without leading zeros.
pub open spec fn decimal(n: nat) -> Seq<char>
    decreases n,
{
    if n < 10 {
        seq![digit_char(n)]
    } else {
        decimal(n / 10) + seq![digit_char(n % 10)]
    }
}

/// Relies on the `Display` of `u64`, which writes the decimal text.
#[verifier::external_body]
fn decimal_text(n: u64) -> (r: String)
    ensures
        r@ == decimal(n as nat),
{
    n.to_string()
}

/// The identifier of a new proposal, drawn from the random bytes `seed`.
pub fn proposal_id_from_seed(seed: &Vec<u8>) -> (r: String)
    ensures
        r@ == digest_hex_of(seed@),
{
    sha256_hex(seed.as_slice())
}

/// The identifier of the option at `index` of a poll whose options share
/// `base`: `base`, a dash, and the index in decimal.
pub open spec fn option_id_text(base: Seq<char>, index: nat) -> Seq<char> {
    base + seq!['-'] + decimal(index)
}

/// Builds the identifier of the option at `index`; see `option_id_text`.
pub fn option_id(base: &String, index: u64) -> (r: String)
    ensures
        r@ == option_id_text(base@, index as nat),
{
    proof {
        reveal_strlit("-");
    }
    let digits = decimal_text(index);
    let dashed = base.clone().concat("-");
    let r = dashed.concat(digits.as_str());
    assert(r@ =~= option_id_text(base@, index as nat));
    r
}

/// The options of a new poll: one for each text of `options`, in order, each
/// without votes and identified by `base` and its position.
pub fn build_poll_options(base: &String, options: &Vec<String>) -> (r: Vec<PollOptions>)
    ensures
        r@.len() == options@.len(),
        forall|i: int|
            0 <= i < r@.len() ==> {
                &&& (#[trigger] r@[i]).option@ == options@[i]@
                &&& r@[i].id@ == option_id_text(base@, i as nat)
                &&& r@[i].poll_approved_votes == 0
                &&& r@[i].approved_users@.len() == 0
            },
{
    let mut r: Vec<PollOptions> = Vec::new();
    let mut i: usize = 0;
    while i < options.len()
        invariant
            i <= options@.len(),
            r@.len() == i,
            forall|j: int|
                0 <= j < i ==> {
                    &&& (#[trigger] r@[j]).option@ == options@[j]@
                    &&& r@[j].id@ == option_id_text(base@, j as nat)
                    &&& r@[j].poll_approved_votes == 0
                    &&& r@[j].approved_users@.len() == 0
                },
        decreases options@.len() - i,
    {
        let id = option_id(base, i as u64);
        r.push(
            PollOptions {
                option: options[i].clone(),
                id,
                poll_approved_votes: 0,
                approved_users: Vec::new(),
            },
        );
        i += 1;
    }
    r
}

} // verus!
