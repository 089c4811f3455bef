//! Build ids: the number that tells one build from the next. A build
//! writes its id down in decimal digits; the server reads it from there.

use vstd::prelude::*;
use crate::decimal::{decimal, lemma_parse_reads_what_decimal_writes, parse_u128, parsed_u128, to_decimal};

verus! {

/// Where the build id of the backend is written down.
pub const BACKEND_BUILD_ID_PATH: &'static str = "backend/private/build_id";

/// Where the build id of the frontend is written down.
pub const FRONTEND_BUILD_ID_PATH: &'static str = "frontend/pkg/build_id";

/// The bits of an id that tell the kind of identifier it is.
pub const KIND_BITS: u128 = 0x0000_0000_0000_f000_c000_0000_0000_0000;

/// What those bits hold in an identifier that was drawn at random.
pub const RANDOM_KIND: u128 = 0x0000_0000_0000_4000_8000_0000_0000_0000;

/// `id` is marked as an identifier that was drawn at random.
pub open spec fn is_random_id(id: u128) -> bool {
    id & KIND_BITS == RANDOM_KIND
}

/// The build id that `text` holds: the number it writes, and zero where
/// it writes none.
pub open spec fn build_id_of(text: Seq<char>) -> u128 {
    match parsed_u128(text) {
        Some(id) => id,
        None => 0,
    }
}

/// Reads a build id as the server does: what cannot be read counts as the
/// build id zero.
pub fn parse_build_id(text: &str) -> (id: u128)
    ensures
        id == build_id_of(text@),
{
    match parse_u128(text) {
        Some(id) => id,
        None => 0,
    }
}

/// The build id that the server goes by, given what the file of the build
/// id held; `None` stands for a file that could not be read.
pub fn backend_build_id(file: Option<&str>) -> (id: u128)
    ensures
        id == match file {
            Some(text) => build_id_of(text@),
            None => 0,
        },
{
    match file {
        Some(text) => parse_build_id(text),
        None => 0,
    }
}

/// Writes a build id down as a build does.
pub fn build_id_text(id: u128) -> (text: String)
    ensures
        text@ == decimal(id as nat),
        build_id_of(text@) == id,
{
    proof {
        lemma_parse_reads_what_decimal_writes(id);
    }
    to_decimal(id)
}

/// Draws a new identifier at random. This calls `Uuid::new_v4` of the
/// `uuid` crate and takes the identifier as one number with
/// `Uuid::as_u128`. The crate fills all bits from the random source of the
/// operating system but those that tell the kind of identifier, which it
/// sets; nothing else is known of the number. It gives up where the
/// operating system has no random bytes to give.
#[verifier::external_body]
fn random_id() -> (id: u128)
    ensures
        is_random_id(id),
{
    uuid::Uuid::new_v4().as_u128()
}

/// Makes the build id of a new build of the backend: an identifier drawn
/// at random, in decimal digits.
pub fn generate_backend_build_id() -> (text: String)
    ensures
        exists|id: u128| is_random_id(id) && text@ == decimal(id as nat) && build_id_of(text@) == id,
{
    let id = random_id();
    build_id_text(id)
}

} // verus!
