use vstd::prelude::*;
use vstd::utf8::encode_utf8;

verus! {

/// The fewest bytes a wallet secret may have.
pub const MIN_SECRET_BYTES: usize = 10;

/// A secret is too short when its UTF-8 encoding has fewer than
/// [`MIN_SECRET_BYTES`] bytes.
pub open spec fn short_secret(secret: Seq<char>) -> bool {
    encode_utf8(secret).len() < MIN_SECRET_BYTES
}

/// Whether `secret` is too short to protect a wallet.
pub fn secret_is_too_short(secret: &String) -> (r: bool)
    ensures
        r == short_secret(secret@),
        r <==> encode_utf8(secret@).len() < 10,
{
    secret.as_str().as_bytes().len() < MIN_SECRET_BYTES
}

} // verus!
