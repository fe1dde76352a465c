//! The metadata convention of the position token.
//!
//! The human-readable name is a fixed prefix followed by the first four and
//! last four characters of the mint's base-58 address, joined by an ellipsis;
//! the symbol is a fixed constant; the URI is a fixed base path followed by
//! the pool address and the position address. The URI is proved to stay under
//! 128 bytes for every 32-byte address.

use vstd::prelude::*;

verus! {

/// The fixed textual prefix of the token name.
pub open spec fn spec_name_prefix() -> Seq<char> {
    "OWP"@
}

/// The fixed textual prefix of the token name.
pub fn metadata_name_prefix() -> (r: &'static str)
    ensures
        r@ == spec_name_prefix(),
{
    "OWP"
}

/// The fixed token symbol.
pub open spec fn spec_metadata_symbol() -> Seq<char> {
    "OWP"@
}

/// The fixed token symbol.
pub fn metadata_symbol() -> (r: &'static str)
    ensures
        r@ == spec_metadata_symbol(),
{
    "OWP"
}

/// The fixed base path of the metadata URI; 33 characters.
pub open spec fn spec_metadata_uri_base() -> Seq<char> {
    "https://position-nft.orca.so/meta"@
}

/// The fixed base path of the metadata URI.
pub fn metadata_uri_base() -> (r: &'static str)
    ensures
        r@ == spec_metadata_uri_base(),
{
    "https://position-nft.orca.so/meta"
}

/// The base-58 rendering of a 32-byte ledger address.
pub uninterp spec fn base58_of(key: Seq<u8>) -> Seq<char>;

/// Relies on the base-58 `Display` of the ledger's address type
/// (`solana_program::pubkey::Pubkey`): the rendering is a function of the 32
/// address bytes alone, drawn from the base-58 alphabet (so ASCII), and for a
/// 32-byte input between 32 characters (an all-zero address renders one `1`
/// per byte) and the declared maximum of 44 characters long.
#[verifier::external_body]
fn base58_address(key: &Vec<u8>) -> (r: String)
    requires
        key@.len() == 32,
    ensures
        r@ == base58_of(key@),
        r.is_ascii(),
        32 <= r@.len() <= 44,
{
    let mut bytes = [0u8; 32];
    bytes.copy_from_slice(key.as_slice());
    solana_program::pubkey::Pubkey::new_from_array(bytes).to_string()
}

/// The token name for a mint whose base-58 address reads `addr`: the prefix,
/// a space, the first four characters, an ellipsis, the last four.
pub open spec fn spec_position_name(addr: Seq<char>) -> Seq<char> {
    spec_name_prefix() + " "@ + addr.subrange(0, 4) + "..."@ + addr.subrange(
        addr.len() - 4,
        addr.len() as int,
    )
}

/// The metadata URI for a position: the base path, the pool's base-58
/// address and the position's base-58 address, separated by slashes.
pub open spec fn spec_position_uri(pool_addr: Seq<char>, position_addr: Seq<char>) -> Seq<char> {
    spec_metadata_uri_base() + "/"@ + pool_addr + "/"@ + position_addr
}

/// Builds the metadata of a position token — `(name, symbol, uri)` — from
/// the 32-byte addresses of the position mint, the position record and the
/// pool. The URI provably stays under 128 bytes.
pub fn build_position_token_metadata(
    position_mint_key: &Vec<u8>,
    position_key: &Vec<u8>,
    whirlpool_key: &Vec<u8>,
) -> (r: (String, String, String))
    requires
        position_mint_key@.len() == 32,
        position_key@.len() == 32,
        whirlpool_key@.len() == 32,
    ensures
        r.0@ == spec_position_name(base58_of(position_mint_key@)),
        r.1@ == spec_metadata_symbol(),
        r.2@ == spec_position_uri(base58_of(whirlpool_key@), base58_of(position_key@)),
        r.2@.len() < 128,
{
    let mint_address = base58_address(position_mint_key);
    let len: usize = mint_address.as_str().unicode_len();
    let head = mint_address.as_str().substring_ascii(0, 4);
    let tail = mint_address.as_str().substring_ascii(len - 4, len);
    let mut name = String::from_str(metadata_name_prefix());
    name.append(" ");
    name.append(head);
    name.append("...");
    name.append(tail);
    proof {
        assert(name@ =~= spec_position_name(base58_of(position_mint_key@)));
    }

    let symbol = String::from_str(metadata_symbol());

    let pool_address = base58_address(whirlpool_key);
    let position_address = base58_address(position_key);
    let mut uri = String::from_str(metadata_uri_base());
    uri.append("/");
    uri.append(pool_address.as_str());
    uri.append("/");
    uri.append(position_address.as_str());
    proof {
        assert(uri@ =~= spec_position_uri(base58_of(whirlpool_key@), base58_of(position_key@)));
        reveal_strlit("https://position-nft.orca.so/meta");
        reveal_strlit("/");
        assert(uri@.len() < 128);
    }

    (name, symbol, uri)
}

} // verus!
