//! Reading the creators out of a token-metadata account, as the NFT-holder
//! discount needs them.

use metaplex_token_metadata::solana_program::program_error::ProgramError;
use metaplex_token_metadata::state::{Key as MetadataTag, Metadata, MAX_METADATA_LEN};
use metaplex_token_metadata::utils::try_from_slice_checked;
use vstd::prelude::*;

use crate::error::ErrorCode;
use crate::key::Key;

verus! {

/// Byte length of a token-metadata account (the token-metadata crate's `MAX_METADATA_LEN`).
pub const METADATA_ACCOUNT_LEN: usize = 679;

/// Tag byte of an uninitialized token-metadata account.
pub const TAG_UNINITIALIZED: u8 = 0;

/// Tag byte of a metadata account, version 1.
pub const TAG_METADATA_V1: u8 = 4;

/// What the token-metadata decoder makes of an account's bytes: its error when it
/// refuses them, otherwise the `creators` field, each creator given by its address.
pub uninterp spec fn decoded_metadata_creators(data: Seq<u8>) -> Result<Option<Seq<Seq<u8>>>, ProgramError>;

/// The addresses of a list of keys.
pub open spec fn key_views(keys: Seq<Key>) -> Seq<Seq<u8>> {
    keys.map_values(|k: Key| k@)
}

/// The creator list a decoded outcome holds, taken by address.
pub open spec fn creators_view(creators: Option<Vec<Key>>) -> Option<Seq<Seq<u8>>> {
    match creators {
        Some(v) => Some(key_views(v@)),
        None => None,
    }
}

/// A decoding outcome, the creators taken by address.
pub open spec fn decoded_view(r: Result<Option<Vec<Key>>, ProgramError>) -> Result<Option<Seq<Seq<u8>>>, ProgramError> {
    match r {
        Ok(cs) => Ok(creators_view(cs)),
        Err(e) => Err(e),
    }
}

/// Decodes `data` with `metaplex_token_metadata::utils::try_from_slice_checked::<Metadata>`,
/// asking for the `MetadataV1` tag and the size `MAX_METADATA_LEN` (the decoding that
/// `Metadata::from_account_info` applies to an account's data), and hands out the
/// addresses of the creators that the metadata lists.
/// Claimed: the outcome, error included, depends on the bytes alone
/// (`decoded_metadata_creators`); the decoder refuses a buffer whose length is not
/// `MAX_METADATA_LEN`, or whose first byte is neither the `Uninitialized` nor the
/// `MetadataV1` tag. The decoder reads the first byte before checking the length, so an
/// empty buffer is excluded.
#[verifier::external_body]
fn decode_metadata_creators(data: &[u8]) -> (r: Result<Option<Vec<Key>>, ProgramError>)
    requires
        data@.len() > 0,
    ensures
        decoded_metadata_creators(data@) == decoded_view(r),
        data@.len() != METADATA_ACCOUNT_LEN || (data@[0] != TAG_UNINITIALIZED && data@[0]
            != TAG_METADATA_V1) ==> r is Err,
{
    let md: Metadata = try_from_slice_checked(data, MetadataTag::MetadataV1, MAX_METADATA_LEN)?;
    Ok(md.data.creators.map(|cs| cs.iter().map(|c| Key { bytes: c.address.to_bytes() }).collect()))
}

/// Whether a decoded creator list names `verifier`; the decoder's error when it failed.
pub open spec fn creator_check(decoded: Result<Option<Seq<Seq<u8>>>, ProgramError>, verifier: Seq<u8>) -> Result<bool, ErrorCode> {
    match decoded {
        Err(e) => Err(ErrorCode::MetadataUnreadable(e)),
        Ok(None) => Ok(false),
        Ok(Some(cs)) => Ok(cs.contains(verifier)),
    }
}

/// Whether `creators` is present and lists `verifier`.
pub fn creators_include(creators: &Option<Vec<Key>>, verifier: &Key) -> (r: bool)
    ensures
        r == (creators_view(*creators) matches Some(cs) && cs.contains(verifier@)),
{
    match creators {
        None => false,
        Some(cs) => {
            assert(creators_view(*creators) == Some(key_views(cs@)));
            let n = cs.len();
            let mut i: usize = 0;
            while i < n
                invariant
                    n == cs@.len(),
                    i <= n,
                    creators_view(*creators) == Some(key_views(cs@)),
                    forall|j: int| 0 <= j < i ==> cs@[j]@ != verifier@,
                decreases n - i,
            {
                let found = cs[i].same_as(verifier);
                proof {
                    crate::key::lemma_key_view_injective(cs@[i as int], *verifier);
                }
                if found {
                    assert(key_views(cs@)[i as int] == verifier@);
                    assert(key_views(cs@).contains(verifier@));
                    return true;
                }
                i = i + 1;
            }
            assert(!key_views(cs@).contains(verifier@)) by {
                if key_views(cs@).contains(verifier@) {
                    let j = choose|j: int| 0 <= j < key_views(cs@).len() && key_views(cs@)[j] == verifier@;
                    assert(cs@[j]@ == verifier@);
                }
            }
            false
        }
    }
}

/// Decodes the token-metadata account `data` and tells whether its creators include
/// `verifier`.
pub fn metadata_lists_creator(data: &[u8], verifier: &Key) -> (r: Result<bool, ErrorCode>)
    requires
        data@.len() > 0,
    ensures
        r == creator_check(decoded_metadata_creators(data@), verifier@),
{
    match decode_metadata_creators(data) {
        Err(e) => Err(ErrorCode::MetadataUnreadable(e)),
        Ok(creators) => Ok(creators_include(&creators, verifier)),
    }
}

} // verus!
