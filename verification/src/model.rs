use vstd::prelude::*;

verus! {

/// Request body for minting an NFT.
pub struct MintNftRequest {
    pub owner_address: String,
    pub token_name: String,
    pub token_uri: String,
    pub file_path: String,
}

/// Raw bytes of a token image file.
pub struct TokenFileForm {
    pub file: Vec<u8>,
}

/// Outcome reported by the upload transport: `token_uri` is present
/// exactly when the upload succeeded.
pub struct ApiResponse {
    pub success: bool,
    pub message: String,
    pub token_uri: Option<String>,
}

/// Metadata of one minted token, assembled from contract query results.
pub struct NftMetadata {
    pub token_id: String,
    pub owner_address: String,
    pub token_name: String,
    pub token_uri: String,
}

/// Body of a bare upload reply that carries only the content URI.
pub struct UploadResponse {
    pub token_uri: String,
}

} // verus!
