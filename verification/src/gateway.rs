use vstd::prelude::*;
use vstd::string::StringSliceAdditionalSpecFns;
use vstd::utf8::encode_utf8;

use crate::address::{address_bytes_of, valid_chain_address, ChainAddress};
use crate::decimal::{dec_str_of, dec_val, parse_token_id, u64_to_dec_string, valid_token_id};
use crate::error::{AppError, SignatureError};
use crate::hexfmt::hex_chars_of;
use crate::model::{ApiResponse, MintNftRequest, NftMetadata};
use crate::search::{contains_seq, contains_subslice};

verus! {

/// The next outside step the mint flow asks its driver to perform. The
/// driver performs the step and hands the outcome to the next stage; a
/// `Finish` carries the response and asks for nothing further.
pub enum MintAction {
    /// Sign this payload with the configured secret.
    RunSign { payload: Vec<u8> },
    /// Upload this staged file to the content store.
    RunUpload { file_path: String },
    /// Submit the contract's mint call for this owner, name and content URI.
    RunMintCall { owner: ChainAddress, token_name: String, token_uri: String },
    /// The flow is over; answer the client with this result.
    Finish { result: Result<NftMetadata, AppError> },
}

/// The payload whose signature authorizes a mint: the owner address text,
/// a colon, and the token name, as bytes.
pub open spec fn mint_sign_payload(req: MintNftRequest) -> Seq<u8> {
    encode_utf8(req.owner_address@) + seq![58u8] + encode_utf8(req.token_name@)
}

/// Validates a mint request. A malformed owner address ends the flow with a
/// client error before any signing, upload or contract step is requested;
/// a well-formed one asks for the signing step.
pub fn mint_begin(req: &MintNftRequest) -> (r: MintAction)
    ensures
        !valid_chain_address(encode_utf8(req.owner_address@)) ==> (r matches MintAction::Finish {
            result,
        } && result matches Err(e) && e matches AppError::BadRequest(m) && m@
            == "Invalid owner address"@),
        valid_chain_address(encode_utf8(req.owner_address@)) ==> (r matches MintAction::RunSign {
            payload,
        } && payload@ == mint_sign_payload(*req)),
{
    match ChainAddress::parse(req.owner_address.as_str()) {
        Some(_) => {
            let mut payload = req.owner_address.as_str().as_bytes_vec();
            payload.push(58);
            let mut name_bytes = req.token_name.as_str().as_bytes_vec();
            payload.append(&mut name_bytes);
            proof {
                assert(payload@ =~= mint_sign_payload(*req));
            }
            MintAction::RunSign { payload }
        },
        None => MintAction::Finish {
            result: Err(AppError::BadRequest(String::from_str("Invalid owner address"))),
        },
    }
}

/// Carries the flow past the signing step. A signing failure ends the flow
/// with the converted error; a signature asks for the upload step. The
/// signature itself is a placeholder authorization and is not submitted.
pub fn mint_after_sign(req: &MintNftRequest, signed: Result<String, SignatureError>) -> (r:
    MintAction)
    ensures
        signed matches Err(e) ==> (r matches MintAction::Finish { result } && result matches Err(a)
            && (e matches SignatureError::HexDecodeError(_) ==> (a matches AppError::BadRequest(m)
            && m@ == "Invalid hex format"@)) && (e matches SignatureError::InvalidKey ==> (a
            matches AppError::GenericError(m) && m@ == "An error occurred while signing"@))),
        signed is Ok ==> (r matches MintAction::RunUpload { file_path } && file_path@
            == req.file_path@),
{
    match signed {
        Ok(_) => MintAction::RunUpload { file_path: req.file_path.clone() },
        Err(e) => MintAction::Finish { result: Err(AppError::from_signature_error(e)) },
    }
}

/// Carries the flow past the upload step. An upload that did not succeed,
/// or reported no content URI, ends the flow with `UploadFailed` — the
/// contract call is never requested for a failed upload. A successful one
/// asks for the mint call with the uploaded URI.
pub fn mint_after_upload(req: &MintNftRequest, outcome: &ApiResponse) -> (r: MintAction)
    ensures
        !(outcome.success && outcome.token_uri is Some) ==> (r matches MintAction::Finish {
            result,
        } && result matches Err(e) && e matches AppError::UploadFailed(m) && m@
            == outcome.message@),
        outcome.token_uri matches Some(u) ==> ((outcome.success && valid_chain_address(
            encode_utf8(req.owner_address@),
        )) ==> (r matches MintAction::RunMintCall { owner, token_name, token_uri } && owner@
            == address_bytes_of(encode_utf8(req.owner_address@)) && owner.wf() && token_name@
            == req.token_name@ && token_uri@ == u@)),
        outcome.success && outcome.token_uri is Some && !valid_chain_address(
            encode_utf8(req.owner_address@),
        ) ==> (r matches MintAction::Finish { result } && result matches Err(e) && e
            matches AppError::BadRequest(m) && m@ == "Invalid owner address"@),
{
    if !outcome.success {
        return MintAction::Finish {
            result: Err(AppError::UploadFailed(outcome.message.clone())),
        };
    }
    match &outcome.token_uri {
        None => MintAction::Finish {
            result: Err(AppError::UploadFailed(outcome.message.clone())),
        },
        Some(u) => {
            match ChainAddress::parse(req.owner_address.as_str()) {
                Some(owner) => MintAction::RunMintCall {
                    owner,
                    token_name: req.token_name.clone(),
                    token_uri: u.clone(),
                },
                None => MintAction::Finish {
                    result: Err(AppError::BadRequest(String::from_str("Invalid owner address"))),
                },
            }
        },
    }
}

/// Ends the mint flow. A successful contract call yields the metadata of
/// the fresh token: its decimal id, the request's owner and name, and the
/// uploaded URI. A failed call is an internal error.
pub fn mint_finish(req: &MintNftRequest, token_uri: String, minted: Result<u64, String>) -> (r:
    Result<NftMetadata, AppError>)
    ensures
        minted matches Ok(id) ==> (r matches Ok(m) && m.token_id@ == dec_str_of(id as int)
            && m.owner_address@ == req.owner_address@ && m.token_name@ == req.token_name@
            && m.token_uri@ == token_uri@),
        minted matches Err(e) ==> (r matches Err(a) && a matches AppError::InternalServerError(m)
            && m@ == "Failed to mint NFT: "@ + e@),
{
    match minted {
        Ok(id) => Ok(
            NftMetadata {
                token_id: u64_to_dec_string(id),
                owner_address: req.owner_address.clone(),
                token_name: req.token_name.clone(),
                token_uri,
            },
        ),
        Err(e) => Err(
            AppError::InternalServerError(
                String::from_str("Failed to mint NFT: ").concat(e.as_str()),
            ),
        ),
    }
}

/// The revert text with which the contract reports a missing token.
pub open spec fn nonexistent_token_pattern() -> Seq<u8> {
    "ERC721: Query for nonexistent token".spec_bytes()
}

/// Classifies the rendered error of a failed details query. The transport
/// collapses contract reverts into opaque text, so the gateway recovers the
/// "no such token" case by the contract's fixed revert text; everything
/// else is an opaque retrieval failure.
pub fn classify_query_error(msg: &str) -> (r: AppError)
    ensures
        contains_seq(msg.spec_bytes(), nonexistent_token_pattern()) ==> (r
            matches AppError::NotFound(m) && m@ == "Token does not exist"@),
        !contains_seq(msg.spec_bytes(), nonexistent_token_pattern()) ==> (r
            matches AppError::InternalServerError(m) && m@ == "Failed to retrieve NFT details"@),
{
    let pattern = "ERC721: Query for nonexistent token";
    if contains_subslice(msg.as_bytes(), pattern.as_bytes()) {
        AppError::NotFound(String::from_str("Token does not exist"))
    } else {
        AppError::InternalServerError(String::from_str("Failed to retrieve NFT details"))
    }
}

/// The step that the details-by-id use-case asks for after validation.
pub enum DetailsAction {
    /// Query the contract for this token id.
    RunDetailsQuery { token_id: u64 },
    /// The id text is malformed; answer with this error without querying.
    Reject { error: AppError },
}

/// Validates a token id text. A malformed id — the empty text, a non-digit,
/// or a value beyond the contract's 64-bit id width — is rejected before
/// any contract query is requested.
pub fn token_details_begin(token_id: &str) -> (r: DetailsAction)
    ensures
        valid_token_id(token_id.spec_bytes()) ==> (r matches DetailsAction::RunDetailsQuery {
            token_id: v,
        } && v == dec_val(token_id.spec_bytes())),
        !valid_token_id(token_id.spec_bytes()) ==> (r matches DetailsAction::Reject { error }
            && error matches AppError::BadRequest(m) && m@ == "Invalid token ID"@),
{
    match parse_token_id(token_id) {
        Some(v) => DetailsAction::RunDetailsQuery { token_id: v },
        None => DetailsAction::Reject {
            error: AppError::BadRequest(String::from_str("Invalid token ID")),
        },
    }
}

/// What the contract reports about one token: its name, owner and URI.
pub struct TokenDetails {
    pub token_name: String,
    pub owner: ChainAddress,
    pub token_uri: String,
}

/// Ends the details-by-id use-case. A successful query yields the token's
/// metadata, with the owner rendered as lowercase hex and the id in its
/// canonical decimal form; a failed one is classified by its revert text.
pub fn token_details_finish(token_id: u64, outcome: Result<TokenDetails, String>) -> (r: Result<
    NftMetadata,
    AppError,
>)
    requires
        outcome matches Ok(d) ==> d.owner.wf(),
    ensures
        outcome matches Ok(d) ==> (r matches Ok(m) && m.token_id@ == dec_str_of(token_id as int)
            && m.owner_address@ == seq!['0', 'x'] + hex_chars_of(d.owner@) && m.token_name@
            == d.token_name@ && m.token_uri@ == d.token_uri@),
        outcome matches Err(msg) ==> (r matches Err(e) && (contains_seq(
            encode_utf8(msg@),
            nonexistent_token_pattern(),
        ) ==> (e matches AppError::NotFound(m) && m@ == "Token does not exist"@)) && (
        !contains_seq(encode_utf8(msg@), nonexistent_token_pattern()) ==> (e
            matches AppError::InternalServerError(m) && m@ == "Failed to retrieve NFT details"@))),
{
    match outcome {
        Ok(d) => Ok(
            NftMetadata {
                token_id: u64_to_dec_string(token_id),
                owner_address: d.owner.to_hex_string(),
                token_name: d.token_name,
                token_uri: d.token_uri,
            },
        ),
        Err(msg) => Err(classify_query_error(msg.as_str())),
    }
}

/// The step that the list-by-owner use-case asks for after validation.
pub enum ListAction {
    /// Query the contract for the token ids this filter owns; the zero
    /// filter is the sentinel that lists every token.
    RunListQuery { owner_filter: ChainAddress },
    /// The owner text is malformed; answer with this error without querying.
    Reject { error: AppError },
}

/// Whether a list request asks for every token: the owner segment is
/// absent or is the literal "0".
pub open spec fn list_all_requested(owner: Option<String>) -> bool {
    match owner {
        Option::None => true,
        Option::Some(s) => s@ == "0"@,
    }
}

/// Whether `s` is the literal "0".
fn is_zero_literal(s: &String) -> (r: bool)
    ensures
        r == (s@ == "0"@),
{
    proof {
        reveal_strlit("0");
    }
    if s.as_str().unicode_len() != 1 {
        return false;
    }
    let c = s.as_str().get_char(0);
    if c == '0' {
        proof {
            assert(s@ =~= "0"@);
        }
        true
    } else {
        false
    }
}

/// Resolves the owner filter of a list request. An absent segment or the
/// literal "0" asks for the list-all path, through the sentinel zero
/// filter; any other text must be a well-formed address, and a malformed
/// one is rejected before any contract query is requested.
pub fn list_begin(owner: &Option<String>) -> (r: ListAction)
    ensures
        list_all_requested(*owner) ==> (r matches ListAction::RunListQuery { owner_filter }
            && owner_filter.wf() && forall|i: int| 0 <= i < 20 ==> owner_filter@[i] == 0u8),
        !list_all_requested(*owner) ==> (*owner matches Some(s) && (valid_chain_address(
            encode_utf8(s@),
        ) ==> (r matches ListAction::RunListQuery { owner_filter } && owner_filter@
            == address_bytes_of(encode_utf8(s@)))) && (!valid_chain_address(encode_utf8(s@)) ==> (
        r matches ListAction::Reject { error } && error matches AppError::BadRequest(m) && m@
            == "Invalid owner address"@))),
{
    match owner {
        None => ListAction::RunListQuery { owner_filter: ChainAddress::zero() },
        Some(s) => {
            if is_zero_literal(s) {
                ListAction::RunListQuery { owner_filter: ChainAddress::zero() }
            } else {
                match ChainAddress::parse(s.as_str()) {
                    Some(a) => ListAction::RunListQuery { owner_filter: a },
                    None => ListAction::Reject {
                        error: AppError::BadRequest(String::from_str("Invalid owner address")),
                    },
                }
            }
        },
    }
}

/// The step after the ids query of the list-by-owner use-case.
pub enum ListFetchAction {
    /// The query returned these token ids; fetch each one's details, in
    /// this order.
    FetchDetails { token_ids: Vec<u64> },
    /// The query failed; answer with this error without fetching details.
    Fail { error: AppError },
}

/// Carries the list flow past the ids query. A failed query ends the
/// listing with a transport error — no detail fetch is requested — while
/// a successful one asks for the per-id detail fetches, in query order.
pub fn list_after_query(outcome: Result<Vec<u64>, String>) -> (r: ListFetchAction)
    ensures
        outcome matches Ok(ids) ==> (r matches ListFetchAction::FetchDetails { token_ids }
            && token_ids@ == ids@),
        outcome matches Err(e) ==> (r matches ListFetchAction::Fail { error } && error
            matches AppError::Web3Error(m) && m@ == e@),
{
    match outcome {
        Ok(ids) => ListFetchAction::FetchDetails { token_ids: ids },
        Err(e) => ListFetchAction::Fail { error: AppError::Web3Error(e) },
    }
}

/// The successful entries of a sequence of per-token outcomes, in order.
pub open spec fn successful_entries(s: Seq<Result<NftMetadata, AppError>>) -> Seq<NftMetadata>
    decreases s.len(),
{
    if s.len() == 0 {
        Seq::empty()
    } else {
        successful_entries(s.drop_last()) + if s.last() is Ok {
            seq![s.last()->Ok_0]
        } else {
            Seq::empty()
        }
    }
}

/// Keeps the successful per-token outcomes of a listing, in the order the
/// ids came back from the contract. A failed detail fetch costs only its
/// own entry: the other tokens are still listed.
pub fn collect_listing(outcomes: &Vec<Result<NftMetadata, AppError>>) -> (r: Vec<NftMetadata>)
    ensures
        r@ == successful_entries(outcomes@),
{
    let mut r: Vec<NftMetadata> = Vec::new();
    let mut k: usize = 0;
    while k < outcomes.len()
        invariant
            k <= outcomes@.len(),
            r@ == successful_entries(outcomes@.take(k as int)),
        decreases outcomes@.len() - k,
    {
        proof {
            assert(outcomes@.take(k + 1).drop_last() =~= outcomes@.take(k as int));
            assert(outcomes@.take(k + 1).last() == outcomes@[k as int]);
        }
        match &outcomes[k] {
            Ok(m) => {
                r.push(
                    NftMetadata {
                        token_id: m.token_id.clone(),
                        owner_address: m.owner_address.clone(),
                        token_name: m.token_name.clone(),
                        token_uri: m.token_uri.clone(),
                    },
                );
            },
            Err(_) => {},
        }
        k += 1;
    }
    proof {
        assert(outcomes@.take(outcomes@.len() as int) =~= outcomes@);
    }
    r
}

} // verus!
