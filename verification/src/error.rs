use vstd::prelude::*;

verus! {

/// The gateway's closed error taxonomy. Heterogeneous collaborator failures
/// (transport, serialization, signing) are converted into these variants at
/// the point where they arise; each variant carries the human-readable
/// diagnostic that reaches the HTTP boundary.
#[derive(Debug)]
pub enum AppError {
    /// The client sent malformed input (address, token id, or hex secret).
    BadRequest(String),
    /// An infrastructure failure that the gateway does not recover from.
    InternalServerError(String),
    /// An RPC transport failure, carried as its rendered message.
    Web3Error(String),
    /// A serialization failure, carried as its rendered message.
    SerdeError(String),
    /// Any other internal failure.
    GenericError(String),
    /// The contract confirmed that the token does not exist.
    NotFound(String),
    /// The content store reported a failed upload.
    UploadFailed(String),
}

/// Failure of the file upload edge.
#[derive(Debug)]
pub enum UploadError {
    /// An I/O failure, carried as its rendered message.
    IoError(String),
}

/// Failure of the hash-and-sign helper.
#[derive(Debug)]
pub enum SignatureError {
    /// The signing secret was not a well-formed hex string.
    HexDecodeError(String),
    /// The decoded secret was rejected by the signing backend.
    InvalidKey,
}

impl AppError {
    /// The HTTP status class this error maps to: 400 for client errors,
    /// 404 for a contract-confirmed missing token, 500 otherwise.
    pub fn http_status(&self) -> (r: u16)
        ensures
            r == match self {
                AppError::BadRequest(_) => 400u16,
                AppError::NotFound(_) => 404u16,
                _ => 500u16,
            },
    {
        match self {
            AppError::BadRequest(_) => 400,
            AppError::NotFound(_) => 404,
            _ => 500,
        }
    }

    /// The client-visible message of this error.
    pub fn message(&self) -> (r: String)
        ensures
            r@ == match self {
                AppError::BadRequest(m) => m@,
                AppError::InternalServerError(m) => m@,
                AppError::Web3Error(m) => m@,
                AppError::SerdeError(m) => m@,
                AppError::GenericError(m) => m@,
                AppError::NotFound(m) => m@,
                AppError::UploadFailed(m) => m@,
            },
    {
        match self {
            AppError::BadRequest(m) => m.clone(),
            AppError::InternalServerError(m) => m.clone(),
            AppError::Web3Error(m) => m.clone(),
            AppError::SerdeError(m) => m.clone(),
            AppError::GenericError(m) => m.clone(),
            AppError::NotFound(m) => m.clone(),
            AppError::UploadFailed(m) => m.clone(),
        }
    }

    /// Converts a signing failure into the taxonomy: a malformed hex secret
    /// is the client's fault, anything else is an internal fault.
    pub fn from_signature_error(err: SignatureError) -> (r: AppError)
        ensures
            err matches SignatureError::HexDecodeError(_) ==> (r matches AppError::BadRequest(m)
                && m@ == "Invalid hex format"@),
            err is InvalidKey ==> (r matches AppError::GenericError(m)
                && m@ == "An error occurred while signing"@),
    {
        match err {
            SignatureError::HexDecodeError(_) => {
                AppError::BadRequest(String::from_str("Invalid hex format"))
            },
            SignatureError::InvalidKey => {
                AppError::GenericError(String::from_str("An error occurred while signing"))
            },
        }
    }
}

impl UploadError {
    /// The HTTP status class this error maps to.
    pub fn http_status(&self) -> (r: u16)
        ensures
            r == 500u16,
    {
        500
    }

    /// The client-visible message of this error; the underlying I/O
    /// diagnostic is logged, not exposed.
    pub fn message(&self) -> (r: String)
        ensures
            r@ == "Internal server error"@,
    {
        String::from_str("Internal server error")
    }
}

} // verus!
