use vstd::prelude::*;

use crate::error::AppError;
use crate::text::same_text;

verus! {

/// The backend commit that this client's API contract is pinned to.
pub const EXPECTED_BACKEND_COMMIT: &'static str = "2a481c290c99bf30ef80aadafa03d876a7f5f732";

/// The pinned commit's text.
pub open spec fn expected_commit_text() -> Seq<char> {
    "2a481c290c99bf30ef80aadafa03d876a7f5f732"@
}

/// The comparison of the server's reported version with the pinned commit.
#[derive(Debug)]
pub struct CompatibilityResult {
    pub server_commit: String,
    pub expected_commit: String,
    pub compatible: bool,
}

/// Compares the version that `GET /v1/info` reported with the pinned commit.
pub fn compare_version(server_version: String) -> (r: CompatibilityResult)
    ensures
        r.server_commit@ == server_version@,
        r.expected_commit@ == expected_commit_text(),
        r.compatible == (server_version@ == expected_commit_text()),
{
    let expected = "2a481c290c99bf30ef80aadafa03d876a7f5f732";
    let compatible = same_text(server_version.as_str(), expected);
    CompatibilityResult { server_commit: server_version, expected_commit: expected.to_owned(), compatible }
}

/// The compatibility decision: only the pinned commit is compatible.
pub fn check_compatibility(server_version: String) -> (r: Result<(), AppError>)
    ensures
        r is Ok <==> server_version@ == expected_commit_text(),
        r is Err ==> r->Err_0 is ApiIncompatible,
{
    let result = compare_version(server_version);
    if result.compatible {
        Ok(())
    } else {
        Err(AppError::ApiIncompatible("server version does not match the pinned backend commit".to_owned()))
    }
}

} // verus!
