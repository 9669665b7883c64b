//! The portfolio content: one JSON object, readable by all and replaced by
//! the admin.
use vstd::prelude::*;

use crate::error::ApiError;
use crate::json::{json_document_error, read_json_document};
use crate::routes::blog::{check_admin, presents_key};
use crate::text::{concat2, owned};

verus! {

/// The stored portfolio content, read as JSON, with the time it was written.
#[derive(Debug)]
pub struct StoredPortfolio {
    pub content: serde_json::Value,
    pub updated_at: String,
}

/// Admits a replacement of the portfolio content exactly when the admin key
/// is presented and the new content is a JSON object.
pub fn check_portfolio_update(header: &Option<String>, key: &str, body_is_object: bool) -> (r: Result<(), ApiError>)
    ensures
        !presents_key(*header, key@) ==> r == Err::<(), ApiError>(ApiError::Unauthorized),
        presents_key(*header, key@) && !body_is_object ==> (r matches Err(ApiError::BadRequest(m))
            && m@ == "Portfolio content must be a JSON object"@),
        r is Ok <==> presents_key(*header, key@) && body_is_object,
{
    check_admin(header, key)?;
    if !body_is_object {
        return Err(ApiError::BadRequest(owned("Portfolio content must be a JSON object")));
    }
    Ok(())
}

/// A request body that replaces the portfolio content, as the logic reads
/// it: whether the JSON document is an object, and the outcome of writing it
/// back as JSON text (the text, or the writer's message).
#[derive(Debug, PartialEq, Eq)]
pub struct PortfolioBody {
    pub is_object: bool,
    pub text: Result<String, String>,
}

/// The text that replaces the portfolio content: the admin key must be
/// presented and the body must be a JSON object (checked in that order);
/// the stored text is the body written as JSON, and a failure to write it
/// answers 400.
pub fn portfolio_update_text(header: &Option<String>, key: &str, body: PortfolioBody) -> (r: Result<String, ApiError>)
    ensures
        !presents_key(*header, key@) ==> r == Err::<String, ApiError>(ApiError::Unauthorized),
        presents_key(*header, key@) && !body.is_object ==> (r matches Err(ApiError::BadRequest(m))
            && m@ == "Portfolio content must be a JSON object"@),
        presents_key(*header, key@) && body.is_object ==> match body.text {
            Ok(t) => r == Ok::<String, ApiError>(t),
            Err(e) => r matches Err(ApiError::BadRequest(m)) && m@ == "Invalid JSON body: "@ + e@,
        },
{
    check_portfolio_update(header, key, body.is_object)?;
    match body.text {
        Ok(text) => Ok(text),
        Err(e) => Err(ApiError::BadRequest(concat2("Invalid JSON body: ", e.as_str()))),
    }
}

/// The answer to `GET /api/portfolio/content` for a stored row, from the
/// outcome of parsing its content: the parsed document with the row's update
/// time, or 500 with the parser's message.
pub fn stored_portfolio_from(parsed: Result<serde_json::Value, String>, updated_at: String) -> (r: Result<StoredPortfolio, ApiError>)
    ensures
        parsed matches Ok(v) ==> (r matches Ok(p) && p.content == v && p.updated_at == updated_at),
        parsed matches Err(e) ==> (r matches Err(ApiError::Internal(m)) && m@
            == "Invalid stored portfolio content JSON: "@ + e@),
{
    match parsed {
        Ok(value) => Ok(StoredPortfolio { content: value, updated_at }),
        Err(e) => Err(
            ApiError::Internal(concat2("Invalid stored portfolio content JSON: ", e.as_str())),
        ),
    }
}

/// The answer to `GET /api/portfolio/content` from the stored
/// `(content, updated_at)` row: nothing when there is no row, else the row's
/// content parsed as JSON (see `stored_portfolio_from`), which fails exactly
/// when the text is no JSON.
pub fn stored_portfolio(row: Option<(String, String)>) -> (r: Result<Option<StoredPortfolio>, ApiError>)
    ensures
        row is None ==> r matches Ok(None),
        row matches Some((content, updated_at)) ==> match json_document_error(content@) {
            None => r matches Ok(Some(p)) && p.updated_at == updated_at,
            Some(e) => r matches Err(ApiError::Internal(m)) && m@
                == "Invalid stored portfolio content JSON: "@ + e,
        },
{
    match row {
        None => Ok(None),
        Some((content, updated_at)) => {
            let parsed = read_json_document(content.as_str());
            match stored_portfolio_from(parsed, updated_at) {
                Ok(p) => Ok(Some(p)),
                Err(e) => Err(e),
            }
        },
    }
}

} // verus!
