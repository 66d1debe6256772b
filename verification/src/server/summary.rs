//! The summary endpoint: a conversation's latest summary, or empty fields where it has
//! none.
use vstd::prelude::*;
use crate::domain::persona::Summary;
use crate::ids::{uuid_text, uuid_to_string};
use crate::server::error::ApiError;

verus! {

/// A conversation's latest summary as the API answers it; every field but the
/// conversation's id is `None` where no summary exists yet.
#[derive(Debug, Clone)]
pub struct SummaryDetailResponse {
    pub id: Option<String>,
    pub conversation_id: String,
    pub content: Option<String>,
    pub message_range_start: Option<String>,
    pub message_range_end: Option<String>,
    pub created_at: Option<i64>,
}

/// The text form of an optional id.
pub open spec fn id_text(id: Option<String>, of: Option<u128>) -> bool {
    match of {
        Some(v) => id matches Some(t) && t@ == uuid_text(v),
        None => id is None,
    }
}

/// The answer to a query for the summary of `conversation_id`: not found where the
/// conversation does not exist; else the latest summary's fields, or none.
pub fn summary_detail(conversation_id: u128, conversation_exists: bool, latest: Option<Summary>) -> (r:
    Result<SummaryDetailResponse, ApiError>)
    ensures
        !conversation_exists ==> r matches Err(ApiError::NotFound),
        conversation_exists ==> (r matches Ok(d) && {
            &&& d.conversation_id@ == uuid_text(conversation_id)
            &&& match latest {
                None => {
                    &&& d.id is None
                    &&& d.content is None
                    &&& d.message_range_start is None
                    &&& d.message_range_end is None
                    &&& d.created_at is None
                },
                Some(s) => {
                    &&& id_text(d.id, Some(s.id))
                    &&& d.content == Some(s.content)
                    &&& id_text(d.message_range_start, Some(s.message_range_start))
                    &&& id_text(d.message_range_end, Some(s.message_range_end))
                    &&& d.created_at == Some(s.created_at)
                },
            }
        }),
{
    if !conversation_exists {
        return Err(ApiError::NotFound);
    }
    let conversation_id = uuid_to_string(conversation_id);
    match latest {
        None => Ok(
            SummaryDetailResponse {
                id: None,
                conversation_id,
                content: None,
                message_range_start: None,
                message_range_end: None,
                created_at: None,
            },
        ),
        Some(s) => Ok(
            SummaryDetailResponse {
                id: Some(uuid_to_string(s.id)),
                conversation_id,
                content: Some(s.content),
                message_range_start: Some(uuid_to_string(s.message_range_start)),
                message_range_end: Some(uuid_to_string(s.message_range_end)),
                created_at: Some(s.created_at),
            },
        ),
    }
}

} // verus!
