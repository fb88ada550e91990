//! Access decisions for collections and flashcards.  The persistence layer
//! looks the owner up; these functions decide, from plain values, whether
//! the caller may proceed.
use vstd::prelude::*;
use crate::error::{AppError, AppErrorV};

verus! {

/// Whether a viewer may read a collection: anyone may read a public one, and
/// the owner may read their own.
pub open spec fn read_allowed(owner_id: i32, is_public: bool, user_id: Option<i32>) -> bool {
    is_public || (match user_id {
        Some(uid) => uid == owner_id,
        None => false,
    })
}

/// Verifies that the viewer (or an anonymous caller) may read collection
/// data: allowed exactly when the collection is public or the viewer owns
/// it.
pub fn verify_collection_read_access(owner_id: i32, is_public: bool, user_id: Option<i32>) -> (r:
    Result<(), AppError>)
    ensures
        r is Ok <==> read_allowed(owner_id, is_public, user_id),
        r is Err ==> (r matches Err(e) && e.deep_view() == AppErrorV::Auth("Access denied"@)),
{
    match user_id {
        None => if !is_public {
            Err(AppError::Auth(String::from_str("Access denied")))
        } else {
            Ok(())
        },
        Some(uid) => if !is_public && owner_id != uid {
            Err(AppError::Auth(String::from_str("Access denied")))
        } else {
            Ok(())
        },
    }
}

/// Verifies that the caller owns a collection: allowed exactly when the
/// recorded owner is the caller.
pub fn verify_collection_ownership(owner_id: i32, user_id: i32) -> (r: Result<(), AppError>)
    ensures
        r is Ok <==> owner_id == user_id,
        r is Err ==> (r matches Err(e) && e.deep_view() == AppErrorV::Auth(
            "Access Denied: Collection does not belong to user"@,
        )),
{
    if owner_id != user_id {
        Err(AppError::Auth(String::from_str("Access Denied: Collection does not belong to user")))
    } else {
        Ok(())
    }
}

/// Verifies that the caller owns the collection a flashcard belongs to:
/// allowed exactly when the recorded owner is the caller.
pub fn verify_flashcard_ownership(owner_id: i32, user_id: i32) -> (r: Result<(), AppError>)
    ensures
        r is Ok <==> owner_id == user_id,
        r is Err ==> (r matches Err(e) && e.deep_view() == AppErrorV::Auth(
            "Access Denied: Flashcard does not belong to user"@,
        )),
{
    if owner_id != user_id {
        Err(AppError::Auth(String::from_str("Access Denied: Flashcard does not belong to user")))
    } else {
        Ok(())
    }
}

} // verus!
