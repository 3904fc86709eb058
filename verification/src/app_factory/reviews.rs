//! Reviews.  A buyer rates an application from one to five and can change
//! the rating later.

use vstd::prelude::*;
use crate::app_factory::state::{
    AppFactoryError,
    AppReview,
    Failure,
    ReviewError,
    ReviewSubmitted,
    ReviewUpdated,
    UserAppAccess,
    MAX_COMMENT_CID_LEN,
};
use crate::types::{byte_len, text_len, Pubkey};

verus! {

/// Why a rating with a comment is not acceptable, if it is not.
pub open spec fn rating_error(rating: u8, comment_cid: Seq<char>) -> Option<Failure> {
    if rating < 1 || rating > 5 {
        Some(Failure::Review(ReviewError::InvalidRating))
    } else if text_len(comment_cid) > MAX_COMMENT_CID_LEN {
        Some(Failure::Review(ReviewError::CommentCidTooLong))
    } else {
        None
    }
}

/// Whether a review holds a rating from one to five and a comment
/// reference of at most 46 bytes.
pub open spec fn review_wf(review: AppReview) -> bool {
    &&& 1 <= review.rating <= 5
    &&& text_len(review.comment_cid@) <= MAX_COMMENT_CID_LEN
}

/// The first check that fails when a review is submitted, if any.
pub open spec fn submit_error(
    access: UserAppAccess,
    user: Pubkey,
    app_id: u64,
    rating: u8,
    comment_cid: Seq<char>,
) -> Option<Failure> {
    if access.user != user || access.app_id != app_id {
        Some(Failure::Factory(AppFactoryError::MustOwnAppToReview))
    } else {
        rating_error(rating, comment_cid)
    }
}

/// Records a buyer's rating of an application.  The buyer must present the
/// record of the own purchase of this application.
pub fn submit_review(
    access: &UserAppAccess,
    user: Pubkey,
    app_id: u64,
    rating: u8,
    comment_cid: String,
    bump: u8,
    now: i64,
) -> (outcome: Result<(AppReview, ReviewSubmitted), Failure>)
    ensures
        match outcome {
            Ok((review, event)) => {
                &&& submit_error(*access, user, app_id, rating, comment_cid@) is None
                &&& review == (AppReview {
                    app_id,
                    reviewer: user,
                    rating,
                    comment_cid,
                    timestamp: now,
                    bump,
                })
                &&& review_wf(review)
                &&& event == (ReviewSubmitted {
                    app_id,
                    reviewer: user,
                    rating,
                    comment_cid,
                    timestamp: now,
                })
            },
            Err(e) => submit_error(*access, user, app_id, rating, comment_cid@) == Some(e),
        },
{
    if access.user != user || access.app_id != app_id {
        return Err(Failure::Factory(AppFactoryError::MustOwnAppToReview));
    }
    if rating < 1 || rating > 5 {
        return Err(Failure::Review(ReviewError::InvalidRating));
    }
    if byte_len(&comment_cid) > MAX_COMMENT_CID_LEN {
        return Err(Failure::Review(ReviewError::CommentCidTooLong));
    }
    let announced = comment_cid.clone();
    Ok(
        (
            AppReview { app_id, reviewer: user, rating, comment_cid, timestamp: now, bump },
            ReviewSubmitted {
                app_id,
                reviewer: user,
                rating,
                comment_cid: announced,
                timestamp: now,
            },
        ),
    )
}

/// The first check that fails when a review is changed, if any.
pub open spec fn update_error(
    review: AppReview,
    reviewer: Pubkey,
    new_rating: u8,
    new_comment_cid: Seq<char>,
) -> Option<Failure> {
    if reviewer != review.reviewer {
        Some(Failure::Factory(AppFactoryError::UnauthorizedReviewer))
    } else {
        rating_error(new_rating, new_comment_cid)
    }
}

/// Changes a review in place.  Only the one who wrote it may do so.
pub fn update_review(
    review: &mut AppReview,
    reviewer: Pubkey,
    new_rating: u8,
    new_comment_cid: String,
    now: i64,
) -> (outcome: Result<ReviewUpdated, Failure>)
    ensures
        match outcome {
            Ok(event) => {
                &&& update_error(*old(review), reviewer, new_rating, new_comment_cid@) is None
                &&& *final(review) == (AppReview {
                    rating: new_rating,
                    comment_cid: new_comment_cid,
                    timestamp: now,
                    ..*old(review)
                })
                &&& review_wf(*final(review))
                &&& event == (ReviewUpdated {
                    app_id: old(review).app_id,
                    reviewer,
                    new_rating,
                    new_comment_cid,
                    timestamp: now,
                })
            },
            Err(e) => update_error(*old(review), reviewer, new_rating, new_comment_cid@) == Some(e)
                && *final(review) == *old(review),
        },
{
    if reviewer != review.reviewer {
        return Err(Failure::Factory(AppFactoryError::UnauthorizedReviewer));
    }
    if new_rating < 1 || new_rating > 5 {
        return Err(Failure::Review(ReviewError::InvalidRating));
    }
    if byte_len(&new_comment_cid) > MAX_COMMENT_CID_LEN {
        return Err(Failure::Review(ReviewError::CommentCidTooLong));
    }
    let announced = new_comment_cid.clone();
    review.rating = new_rating;
    review.comment_cid = new_comment_cid;
    review.timestamp = now;
    Ok(
        ReviewUpdated {
            app_id: review.app_id,
            reviewer,
            new_rating,
            new_comment_cid: announced,
            timestamp: now,
        },
    )
}

} // verus!
