//! The request to move one video to the restricted partition.

use vstd::prelude::*;

verus! {

/// Args for moving a video to nsfw bucket
#[derive(Debug)]
pub struct Args {
    /// The publisher user principal supplied to off chain agent
    ///
    /// This used as directory key
    pub publisher_user_id: String,
    /// The video id on cloudflare
    ///
    /// This is used as object key
    pub video_id: String,
}

impl Clone for Args {
    fn clone(&self) -> (copy: Self)
        ensures
            copy == *self,
    {
        Args {
            publisher_user_id: self.publisher_user_id.clone(),
            video_id: self.video_id.clone(),
        }
    }
}

} // verus!
