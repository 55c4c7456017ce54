//! The request to relay one video.

use vstd::prelude::*;
use crate::metadata::Metadata;

verus! {

/// Args for duplication request
#[derive(Debug)]
pub struct Args {
    /// The publisher user principal supplied to off chain agent
    ///
    /// This used as directory key
    pub publisher_user_id: String,
    /// The video id on cloudflare
    ///
    /// This is used as object key
    pub video_id: String,
    /// Whether the video contains nsfw content
    ///
    /// This is used for segregation
    pub is_nsfw: bool,
    /// key-value pair to be added to video's metadata on storj
    pub metadata: Metadata,
}

impl Clone for Args {
    fn clone(&self) -> (copy: Self)
        ensures
            copy.publisher_user_id@ == self.publisher_user_id@,
            copy.video_id@ == self.video_id@,
            copy.is_nsfw == self.is_nsfw,
            copy.metadata@ == self.metadata@,
    {
        Args {
            publisher_user_id: self.publisher_user_id.clone(),
            video_id: self.video_id.clone(),
            is_nsfw: self.is_nsfw,
            metadata: self.metadata.clone(),
        }
    }
}

} // verus!
