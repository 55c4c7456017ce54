//! The names under which objects are filed.

use vstd::prelude::*;

verus! {

/// The key of a video: the owner's directory, then the video's id.
pub open spec fn video_key_text(owner: Seq<char>, video: Seq<char>) -> Seq<char> {
    owner + "/"@ + video + ".mp4"@
}

/// The key of the still image that belongs to a video.
pub open spec fn thumbnail_key_text(owner: Seq<char>, video: Seq<char>) -> Seq<char> {
    owner + "/"@ + video + "_thumbnail.png"@
}

/// The key of one file of a video's segmented stream.
pub open spec fn hls_key_text(video: Seq<char>, file_name: Seq<char>) -> Seq<char> {
    video + "/hls/"@ + file_name
}

/// The address from which the content origin serves a video.
pub open spec fn source_url_text(video: Seq<char>) -> Seq<char> {
    "https://customer-2p3jflss4r4hmpnz.cloudflarestream.com/"@ + video
        + "/downloads/default.mp4"@
}

/// Builds the key of a video.
pub fn video_key(publisher_user_id: &str, video_id: &str) -> (key: String)
    ensures
        key@ == video_key_text(publisher_user_id@, video_id@),
{
    let mut key = String::from_str(publisher_user_id);
    key.append("/");
    key.append(video_id);
    key.append(".mp4");
    key
}

/// Builds the key of a video's still image.
pub fn thumbnail_key(publisher_user_id: &str, video_id: &str) -> (key: String)
    ensures
        key@ == thumbnail_key_text(publisher_user_id@, video_id@),
{
    let mut key = String::from_str(publisher_user_id);
    key.append("/");
    key.append(video_id);
    key.append("_thumbnail.png");
    key
}

/// Builds the key of one file of a video's segmented stream.
pub fn hls_key(video_id: &str, hls_file_name: &str) -> (key: String)
    ensures
        key@ == hls_key_text(video_id@, hls_file_name@),
{
    let mut key = String::from_str(video_id);
    key.append("/hls/");
    key.append(hls_file_name);
    key
}

/// Builds the address from which the content origin serves a video.
pub fn source_url(video_id: &str) -> (url: String)
    ensures
        url@ == source_url_text(video_id@),
{
    let mut url = String::from_str("https://customer-2p3jflss4r4hmpnz.cloudflarestream.com/");
    url.append(video_id);
    url.append("/downloads/default.mp4");
    url
}

/// A video and its still image are filed under different keys.
pub proof fn lemma_keys_differ(owner: Seq<char>, video: Seq<char>)
    ensures
        video_key_text(owner, video) != thumbnail_key_text(owner, video),
{
    reveal_strlit("/");
    reveal_strlit(".mp4");
    reveal_strlit("_thumbnail.png");
    assert(video_key_text(owner, video).len() == owner.len() + 1 + video.len() + 4);
    assert(thumbnail_key_text(owner, video).len() == owner.len() + 1 + video.len() + 14);
}

} // verus!
