use vstd::prelude::*;
use vstd::string::StringExecFns;

verus! {

/// One talk of the catalog: a stable identifier, what is shown of it, and
/// the media resource that the player loads.
#[derive(Debug, PartialEq, Eq)]
pub struct Video {
    pub id: usize,
    pub title: String,
    pub speaker: String,
    pub url: String,
}

/// What a record means: its identifier and the characters of its text fields.
pub struct VideoModel {
    pub id: usize,
    pub title: Seq<char>,
    pub speaker: Seq<char>,
    pub url: Seq<char>,
}

impl View for Video {
    type V = VideoModel;

    open spec fn view(&self) -> VideoModel {
        VideoModel { id: self.id, title: self.title@, speaker: self.speaker@, url: self.url@ }
    }
}

/// The models of a sequence of records, in the same order.
pub open spec fn catalog_view(videos: Seq<Video>) -> Seq<VideoModel> {
    videos.map_values(|v: Video| v@)
}

impl Video {
    pub fn new(id: usize, title: &str, speaker: &str, url: &str) -> (r: Video)
        ensures
            r@ == (VideoModel { id, title: title@, speaker: speaker@, url: url@ }),
    {
        Video {
            id,
            title: String::from_str(title),
            speaker: String::from_str(speaker),
            url: String::from_str(url),
        }
    }

    /// A value copy of the record: every field the same.
    pub fn duplicate(&self) -> (r: Video)
        ensures
            r == *self,
    {
        Video {
            id: self.id,
            title: self.title.clone(),
            speaker: self.speaker.clone(),
            url: self.url.clone(),
        }
    }
}

impl Clone for Video {
    fn clone(&self) -> (r: Video)
        ensures
            r == *self,
    {
        self.duplicate()
    }
}

} // verus!
