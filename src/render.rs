use vstd::prelude::*;
use vstd::string::StringExecFns;

use crate::video::{catalog_view, Video, VideoModel};

verus! {

/// One rendered row of the list: its stable key, the text it shows, and the
/// record that activating it hands to the selection callback.
#[derive(Clone, Debug, PartialEq, Eq)]
pub struct ListRow {
    pub key: usize,
    pub label: String,
    pub video: Video,
}

pub struct RowModel {
    pub key: usize,
    pub label: Seq<char>,
    pub video: VideoModel,
}

impl View for ListRow {
    type V = RowModel;

    open spec fn view(&self) -> RowModel {
        RowModel { key: self.key, label: self.label@, video: self.video@ }
    }
}

/// The rendered details of the selected record: title, speaker and a media
/// player bound to the record's url, with user controls.
#[derive(Clone, Debug, PartialEq, Eq)]
pub struct DetailView {
    pub title: String,
    pub speaker: String,
    pub media_src: String,
    pub controls: bool,
}

pub struct DetailModel {
    pub title: Seq<char>,
    pub speaker: Seq<char>,
    pub media_src: Seq<char>,
    pub controls: bool,
}

impl View for DetailView {
    type V = DetailModel;

    open spec fn view(&self) -> DetailModel {
        DetailModel {
            title: self.title@,
            speaker: self.speaker@,
            media_src: self.media_src@,
            controls: self.controls,
        }
    }
}

/// The text of a row: `"{speaker}: {title}"`.
pub open spec fn row_label(v: VideoModel) -> Seq<char> {
    v.speaker + seq![':', ' '] + v.title
}

pub open spec fn row_model(v: VideoModel) -> RowModel {
    RowModel { key: v.id, label: row_label(v), video: v }
}

/// The list render of a catalog: one row per record, in catalog order.
pub open spec fn list_model(catalog: Seq<VideoModel>) -> Seq<RowModel> {
    catalog.map_values(|v: VideoModel| row_model(v))
}

pub open spec fn rows_view(rows: Seq<ListRow>) -> Seq<RowModel> {
    rows.map_values(|r: ListRow| r@)
}

pub open spec fn detail_model(v: VideoModel) -> DetailModel {
    DetailModel { title: v.title, speaker: v.speaker, media_src: v.url, controls: true }
}

impl ListRow {
    /// What the row hands to the selection callback when it is activated:
    /// a value copy of its record.
    pub fn activate(&self) -> (v: Video)
        ensures
            v == self.video,
    {
        self.video.duplicate()
    }
}

fn render_row(v: &Video) -> (r: ListRow)
    ensures
        r@ == row_model(v@),
        r.video == *v,
{
    let mut label = v.speaker.clone();
    label.append(": ");
    label.append(v.title.as_str());
    proof {
        reveal_strlit(": ");
    }
    assert(label@ == row_label(v@));
    ListRow { key: v.id, label, video: v.duplicate() }
}

/// Renders the catalog as a list: one row per record, in the catalog's
/// order, keyed by the record's id and showing `"{speaker}: {title}"`.
pub fn videos_list(videos: &Vec<Video>) -> (rows: Vec<ListRow>)
    ensures
        rows_view(rows@) == list_model(catalog_view(videos@)),
        rows@.len() == videos@.len(),
        forall|i: int|
            0 <= i < rows@.len() ==> {
                &&& #[trigger] rows@[i].key == videos@[i].id
                &&& rows@[i].label@ == videos@[i].speaker@ + seq![':', ' '] + videos@[i].title@
                &&& rows@[i].video == videos@[i]
            },
{
    let mut rows: Vec<ListRow> = Vec::new();
    let mut i: usize = 0;
    while i < videos.len()
        invariant
            i <= videos@.len(),
            rows@.len() == i,
            forall|j: int|
                0 <= j < i ==> #[trigger] rows@[j]@ == row_model(videos@[j]@) && rows@[j].video
                    == videos@[j],
        decreases videos@.len() - i,
    {
        let row = render_row(&videos[i]);
        rows.push(row);
        i = i + 1;
    }
    assert(rows_view(rows@) =~= list_model(catalog_view(videos@)));
    assert forall|i: int| 0 <= i < rows@.len() implies #[trigger] rows@[i].key == videos@[i].id
        && rows@[i].label@ == videos@[i].speaker@ + seq![':', ' '] + videos@[i].title@
        && rows@[i].video == videos@[i] by {
        assert(rows@[i]@ == row_model(videos@[i]@));
    }
    rows
}

/// Renders the details of one record: its title, its speaker, and a media
/// player with controls whose source is the record's url.
pub fn video_details(video: &Video) -> (d: DetailView)
    ensures
        d@ == detail_model(video@),
        d.title@ == video.title@,
        d.speaker@ == video.speaker@,
        d.media_src@ == video.url@,
        d.controls,
{
    DetailView {
        title: video.title.clone(),
        speaker: video.speaker.clone(),
        media_src: video.url.clone(),
        controls: true,
    }
}

} // verus!
