use vstd::prelude::*;

use crate::explorer::{
    initial_model, load_model, mount_model, page_model, select_model, ExplorerModel,
    LoadErrorModel,
};
use crate::render::{detail_model, list_model, rows_view, DetailModel, ListRow};
use crate::video::{catalog_view, Video, VideoModel};

verus! {

/// Rendering the list twice from the same catalog gives the same rows: the
/// list is a function of the catalog alone.
pub proof fn list_render_idempotent(
    videos: Seq<Video>,
    first: Seq<ListRow>,
    second: Seq<ListRow>,
)
    requires
        rows_view(first) == list_model(catalog_view(videos)),
        rows_view(second) == list_model(catalog_view(videos)),
    ensures
        rows_view(first) == rows_view(second),
{
}

/// Rendering the details twice from the same record gives the same view.
pub proof fn details_render_idempotent(video: VideoModel, first: DetailModel, second: DetailModel)
    requires
        first == detail_model(video),
        second == detail_model(video),
    ensures
        first == second,
{
}

/// Once a row's record is selected, the page shows exactly that record's
/// details, unless the load failed, where no details are shown at all.
pub proof fn selection_shows_details(s: ExplorerModel, v: VideoModel)
    requires
        !(s.status is Failed),
    ensures
        page_model(select_model(s, v)).details == Some(detail_model(v)),
{
}

/// Before any row is activated no details are shown: the start state shows
/// none, and neither mounting nor the load's outcome selects anything.
pub proof fn no_details_before_selection(
    s: ExplorerModel,
    outcome: Result<Seq<VideoModel>, LoadErrorModel>,
)
    requires
        s.selection is None,
    ensures
        page_model(initial_model()).details is None,
        page_model(s).details is None,
        mount_model(s).selection is None,
        load_model(s, outcome).selection is None,
{
}

/// The state after the given records were selected one after another.
pub open spec fn select_each(s: ExplorerModel, picks: Seq<VideoModel>) -> ExplorerModel
    decreases picks.len(),
{
    if picks.len() == 0 {
        s
    } else {
        select_each(select_model(s, picks[0]), picks.drop_first())
    }
}

/// Once the load succeeds with `l`, the list shows exactly the rows of `l`,
/// whatever the catalog held before, through any later selections and
/// mounts.
pub proof fn loaded_catalog_replaces(
    s: ExplorerModel,
    l: Seq<VideoModel>,
    picks: Seq<VideoModel>,
)
    ensures
        page_model(load_model(s, Ok(l))).rows == Some(list_model(l)),
        page_model(select_each(load_model(s, Ok(l)), picks)).rows == Some(list_model(l)),
        page_model(mount_model(select_each(load_model(s, Ok(l)), picks))).rows == Some(
            list_model(l),
        ),
{
    lemma_select_each_keeps(load_model(s, Ok(l)), picks);
}

proof fn lemma_select_each_keeps(s: ExplorerModel, picks: Seq<VideoModel>)
    ensures
        select_each(s, picks).catalog == s.catalog,
        select_each(s, picks).status == s.status,
    decreases picks.len(),
{
    if picks.len() > 0 {
        lemma_select_each_keeps(select_model(s, picks[0]), picks.drop_first());
    }
}

} // verus!
