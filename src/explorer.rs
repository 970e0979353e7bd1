use vstd::prelude::*;
use vstd::string::StringExecFns;

use crate::render::{
    detail_model, list_model, rows_view, video_details, videos_list, DetailModel, DetailView,
    ListRow, RowModel,
};
use crate::video::{catalog_view, Video, VideoModel};

verus! {

/// The path that the catalog is fetched from.
pub const CATALOG_PATH: &'static str = "/tutorial/data.json";

/// Why loading the catalog failed.
#[derive(Clone, Debug, PartialEq, Eq)]
pub enum LoadError {
    /// The endpoint could not be reached, or did not answer with success.
    Transport(String),
    /// The answer was not a JSON array of video records.
    Decode(String),
}

pub enum LoadErrorModel {
    Transport(Seq<char>),
    Decode(Seq<char>),
}

impl View for LoadError {
    type V = LoadErrorModel;

    open spec fn view(&self) -> LoadErrorModel {
        match self {
            LoadError::Transport(r) => LoadErrorModel::Transport(r@),
            LoadError::Decode(r) => LoadErrorModel::Decode(r@),
        }
    }
}

/// Where the one load of the catalog stands.
#[derive(Clone, Debug, PartialEq, Eq)]
pub enum LoadStatus {
    Idle,
    Loading,
    Loaded,
    Failed(LoadError),
}

pub enum StatusModel {
    Idle,
    Loading,
    Loaded,
    Failed(LoadErrorModel),
}

impl View for LoadStatus {
    type V = StatusModel;

    open spec fn view(&self) -> StatusModel {
        match self {
            LoadStatus::Idle => StatusModel::Idle,
            LoadStatus::Loading => StatusModel::Loading,
            LoadStatus::Loaded => StatusModel::Loaded,
            LoadStatus::Failed(e) => StatusModel::Failed(e@),
        }
    }
}

/// What the host has to do after a transition.
#[derive(Debug, PartialEq, Eq)]
pub enum Effect {
    Nothing,
    /// Request the catalog at `path`, and hand the outcome to `finish_load`.
    Fetch { path: String },
}

/// The view state of the application: the catalog, the selected record and
/// the status of the load.
#[derive(Clone, Debug)]
pub struct Explorer {
    catalog: Vec<Video>,
    selection: Option<Video>,
    status: LoadStatus,
}

pub struct ExplorerModel {
    pub catalog: Seq<VideoModel>,
    pub selection: Option<VideoModel>,
    pub status: StatusModel,
}

impl View for Explorer {
    type V = ExplorerModel;

    closed spec fn view(&self) -> ExplorerModel {
        ExplorerModel {
            catalog: catalog_view(self.catalog@),
            selection: match self.selection {
                Some(v) => Some(v@),
                None => None,
            },
            status: self.status@,
        }
    }
}

/// The rendered page. On a failed load it holds a failure message and
/// neither the list nor the details.
#[derive(Clone, Debug, PartialEq, Eq)]
pub struct Page {
    pub heading: String,
    pub list_heading: String,
    pub rows: Option<Vec<ListRow>>,
    pub details: Option<DetailView>,
    pub failure: Option<String>,
}

pub struct PageModel {
    pub heading: Seq<char>,
    pub list_heading: Seq<char>,
    pub rows: Option<Seq<RowModel>>,
    pub details: Option<DetailModel>,
    pub failure: Option<Seq<char>>,
}

impl View for Page {
    type V = PageModel;

    open spec fn view(&self) -> PageModel {
        PageModel {
            heading: self.heading@,
            list_heading: self.list_heading@,
            rows: match self.rows {
                Some(r) => Some(rows_view(r@)),
                None => None,
            },
            details: match self.details {
                Some(d) => Some(d@),
                None => None,
            },
            failure: match self.failure {
                Some(f) => Some(f@),
                None => None,
            },
        }
    }
}

pub open spec fn initial_model() -> ExplorerModel {
    ExplorerModel { catalog: Seq::empty(), selection: None, status: StatusModel::Idle }
}

/// Mounting starts the load once: only from `Idle`.
pub open spec fn mount_model(s: ExplorerModel) -> ExplorerModel {
    match s.status {
        StatusModel::Idle => ExplorerModel { status: StatusModel::Loading, ..s },
        _ => s,
    }
}

/// The load's outcome replaces the catalog wholesale on success and records
/// the error otherwise; the selection is kept either way.
pub open spec fn load_model(
    s: ExplorerModel,
    outcome: Result<Seq<VideoModel>, LoadErrorModel>,
) -> ExplorerModel {
    match outcome {
        Ok(l) => ExplorerModel { catalog: l, status: StatusModel::Loaded, ..s },
        Err(e) => ExplorerModel { status: StatusModel::Failed(e), ..s },
    }
}

/// Activating a row selects its record, replacing any earlier selection.
pub open spec fn select_model(s: ExplorerModel, v: VideoModel) -> ExplorerModel {
    ExplorerModel { selection: Some(v), ..s }
}

pub open spec fn failure_message(e: LoadErrorModel) -> Seq<char> {
    match e {
        LoadErrorModel::Transport(r) => "Could not reach the catalog: "@ + r,
        LoadErrorModel::Decode(r) => "Could not read the catalog: "@ + r,
    }
}

pub open spec fn page_model(s: ExplorerModel) -> PageModel {
    PageModel {
        heading: "RustConf Explorer"@,
        list_heading: "Videos to watch"@,
        rows: match s.status {
            StatusModel::Failed(_) => None,
            _ => Some(list_model(s.catalog)),
        },
        details: match (s.status, s.selection) {
            (StatusModel::Failed(_), _) => None,
            (_, Some(v)) => Some(detail_model(v)),
            (_, None) => None,
        },
        failure: match s.status {
            StatusModel::Failed(e) => Some(failure_message(e)),
            _ => None,
        },
    }
}

impl LoadError {
    /// The text shown in place of the list when the load failed.
    pub fn message(&self) -> (m: String)
        ensures
            m@ == failure_message(self@),
    {
        match self {
            LoadError::Transport(r) => {
                let mut m = String::from_str("Could not reach the catalog: ");
                m.append(r.as_str());
                m
            },
            LoadError::Decode(r) => {
                let mut m = String::from_str("Could not read the catalog: ");
                m.append(r.as_str());
                m
            },
        }
    }
}

impl Explorer {
    /// The state at start: empty catalog, no selection, nothing requested.
    pub fn new() -> (s: Explorer)
        ensures
            s@ == initial_model(),
    {
        let s = Explorer { catalog: Vec::new(), selection: None, status: LoadStatus::Idle };
        assert(s@.catalog =~= Seq::<VideoModel>::empty());
        s
    }

    /// Mounting: asks for the one fetch of the catalog the first time, and
    /// for nothing afterwards.
    pub fn mount(&mut self) -> (e: Effect)
        ensures
            final(self)@ == mount_model(old(self)@),
            (old(self)@.status is Idle) ==> (e matches Effect::Fetch { path } && path@
                == CATALOG_PATH@),
            !(old(self)@.status is Idle) ==> e is Nothing,
    {
        match self.status {
            LoadStatus::Idle => {
                self.status = LoadStatus::Loading;
                Effect::Fetch { path: String::from_str(CATALOG_PATH) }
            },
            _ => Effect::Nothing,
        }
    }

    /// Applies the outcome of the load.
    pub fn finish_load(&mut self, outcome: Result<Vec<Video>, LoadError>)
        ensures
            final(self)@ == load_model(
                old(self)@,
                match outcome {
                    Ok(l) => Ok(catalog_view(l@)),
                    Err(e) => Err(e@),
                },
            ),
    {
        match outcome {
            Ok(l) => {
                self.catalog = l;
                self.status = LoadStatus::Loaded;
            },
            Err(e) => {
                self.status = LoadStatus::Failed(e);
            },
        }
    }

    /// The selection callback of the list: the activated record becomes the
    /// selection.
    pub fn select(&mut self, video: Video)
        ensures
            final(self)@ == select_model(old(self)@, video@),
    {
        self.selection = Some(video);
    }

    /// Renders the page from the current state.
    pub fn render(&self) -> (p: Page)
        ensures
            p@ == page_model(self@),
    {
        let heading = String::from_str("RustConf Explorer");
        let list_heading = String::from_str("Videos to watch");
        match &self.status {
            LoadStatus::Failed(e) => Page {
                heading,
                list_heading,
                rows: None,
                details: None,
                failure: Some(e.message()),
            },
            _ => {
                let rows = videos_list(&self.catalog);
                let details = match &self.selection {
                    Some(v) => Some(video_details(v)),
                    None => None,
                };
                Page { heading, list_heading, rows: Some(rows), details, failure: None }
            },
        }
    }

    pub fn catalog(&self) -> (c: &Vec<Video>)
        ensures
            catalog_view(c@) == self@.catalog,
    {
        &self.catalog
    }

    pub fn selection(&self) -> (s: &Option<Video>)
        ensures
            match *s {
                Some(v) => self@.selection == Some(v@),
                None => self@.selection is None,
            },
    {
        &self.selection
    }

    pub fn status(&self) -> (s: &LoadStatus)
        ensures
            s@ == self@.status,
    {
        &self.status
    }
}

} // verus!
