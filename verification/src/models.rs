//! The data of the tracker: statuses, epics, stories, the snapshot that holds them,
//! and the actions a page can ask for.

use std::collections::HashMap;
use vstd::prelude::*;

verus! {

/// What a page asks the navigator to do.
#[derive(Debug, Clone, Copy, PartialEq, Eq, Structural)]
pub enum Action {
    NavigateToEpicDetail { epic_id: u32 },
    NavigateToStoryDetail { epic_id: u32, story_id: u32 },
    NavigateToPreviousPage,
    CreateEpic,
    UpdateEpicStatus { epic_id: u32 },
    DeleteEpic { epic_id: u32 },
    CreateStory { epic_id: u32 },
    UpdateStoryStatus { story_id: u32 },
    DeleteStory { epic_id: u32, story_id: u32 },
    Exit,
}

/// Lifecycle stage of an epic or a story.
#[derive(Debug, Clone, Copy, PartialEq, Eq, Structural)]
pub enum Status {
    Open,
    InProgress,
    Resolved,
    Closed,
}

/// The upper-case form of a status that is shown on screen.
pub open spec fn status_label(status: Status) -> Seq<char> {
    match status {
        Status::Open => "OPEN"@,
        Status::InProgress => "IN PROGRESS"@,
        Status::Resolved => "RESOLVED"@,
        Status::Closed => "CLOSED"@,
    }
}

impl Status {
    /// The text shown on screen for this status.
    pub fn label(&self) -> (text: String)
        ensures
            text@ == status_label(*self),
    {
        match self {
            Status::Open => "OPEN".to_owned(),
            Status::InProgress => "IN PROGRESS".to_owned(),
            Status::Resolved => "RESOLVED".to_owned(),
            Status::Closed => "CLOSED".to_owned(),
        }
    }
}

/// A top-level work item that owns stories.
#[derive(Debug, PartialEq, Eq)]
pub struct Epic {
    pub name: String,
    pub description: String,
    pub status: Status,
    pub stories: Vec<u32>,
}

/// What an [`Epic`] holds, as plain mathematical values.
pub ghost struct EpicView {
    pub name: Seq<char>,
    pub description: Seq<char>,
    pub status: Status,
    pub stories: Seq<u32>,
}

impl View for Epic {
    type V = EpicView;

    open spec fn view(&self) -> EpicView {
        EpicView {
            name: self.name@,
            description: self.description@,
            status: self.status,
            stories: self.stories@,
        }
    }
}

impl Clone for Epic {
    fn clone(&self) -> (copy: Self)
        ensures
            copy@ == self@,
    {
        Epic {
            name: self.name.clone(),
            description: self.description.clone(),
            status: self.status,
            stories: self.stories.clone(),
        }
    }
}

impl Epic {
    /// A new epic: open, with no stories.
    pub fn new(name: String, description: String) -> (epic: Self)
        ensures
            epic@ == (EpicView {
                name: name@,
                description: description@,
                status: Status::Open,
                stories: Seq::empty(),
            }),
    {
        Epic { name, description, status: Status::Open, stories: Vec::new() }
    }
}

/// A leaf work item. It holds no reference to the epic that owns it.
#[derive(Debug, PartialEq, Eq)]
pub struct Story {
    pub name: String,
    pub description: String,
    pub status: Status,
}

/// What a [`Story`] holds, as plain mathematical values.
pub ghost struct StoryView {
    pub name: Seq<char>,
    pub description: Seq<char>,
    pub status: Status,
}

impl View for Story {
    type V = StoryView;

    open spec fn view(&self) -> StoryView {
        StoryView { name: self.name@, description: self.description@, status: self.status }
    }
}

impl Clone for Story {
    fn clone(&self) -> (copy: Self)
        ensures
            copy@ == self@,
    {
        Story {
            name: self.name.clone(),
            description: self.description.clone(),
            status: self.status,
        }
    }
}

impl Story {
    /// A new story: open.
    pub fn new(name: String, description: String) -> (story: Self)
        ensures
            story@ == (StoryView { name: name@, description: description@, status: Status::Open }),
    {
        Story { name, description, status: Status::Open }
    }
}

/// The whole state of the tracker, persisted as one unit.
#[derive(Debug, PartialEq, Eq)]
pub struct DBState {
    pub last_item_id: u32,
    pub epics: HashMap<u32, Epic>,
    pub stories: HashMap<u32, Story>,
}

/// What a [`DBState`] holds, as plain mathematical values.
pub ghost struct DBStateView {
    pub last_item_id: nat,
    pub epics: Map<u32, EpicView>,
    pub stories: Map<u32, StoryView>,
}

impl View for DBState {
    type V = DBStateView;

    open spec fn view(&self) -> DBStateView {
        DBStateView {
            last_item_id: self.last_item_id as nat,
            epics: self.epics@.map_values(|epic: Epic| epic@),
            stories: self.stories@.map_values(|story: Story| story@),
        }
    }
}

impl Clone for DBState {
    fn clone(&self) -> (copy: Self)
        ensures
            copy@ == self@,
    {
        DBState {
            last_item_id: self.last_item_id,
            epics: self.epics.clone(),
            stories: self.stories.clone(),
        }
    }
}

impl DBState {
    /// The empty snapshot: no epics, no stories, and no id handed out yet.
    pub fn new() -> (state: Self)
        ensures
            state@ == DBStateView::empty(),
    {
        let state = DBState { last_item_id: 0, epics: HashMap::new(), stories: HashMap::new() };
        assert(state@.epics =~= Map::empty());
        assert(state@.stories =~= Map::empty());
        state
    }
}

impl DBStateView {
    /// The snapshot a fresh tracker starts from.
    pub open spec fn empty() -> DBStateView {
        DBStateView { last_item_id: 0, epics: Map::empty(), stories: Map::empty() }
    }
}

} // verus!
