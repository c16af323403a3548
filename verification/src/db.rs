//! The repository: create, update and delete over one snapshot, with the id counter
//! and the cascade from an epic to its stories.

use vstd::prelude::*;

pub mod integrity;
pub mod test_utils;

use crate::db::integrity::request_keeps_consistency;
use crate::models::{DBState, DBStateView, Epic, EpicView, Status, Story, StoryView};

verus! {

/// Why a repository operation did not go through.
#[derive(Debug, Clone, PartialEq, Eq)]
pub enum DbError {
    /// No epic has the given id.
    EpicNotFound,
    /// No story has the given id.
    StoryNotFound,
    /// The named epic does not list the given story.
    StoryNotInEpic,
    /// The store could not load or save the snapshot; the text says why.
    Storage(String),
}

/// The text that describes each error.
pub open spec fn error_text(error: DbError) -> Seq<char> {
    match error {
        DbError::EpicNotFound => "could not find epic in database!"@,
        DbError::StoryNotFound => "could not find story in database!"@,
        DbError::StoryNotInEpic => "story id not found in epic's stories"@,
        DbError::Storage(reason) => reason@,
    }
}

impl DbError {
    /// A description of the error for the user.
    pub fn message(&self) -> (text: String)
        ensures
            text@ == error_text(*self),
    {
        match self {
            DbError::EpicNotFound => "could not find epic in database!".to_owned(),
            DbError::StoryNotFound => "could not find story in database!".to_owned(),
            DbError::StoryNotInEpic => "story id not found in epic's stories".to_owned(),
            DbError::Storage(reason) => reason.clone(),
        }
    }
}

/// `index` is where `id` first occurs in `ids`.
pub open spec fn is_first_at(ids: Seq<u32>, id: u32, index: int) -> bool {
    &&& 0 <= index < ids.len()
    &&& ids[index] == id
    &&& forall|j: int| 0 <= j < index ==> ids[j] != id
}

/// The index at which `id` first occurs in `ids`, where it occurs at all.
pub open spec fn first_position(ids: Seq<u32>, id: u32) -> int {
    choose|index: int| is_first_at(ids, id, index)
}

impl EpicView {
    /// This epic with another status.
    pub open spec fn with_status(self, status: Status) -> EpicView {
        EpicView { status, ..self }
    }

    /// This epic with one more story at the end of its list.
    pub open spec fn with_story(self, story_id: u32) -> EpicView {
        EpicView { stories: self.stories.push(story_id), ..self }
    }

    /// This epic without the first occurrence of `story_id` in its list.
    pub open spec fn without_story(self, story_id: u32) -> EpicView {
        EpicView { stories: self.stories.remove(first_position(self.stories, story_id)), ..self }
    }
}

impl StoryView {
    /// This story with another status.
    pub open spec fn with_status(self, status: Status) -> StoryView {
        StoryView { status, ..self }
    }
}

impl DBStateView {
    /// The id that the next created item gets.
    pub open spec fn next_id(self) -> nat {
        self.last_item_id + 1
    }

    /// The snapshot after `epic` was created.
    pub open spec fn with_epic(self, epic: EpicView) -> DBStateView {
        DBStateView {
            last_item_id: self.next_id(),
            epics: self.epics.insert(self.next_id() as u32, epic),
            stories: self.stories,
        }
    }

    /// The snapshot after `story` was created under the epic `epic_id`.
    pub open spec fn with_story(self, story: StoryView, epic_id: u32) -> DBStateView
        recommends
            self.epics.contains_key(epic_id),
    {
        DBStateView {
            last_item_id: self.next_id(),
            epics: self.epics.insert(epic_id, self.epics[epic_id].with_story(self.next_id() as u32)),
            stories: self.stories.insert(self.next_id() as u32, story),
        }
    }

    /// The snapshot after the epic `epic_id` was deleted with every story it lists.
    pub open spec fn without_epic(self, epic_id: u32) -> DBStateView
        recommends
            self.epics.contains_key(epic_id),
    {
        DBStateView {
            last_item_id: self.last_item_id,
            epics: self.epics.remove(epic_id),
            stories: self.stories.remove_keys(self.epics[epic_id].stories.to_set()),
        }
    }

    /// Whether the epic `epic_id` exists and lists the story `story_id`.
    pub open spec fn owns_story(self, epic_id: u32, story_id: u32) -> bool {
        self.epics.contains_key(epic_id) && self.epics[epic_id].stories.contains(story_id)
    }

    /// The snapshot after the story `story_id` was deleted from the epic `epic_id`.
    pub open spec fn without_story(self, epic_id: u32, story_id: u32) -> DBStateView
        recommends
            self.owns_story(epic_id, story_id),
    {
        DBStateView {
            last_item_id: self.last_item_id,
            epics: self.epics.insert(epic_id, self.epics[epic_id].without_story(story_id)),
            stories: self.stories.remove(story_id),
        }
    }

    /// The snapshot after the epic `epic_id` got the status `status`.
    pub open spec fn with_epic_status(self, epic_id: u32, status: Status) -> DBStateView
        recommends
            self.epics.contains_key(epic_id),
    {
        DBStateView {
            epics: self.epics.insert(epic_id, self.epics[epic_id].with_status(status)),
            ..self
        }
    }

    /// The snapshot after the story `story_id` got the status `status`.
    pub open spec fn with_story_status(self, story_id: u32, status: Status) -> DBStateView
        recommends
            self.stories.contains_key(story_id),
    {
        DBStateView {
            stories: self.stories.insert(story_id, self.stories[story_id].with_status(status)),
            ..self
        }
    }
}

/// One request to the repository, as plain mathematical values.
pub ghost enum Request {
    /// Nothing is asked of the repository.
    Nothing,
    CreateEpic { epic: EpicView },
    CreateStory { story: StoryView, epic_id: u32 },
    DeleteEpic { epic_id: u32 },
    DeleteStory { epic_id: u32, story_id: u32 },
    UpdateEpicStatus { epic_id: u32, status: Status },
    UpdateStoryStatus { story_id: u32, status: Status },
}

impl DBStateView {
    /// Why the repository refuses `request` on this snapshot, if it does.
    pub open spec fn refusal(self, request: Request) -> Option<DbError> {
        match request {
            Request::Nothing | Request::CreateEpic { .. } => None,
            Request::CreateStory { epic_id, .. }
            | Request::DeleteEpic { epic_id }
            | Request::UpdateEpicStatus { epic_id, .. } => if self.epics.contains_key(epic_id) {
                None
            } else {
                Some(DbError::EpicNotFound)
            },
            Request::DeleteStory { epic_id, story_id } => if !self.epics.contains_key(epic_id) {
                Some(DbError::EpicNotFound)
            } else if !self.epics[epic_id].stories.contains(story_id) {
                Some(DbError::StoryNotInEpic)
            } else {
                None
            },
            Request::UpdateStoryStatus { story_id, .. } => if self.stories.contains_key(story_id) {
                None
            } else {
                Some(DbError::StoryNotFound)
            },
        }
    }

    /// The snapshot after `request`. A refused request leaves it as it is.
    pub open spec fn after(self, request: Request) -> DBStateView {
        if self.refusal(request) is Some {
            self
        } else {
            match request {
                Request::Nothing => self,
                Request::CreateEpic { epic } => self.with_epic(epic),
                Request::CreateStory { story, epic_id } => self.with_story(story, epic_id),
                Request::DeleteEpic { epic_id } => self.without_epic(epic_id),
                Request::DeleteStory { epic_id, story_id } => self.without_story(epic_id, story_id),
                Request::UpdateEpicStatus { epic_id, status } => self.with_epic_status(
                    epic_id,
                    status,
                ),
                Request::UpdateStoryStatus { story_id, status } => self.with_story_status(
                    story_id,
                    status,
                ),
            }
        }
    }

    /// The id that `request` returns: that of the item it creates, if it creates one.
    pub open spec fn created_id(self, request: Request) -> Option<nat> {
        if self.refusal(request) is None && (request is CreateEpic || request is CreateStory) {
            Some(self.next_id())
        } else {
            None
        }
    }
}

impl DBState {
    /// Creates `epic` under the next id and returns that id. An epic that comes
    /// without stories keeps a consistent snapshot consistent.
    pub fn add_epic(&mut self, epic: Epic) -> (id: u32)
        requires
            old(self).last_item_id < u32::MAX,
        ensures
            id == old(self)@.next_id(),
            final(self)@ == old(self)@.with_epic(epic@),
            old(self)@.is_consistent() && epic@.stories.len() == 0 ==> final(self)@.is_consistent(),
    {
        let new_id: u32 = self.last_item_id + 1;
        self.last_item_id = new_id;
        self.epics.insert(new_id, epic);
        proof {
            assert(self@.epics =~= old(self)@.with_epic(epic@).epics);
            if old(self)@.is_consistent() && epic@.stories.len() == 0 {
                request_keeps_consistency(old(self)@, Request::CreateEpic { epic: epic@ });
            }
        }
        new_id
    }

    /// Creates `story` under the next id, appends that id to the list of the epic
    /// `epic_id` and returns it. Without such an epic nothing changes.
    pub fn add_story(&mut self, story: Story, epic_id: u32) -> (r: Result<u32, DbError>)
        requires
            old(self).last_item_id < u32::MAX,
        ensures
            old(self)@.is_consistent() ==> final(self)@.is_consistent(),
            match r {
                Ok(id) => {
                    &&& old(self)@.epics.contains_key(epic_id)
                    &&& id == old(self)@.next_id()
                    &&& final(self)@ == old(self)@.with_story(story@, epic_id)
                },
                Err(error) => {
                    &&& error == DbError::EpicNotFound
                    &&& !old(self)@.epics.contains_key(epic_id)
                    &&& final(self)@ == old(self)@
                },
            },
    {
        match self.epics.remove(&epic_id) {
            None => {
                assert(self@.epics =~= old(self)@.epics);
                Err(DbError::EpicNotFound)
            },
            Some(mut epic) => {
                let new_id: u32 = self.last_item_id + 1;
                self.last_item_id = new_id;
                self.stories.insert(new_id, story);
                epic.stories.push(new_id);
                self.epics.insert(epic_id, epic);
                assert(self@.epics =~= old(self)@.with_story(story@, epic_id).epics);
                assert(self@.stories =~= old(self)@.with_story(story@, epic_id).stories);
                proof {
                    if old(self)@.is_consistent() {
                        request_keeps_consistency(old(self)@, Request::CreateStory { story: story@, epic_id });
                    }
                }
                Ok(new_id)
            },
        }
    }

    /// Gives the epic `epic_id` the status `status` and changes nothing else.
    pub fn set_epic_status(&mut self, epic_id: u32, status: Status) -> (r: Result<(), DbError>)
        ensures
            old(self)@.is_consistent() ==> final(self)@.is_consistent(),
            match r {
                Ok(_) => {
                    &&& old(self)@.epics.contains_key(epic_id)
                    &&& final(self)@ == old(self)@.with_epic_status(epic_id, status)
                },
                Err(error) => {
                    &&& error == DbError::EpicNotFound
                    &&& !old(self)@.epics.contains_key(epic_id)
                    &&& final(self)@ == old(self)@
                },
            },
    {
        match self.epics.remove(&epic_id) {
            None => {
                assert(self@.epics =~= old(self)@.epics);
                Err(DbError::EpicNotFound)
            },
            Some(mut epic) => {
                epic.status = status;
                self.epics.insert(epic_id, epic);
                assert(self@.epics =~= old(self)@.with_epic_status(epic_id, status).epics);
                proof {
                    if old(self)@.is_consistent() {
                        request_keeps_consistency(old(self)@, Request::UpdateEpicStatus { epic_id, status });
                    }
                }
                Ok(())
            },
        }
    }

    /// Gives the story `story_id` the status `status` and changes nothing else.
    pub fn set_story_status(&mut self, story_id: u32, status: Status) -> (r: Result<(), DbError>)
        ensures
            old(self)@.is_consistent() ==> final(self)@.is_consistent(),
            match r {
                Ok(_) => {
                    &&& old(self)@.stories.contains_key(story_id)
                    &&& final(self)@ == old(self)@.with_story_status(story_id, status)
                },
                Err(error) => {
                    &&& error == DbError::StoryNotFound
                    &&& !old(self)@.stories.contains_key(story_id)
                    &&& final(self)@ == old(self)@
                },
            },
    {
        match self.stories.remove(&story_id) {
            None => {
                assert(self@.stories =~= old(self)@.stories);
                Err(DbError::StoryNotFound)
            },
            Some(mut story) => {
                story.status = status;
                self.stories.insert(story_id, story);
                assert(self@.stories =~= old(self)@.with_story_status(story_id, status).stories);
                proof {
                    if old(self)@.is_consistent() {
                        request_keeps_consistency(old(self)@, Request::UpdateStoryStatus { story_id, status });
                    }
                }
                Ok(())
            },
        }
    }

    /// Deletes the epic `epic_id` and every story that it lists.
    pub fn remove_epic(&mut self, epic_id: u32) -> (r: Result<(), DbError>)
        ensures
            old(self)@.is_consistent() ==> final(self)@.is_consistent(),
            match r {
                Ok(_) => {
                    &&& old(self)@.epics.contains_key(epic_id)
                    &&& final(self)@ == old(self)@.without_epic(epic_id)
                },
                Err(error) => {
                    &&& error == DbError::EpicNotFound
                    &&& !old(self)@.epics.contains_key(epic_id)
                    &&& final(self)@ == old(self)@
                },
            },
    {
        match self.epics.remove(&epic_id) {
            None => {
                assert(self@.epics =~= old(self)@.epics);
                Err(DbError::EpicNotFound)
            },
            Some(epic) => {
                let ghost before = self.stories@;
                let ghost ids = epic.stories@;
                let mut i: usize = 0;
                while i < epic.stories.len()
                    invariant
                        i <= epic.stories.len(),
                        ids == epic.stories@,
                        ids == old(self)@.epics[epic_id].stories,
                        old(self)@.epics.contains_key(epic_id),
                        before == old(self).stories@,
                        self.last_item_id == old(self).last_item_id,
                        self.epics@ == old(self).epics@.remove(epic_id),
                        self.stories@ == before.remove_keys(ids.take(i as int).to_set()),
                    decreases epic.stories.len() - i,
                {
                    let story_id: u32 = epic.stories[i];
                    self.stories.remove(&story_id);
                    proof {
                        assert(ids.take(i + 1) =~= ids.take(i as int).push(story_id));
                        ids.take(i as int).lemma_push_to_set_commute(story_id);
                        assert(self.stories@ =~= before.remove_keys(ids.take(i + 1).to_set()));
                    }
                    i += 1;
                }
                proof {
                    assert(epic.stories@.take(i as int) =~= epic.stories@);
                    assert(self@.stories =~= old(self)@.without_epic(epic_id).stories);
                    assert(self@.epics =~= old(self)@.without_epic(epic_id).epics);
                    if old(self)@.is_consistent() {
                        request_keeps_consistency(old(self)@, Request::DeleteEpic { epic_id });
                    }
                }
                Ok(())
            },
        }
    }

    /// Deletes the story `story_id` from the list of the epic `epic_id` and from the
    /// stories. The epic must list the story: that the story exists is not enough.
    pub fn remove_story(&mut self, epic_id: u32, story_id: u32) -> (r: Result<(), DbError>)
        ensures
            old(self)@.is_consistent() ==> final(self)@.is_consistent(),
            match r {
                Ok(_) => {
                    &&& old(self)@.owns_story(epic_id, story_id)
                    &&& final(self)@ == old(self)@.without_story(epic_id, story_id)
                },
                Err(error) => {
                    &&& final(self)@ == old(self)@
                    &&& !old(self)@.owns_story(epic_id, story_id)
                    &&& error == if old(self)@.epics.contains_key(epic_id) {
                        DbError::StoryNotInEpic
                    } else {
                        DbError::EpicNotFound
                    }
                },
            },
    {
        let found = match self.epics.get(&epic_id) {
            None => { return Err(DbError::EpicNotFound); },
            Some(epic) => position_of(&epic.stories, story_id),
        };
        match found {
            None => Err(DbError::StoryNotInEpic),
            Some(index) => {
                let mut epic = self.epics.remove(&epic_id).unwrap();
                epic.stories.remove(index);
                self.epics.insert(epic_id, epic);
                self.stories.remove(&story_id);
                proof {
                    let ids = old(self)@.epics[epic_id].stories;
                    assert(is_first_at(ids, story_id, index as int));
                    assert(first_position(ids, story_id) == index);
                    assert(ids.contains(story_id));
                    assert(self@.epics =~= old(self)@.without_story(epic_id, story_id).epics);
                    assert(self@.stories =~= old(self)@.without_story(epic_id, story_id).stories);
                    if old(self)@.is_consistent() {
                        request_keeps_consistency(
                            old(self)@,
                            Request::DeleteStory { epic_id, story_id },
                        );
                    }
                }
                Ok(())
            },
        }
    }
}

/// Where `id` first occurs in `ids`, if it occurs.
pub fn position_of(ids: &Vec<u32>, id: u32) -> (found: Option<usize>)
    ensures
        match found {
            Some(index) => is_first_at(ids@, id, index as int),
            None => !ids@.contains(id),
        },
{
    let mut i: usize = 0;
    while i < ids.len()
        invariant
            i <= ids.len(),
            forall|j: int| 0 <= j < i ==> ids@[j] != id,
        decreases ids.len() - i,
    {
        if ids[i] == id {
            return Some(i);
        }
        i += 1;
    }
    None
}

/// A store that loads and saves the whole snapshot at once.
pub trait Database {
    /// The snapshot that the store holds. A store that keeps it outside the program
    /// does not say what it is.
    open spec fn snapshot(&self) -> DBStateView {
        arbitrary()
    }

    /// Whether loading from and saving to this kind of store always succeeds. Nothing
    /// is promised of a store that does not say so.
    open spec fn infallible() -> bool {
        false
    }

    /// Loads a copy of the snapshot. It fails only for reasons of storage.
    fn read_db(&self) -> (r: Result<DBState, DbError>)
        ensures
            match r {
                Ok(state) => state@ == self.snapshot(),
                Err(error) => error is Storage && !Self::infallible(),
            },
    ;

    /// Replaces the snapshot by `db_state`, wholly or not at all. It fails only for
    /// reasons of storage, and then the store holds what it held before.
    fn write_db(&mut self, db_state: &DBState) -> (r: Result<(), DbError>)
        ensures
            match r {
                Ok(_) => final(self).snapshot() == db_state@,
                Err(error) => {
                    &&& error is Storage
                    &&& !Self::infallible()
                    &&& final(self).snapshot() == old(self).snapshot()
                },
            },
    ;
}

/// The repository. Each operation loads the snapshot, edits the copy, and saves the
/// copy only if every edit went through: an operation that fails, for whatever reason,
/// leaves the stored snapshot as it was.
pub struct JiraDatabase<D: Database> {
    pub database: D,
}

impl<D: Database> JiraDatabase<D> {
    /// A repository over `database`.
    pub fn new(database: D) -> (db: Self)
        ensures
            db.database == database,
    {
        JiraDatabase { database }
    }

    /// The snapshot that the repository's store holds.
    pub open spec fn snapshot(&self) -> DBStateView {
        self.database.snapshot()
    }

    /// A copy of the whole snapshot.
    pub fn read_db(&self) -> (r: Result<DBState, DbError>)
        ensures
            match r {
                Ok(state) => state@ == self.snapshot(),
                Err(error) => error is Storage && !D::infallible(),
            },
    {
        self.database.read_db()
    }

    /// Creates `epic` under the next id and returns that id. Only the store can make
    /// this fail.
    pub fn create_epic(&mut self, epic: Epic) -> (r: Result<u32, DbError>)
        requires
            old(self).snapshot().last_item_id < u32::MAX,
        ensures
            match r {
                Ok(id) => {
                    &&& id == old(self).snapshot().next_id()
                    &&& final(self).snapshot() == old(self).snapshot().with_epic(epic@)
                },
                Err(error) => {
                    &&& error is Storage
                    &&& !D::infallible()
                    &&& final(self).snapshot() == old(self).snapshot()
                },
            },
    {
        let mut parsed = match self.database.read_db() {
            Ok(state) => state,
            Err(error) => { return Err(error); },
        };
        let new_id = parsed.add_epic(epic);
        match self.database.write_db(&parsed) {
            Ok(_) => Ok(new_id),
            Err(error) => Err(error),
        }
    }

    /// Creates `story` under the next id as the last story of the epic `epic_id` and
    /// returns that id. Without such an epic the stored snapshot stays as it is: no
    /// id is used up.
    pub fn create_story(&mut self, story: Story, epic_id: u32) -> (r: Result<u32, DbError>)
        requires
            old(self).snapshot().last_item_id < u32::MAX,
        ensures
            match r {
                Ok(id) => {
                    &&& old(self).snapshot().epics.contains_key(epic_id)
                    &&& id == old(self).snapshot().next_id()
                    &&& final(self).snapshot() == old(self).snapshot().with_story(story@, epic_id)
                },
                Err(DbError::Storage(_)) => {
                    &&& !D::infallible()
                    &&& final(self).snapshot() == old(self).snapshot()
                },
                Err(error) => {
                    &&& error == DbError::EpicNotFound
                    &&& !old(self).snapshot().epics.contains_key(epic_id)
                    &&& final(self).snapshot() == old(self).snapshot()
                },
            },
    {
        let mut parsed = match self.database.read_db() {
            Ok(state) => state,
            Err(error) => { return Err(error); },
        };
        let new_id = match parsed.add_story(story, epic_id) {
            Ok(id) => id,
            Err(error) => { return Err(error); },
        };
        match self.database.write_db(&parsed) {
            Ok(_) => Ok(new_id),
            Err(error) => Err(error),
        }
    }

    /// Deletes the epic `epic_id` together with every story that it lists.
    pub fn delete_epic(&mut self, epic_id: u32) -> (r: Result<(), DbError>)
        ensures
            match r {
                Ok(_) => {
                    &&& old(self).snapshot().epics.contains_key(epic_id)
                    &&& final(self).snapshot() == old(self).snapshot().without_epic(epic_id)
                },
                Err(DbError::Storage(_)) => {
                    &&& !D::infallible()
                    &&& final(self).snapshot() == old(self).snapshot()
                },
                Err(error) => {
                    &&& error == DbError::EpicNotFound
                    &&& !old(self).snapshot().epics.contains_key(epic_id)
                    &&& final(self).snapshot() == old(self).snapshot()
                },
            },
    {
        let mut parsed = match self.database.read_db() {
            Ok(state) => state,
            Err(error) => { return Err(error); },
        };
        match parsed.remove_epic(epic_id) {
            Ok(_) => {},
            Err(error) => { return Err(error); },
        }
        self.database.write_db(&parsed)
    }

    /// Deletes the story `story_id` from the epic `epic_id`. The epic must list the
    /// story; a story that exists under another epic is not touched.
    pub fn delete_story(&mut self, epic_id: u32, story_id: u32) -> (r: Result<(), DbError>)
        ensures
            match r {
                Ok(_) => {
                    &&& old(self).snapshot().owns_story(epic_id, story_id)
                    &&& final(self).snapshot() == old(self).snapshot().without_story(
                        epic_id,
                        story_id,
                    )
                },
                Err(DbError::Storage(_)) => {
                    &&& !D::infallible()
                    &&& final(self).snapshot() == old(self).snapshot()
                },
                Err(error) => {
                    &&& final(self).snapshot() == old(self).snapshot()
                    &&& !old(self).snapshot().owns_story(epic_id, story_id)
                    &&& error == if old(self).snapshot().epics.contains_key(epic_id) {
                        DbError::StoryNotInEpic
                    } else {
                        DbError::EpicNotFound
                    }
                },
            },
    {
        let mut parsed = match self.database.read_db() {
            Ok(state) => state,
            Err(error) => { return Err(error); },
        };
        match parsed.remove_story(epic_id, story_id) {
            Ok(_) => {},
            Err(error) => { return Err(error); },
        }
        self.database.write_db(&parsed)
    }

    /// Gives the epic `epic_id` the status `status`; nothing else changes.
    pub fn update_epic_status(&mut self, epic_id: u32, status: Status) -> (r: Result<(), DbError>)
        ensures
            match r {
                Ok(_) => {
                    &&& old(self).snapshot().epics.contains_key(epic_id)
                    &&& final(self).snapshot() == old(self).snapshot().with_epic_status(
                        epic_id,
                        status,
                    )
                },
                Err(DbError::Storage(_)) => {
                    &&& !D::infallible()
                    &&& final(self).snapshot() == old(self).snapshot()
                },
                Err(error) => {
                    &&& error == DbError::EpicNotFound
                    &&& !old(self).snapshot().epics.contains_key(epic_id)
                    &&& final(self).snapshot() == old(self).snapshot()
                },
            },
    {
        let mut parsed = match self.database.read_db() {
            Ok(state) => state,
            Err(error) => { return Err(error); },
        };
        match parsed.set_epic_status(epic_id, status) {
            Ok(_) => {},
            Err(error) => { return Err(error); },
        }
        self.database.write_db(&parsed)
    }

    /// Gives the story `story_id` the status `status`; nothing else changes.
    pub fn update_story_status(&mut self, story_id: u32, status: Status) -> (r: Result<
        (),
        DbError,
    >)
        ensures
            match r {
                Ok(_) => {
                    &&& old(self).snapshot().stories.contains_key(story_id)
                    &&& final(self).snapshot() == old(self).snapshot().with_story_status(
                        story_id,
                        status,
                    )
                },
                Err(DbError::Storage(_)) => {
                    &&& !D::infallible()
                    &&& final(self).snapshot() == old(self).snapshot()
                },
                Err(error) => {
                    &&& error == DbError::StoryNotFound
                    &&& !old(self).snapshot().stories.contains_key(story_id)
                    &&& final(self).snapshot() == old(self).snapshot()
                },
            },
    {
        let mut parsed = match self.database.read_db() {
            Ok(state) => state,
            Err(error) => { return Err(error); },
        };
        match parsed.set_story_status(story_id, status) {
            Ok(_) => {},
            Err(error) => { return Err(error); },
        }
        self.database.write_db(&parsed)
    }
}

} // verus!
