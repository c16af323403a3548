//! The three pages: what each shows and which action each input line stands for.

pub mod page_helpers;

use vstd::prelude::*;
use crate::db::{position_of, Database, DbError, JiraDatabase};
use crate::models::{status_label, Action, DBState, DBStateView, EpicView, StoryView};
use crate::ui::pages::page_helpers::{
    column_string, decimal_text, get_column_string, id_text, ids_in_order, is_command,
    is_sorting_of, keys_in_order, lists_in_order, parse_number, parsed_number,
};

verus! {

/// The texts of `lines`.
pub open spec fn texts(lines: Seq<String>) -> Seq<Seq<char>> {
    lines.map_values(|line: String| line@)
}

/// What stands between two columns.
pub open spec fn column_gap() -> Seq<char> {
    " | "@
}

/// A row of a table of epics or of stories: id, name and status.
pub open spec fn table_row(id: u32, name: Seq<char>, status: Seq<char>) -> Seq<char> {
    column_string(decimal_text(id as nat), 11) + column_gap() + column_string(name, 32)
        + column_gap() + column_string(status, 17)
}

/// The row that describes one epic or one story in full.
pub open spec fn detail_row(
    id: u32,
    name: Seq<char>,
    description: Seq<char>,
    status: Seq<char>,
) -> Seq<char> {
    column_string(decimal_text(id as nat), 5) + column_gap() + column_string(name, 12)
        + column_gap() + column_string(description, 27) + column_gap() + column_string(
        status,
        13,
    )
}

/// The heading of a table of epics or of stories.
pub open spec fn table_heading() -> Seq<char> {
    "     id     |               name               |      status      "@
}

/// The heading above a detail row.
pub open spec fn detail_heading() -> Seq<char> {
    "  id  |     name     |         description         |    status    "@
}

/// One row for each of the epics `ids`, in that order.
pub open spec fn epic_rows(ids: Seq<u32>, state: DBStateView) -> Seq<Seq<char>> {
    Seq::new(
        ids.len(),
        |i: int| table_row(ids[i], state.epics[ids[i]].name, status_label(state.epics[ids[i]].status)),
    )
}

/// One row for each of the stories `ids`, in that order.
pub open spec fn story_rows(ids: Seq<u32>, state: DBStateView) -> Seq<Seq<char>> {
    Seq::new(
        ids.len(),
        |i: int|
            table_row(ids[i], state.stories[ids[i]].name, status_label(state.stories[ids[i]].status)),
    )
}

/// The home page with a row for each of the epics `ids`.
pub open spec fn home_lines(ids: Seq<u32>, state: DBStateView) -> Seq<Seq<char>> {
    seq!["----------------------------- EPICS -----------------------------"@, table_heading()]
        + epic_rows(ids, state) + seq![
        ""@,
        ""@,
        "[q] quit | [c] create epic | [:id:] navigate to epic"@,
    ]
}

/// The page of the epic `epic_id` with a row for each of the stories `ids`.
pub open spec fn epic_lines(epic_id: u32, ids: Seq<u32>, state: DBStateView) -> Seq<Seq<char>> {
    let epic = state.epics[epic_id];
    seq![
        "------------------------------ EPIC ------------------------------"@,
        detail_heading(),
        detail_row(epic_id, epic.name, epic.description, status_label(epic.status)),
        ""@,
        "---------------------------- STORIES ----------------------------"@,
        table_heading(),
    ] + story_rows(ids, state) + seq![
        ""@,
        ""@,
        "[p] previous | [u] update epic | [c] create story | [:id:] navigate to story"@,
    ]
}

/// The page of the story `story_id`.
pub open spec fn story_lines(story_id: u32, story: StoryView) -> Seq<Seq<char>> {
    seq![
        "------------------------------ STORY ------------------------------"@,
        detail_heading(),
        detail_row(story_id, story.name, story.description, status_label(story.status)),
        ""@,
        ""@,
        "[p] previous | [u] update story | [d] delete story"@,
    ]
}

/// `lines` is the home page for `state`: its rows are the epics in ascending order of
/// id.
pub open spec fn is_home_page(lines: Seq<Seq<char>>, state: DBStateView) -> bool {
    exists|ids: Seq<u32>|
        (#[trigger] lists_in_order(ids, state.epics.dom())) && lines == home_lines(ids, state)
}

/// `lines` is the page of the epic `epic_id` for `state`: its rows are the stories
/// that the epic lists, in ascending order of id.
pub open spec fn is_epic_page(lines: Seq<Seq<char>>, epic_id: u32, state: DBStateView) -> bool {
    exists|ids: Seq<u32>|
        (#[trigger] is_sorting_of(ids, state.epics[epic_id].stories)) && lines == epic_lines(
            epic_id,
            ids,
            state,
        )
}

/// Whether every story that `epic` lists exists in `state`.
pub open spec fn lists_known_stories(epic: EpicView, state: DBStateView) -> bool {
    forall|i: int| 0 <= i < epic.stories.len() ==> state.stories.contains_key(#[trigger] epic.stories[i])
}

/// The text of a table row.
fn table_row_text(id: u32, name: &str, status: &str) -> (row: String)
    ensures
        row@ == table_row(id, name@, status@),
{
    let row = get_column_string(id_text(id).as_str(), 11);
    let row = row.concat(" | ");
    let row = row.concat(get_column_string(name, 32).as_str());
    let row = row.concat(" | ");
    row.concat(get_column_string(status, 17).as_str())
}

/// The text of a detail row.
fn detail_row_text(id: u32, name: &str, description: &str, status: &str) -> (row: String)
    ensures
        row@ == detail_row(id, name@, description@, status@),
{
    let row = get_column_string(id_text(id).as_str(), 5);
    let row = row.concat(" | ");
    let row = row.concat(get_column_string(name, 12).as_str());
    let row = row.concat(" | ");
    let row = row.concat(get_column_string(description, 27).as_str());
    let row = row.concat(" | ");
    row.concat(get_column_string(status, 13).as_str())
}

/// Appends the text `line` to `lines`.
fn push_line(lines: &mut Vec<String>, line: String)
    ensures
        texts(final(lines)@) == texts(old(lines)@).push(line@),
{
    lines.push(line);
    assert(texts(lines@) =~= texts(old(lines)@).push(line@));
}

/// The page that lists every epic.
#[derive(Debug, Clone, Copy, PartialEq, Eq, Structural)]
pub struct HomePage {}

/// The action that `input` stands for on the home page.
pub open spec fn home_action(input: Seq<char>, state: DBStateView) -> Option<Action> {
    if input == seq!['q'] {
        Some(Action::Exit)
    } else if input == seq!['c'] {
        Some(Action::CreateEpic)
    } else {
        match parsed_number(input) {
            Some(epic_id) => if state.epics.contains_key(epic_id) {
                Some(Action::NavigateToEpicDetail { epic_id })
            } else {
                None
            },
            None => None,
        }
    }
}

impl HomePage {
    /// The lines of the page for `state`.
    pub fn render(&self, state: &DBState) -> (lines: Vec<String>)
        ensures
            is_home_page(texts(lines@), state@),
    {
        let ids = keys_in_order(&state.epics);
        assert(state@.epics.dom() =~= state.epics@.dom());
        let mut lines: Vec<String> = Vec::new();
        push_line(
            &mut lines,
            "----------------------------- EPICS -----------------------------".to_owned(),
        );
        push_line(
            &mut lines,
            "     id     |               name               |      status      ".to_owned(),
        );
        let ghost top = texts(lines@);
        assert(top =~= seq![
            "----------------------------- EPICS -----------------------------"@,
            table_heading(),
        ]);
        let mut i: usize = 0;
        while i < ids.len()
            invariant
                i <= ids.len(),
                lists_in_order(ids@, state@.epics.dom()),
                texts(lines@) == top + epic_rows(ids@.take(i as int), state@),
            decreases ids.len() - i,
        {
            let id: u32 = ids[i];
            assert(ids@.to_set().contains(id));
            assert(state.epics@.contains_key(id));
            let epic = state.epics.get(&id).unwrap();
            let row = table_row_text(id, epic.name.as_str(), epic.status.label().as_str());
            push_line(&mut lines, row);
            assert(ids@.take(i + 1) =~= ids@.take(i as int).push(id));
            assert(epic_rows(ids@.take(i + 1), state@) =~= epic_rows(
                ids@.take(i as int),
                state@,
            ).push(row@));
            i += 1;
        }
        assert(ids@.take(i as int) =~= ids@);
        push_line(&mut lines, "".to_owned());
        push_line(&mut lines, "".to_owned());
        push_line(&mut lines, "[q] quit | [c] create epic | [:id:] navigate to epic".to_owned());
        assert(texts(lines@) =~= home_lines(ids@, state@));
        lines
    }

    /// The lines of the page for what `db` holds.
    pub fn draw_page<D: Database>(&self, db: &JiraDatabase<D>) -> (r: Result<Vec<String>, DbError>)
        ensures
            match r {
                Ok(lines) => is_home_page(texts(lines@), db.snapshot()),
                Err(error) => error is Storage && !D::infallible(),
            },
    {
        match db.read_db() {
            Ok(state) => Ok(self.render(&state)),
            Err(error) => Err(error),
        }
    }

    /// The action that `input` stands for, with `state` on the page.
    pub fn interpret(&self, input: &str, state: &DBState) -> (action: Option<Action>)
        ensures
            action == home_action(input@, state@),
    {
        if is_command(input, 'q') {
            Some(Action::Exit)
        } else if is_command(input, 'c') {
            Some(Action::CreateEpic)
        } else {
            match parse_number(input) {
                Some(epic_id) => {
                    if state.epics.contains_key(&epic_id) {
                        Some(Action::NavigateToEpicDetail { epic_id })
                    } else {
                        None
                    }
                },
                None => None,
            }
        }
    }

    /// The action that `input` stands for, with what `db` holds on the page.
    pub fn handle_input<D: Database>(&self, input: &str, db: &JiraDatabase<D>) -> (r: Result<
        Option<Action>,
        DbError,
    >)
        ensures
            match r {
                Ok(action) => action == home_action(input@, db.snapshot()),
                Err(error) => error is Storage && !D::infallible(),
            },
    {
        match db.read_db() {
            Ok(state) => Ok(self.interpret(input, &state)),
            Err(error) => Err(error),
        }
    }
}

/// The page of one epic and its stories.
#[derive(Debug, Clone, Copy, PartialEq, Eq, Structural)]
pub struct EpicDetail {
    pub epic_id: u32,
}

/// The action that `input` stands for on the page of the epic `epic_id`.
pub open spec fn epic_action(epic_id: u32, input: Seq<char>, state: DBStateView) -> Option<Action> {
    if input == seq!['p'] {
        Some(Action::NavigateToPreviousPage)
    } else if input == seq!['u'] {
        Some(Action::UpdateEpicStatus { epic_id })
    } else if input == seq!['d'] {
        Some(Action::DeleteEpic { epic_id })
    } else if input == seq!['c'] {
        Some(Action::CreateStory { epic_id })
    } else {
        match parsed_number(input) {
            Some(story_id) => if state.owns_story(epic_id, story_id) {
                Some(Action::NavigateToStoryDetail { epic_id, story_id })
            } else {
                None
            },
            None => None,
        }
    }
}

/// What rendering the page of the epic `epic_id` for `state` gives: the page, where
/// the epic exists and every story that it lists exists; else the error that names
/// what is missing, the epic first.
pub open spec fn is_epic_rendering(
    epic_id: u32,
    state: DBStateView,
    r: Result<Vec<String>, DbError>,
) -> bool {
    match r {
        Ok(lines) => {
            &&& state.epics.contains_key(epic_id)
            &&& lists_known_stories(state.epics[epic_id], state)
            &&& is_epic_page(texts(lines@), epic_id, state)
        },
        Err(error) => if state.epics.contains_key(epic_id) {
            error == DbError::StoryNotFound && !lists_known_stories(state.epics[epic_id], state)
        } else {
            error == DbError::EpicNotFound
        },
    }
}

impl EpicDetail {
    /// The lines of the page for `state`.
    pub fn render(&self, state: &DBState) -> (r: Result<Vec<String>, DbError>)
        ensures
            is_epic_rendering(self.epic_id, state@, r),
    {
        let epic = match state.epics.get(&self.epic_id) {
            None => { return Err(DbError::EpicNotFound); },
            Some(epic) => epic,
        };
        let ids = ids_in_order(&epic.stories);
        let mut lines: Vec<String> = Vec::new();
        push_line(
            &mut lines,
            "------------------------------ EPIC ------------------------------".to_owned(),
        );
        push_line(
            &mut lines,
            "  id  |     name     |         description         |    status    ".to_owned(),
        );
        push_line(
            &mut lines,
            detail_row_text(
                self.epic_id,
                epic.name.as_str(),
                epic.description.as_str(),
                epic.status.label().as_str(),
            ),
        );
        push_line(&mut lines, "".to_owned());
        push_line(
            &mut lines,
            "---------------------------- STORIES ----------------------------".to_owned(),
        );
        push_line(
            &mut lines,
            "     id     |               name               |      status      ".to_owned(),
        );
        let ghost top = texts(lines@);
        let mut i: usize = 0;
        while i < ids.len()
            invariant
                i <= ids.len(),
                state.epics@.contains_key(self.epic_id),
                *epic == state.epics@[self.epic_id],
                is_sorting_of(ids@, epic.stories@),
                forall|id: u32| ids@.contains(id) <==> epic.stories@.contains(id),
                forall|j: int| 0 <= j < i ==> state.stories@.contains_key(#[trigger] ids@[j]),
                texts(lines@) == top + story_rows(ids@.take(i as int), state@),
            decreases ids.len() - i,
        {
            let id: u32 = ids[i];
            match state.stories.get(&id) {
                None => {
                    proof {
                        assert(ids@.contains(id));
                        let k = choose|k: int|
                            0 <= k < epic.stories@.len() && epic.stories@[k] == id;
                        assert(!state@.stories.contains_key(state@.epics[self.epic_id].stories[k]));
                    }
                    return Err(DbError::StoryNotFound);
                },
                Some(story) => {
                    let row = table_row_text(id, story.name.as_str(), story.status.label().as_str());
                    push_line(&mut lines, row);
                    assert(ids@.take(i + 1) =~= ids@.take(i as int).push(id));
                    assert(story_rows(ids@.take(i + 1), state@) =~= story_rows(
                        ids@.take(i as int),
                        state@,
                    ).push(row@));
                },
            }
            i += 1;
        }
        assert(ids@.take(i as int) =~= ids@);
        push_line(&mut lines, "".to_owned());
        push_line(&mut lines, "".to_owned());
        push_line(
            &mut lines,
            "[p] previous | [u] update epic | [c] create story | [:id:] navigate to story".to_owned(),
        );
        proof {
            let listed = state@.epics[self.epic_id];
            assert(listed.stories == epic.stories@);
            assert(texts(lines@) =~= epic_lines(self.epic_id, ids@, state@));
            assert(is_sorting_of(ids@, listed.stories));
            assert(is_epic_page(texts(lines@), self.epic_id, state@));
            assert forall|k: int| 0 <= k < listed.stories.len() implies state@.stories.contains_key(
                #[trigger] listed.stories[k],
            ) by {
                assert(epic.stories@.contains(listed.stories[k]));
                assert(ids@.contains(listed.stories[k]));
                let j = choose|j: int| 0 <= j < ids@.len() && ids@[j] == listed.stories[k];
                assert(state.stories@.contains_key(ids@[j]));
            }
        }
        Ok(lines)
    }

    /// The lines of the page for what `db` holds.
    pub fn draw_page<D: Database>(&self, db: &JiraDatabase<D>) -> (r: Result<Vec<String>, DbError>)
        ensures
            match r {
                Err(DbError::Storage(_)) => !D::infallible(),
                _ => is_epic_rendering(self.epic_id, db.snapshot(), r),
            },
    {
        match db.read_db() {
            Ok(state) => self.render(&state),
            Err(error) => Err(error),
        }
    }

    /// The action that `input` stands for, with `state` on the page.
    pub fn interpret(&self, input: &str, state: &DBState) -> (action: Option<Action>)
        ensures
            action == epic_action(self.epic_id, input@, state@),
    {
        if is_command(input, 'p') {
            Some(Action::NavigateToPreviousPage)
        } else if is_command(input, 'u') {
            Some(Action::UpdateEpicStatus { epic_id: self.epic_id })
        } else if is_command(input, 'd') {
            Some(Action::DeleteEpic { epic_id: self.epic_id })
        } else if is_command(input, 'c') {
            Some(Action::CreateStory { epic_id: self.epic_id })
        } else {
            match parse_number(input) {
                Some(story_id) => {
                    let listed = match state.epics.get(&self.epic_id) {
                        Some(epic) => position_of(&epic.stories, story_id).is_some(),
                        None => false,
                    };
                    if listed {
                        Some(Action::NavigateToStoryDetail { epic_id: self.epic_id, story_id })
                    } else {
                        None
                    }
                },
                None => None,
            }
        }
    }

    /// The action that `input` stands for, with what `db` holds on the page.
    pub fn handle_input<D: Database>(&self, input: &str, db: &JiraDatabase<D>) -> (r: Result<
        Option<Action>,
        DbError,
    >)
        ensures
            match r {
                Ok(action) => action == epic_action(self.epic_id, input@, db.snapshot()),
                Err(error) => error is Storage && !D::infallible(),
            },
    {
        match db.read_db() {
            Ok(state) => Ok(self.interpret(input, &state)),
            Err(error) => Err(error),
        }
    }
}

/// The page of one story.
#[derive(Debug, Clone, Copy, PartialEq, Eq, Structural)]
pub struct StoryDetail {
    pub epic_id: u32,
    pub story_id: u32,
}

/// The action that `input` stands for on the page of the story `story_id` of the epic
/// `epic_id`.
pub open spec fn story_action(epic_id: u32, story_id: u32, input: Seq<char>) -> Option<Action> {
    if input == seq!['p'] {
        Some(Action::NavigateToPreviousPage)
    } else if input == seq!['u'] {
        Some(Action::UpdateStoryStatus { story_id })
    } else if input == seq!['d'] {
        Some(Action::DeleteStory { epic_id, story_id })
    } else {
        None
    }
}

/// What rendering the page of the story `story_id` for `state` gives: the page, where
/// the story exists.
pub open spec fn is_story_rendering(
    story_id: u32,
    state: DBStateView,
    r: Result<Vec<String>, DbError>,
) -> bool {
    match r {
        Ok(lines) => {
            &&& state.stories.contains_key(story_id)
            &&& texts(lines@) == story_lines(story_id, state.stories[story_id])
        },
        Err(error) => error == DbError::StoryNotFound && !state.stories.contains_key(story_id),
    }
}

impl StoryDetail {
    /// The lines of the page for `state`.
    pub fn render(&self, state: &DBState) -> (r: Result<Vec<String>, DbError>)
        ensures
            is_story_rendering(self.story_id, state@, r),
    {
        let story = match state.stories.get(&self.story_id) {
            None => { return Err(DbError::StoryNotFound); },
            Some(story) => story,
        };
        let mut lines: Vec<String> = Vec::new();
        push_line(
            &mut lines,
            "------------------------------ STORY ------------------------------".to_owned(),
        );
        push_line(
            &mut lines,
            "  id  |     name     |         description         |    status    ".to_owned(),
        );
        push_line(
            &mut lines,
            detail_row_text(
                self.story_id,
                story.name.as_str(),
                story.description.as_str(),
                story.status.label().as_str(),
            ),
        );
        push_line(&mut lines, "".to_owned());
        push_line(&mut lines, "".to_owned());
        push_line(&mut lines, "[p] previous | [u] update story | [d] delete story".to_owned());
        assert(texts(lines@) =~= story_lines(self.story_id, state@.stories[self.story_id]));
        Ok(lines)
    }

    /// The lines of the page for what `db` holds.
    pub fn draw_page<D: Database>(&self, db: &JiraDatabase<D>) -> (r: Result<Vec<String>, DbError>)
        ensures
            match r {
                Err(DbError::Storage(_)) => !D::infallible(),
                _ => is_story_rendering(self.story_id, db.snapshot(), r),
            },
    {
        match db.read_db() {
            Ok(state) => self.render(&state),
            Err(error) => Err(error),
        }
    }

    /// The action that `input` stands for.
    pub fn interpret(&self, input: &str) -> (action: Option<Action>)
        ensures
            action == story_action(self.epic_id, self.story_id, input@),
    {
        if is_command(input, 'p') {
            Some(Action::NavigateToPreviousPage)
        } else if is_command(input, 'u') {
            Some(Action::UpdateStoryStatus { story_id: self.story_id })
        } else if is_command(input, 'd') {
            Some(Action::DeleteStory { epic_id: self.epic_id, story_id: self.story_id })
        } else {
            None
        }
    }

    /// The action that `input` stands for. This page needs no look at the snapshot,
    /// so it cannot fail.
    pub fn handle_input(&self, input: &str) -> (r: Result<Option<Action>, DbError>)
        ensures
            r == Ok::<Option<Action>, DbError>(story_action(self.epic_id, self.story_id, input@)),
    {
        Ok(self.interpret(input))
    }
}

/// One page of the stack: the home page, the page of an epic or the page of a story.
#[derive(Debug, Clone, Copy, PartialEq, Eq, Structural)]
pub enum Page {
    Home(HomePage),
    EpicDetail(EpicDetail),
    StoryDetail(StoryDetail),
}

/// The action that `input` stands for on `page`, with `state` on it.
pub open spec fn page_action(page: Page, input: Seq<char>, state: DBStateView) -> Option<Action> {
    match page {
        Page::Home(_) => home_action(input, state),
        Page::EpicDetail(detail) => epic_action(detail.epic_id, input, state),
        Page::StoryDetail(detail) => story_action(detail.epic_id, detail.story_id, input),
    }
}

/// What rendering `page` for `state` gives.
pub open spec fn is_rendering(page: Page, state: DBStateView, r: Result<Vec<String>, DbError>) -> bool {
    match page {
        Page::Home(_) => r matches Ok(lines) && is_home_page(texts(lines@), state),
        Page::EpicDetail(detail) => is_epic_rendering(detail.epic_id, state, r),
        Page::StoryDetail(detail) => is_story_rendering(detail.story_id, state, r),
    }
}

impl Page {
    /// The lines of the page for what `db` holds. It fails where the epic or the
    /// story that the page is about no longer exists.
    pub fn draw_page<D: Database>(&self, db: &JiraDatabase<D>) -> (r: Result<Vec<String>, DbError>)
        ensures
            match r {
                Err(DbError::Storage(_)) => !D::infallible(),
                _ => is_rendering(*self, db.snapshot(), r),
            },
    {
        match self {
            Page::Home(page) => page.draw_page(db),
            Page::EpicDetail(page) => page.draw_page(db),
            Page::StoryDetail(page) => page.draw_page(db),
        }
    }

    /// The action that `input` stands for on this page, with what `db` holds on it.
    /// An input that stands for nothing gives no action and is no error.
    pub fn handle_input<D: Database>(&self, input: &str, db: &JiraDatabase<D>) -> (r: Result<
        Option<Action>,
        DbError,
    >)
        ensures
            match r {
                Ok(action) => action == page_action(*self, input@, db.snapshot()),
                Err(error) => error is Storage && !D::infallible(),
            },
    {
        match self {
            Page::Home(page) => page.handle_input(input, db),
            Page::EpicDetail(page) => page.handle_input(input, db),
            Page::StoryDetail(page) => page.handle_input(input),
        }
    }
}

} // verus!
