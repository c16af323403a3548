use jira_cli::db::{Database, DbError, JiraDatabase};
use jira_cli::models::{Action, DBState, Epic, Status, Story};
use jira_cli::navigator::{ActionError, Command, Navigator};
use jira_cli::ui::{EpicDetail, HomePage, Page, Prompter, StoryDetail};

/// A store that holds one snapshot and can be told to refuse to load or to save.
struct Unreliable {
    state: DBState,
    fail_read: bool,
    fail_write: bool,
}

impl Unreliable {
    fn holding(state: DBState) -> Self {
        Unreliable { state, fail_read: false, fail_write: false }
    }
}

impl Database for Unreliable {
    fn read_db(&self) -> Result<DBState, DbError> {
        if self.fail_read {
            Err(DbError::Storage("cannot read".to_owned()))
        } else {
            Ok(self.state.clone())
        }
    }

    fn write_db(&mut self, db_state: &DBState) -> Result<(), DbError> {
        if self.fail_write {
            Err(DbError::Storage("disk full".to_owned()))
        } else {
            self.state = db_state.clone();
            Ok(())
        }
    }
}

struct Agreeing {}

impl Prompter for Agreeing {
    fn create_epic(&self) -> Epic {
        Epic::new("new".to_owned(), "".to_owned())
    }

    fn create_story(&self) -> Story {
        Story::new("new".to_owned(), "".to_owned())
    }

    fn delete_epic(&self) -> bool {
        true
    }

    fn delete_story(&self) -> bool {
        true
    }

    fn update_status(&self) -> Option<Status> {
        Some(Status::Closed)
    }
}

fn one_epic_with_one_story() -> DBState {
    let mut state = DBState::new();
    state.add_epic(Epic::new("e".to_owned(), "".to_owned()));
    state.add_story(Story::new("s".to_owned(), "".to_owned()), 1).unwrap();
    state
}

#[test]
fn a_failed_save_is_reported_and_changes_nothing() {
    let before = one_epic_with_one_story();
    let mut db = JiraDatabase::new(Unreliable::holding(before.clone()));
    db.database.fail_write = true;
    let failure = Err(DbError::Storage("disk full".to_owned()));
    assert_eq!(db.create_epic(Epic::new("x".to_owned(), "".to_owned())), failure);
    assert_eq!(db.create_story(Story::new("x".to_owned(), "".to_owned()), 1), failure);
    let failure = Err(DbError::Storage("disk full".to_owned()));
    assert_eq!(db.update_epic_status(1, Status::Closed), failure);
    assert_eq!(db.update_story_status(2, Status::Closed), failure);
    assert_eq!(db.delete_story(1, 2), failure);
    assert_eq!(db.delete_epic(1), failure);
    assert_eq!(db.read_db().unwrap(), before);
    // what the repository refuses is reported as such, before any save is tried
    assert_eq!(db.delete_epic(9), Err(DbError::EpicNotFound));
}

#[test]
fn a_failed_load_is_reported() {
    let mut db = JiraDatabase::new(Unreliable::holding(one_epic_with_one_story()));
    db.database.fail_read = true;
    let failure = DbError::Storage("cannot read".to_owned());
    assert_eq!(db.read_db(), Err(failure.clone()));
    assert_eq!(db.create_epic(Epic::new("x".to_owned(), "".to_owned())), Err(failure.clone()));
    assert_eq!(db.delete_epic(9), Err(failure.clone()));
    assert_eq!(HomePage {}.handle_input("q", &db), Err(failure.clone()));
    assert_eq!(HomePage {}.draw_page(&db), Err(failure.clone()));
    assert_eq!(EpicDetail { epic_id: 1 }.handle_input("p", &db), Err(failure.clone()));
    assert_eq!(EpicDetail { epic_id: 1 }.draw_page(&db), Err(failure.clone()));
    let story_page = StoryDetail { epic_id: 1, story_id: 2 };
    assert_eq!(story_page.draw_page(&db), Err(failure.clone()));
    assert_eq!(story_page.handle_input("p"), Ok(Some(Action::NavigateToPreviousPage)));
    assert_eq!(
        Page::StoryDetail(story_page).handle_input("p", &db),
        Ok(Some(Action::NavigateToPreviousPage))
    );
}

#[test]
fn the_navigator_keeps_its_stack_when_the_store_fails() {
    let before = one_epic_with_one_story();
    let mut db = JiraDatabase::new(Unreliable::holding(before.clone()));
    db.database.fail_write = true;
    let mut nav = Navigator::new(Agreeing {});
    nav.handle_action(Action::NavigateToEpicDetail { epic_id: 1 }, &mut db).unwrap();
    nav.handle_action(Action::NavigateToStoryDetail { epic_id: 1, story_id: 2 }, &mut db).unwrap();

    let error = nav.handle_action(Action::DeleteStory { epic_id: 1, story_id: 2 }, &mut db);
    assert_eq!(
        error,
        Err(ActionError {
            action: Action::DeleteStory { epic_id: 1, story_id: 2 },
            cause: DbError::Storage("disk full".to_owned()),
        })
    );
    assert_eq!(error.unwrap_err().message(), "failed to delete story!: disk full");
    assert_eq!(nav.get_page_count(), 3);

    let error = nav.handle_action(Action::CreateEpic, &mut db).unwrap_err();
    assert_eq!(error.message(), "failed to create epic!: disk full");
    let error = nav.perform(Command::DeleteEpic { epic_id: 1, confirmed: true }, &mut db);
    assert_eq!(error.is_err(), true);
    assert_eq!(nav.get_page_count(), 3);
    assert_eq!(db.read_db().unwrap(), before);

    db.database.fail_write = false;
    nav.handle_action(Action::DeleteStory { epic_id: 1, story_id: 2 }, &mut db).unwrap();
    assert_eq!(nav.get_page_count(), 2);
    assert_eq!(db.read_db().unwrap().stories.len(), 0);
}
