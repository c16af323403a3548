use jira_cli::db::test_utils::MockDB;
use jira_cli::db::{DbError, JiraDatabase};
use jira_cli::models::{Action, Epic, Status, Story};
use jira_cli::navigator::{ActionError, Command, Navigator};
use jira_cli::ui::{EpicDetail, HomePage, Page, Prompter, StoryDetail};

struct Scripted {
    epic: Epic,
    story: Story,
    delete_epic: bool,
    delete_story: bool,
    status: Option<Status>,
}

impl Scripted {
    fn new() -> Self {
        Scripted {
            epic: Epic::new("".to_owned(), "".to_owned()),
            story: Story::new("".to_owned(), "".to_owned()),
            delete_epic: false,
            delete_story: false,
            status: None,
        }
    }
}

impl Prompter for Scripted {
    fn create_epic(&self) -> Epic {
        self.epic.clone()
    }

    fn create_story(&self) -> Story {
        self.story.clone()
    }

    fn delete_epic(&self) -> bool {
        self.delete_epic
    }

    fn delete_story(&self) -> bool {
        self.delete_story
    }

    fn update_status(&self) -> Option<Status> {
        self.status
    }
}

fn new_db() -> JiraDatabase<MockDB> {
    JiraDatabase { database: MockDB::new() }
}

#[test]
fn should_start_on_home_page() {
    let nav = Navigator::new(Scripted::new());

    assert_eq!(nav.get_page_count(), 1);

    let current_page = nav.get_current_page().unwrap();
    let home_page = matches!(current_page, Page::Home(_));
    assert_eq!(home_page, true);
}

#[test]
fn handle_action_should_navigate_pages() {
    let mut db = new_db();
    let mut nav = Navigator::new(Scripted::new());

    nav.handle_action(Action::NavigateToEpicDetail { epic_id: 1 }, &mut db).unwrap();
    assert_eq!(nav.get_page_count(), 2);

    let current_page = nav.get_current_page().unwrap();
    let epic_detail_page = matches!(current_page, Page::EpicDetail(_));
    assert_eq!(epic_detail_page, true);

    nav.handle_action(Action::NavigateToStoryDetail { epic_id: 1, story_id: 2 }, &mut db).unwrap();
    assert_eq!(nav.get_page_count(), 3);

    let current_page = nav.get_current_page().unwrap();
    let story_detail_page = matches!(current_page, Page::StoryDetail(_));
    assert_eq!(story_detail_page, true);

    nav.handle_action(Action::NavigateToPreviousPage, &mut db).unwrap();
    assert_eq!(nav.get_page_count(), 2);

    let current_page = nav.get_current_page().unwrap();
    let epic_detail_page = matches!(current_page, Page::EpicDetail(_));
    assert_eq!(epic_detail_page, true);

    nav.handle_action(Action::NavigateToPreviousPage, &mut db).unwrap();
    assert_eq!(nav.get_page_count(), 1);

    let current_page = nav.get_current_page().unwrap();
    let home_page = matches!(current_page, Page::Home(_));
    assert_eq!(home_page, true);

    nav.handle_action(Action::NavigateToPreviousPage, &mut db).unwrap();

    assert_eq!(nav.get_page_count(), 0);

    nav.handle_action(Action::NavigateToPreviousPage, &mut db).unwrap();
    assert_eq!(nav.get_page_count(), 0);
}

#[test]
fn handle_action_should_clear_pages_on_exit() {
    let mut db = new_db();
    let mut nav = Navigator::new(Scripted::new());
    nav.handle_action(Action::NavigateToEpicDetail { epic_id: 1 }, &mut db).unwrap();
    nav.handle_action(Action::NavigateToStoryDetail { epic_id: 1, story_id: 2 }, &mut db).unwrap();
    nav.handle_action(Action::Exit, &mut db).unwrap();
    assert_eq!(nav.get_page_count(), 0);
}

#[test]
fn handle_action_should_handle_create_epic() {
    let mut db = new_db();
    let mut nav = Navigator::new(Scripted::new());
    let mut prompts = Scripted::new();

    prompts.epic = Epic::new("name".to_owned(), "description".to_owned());
    nav.set_prompts(prompts);
    nav.handle_action(Action::CreateEpic, &mut db).unwrap();

    let db_state = db.read_db().unwrap();
    assert_eq!(db_state.epics.len(), 1);

    let epic = db_state.epics.into_iter().next().unwrap().1;
    assert_eq!(epic.name, "name".to_owned());
    assert_eq!(epic.description, "description".to_owned());
}

#[test]
fn handle_action_should_handle_update_epic() {
    let mut db = new_db();
    let epic_id = db.create_epic(Epic::new("".to_owned(), "".to_owned())).unwrap();
    let mut nav = Navigator::new(Scripted::new());
    let mut prompts = Scripted::new();

    prompts.status = Some(Status::InProgress);
    nav.set_prompts(prompts);
    nav.handle_action(Action::UpdateEpicStatus { epic_id }, &mut db).unwrap();

    let db_state = db.read_db().unwrap();
    assert_eq!(db_state.epics.get(&epic_id).unwrap().status, Status::InProgress);
}

#[test]
fn handle_action_should_handle_delete_epic() {
    let mut db = new_db();
    let epic_id = db.create_epic(Epic::new("".to_owned(), "".to_owned())).unwrap();
    let mut nav = Navigator::new(Scripted::new());
    let mut prompts = Scripted::new();

    prompts.delete_epic = true;
    nav.set_prompts(prompts);
    nav.handle_action(Action::DeleteEpic { epic_id }, &mut db).unwrap();
    let db_state = db.read_db().unwrap();
    assert_eq!(db_state.epics.len(), 0);
}

#[test]
fn handle_action_should_handle_create_story() {
    let mut db = new_db();
    let epic_id = db.create_epic(Epic::new("".to_owned(), "".to_owned())).unwrap();
    let mut nav = Navigator::new(Scripted::new());
    let mut prompts = Scripted::new();

    prompts.story = Story::new("name".to_owned(), "description".to_owned());
    nav.set_prompts(prompts);
    nav.handle_action(Action::CreateStory { epic_id }, &mut db).unwrap();
    let db_state = db.read_db().unwrap();
    assert_eq!(db_state.stories.len(), 1);

    let story = db_state.stories.into_iter().next().unwrap().1;
    assert_eq!(story.name, "name".to_owned());
    assert_eq!(story.description, "description".to_owned());
}

#[test]
fn handle_action_should_handle_update_story() {
    let mut db = new_db();
    let epic_id = db.create_epic(Epic::new("".to_owned(), "".to_owned())).unwrap();
    let story_id = db.create_story(Story::new("".to_owned(), "".to_owned()), epic_id).unwrap();
    let mut nav = Navigator::new(Scripted::new());
    let mut prompts = Scripted::new();

    prompts.status = Some(Status::InProgress);
    nav.set_prompts(prompts);
    nav.handle_action(Action::UpdateStoryStatus { story_id }, &mut db).unwrap();
    let db_state = db.read_db().unwrap();
    assert_eq!(db_state.stories.get(&story_id).unwrap().status, Status::InProgress);
}

#[test]
fn handle_action_should_delete_story() {
    let mut db = new_db();
    let epic_id = db.create_epic(Epic::new("".to_owned(), "".to_owned())).unwrap();
    let story_id = db.create_story(Story::new("".to_owned(), "".to_owned()), epic_id).unwrap();
    let mut nav = Navigator::new(Scripted::new());
    let mut prompts = Scripted::new();

    prompts.delete_story = true;
    nav.set_prompts(prompts);
    nav.handle_action(Action::DeleteStory { epic_id, story_id }, &mut db).unwrap();
    let db_state = db.read_db().unwrap();
    assert_eq!(db_state.stories.len(), 0);
}

#[test]
fn the_stack_holds_the_pages_that_were_asked_for() {
    let mut db = new_db();
    let mut nav = Navigator::new(Scripted::new());
    assert_eq!(nav.get_current_page(), Some(&Page::Home(HomePage {})));
    nav.handle_action(Action::NavigateToEpicDetail { epic_id: 1 }, &mut db).unwrap();
    assert_eq!(nav.get_current_page(), Some(&Page::EpicDetail(EpicDetail { epic_id: 1 })));
    nav.handle_action(Action::NavigateToStoryDetail { epic_id: 1, story_id: 2 }, &mut db).unwrap();
    assert_eq!(
        nav.get_current_page(),
        Some(&Page::StoryDetail(StoryDetail { epic_id: 1, story_id: 2 }))
    );
    nav.handle_action(Action::Exit, &mut db).unwrap();
    assert_eq!(nav.get_current_page(), None);
    nav.handle_action(Action::Exit, &mut db).unwrap();
    assert_eq!(nav.get_page_count(), 0);
}

#[test]
fn a_confirmed_deletion_leaves_the_page() {
    let mut db = new_db();
    let epic_id = db.create_epic(Epic::new("".to_owned(), "".to_owned())).unwrap();
    let story_id = db.create_story(Story::new("".to_owned(), "".to_owned()), epic_id).unwrap();
    let mut prompts = Scripted::new();
    prompts.delete_epic = true;
    prompts.delete_story = true;
    let mut nav = Navigator::new(prompts);
    nav.handle_action(Action::NavigateToEpicDetail { epic_id }, &mut db).unwrap();
    nav.handle_action(Action::NavigateToStoryDetail { epic_id, story_id }, &mut db).unwrap();
    nav.handle_action(Action::DeleteStory { epic_id, story_id }, &mut db).unwrap();
    assert_eq!(nav.get_page_count(), 2);
    nav.handle_action(Action::DeleteEpic { epic_id }, &mut db).unwrap();
    assert_eq!(nav.get_page_count(), 1);
    assert_eq!(db.read_db().unwrap().epics.len(), 0);
}

#[test]
fn a_declined_question_changes_nothing() {
    let mut db = new_db();
    let epic_id = db.create_epic(Epic::new("".to_owned(), "".to_owned())).unwrap();
    let story_id = db.create_story(Story::new("".to_owned(), "".to_owned()), epic_id).unwrap();
    let before = db.read_db().unwrap();
    let mut nav = Navigator::new(Scripted::new());
    nav.handle_action(Action::NavigateToEpicDetail { epic_id }, &mut db).unwrap();
    nav.handle_action(Action::DeleteEpic { epic_id }, &mut db).unwrap();
    nav.handle_action(Action::DeleteStory { epic_id, story_id }, &mut db).unwrap();
    nav.handle_action(Action::UpdateEpicStatus { epic_id }, &mut db).unwrap();
    nav.handle_action(Action::UpdateStoryStatus { story_id }, &mut db).unwrap();
    nav.handle_action(Action::DeleteEpic { epic_id: 999 }, &mut db).unwrap();
    assert_eq!(nav.get_page_count(), 2);
    assert_eq!(db.read_db().unwrap(), before);
}

#[test]
fn a_failure_names_the_action_and_keeps_the_stack() {
    let mut db = new_db();
    let mut prompts = Scripted::new();
    prompts.delete_epic = true;
    prompts.delete_story = true;
    prompts.status = Some(Status::Closed);
    let mut nav = Navigator::new(prompts);
    nav.handle_action(Action::NavigateToEpicDetail { epic_id: 9 }, &mut db).unwrap();

    let error = nav.handle_action(Action::DeleteEpic { epic_id: 9 }, &mut db).unwrap_err();
    assert_eq!(
        error,
        ActionError { action: Action::DeleteEpic { epic_id: 9 }, cause: DbError::EpicNotFound }
    );
    assert_eq!(error.message(), "failed to delete epic!: could not find epic in database!");
    assert_eq!(nav.get_page_count(), 2);

    let error = nav.handle_action(Action::CreateStory { epic_id: 9 }, &mut db).unwrap_err();
    assert_eq!(error.action, Action::CreateStory { epic_id: 9 });
    assert_eq!(error.message(), "failed to create story!: could not find epic in database!");

    let error = nav.handle_action(Action::UpdateEpicStatus { epic_id: 9 }, &mut db).unwrap_err();
    assert_eq!(error.message(), "failed to update epic!: could not find epic in database!");

    let error = nav.handle_action(Action::UpdateStoryStatus { story_id: 9 }, &mut db).unwrap_err();
    assert_eq!(error.cause, DbError::StoryNotFound);
    assert_eq!(error.message(), "failed to update story!: could not find story in database!");

    let epic_id = db.create_epic(Epic::new("".to_owned(), "".to_owned())).unwrap();
    let error =
        nav.handle_action(Action::DeleteStory { epic_id, story_id: 9 }, &mut db).unwrap_err();
    assert_eq!(error.cause, DbError::StoryNotInEpic);
    assert_eq!(error.message(), "failed to delete story!: story id not found in epic's stories");
    assert_eq!(nav.get_page_count(), 2);
    assert_eq!(db.read_db().unwrap().last_item_id, 1);
}

#[test]
fn commands_carry_the_answer() {
    let mut db = new_db();
    let mut nav = Navigator::new(Scripted::new());
    let epic = Epic::new("name".to_owned(), "".to_owned());
    nav.perform(Command::CreateEpic { epic: epic.clone() }, &mut db).unwrap();
    assert_eq!(db.read_db().unwrap().epics.get(&1), Some(&epic));
    nav.perform(Command::UpdateEpicStatus { epic_id: 1, status: Some(Status::Resolved) }, &mut db)
        .unwrap();
    assert_eq!(db.read_db().unwrap().epics.get(&1).unwrap().status, Status::Resolved);
    nav.perform(Command::UpdateEpicStatus { epic_id: 1, status: None }, &mut db).unwrap();
    assert_eq!(db.read_db().unwrap().epics.get(&1).unwrap().status, Status::Resolved);
    nav.perform(Command::DeleteEpic { epic_id: 1, confirmed: false }, &mut db).unwrap();
    assert_eq!(nav.get_page_count(), 1);
    nav.perform(Command::DeleteEpic { epic_id: 1, confirmed: true }, &mut db).unwrap();
    assert_eq!(nav.get_page_count(), 0);
    assert_eq!(db.read_db().unwrap().epics.len(), 0);
    let asked = nav.ask(Action::CreateStory { epic_id: 3 });
    assert_eq!(matches!(asked, Command::CreateStory { epic_id: 3, .. }), true);
}
