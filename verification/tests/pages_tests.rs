use jira_cli::db::test_utils::MockDB;
use jira_cli::db::{DbError, JiraDatabase};
use jira_cli::models::{Action, DBState, Epic, Status, Story};
use jira_cli::ui::{EpicDetail, HomePage, Page, StoryDetail};

fn new_db() -> JiraDatabase<MockDB> {
    JiraDatabase { database: MockDB::new() }
}

#[test]
fn draw_page_should_not_throw_error() {
    let db = new_db();
    let page = HomePage {};
    assert_eq!(page.draw_page(&db).is_ok(), true);
}

#[test]
fn handle_input_should_not_throw_error() {
    let db = new_db();
    let page = HomePage {};
    assert_eq!(page.handle_input("", &db).is_ok(), true);
}

#[test]
fn handle_input_should_return_the_correct_actions() {
    let mut db = new_db();

    let epic = Epic::new("".to_owned(), "".to_owned());

    let epic_id = db.create_epic(epic).unwrap();

    let page = HomePage {};

    let q = "q";
    let c = "c";
    let valid_epic_id = epic_id.to_string();
    let invalid_epic_id = "999";
    let junk_input = "j983f2j";
    let junk_input_with_valid_prefix = "q983f2j";
    let input_with_trailing_white_spaces = "q\n";

    assert_eq!(page.handle_input(q, &db).unwrap(), Some(Action::Exit));
    assert_eq!(page.handle_input(c, &db).unwrap(), Some(Action::CreateEpic));
    assert_eq!(
        page.handle_input(&valid_epic_id, &db).unwrap(),
        Some(Action::NavigateToEpicDetail { epic_id: 1 })
    );
    assert_eq!(page.handle_input(invalid_epic_id, &db).unwrap(), None);
    assert_eq!(page.handle_input(junk_input, &db).unwrap(), None);
    assert_eq!(page.handle_input(junk_input_with_valid_prefix, &db).unwrap(), None);
    assert_eq!(page.handle_input(input_with_trailing_white_spaces, &db).unwrap(), None);
}

#[test]
fn mod_draw_page_should_not_throw_error() {
    let mut db = new_db();
    let epic_id = db.create_epic(Epic::new("".to_owned(), "".to_owned())).unwrap();
    let page = EpicDetail { epic_id };
    assert_eq!(page.draw_page(&db).is_ok(), true);
}

#[test]
fn mod_handle_input_should_not_throw_error() {
    let mut db = new_db();
    let epic_id = db.create_epic(Epic::new("".to_owned(), "".to_owned())).unwrap();
    let page = EpicDetail { epic_id };
    assert_eq!(page.handle_input("", &db).is_ok(), true);
}

#[test]
fn draw_page_should_throw_error_for_invalid_epic_id() {
    let db = new_db();
    let page = EpicDetail { epic_id: 999 };
    assert_eq!(page.draw_page(&db).is_err(), true);
}

#[test]
fn mod_handle_input_should_return_the_correct_actions() {
    let mut db = new_db();
    let epic_id = db.create_epic(Epic::new("".to_owned(), "".to_owned())).unwrap();
    let story_id = db.create_story(Story::new("".to_owned(), "".to_owned()), epic_id).unwrap();
    let page = EpicDetail { epic_id };

    let p = "p";
    let u = "u";
    let d = "d";
    let c = "c";
    let invalid_story_id = "999";
    let junk_input = "j983f2j";
    let junk_input_with_valid_prefix = "p983f2j";
    let input_with_trailing_white_spaces = "p\n";

    assert_eq!(page.handle_input(p, &db).unwrap(), Some(Action::NavigateToPreviousPage));
    assert_eq!(page.handle_input(u, &db).unwrap(), Some(Action::UpdateEpicStatus { epic_id: 1 }));
    assert_eq!(page.handle_input(d, &db).unwrap(), Some(Action::DeleteEpic { epic_id: 1 }));
    assert_eq!(page.handle_input(c, &db).unwrap(), Some(Action::CreateStory { epic_id: 1 }));
    assert_eq!(
        page.handle_input(&story_id.to_string(), &db).unwrap(),
        Some(Action::NavigateToStoryDetail { epic_id: 1, story_id: 2 })
    );
    assert_eq!(page.handle_input(invalid_story_id, &db).unwrap(), None);
    assert_eq!(page.handle_input(junk_input, &db).unwrap(), None);
    assert_eq!(page.handle_input(junk_input_with_valid_prefix, &db).unwrap(), None);
    assert_eq!(page.handle_input(input_with_trailing_white_spaces, &db).unwrap(), None);
}

#[test]
fn story_detail_draw_page_should_not_throw_error() {
    let mut db = new_db();
    let epic_id = db.create_epic(Epic::new("".to_owned(), "".to_owned())).unwrap();
    let story_id = db.create_story(Story::new("".to_owned(), "".to_owned()), epic_id).unwrap();
    let page = StoryDetail { epic_id, story_id };
    assert_eq!(page.draw_page(&db).is_ok(), true);
}

#[test]
fn story_detail_handle_input_should_not_throw_error() {
    let mut db = new_db();
    let epic_id = db.create_epic(Epic::new("".to_owned(), "".to_owned())).unwrap();
    let story_id = db.create_story(Story::new("".to_owned(), "".to_owned()), epic_id).unwrap();
    let page = StoryDetail { epic_id, story_id };
    assert_eq!(page.handle_input("").is_ok(), true);
}

#[test]
fn draw_page_should_throw_error_for_invalid_story_id() {
    let mut db = new_db();
    let epic_id = db.create_epic(Epic::new("".to_owned(), "".to_owned())).unwrap();
    let _ = db.create_story(Story::new("".to_owned(), "".to_owned()), epic_id).unwrap();
    let page = StoryDetail { epic_id, story_id: 999 };
    assert_eq!(page.draw_page(&db).is_err(), true);
}

#[test]
fn handle_input_should_return_the_correct_action() {
    let mut db = new_db();
    let epic_id = db.create_epic(Epic::new("".to_owned(), "".to_owned())).unwrap();
    let story_id = db.create_story(Story::new("".to_owned(), "".to_owned()), epic_id).unwrap();
    let page = StoryDetail { epic_id, story_id };
    let p = "p";
    let u = "u";
    let d = "d";
    let some_number = "1";
    let junk_input = "j983f2j";
    let junk_input_with_valid_prefix = "p983f2j";
    let input_with_trailing_white_spaces = "p\n";

    assert_eq!(page.handle_input(p).unwrap(), Some(Action::NavigateToPreviousPage));
    assert_eq!(page.handle_input(u).unwrap(), Some(Action::UpdateStoryStatus { story_id }));
    assert_eq!(page.handle_input(d).unwrap(), Some(Action::DeleteStory { epic_id, story_id }));
    assert_eq!(page.handle_input(some_number).unwrap(), None);
    assert_eq!(page.handle_input(junk_input).unwrap(), None);
    assert_eq!(page.handle_input(junk_input_with_valid_prefix).unwrap(), None);
    assert_eq!(page.handle_input(input_with_trailing_white_spaces).unwrap(), None);
}

#[test]
fn home_page_lists_the_epics_by_id() {
    let mut db = new_db();
    for name in ["one", "two", "three", "four", "five", "six", "seven", "eight", "nine", "ten", "eleven"] {
        db.create_epic(Epic::new(name.to_owned(), "".to_owned())).unwrap();
    }
    db.update_epic_status(2, Status::InProgress).unwrap();
    let lines = HomePage {}.draw_page(&db).unwrap();
    assert_eq!(lines.len(), 16);
    assert_eq!(lines[0], "----------------------------- EPICS -----------------------------");
    assert_eq!(lines[1], "     id     |               name               |      status      ");
    assert_eq!(lines[2], "1           | one                              | OPEN             ");
    assert_eq!(lines[3], "2           | two                              | IN PROGRESS      ");
    assert_eq!(lines[11], "10          | ten                              | OPEN             ");
    assert_eq!(lines[12], "11          | eleven                           | OPEN             ");
    assert_eq!(lines[13], "");
    assert_eq!(lines[14], "");
    assert_eq!(lines[15], "[q] quit | [c] create epic | [:id:] navigate to epic");
}

#[test]
fn epic_page_lists_its_stories_by_id() {
    let mut state = DBState::new();
    state.add_epic(Epic::new("An epic with a long name".to_owned(), "what it is about".to_owned()));
    state.add_story(Story::new("first".to_owned(), "".to_owned()), 1).unwrap();
    state.add_story(Story::new("second".to_owned(), "".to_owned()), 1).unwrap();
    state.set_story_status(3, Status::Resolved).unwrap();
    state.set_epic_status(1, Status::Closed).unwrap();
    state.epics.get_mut(&1).unwrap().stories = vec![3, 2];
    let lines = EpicDetail { epic_id: 1 }.render(&state).unwrap();
    assert_eq!(
        lines,
        vec![
            "------------------------------ EPIC ------------------------------",
            "  id  |     name     |         description         |    status    ",
            "1     | An epic w... | what it is about            | CLOSED       ",
            "",
            "---------------------------- STORIES ----------------------------",
            "     id     |               name               |      status      ",
            "2           | first                            | OPEN             ",
            "3           | second                           | RESOLVED         ",
            "",
            "",
            "[p] previous | [u] update epic | [c] create story | [:id:] navigate to story",
        ]
    );
}

#[test]
fn epic_page_reports_a_story_that_is_listed_but_missing() {
    let mut state = DBState::new();
    state.add_epic(Epic::new("e".to_owned(), "".to_owned()));
    state.epics.get_mut(&1).unwrap().stories = vec![5];
    assert_eq!(EpicDetail { epic_id: 1 }.render(&state), Err(DbError::StoryNotFound));
    assert_eq!(EpicDetail { epic_id: 2 }.render(&state), Err(DbError::EpicNotFound));
}

#[test]
fn story_page_shows_the_story() {
    let mut state = DBState::new();
    state.add_epic(Epic::new("e".to_owned(), "".to_owned()));
    state.add_story(Story::new("a story".to_owned(), "some text".to_owned()), 1).unwrap();
    let lines = StoryDetail { epic_id: 1, story_id: 2 }.render(&state).unwrap();
    assert_eq!(
        lines,
        vec![
            "------------------------------ STORY ------------------------------",
            "  id  |     name     |         description         |    status    ",
            "2     | a story      | some text                   | OPEN         ",
            "",
            "",
            "[p] previous | [u] update story | [d] delete story",
        ]
    );
    assert_eq!(
        StoryDetail { epic_id: 1, story_id: 1 }.render(&state),
        Err(DbError::StoryNotFound)
    );
}

#[test]
fn numbers_are_read_as_std_reads_them() {
    let mut state = DBState::new();
    state.add_epic(Epic::new("e".to_owned(), "".to_owned()));
    let page = HomePage {};
    let to_epic = Some(Action::NavigateToEpicDetail { epic_id: 1 });
    assert_eq!(page.interpret("1", &state), to_epic);
    assert_eq!(page.interpret("+1", &state), to_epic);
    assert_eq!(page.interpret("001", &state), to_epic);
    assert_eq!(page.interpret("-1", &state), None);
    assert_eq!(page.interpret(" 1", &state), None);
    assert_eq!(page.interpret("1 ", &state), None);
    assert_eq!(page.interpret("+", &state), None);
    assert_eq!(page.interpret("", &state), None);
    assert_eq!(page.interpret("4294967297", &state), None);
    assert_eq!(page.interpret("2", &state), None);
    assert_eq!(page.interpret("Q", &state), None);
}

#[test]
fn epic_page_goes_to_its_own_stories_only() {
    let mut state = DBState::new();
    state.add_epic(Epic::new("first".to_owned(), "".to_owned()));
    state.add_epic(Epic::new("second".to_owned(), "".to_owned()));
    state.add_story(Story::new("s".to_owned(), "".to_owned()), 1).unwrap();
    state.add_story(Story::new("t".to_owned(), "".to_owned()), 2).unwrap();
    let page = EpicDetail { epic_id: 1 };
    assert_eq!(
        page.interpret("3", &state),
        Some(Action::NavigateToStoryDetail { epic_id: 1, story_id: 3 })
    );
    assert_eq!(page.interpret("4", &state), None);
    assert_eq!(page.interpret("1", &state), None);
    assert_eq!(EpicDetail { epic_id: 9 }.interpret("3", &state), None);
    assert_eq!(
        EpicDetail { epic_id: 9 }.interpret("d", &state),
        Some(Action::DeleteEpic { epic_id: 9 })
    );
}

#[test]
fn a_page_of_the_stack_acts_as_the_page_it_holds() {
    let mut db = new_db();
    let epic_id = db.create_epic(Epic::new("".to_owned(), "".to_owned())).unwrap();
    let story_id = db.create_story(Story::new("".to_owned(), "".to_owned()), epic_id).unwrap();
    let home = Page::Home(HomePage {});
    let epic = Page::EpicDetail(EpicDetail { epic_id });
    let story = Page::StoryDetail(StoryDetail { epic_id, story_id });
    assert_eq!(home.handle_input("q", &db).unwrap(), Some(Action::Exit));
    assert_eq!(epic.handle_input("c", &db).unwrap(), Some(Action::CreateStory { epic_id }));
    assert_eq!(story.handle_input("u", &db).unwrap(), Some(Action::UpdateStoryStatus { story_id }));
    assert_eq!(story.handle_input("c", &db).unwrap(), None);
    assert_eq!(home.draw_page(&db).unwrap().len(), 6);
    assert_eq!(epic.draw_page(&db).unwrap().len(), 10);
    assert_eq!(story.draw_page(&db).unwrap().len(), 6);
    let gone = Page::EpicDetail(EpicDetail { epic_id: 7 });
    assert_eq!(gone.draw_page(&db), Err(DbError::EpicNotFound));
}
