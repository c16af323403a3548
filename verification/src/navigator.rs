//! The navigator: a stack of pages, and what each action does to the stack and to the
//! repository.

use vstd::prelude::*;
use crate::db::{error_text, Database, DbError, JiraDatabase, Request};
use crate::models::{Action, DBStateView, Epic, Status, Story};
use crate::ui::pages::{EpicDetail, HomePage, Page, StoryDetail};
use crate::ui::prompts::Prompter;

verus! {

/// An action together with the user's answer to the question that belongs to it.
pub enum Command {
    NavigateToEpicDetail { epic_id: u32 },
    NavigateToStoryDetail { epic_id: u32, story_id: u32 },
    NavigateToPreviousPage,
    CreateEpic { epic: Epic },
    UpdateEpicStatus { epic_id: u32, status: Option<Status> },
    DeleteEpic { epic_id: u32, confirmed: bool },
    CreateStory { epic_id: u32, story: Story },
    UpdateStoryStatus { story_id: u32, status: Option<Status> },
    DeleteStory { epic_id: u32, story_id: u32, confirmed: bool },
    Exit,
}

impl Command {
    /// The action that this command carries out.
    pub open spec fn action(self) -> Action {
        match self {
            Command::NavigateToEpicDetail { epic_id } => Action::NavigateToEpicDetail { epic_id },
            Command::NavigateToStoryDetail { epic_id, story_id } => Action::NavigateToStoryDetail {
                epic_id,
                story_id,
            },
            Command::NavigateToPreviousPage => Action::NavigateToPreviousPage,
            Command::CreateEpic { .. } => Action::CreateEpic,
            Command::UpdateEpicStatus { epic_id, .. } => Action::UpdateEpicStatus { epic_id },
            Command::DeleteEpic { epic_id, .. } => Action::DeleteEpic { epic_id },
            Command::CreateStory { epic_id, .. } => Action::CreateStory { epic_id },
            Command::UpdateStoryStatus { story_id, .. } => Action::UpdateStoryStatus { story_id },
            Command::DeleteStory { epic_id, story_id, .. } => Action::DeleteStory {
                epic_id,
                story_id,
            },
            Command::Exit => Action::Exit,
        }
    }

    /// What this command asks of the repository: nothing where it only navigates,
    /// where the user chose no status, and where the user did not confirm.
    pub open spec fn request(self) -> Request {
        match self {
            Command::CreateEpic { epic } => Request::CreateEpic { epic: epic@ },
            Command::UpdateEpicStatus { epic_id, status: Some(status) } => Request::UpdateEpicStatus {
                epic_id,
                status,
            },
            Command::DeleteEpic { epic_id, confirmed: true } => Request::DeleteEpic { epic_id },
            Command::CreateStory { epic_id, story } => Request::CreateStory { story: story@, epic_id },
            Command::UpdateStoryStatus {
                story_id,
                status: Some(status),
            } => Request::UpdateStoryStatus { story_id, status },
            Command::DeleteStory { epic_id, story_id, confirmed: true } => Request::DeleteStory {
                epic_id,
                story_id,
            },
            _ => Request::Nothing,
        }
    }

    /// The stack after this command went through on the stack `stack`.
    pub open spec fn stack_after(self, stack: Seq<Page>) -> Seq<Page> {
        match self {
            Command::NavigateToEpicDetail { epic_id } => stack.push(
                Page::EpicDetail(EpicDetail { epic_id }),
            ),
            Command::NavigateToStoryDetail { epic_id, story_id } => stack.push(
                Page::StoryDetail(StoryDetail { epic_id, story_id }),
            ),
            Command::NavigateToPreviousPage
            | Command::DeleteEpic { confirmed: true, .. }
            | Command::DeleteStory { confirmed: true, .. } => without_top(stack),
            Command::Exit => Seq::empty(),
            _ => stack,
        }
    }
}

/// `stack` without its top page; the empty stack stays empty.
pub open spec fn without_top(stack: Seq<Page>) -> Seq<Page> {
    if stack.len() > 0 {
        stack.drop_last()
    } else {
        stack
    }
}

/// A failure of the repository, with the action during which it came.
#[derive(Debug, Clone, PartialEq, Eq)]
pub struct ActionError {
    pub action: Action,
    pub cause: DbError,
}

/// The words that name the failed action.
pub open spec fn failure_text(action: Action) -> Seq<char> {
    match action {
        Action::CreateEpic => "failed to create epic!"@,
        Action::UpdateEpicStatus { .. } => "failed to update epic!"@,
        Action::DeleteEpic { .. } => "failed to delete epic!"@,
        Action::CreateStory { .. } => "failed to create story!"@,
        Action::UpdateStoryStatus { .. } => "failed to update story!"@,
        Action::DeleteStory { .. } => "failed to delete story!"@,
        _ => "failed to navigate!"@,
    }
}

impl ActionError {
    /// A description of the failure for the user: the action, then the cause.
    pub fn message(&self) -> (text: String)
        ensures
            text@ == failure_text(self.action) + ": "@ + error_text(self.cause),
    {
        let context = match self.action {
            Action::CreateEpic => "failed to create epic!",
            Action::UpdateEpicStatus { .. } => "failed to update epic!",
            Action::DeleteEpic { .. } => "failed to delete epic!",
            Action::CreateStory { .. } => "failed to create story!",
            Action::UpdateStoryStatus { .. } => "failed to update story!",
            Action::DeleteStory { .. } => "failed to delete story!",
            _ => "failed to navigate!",
        };
        context.to_owned().concat(": ").concat(self.cause.message().as_str())
    }
}

/// What carrying out `command` leads to: from the stack `stack` and the snapshot
/// `snapshot` to the stack `new_stack`, the snapshot `new_snapshot` and the result `r`,
/// over a store that always works if `infallible` holds.
///
/// A command that asks nothing of the repository succeeds. One that asks something
/// succeeds if the repository and the store go through with it. A command that fails
/// leaves the stack and the snapshot as they were, and its error names the action and
/// gives the cause: what the repository refused, or the failure of the store.
pub open spec fn is_outcome(
    command: Command,
    stack: Seq<Page>,
    snapshot: DBStateView,
    infallible: bool,
    new_stack: Seq<Page>,
    new_snapshot: DBStateView,
    r: Result<(), ActionError>,
) -> bool {
    match r {
        Ok(_) => {
            &&& snapshot.refusal(command.request()) is None
            &&& new_snapshot == snapshot.after(command.request())
            &&& new_stack == command.stack_after(stack)
        },
        Err(error) => {
            &&& !(command.request() is Nothing)
            &&& error.action == command.action()
            &&& new_stack == stack
            &&& new_snapshot == snapshot
            &&& match error.cause {
                DbError::Storage(_) => !infallible,
                cause => snapshot.refusal(command.request()) == Some(cause),
            }
        },
    }
}

/// Whether `action` creates an item and so takes the next id.
pub open spec fn takes_id(action: Action) -> bool {
    action is CreateEpic || action is CreateStory
}

/// The owner of the page stack. It starts on the home page, and the program is over
/// once the stack is empty.
pub struct Navigator<P: Prompter> {
    pages: Vec<Page>,
    prompts: P,
}

impl<P: Prompter> Navigator<P> {
    /// The pages of the stack, the current page last.
    pub closed spec fn stack(&self) -> Seq<Page> {
        self.pages@
    }

    /// Where the answers come from.
    pub closed spec fn prompter(&self) -> P {
        self.prompts
    }

    /// A navigator on the home page that gets its answers from `prompts`.
    pub fn new(prompts: P) -> (navigator: Self)
        ensures
            navigator.stack() == seq![Page::Home(HomePage {  })],
            navigator.prompter() == prompts,
    {
        let mut pages: Vec<Page> = Vec::new();
        pages.push(Page::Home(HomePage {  }));
        assert(pages@ =~= seq![Page::Home(HomePage {  })]);
        Navigator { pages, prompts }
    }

    /// The page on top of the stack, if there is one.
    pub fn get_current_page(&self) -> (page: Option<&Page>)
        ensures
            match page {
                Some(top) => self.stack().len() > 0 && *top == self.stack().last(),
                None => self.stack().len() == 0,
            },
    {
        let count = self.pages.len();
        if count == 0 {
            None
        } else {
            Some(&self.pages[count - 1])
        }
    }

    /// The number of pages on the stack.
    pub fn get_page_count(&self) -> (count: usize)
        ensures
            count == self.stack().len(),
    {
        self.pages.len()
    }

    /// Replaces where the answers come from; the stack stays.
    pub fn set_prompts(&mut self, prompts: P)
        ensures
            final(self).stack() == old(self).stack(),
            final(self).prompter() == prompts,
    {
        self.prompts = prompts;
    }

    /// Puts the question that belongs to `action`, if one does, and returns the
    /// action together with the answer.
    pub fn ask(&self, action: Action) -> (command: Command)
        ensures
            command.action() == action,
    {
        match action {
            Action::NavigateToEpicDetail { epic_id } => Command::NavigateToEpicDetail { epic_id },
            Action::NavigateToStoryDetail { epic_id, story_id } => Command::NavigateToStoryDetail {
                epic_id,
                story_id,
            },
            Action::NavigateToPreviousPage => Command::NavigateToPreviousPage,
            Action::CreateEpic => Command::CreateEpic { epic: self.prompts.create_epic() },
            Action::UpdateEpicStatus { epic_id } => Command::UpdateEpicStatus {
                epic_id,
                status: self.prompts.update_status(),
            },
            Action::DeleteEpic { epic_id } => Command::DeleteEpic {
                epic_id,
                confirmed: self.prompts.delete_epic(),
            },
            Action::CreateStory { epic_id } => Command::CreateStory {
                epic_id,
                story: self.prompts.create_story(),
            },
            Action::UpdateStoryStatus { story_id } => Command::UpdateStoryStatus {
                story_id,
                status: self.prompts.update_status(),
            },
            Action::DeleteStory { epic_id, story_id } => Command::DeleteStory {
                epic_id,
                story_id,
                confirmed: self.prompts.delete_story(),
            },
            Action::Exit => Command::Exit,
        }
    }

    /// Removes the top page, if there is one.
    fn pop_page(&mut self)
        ensures
            final(self).stack() == without_top(old(self).stack()),
            final(self).prompter() == old(self).prompter(),
    {
        if self.pages.len() > 0 {
            self.pages.pop();
        }
    }

    /// Carries out `command` on the stack and on `db`.
    pub fn perform<D: Database>(&mut self, command: Command, db: &mut JiraDatabase<D>) -> (r: Result<
        (),
        ActionError,
    >)
        requires
            takes_id(command.action()) ==> old(db).snapshot().last_item_id < u32::MAX,
        ensures
            final(self).prompter() == old(self).prompter(),
            is_outcome(
                command,
                old(self).stack(),
                old(db).snapshot(),
                D::infallible(),
                final(self).stack(),
                final(db).snapshot(),
                r,
            ),
    {
        match command {
            Command::NavigateToEpicDetail { epic_id } => {
                self.pages.push(Page::EpicDetail(EpicDetail { epic_id }));
                Ok(())
            },
            Command::NavigateToStoryDetail { epic_id, story_id } => {
                self.pages.push(Page::StoryDetail(StoryDetail { epic_id, story_id }));
                Ok(())
            },
            Command::NavigateToPreviousPage => {
                self.pop_page();
                Ok(())
            },
            Command::CreateEpic { epic } => {
                match db.create_epic(epic) {
                    Ok(_) => Ok(()),
                    Err(cause) => Err(ActionError { action: Action::CreateEpic, cause }),
                }
            },
            Command::UpdateEpicStatus { epic_id, status } => {
                match status {
                    Some(status) => match db.update_epic_status(epic_id, status) {
                        Ok(_) => Ok(()),
                        Err(cause) => Err(
                            ActionError { action: Action::UpdateEpicStatus { epic_id }, cause },
                        ),
                    },
                    None => Ok(()),
                }
            },
            Command::DeleteEpic { epic_id, confirmed } => {
                if confirmed {
                    match db.delete_epic(epic_id) {
                        Ok(_) => {
                            self.pop_page();
                            Ok(())
                        },
                        Err(cause) => Err(
                            ActionError { action: Action::DeleteEpic { epic_id }, cause },
                        ),
                    }
                } else {
                    Ok(())
                }
            },
            Command::CreateStory { epic_id, story } => {
                match db.create_story(story, epic_id) {
                    Ok(_) => Ok(()),
                    Err(cause) => Err(ActionError { action: Action::CreateStory { epic_id }, cause }),
                }
            },
            Command::UpdateStoryStatus { story_id, status } => {
                match status {
                    Some(status) => match db.update_story_status(story_id, status) {
                        Ok(_) => Ok(()),
                        Err(cause) => Err(
                            ActionError { action: Action::UpdateStoryStatus { story_id }, cause },
                        ),
                    },
                    None => Ok(()),
                }
            },
            Command::DeleteStory { epic_id, story_id, confirmed } => {
                if confirmed {
                    match db.delete_story(epic_id, story_id) {
                        Ok(_) => {
                            self.pop_page();
                            Ok(())
                        },
                        Err(cause) => Err(
                            ActionError { action: Action::DeleteStory { epic_id, story_id }, cause },
                        ),
                    }
                } else {
                    Ok(())
                }
            },
            Command::Exit => {
                self.pages.clear();
                Ok(())
            },
        }
    }

    /// Handles `action`: puts the question that belongs to it, if one does, and
    /// carries out the action with the answer. Whatever the answer was, the outcome is
    /// that of some command for `action`.
    pub fn handle_action<D: Database>(&mut self, action: Action, db: &mut JiraDatabase<D>) -> (r:
        Result<(), ActionError>)
        requires
            takes_id(action) ==> old(db).snapshot().last_item_id < u32::MAX,
        ensures
            final(self).prompter() == old(self).prompter(),
            exists|command: Command|
                #![trigger command.action()]
                command.action() == action && is_outcome(
                    command,
                    old(self).stack(),
                    old(db).snapshot(),
                    D::infallible(),
                    final(self).stack(),
                    final(db).snapshot(),
                    r,
                ),
    {
        let command = self.ask(action);
        let ghost asked = command;
        let r = self.perform(command, db);
        assert(asked.action() == action);
        r
    }
}

} // verus!
