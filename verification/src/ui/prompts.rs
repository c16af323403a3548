//! The questions put to the user, and what each answer stands for.

use vstd::prelude::*;
use crate::models::{Epic, EpicView, Status, Story, StoryView};
use crate::ui::pages::page_helpers::{is_command, parse_number, parsed_number};

verus! {

/// Where the navigator gets the user's answers from: one method for each question.
/// An interactive prompter asks the user; a scripted one returns fixed answers.
pub trait Prompter {
    /// The epic that the user wants created.
    fn create_epic(&self) -> Epic;

    /// The story that the user wants created.
    fn create_story(&self) -> Story;

    /// Whether the user confirms that the epic is to be deleted.
    fn delete_epic(&self) -> bool;

    /// Whether the user confirms that the story is to be deleted.
    fn delete_story(&self) -> bool;

    /// The status that the user chose, if any.
    fn update_status(&self) -> Option<Status>;
}

/// Whether `c` is white space as Unicode defines it (the property `White_Space`):
/// the controls from tab to carriage return, the space, the next-line control, the
/// no-break space and the spaces and separators beyond them.
pub open spec fn is_white_space(c: char) -> bool {
    let code = c as u32;
    ||| 0x09 <= code <= 0x0D
    ||| code == 0x20
    ||| code == 0x85
    ||| code == 0xA0
    ||| code == 0x1680
    ||| 0x2000 <= code <= 0x200A
    ||| code == 0x2028
    ||| code == 0x2029
    ||| code == 0x202F
    ||| code == 0x205F
    ||| code == 0x3000
}

/// Where the white space that starts at `from` ends.
pub open spec fn end_of_space(text: Seq<char>, from: int) -> int
    decreases text.len() - from,
{
    if 0 <= from < text.len() && is_white_space(text[from]) {
        end_of_space(text, from + 1)
    } else {
        from
    }
}

/// Where the white space that ends at `to` starts, looking no further back than
/// `floor`.
pub open spec fn start_of_space(text: Seq<char>, to: int, floor: int) -> int
    decreases to,
{
    if floor < to <= text.len() && 0 < to && is_white_space(text[to - 1]) {
        start_of_space(text, to - 1, floor)
    } else {
        to
    }
}

/// `text` without the white space at its start and at its end.
pub open spec fn trimmed(text: Seq<char>) -> Seq<char> {
    let from = end_of_space(text, 0);
    let to = start_of_space(text, text.len() as int, from);
    text.subrange(from, to)
}

/// Whether `c` is white space.
pub fn is_space(c: char) -> (space: bool)
    ensures
        space == is_white_space(c),
{
    let code = c as u32;
    (0x09 <= code && code <= 0x0D) || code == 0x20 || code == 0x85 || code == 0xA0 || code
        == 0x1680 || (0x2000 <= code && code <= 0x200A) || code == 0x2028 || code == 0x2029
        || code == 0x202F || code == 0x205F || code == 0x3000
}

/// `text` without the white space at its start and at its end.
pub fn trim_text<'a>(text: &'a str) -> (inner: &'a str)
    ensures
        inner@ == trimmed(text@),
{
    let len = text.unicode_len();
    let mut from: usize = 0;
    while from < len && is_space(text.get_char(from))
        invariant
            from <= len,
            len == text@.len(),
            end_of_space(text@, 0) == end_of_space(text@, from as int),
        decreases len - from,
    {
        from += 1;
    }
    let mut to: usize = len;
    while to > from && is_space(text.get_char(to - 1))
        invariant
            from <= to <= len,
            len == text@.len(),
            start_of_space(text@, len as int, from as int) == start_of_space(
                text@,
                to as int,
                from as int,
            ),
        decreases to,
    {
        to -= 1;
    }
    text.substring_char(from, to)
}

/// The status that the choice `choice` stands for: 1 to 4 are the four statuses in
/// their order, and nothing else is a choice.
pub open spec fn chosen_status(choice: Option<u32>) -> Option<Status> {
    match choice {
        Some(1) => Some(Status::Open),
        Some(2) => Some(Status::InProgress),
        Some(3) => Some(Status::Resolved),
        Some(4) => Some(Status::Closed),
        _ => None,
    }
}

/// The new epic that the two lines typed by the user describe.
pub fn epic_from_input(name: &str, description: &str) -> (epic: Epic)
    ensures
        epic@ == (EpicView {
            name: trimmed(name@),
            description: trimmed(description@),
            status: Status::Open,
            stories: Seq::empty(),
        }),
{
    Epic::new(trim_text(name).to_owned(), trim_text(description).to_owned())
}

/// The new story that the two lines typed by the user describe.
pub fn story_from_input(name: &str, description: &str) -> (story: Story)
    ensures
        story@ == (StoryView {
            name: trimmed(name@),
            description: trimmed(description@),
            status: Status::Open,
        }),
{
    Story::new(trim_text(name).to_owned(), trim_text(description).to_owned())
}

/// Whether the line typed by the user confirms a deletion: it does only if it is a
/// capital `Y`, white space around it aside.
pub fn is_confirmation(input: &str) -> (confirmed: bool)
    ensures
        confirmed == (trimmed(input@) == seq!['Y']),
{
    is_command(trim_text(input), 'Y')
}

/// The status that the choice `choice` stands for, where `choice` is the number as
/// the user typed it, without white space around it.
pub fn choose_status(choice: &str) -> (status: Option<Status>)
    ensures
        status == chosen_status(parsed_number(choice@)),
{
    match parse_number(choice) {
        Some(1) => Some(Status::Open),
        Some(2) => Some(Status::InProgress),
        Some(3) => Some(Status::Resolved),
        Some(4) => Some(Status::Closed),
        _ => None,
    }
}

/// The status that the line typed by the user chooses, white space around it aside.
pub fn status_from_input(input: &str) -> (status: Option<Status>)
    ensures
        status == chosen_status(parsed_number(trimmed(input@))),
{
    choose_status(trim_text(input))
}

} // verus!
