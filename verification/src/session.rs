//! The menu loop as a state machine. The program around it prints what the
//! session says, reads a line when the session waits for one, writes the
//! file when the session asks for it, and stops when the session has ended.

use crate::input::{choice_of, id_of, parse_choice, parse_id, trim, trimmed, MenuChoice};
use crate::item::{TodoItem, TodoItemView};
use crate::messages::{
    id_prompt_message, id_prompt_text, invalid_choice_message, invalid_choice_text,
    loaded_message, loaded_text, menu_text, not_found_text, push_line, push_menu,
    removed_message, removed_text, save_failed_message, save_failed_text, saved_message,
    saved_text, task_prompt_message, task_prompt_text,
};
use crate::store::{
    add_todo_item, added, contains_id, list_todo_items, listing, remove_todo_item, removed,
};
use vstd::prelude::*;

verus! {

/// Where the session stands. In the first three phases it is running and
/// waits for a line; in `Saving` it waits to hear how writing the file went;
/// `Terminated` is the end.
#[derive(Clone, Copy, Debug, PartialEq, Eq, Structural)]
pub enum Phase {
    AwaitingChoice,
    AwaitingTask,
    AwaitingId,
    Saving,
    Terminated,
}

/// What the program around the session has to do next.
#[derive(Clone, Copy, Debug, PartialEq, Eq, Structural)]
pub enum Action {
    /// Read a line and hand it to `on_line`.
    ReadLine,
    /// Write the list to its file and hand the outcome to `on_saved`.
    WriteFile,
    /// Stop: the session has ended.
    Stop,
}

/// What is to be done in the phase `phase`.
pub open spec fn action_of(phase: Phase) -> Action {
    match phase {
        Phase::AwaitingChoice | Phase::AwaitingTask | Phase::AwaitingId => Action::ReadLine,
        Phase::Saving => Action::WriteFile,
        Phase::Terminated => Action::Stop,
    }
}

/// A session: the list and where the menu loop stands.
pub struct Session {
    pub items: Vec<TodoItem>,
    pub phase: Phase,
}

/// What a `Session` stands for in contracts.
pub struct SessionView {
    pub items: Seq<TodoItemView>,
    pub phase: Phase,
}

impl View for Session {
    type V = SessionView;

    open spec fn view(&self) -> SessionView {
        SessionView { items: self.items.deep_view(), phase: self.phase }
    }
}

/// The phase that follows a choice made at the menu.
pub open spec fn phase_after_choice(choice: MenuChoice) -> Phase {
    match choice {
        MenuChoice::Add => Phase::AwaitingTask,
        MenuChoice::Remove => Phase::AwaitingId,
        MenuChoice::SaveAndExit => Phase::Saving,
        MenuChoice::List | MenuChoice::Invalid => Phase::AwaitingChoice,
    }
}

/// What is said in answer to a choice made at the menu with the list `items`.
pub open spec fn said_on_choice(items: Seq<TodoItemView>, choice: MenuChoice) -> Seq<Seq<char>> {
    match choice {
        MenuChoice::Add => seq![task_prompt_text()],
        MenuChoice::List => listing(items) + menu_text(),
        MenuChoice::Remove => seq![id_prompt_text()],
        MenuChoice::SaveAndExit => Seq::empty(),
        MenuChoice::Invalid => seq![invalid_choice_text()] + menu_text(),
    }
}

/// What is said of the removal by `id` from `items`.
pub open spec fn said_on_removal(items: Seq<TodoItemView>, id: nat) -> Seq<char> {
    if contains_id(items, id) {
        removed_text(id)
    } else {
        not_found_text(id)
    }
}

/// The reason of a failure, if `outcome` is one.
pub open spec fn failure_of(outcome: Result<(), String>) -> Option<Seq<char>> {
    match outcome {
        Ok(_) => None,
        Err(detail) => Some(detail@),
    }
}

impl SessionView {
    /// Whether the menu loop is still going round.
    pub open spec fn is_running(self) -> bool {
        self.phase == Phase::AwaitingChoice || self.phase == Phase::AwaitingTask || self.phase
            == Phase::AwaitingId
    }

    /// The session after the line `line` has been read. At the menu the line
    /// is a choice; after the choice to add it is the new task's text, taken
    /// without the blanks around it; after the choice to remove it is a
    /// record's number. A session that is not running takes no line.
    pub open spec fn after_line(self, line: Seq<char>) -> SessionView {
        match self.phase {
            Phase::AwaitingChoice => SessionView {
                items: self.items,
                phase: phase_after_choice(choice_of(line)),
            },
            Phase::AwaitingTask => SessionView {
                items: added(self.items, trimmed(line)),
                phase: Phase::AwaitingChoice,
            },
            Phase::AwaitingId => SessionView {
                items: removed(self.items, id_of(line)),
                phase: Phase::AwaitingChoice,
            },
            Phase::Saving | Phase::Terminated => self,
        }
    }

    /// What the session says when the line `line` has been read. Whenever it
    /// is back at the menu, the menu comes last.
    pub open spec fn said_on_line(self, line: Seq<char>) -> Seq<Seq<char>> {
        match self.phase {
            Phase::AwaitingChoice => said_on_choice(self.items, choice_of(line)),
            Phase::AwaitingTask => menu_text(),
            Phase::AwaitingId => seq![said_on_removal(self.items, id_of(line))] + menu_text(),
            Phase::Saving | Phase::Terminated => Seq::empty(),
        }
    }

    /// The session after it has heard how writing the file went: it has
    /// ended, whether the file was written or not.
    pub open spec fn after_saved(self) -> SessionView {
        match self.phase {
            Phase::Saving => SessionView { items: self.items, phase: Phase::Terminated },
            _ => self,
        }
    }

    /// What the session says when it has heard how writing the file went,
    /// `failure` being the reason if it went wrong.
    pub open spec fn said_on_saved(self, failure: Option<Seq<char>>) -> Seq<Seq<char>> {
        match self.phase {
            Phase::Saving => match failure {
                None => seq![saved_text()],
                Some(detail) => seq![save_failed_text(detail)],
            },
            _ => Seq::empty(),
        }
    }
}

impl Session {
    /// Begins a session with what loading the file gave. A list that was
    /// loaded is taken as it is and its length is announced; a failure to
    /// load is passed over in silence and the list is empty. Either way the
    /// session then stands at the menu and shows it.
    pub fn start(loaded: Result<Vec<TodoItem>, String>) -> (started: (Session, Vec<String>))
        ensures
            started.0.phase == Phase::AwaitingChoice,
            match loaded {
                Ok(items) => started.0.items == items && started.1.deep_view() == seq![
                    loaded_text(items.len() as nat),
                ] + menu_text(),
                Err(_) => started.0.items@ == Seq::<TodoItem>::empty() && started.1.deep_view()
                    == menu_text(),
            },
    {
        let mut output: Vec<String> = Vec::new();
        let items = match loaded {
            Ok(items) => {
                push_line(&mut output, loaded_message(items.len()));
                items
            },
            Err(_) => Vec::new(),
        };
        push_menu(&mut output);
        (Session { items, phase: Phase::AwaitingChoice }, output)
    }

    /// What the program around the session has to do next.
    pub fn action(&self) -> (action: Action)
        ensures
            action == action_of(self.phase),
    {
        match self.phase {
            Phase::AwaitingChoice | Phase::AwaitingTask | Phase::AwaitingId => Action::ReadLine,
            Phase::Saving => Action::WriteFile,
            Phase::Terminated => Action::Stop,
        }
    }

    /// Takes a line that was read and returns what is to be shown.
    pub fn on_line(&mut self, line: &str) -> (output: Vec<String>)
        requires
            old(self).phase == Phase::AwaitingTask ==> old(self).items.len() < usize::MAX,
        ensures
            final(self)@ == old(self)@.after_line(line@),
            output.deep_view() == old(self)@.said_on_line(line@),
    {
        let mut output: Vec<String> = Vec::new();
        match self.phase {
            Phase::AwaitingChoice => {
                match parse_choice(line) {
                    MenuChoice::Add => {
                        push_line(&mut output, task_prompt_message());
                        self.phase = Phase::AwaitingTask;
                    },
                    MenuChoice::List => {
                        output = list_todo_items(&self.items);
                        push_menu(&mut output);
                    },
                    MenuChoice::Remove => {
                        push_line(&mut output, id_prompt_message());
                        self.phase = Phase::AwaitingId;
                    },
                    MenuChoice::SaveAndExit => {
                        self.phase = Phase::Saving;
                    },
                    MenuChoice::Invalid => {
                        push_line(&mut output, invalid_choice_message());
                        push_menu(&mut output);
                    },
                }
            },
            Phase::AwaitingTask => {
                add_todo_item(&mut self.items, String::from_str(trim(line)));
                self.phase = Phase::AwaitingChoice;
                push_menu(&mut output);
            },
            Phase::AwaitingId => {
                let id = parse_id(line);
                match remove_todo_item(&mut self.items, id) {
                    Ok(_) => push_line(&mut output, removed_message(id)),
                    Err(message) => push_line(&mut output, message),
                }
                self.phase = Phase::AwaitingChoice;
                push_menu(&mut output);
            },
            Phase::Saving | Phase::Terminated => {},
        }
        output
    }

    /// Takes the outcome of writing the file, the error carrying the reason,
    /// and returns what is to be shown. After it the session has ended.
    pub fn on_saved(&mut self, outcome: Result<(), String>) -> (output: Vec<String>)
        ensures
            final(self)@ == old(self)@.after_saved(),
            output.deep_view() == old(self)@.said_on_saved(failure_of(outcome)),
    {
        let mut output: Vec<String> = Vec::new();
        if self.phase == Phase::Saving {
            match outcome {
                Ok(_) => push_line(&mut output, saved_message()),
                Err(detail) => push_line(&mut output, save_failed_message(detail.as_str())),
            }
            self.phase = Phase::Terminated;
        }
        output
    }
}

/// While the menu loop goes round, no line ends the session, and only the
/// choice to save and exit leaves the loop; a line read at the menu leaves
/// the list as it is.
pub proof fn only_saving_leaves_the_loop(session: SessionView, line: Seq<char>)
    requires
        session.is_running(),
    ensures
        session.after_line(line).phase != Phase::Terminated,
        !session.after_line(line).is_running() <==> session.phase == Phase::AwaitingChoice
            && choice_of(line) == MenuChoice::SaveAndExit,
        session.phase == Phase::AwaitingChoice ==> session.after_line(line).items
            == session.items,
{
}

/// Once the file is to be written, lines change nothing any more, and the
/// session ends with the list as it is and one line said, whether the file
/// was written or not.
pub proof fn saving_ends_the_session(
    session: SessionView,
    line: Seq<char>,
    failure: Option<Seq<char>>,
)
    requires
        session.phase == Phase::Saving,
    ensures
        session.after_line(line) == session,
        session.said_on_line(line).len() == 0,
        session.after_saved().phase == Phase::Terminated,
        session.after_saved().items == session.items,
        session.said_on_saved(failure).len() == 1,
{
}

/// A session that has ended stays as it is and says nothing.
pub proof fn ended_session_stays_ended(
    session: SessionView,
    line: Seq<char>,
    failure: Option<Seq<char>>,
)
    requires
        session.phase == Phase::Terminated,
    ensures
        session.after_line(line) == session,
        session.after_saved() == session,
        session.said_on_line(line).len() == 0,
        session.said_on_saved(failure).len() == 0,
{
}

} // verus!
