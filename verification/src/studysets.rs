//! State machine of the study-sets page.
//!
//! The page holds the study sets loaded from storage and the name typed for
//! a new set. [`StudySets::update`] consumes a user-interface [`Message`],
//! changes the page state, and emits the [`Command`]s that the surrounding
//! application dispatches to the database layer. The transition table is
//! stated by [`update_transition`].

use vstd::prelude::*;
use crate::models::{sets_view, FolderView, StudySet, StudySetView};

verus! {

/// State of the study-sets page.
pub struct StudySets {
    pub studysets: Vec<StudySet>,
    pub new_studyset_name: String,
}

/// A user-interface event delivered to the study-sets page.
#[derive(Debug, Clone)]
pub enum Message {
    Create,
    StudySetsLoaded(Vec<StudySet>),
    NewStudySetNameInput(String),
}

/// A side-effecting request that the surrounding application dispatches to
/// the database layer.
pub enum Command {
    CreateStudySet(StudySet),
}

/// Mathematical view of the page state.
pub struct StudySetsView {
    pub studysets: Seq<StudySetView>,
    pub new_studyset_name: Seq<char>,
}

impl View for StudySets {
    type V = StudySetsView;

    open spec fn view(&self) -> StudySetsView {
        StudySetsView {
            studysets: sets_view(self.studysets@),
            new_studyset_name: self.new_studyset_name@,
        }
    }
}

/// Mathematical view of a [`Command`].
pub enum CommandView {
    CreateStudySet(StudySetView),
}

impl View for Command {
    type V = CommandView;

    open spec fn view(&self) -> CommandView {
        match self {
            Command::CreateStudySet(set) => CommandView::CreateStudySet(set@),
        }
    }
}

/// The views of the emitted commands, in emission order.
pub open spec fn commands_view(commands: Seq<Command>) -> Seq<CommandView> {
    commands.map_values(|command: Command| command@)
}

/// The study set that creation sends to storage: no identifier yet, the
/// typed name, and no folders.
pub open spec fn new_set(name: Seq<char>) -> StudySetView {
    StudySetView { id: None, name: name, folders: Seq::<FolderView>::empty() }
}

/// The full transition table of the study-sets page.
pub open spec fn update_transition(
    pre: StudySetsView,
    message: Message,
    post: StudySetsView,
    commands: Seq<CommandView>,
) -> bool {
    match message {
        Message::Create => {
            &&& post == pre
            &&& commands.len() == 1
            &&& commands[0] == CommandView::CreateStudySet(new_set(pre.new_studyset_name))
        },
        Message::StudySetsLoaded(sets) => {
            &&& post.new_studyset_name == pre.new_studyset_name
            &&& post.studysets == sets_view(sets@)
            &&& commands.len() == 0
        },
        Message::NewStudySetNameInput(value) => {
            &&& post.studysets == pre.studysets
            &&& post.new_studyset_name == value@
            &&& commands.len() == 0
        },
    }
}

impl StudySets {
    /// A fresh page: no study sets loaded and an empty name input.
    pub fn new() -> (result: Self)
        ensures
            result@.studysets.len() == 0,
            result@.new_studyset_name.len() == 0,
    {
        Self { studysets: Vec::new(), new_studyset_name: String::new() }
    }

    /// Applies one user-interface message to the page, as
    /// [`update_transition`] states it.
    pub fn update(&mut self, message: Message) -> (commands: Vec<Command>)
        ensures
            update_transition(old(self)@, message, final(self)@, commands_view(commands@)),
    {
        let mut commands: Vec<Command> = Vec::new();

        match message {
            Message::Create => {
                let set = StudySet {
                    id: None,
                    name: self.new_studyset_name.clone(),
                    folders: Vec::new(),
                };
                proof {
                    assert(set@.folders =~= Seq::<FolderView>::empty());
                }
                commands.push(Command::CreateStudySet(set));
            },
            Message::StudySetsLoaded(studysets) => self.studysets = studysets,
            Message::NewStudySetNameInput(value) => self.new_studyset_name = value,
        }

        commands
    }
}

/// Law: create-then-reload reflects the new study set. Creation asks storage
/// for exactly the typed name, with no identifier and no folders; and once
/// the reloaded list holds that set at some position, the page's list holds
/// it there too.
pub proof fn lemma_create_then_reload(
    s0: StudySetsView,
    s1: StudySetsView,
    create_commands: Seq<CommandView>,
    sets: Vec<StudySet>,
    s2: StudySetsView,
    load_commands: Seq<CommandView>,
    i: int,
)
    requires
        update_transition(s0, Message::Create, s1, create_commands),
        update_transition(s1, Message::StudySetsLoaded(sets), s2, load_commands),
        0 <= i < sets@.len(),
        sets@[i]@ == new_set(s0.new_studyset_name),
    ensures
        create_commands.len() == 1,
        create_commands[0] == CommandView::CreateStudySet(new_set(s0.new_studyset_name)),
        s2.studysets[i] == new_set(s0.new_studyset_name),
{
    assert(s2.studysets[i] == sets@[i]@);
}

} // verus!
