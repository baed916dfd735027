//! State machine of the flashcards page.
//!
//! The page holds the cards of the folder being viewed, the editor state for
//! the card being created or edited, and the card currently shown in a study
//! session. [`Flashcards::update`] consumes a user-interface [`Message`],
//! changes the page state, and emits the [`Command`]s that the surrounding
//! application must dispatch to the database layer. The whole transition
//! table is stated by [`update_transition`].

use vstd::prelude::*;
use crate::models::{cards_view, id_view, valid_status, Flashcard, FlashcardView};
use crate::utils::select_random_flashcard;

verus! {

/// State of the flashcards page.
pub struct Flashcards {
    pub current_folder_id: i32,
    pub flashcards: Vec<Flashcard>,
    pub new_edit_flashcard: CreateEditFlashcardState,
    pub currently_studying_flashcard: Flashcard,
    pub currently_studying_flashcard_side: CurrentFlashcardSide,
}

/// Editor state of the card being created or edited: the identifier is set
/// only when an existing card was loaded for editing.
pub struct CreateEditFlashcardState {
    id: Option<i32>,
    front: String,
    back: String,
    status: i32,
}

impl View for CreateEditFlashcardState {
    type V = FlashcardView;

    closed spec fn view(&self) -> FlashcardView {
        FlashcardView {
            id: id_view(self.id),
            front: self.front@,
            back: self.back@,
            status: self.status as int,
        }
    }
}

/// A user-interface event delivered to the flashcards page.
#[derive(Debug, Clone)]
pub enum Message {
    Upsert,
    Upserted,
    Load,
    LoadedSingle(Flashcard),
    SetFlashcards(Vec<Flashcard>),
    ToggleCreatePage(Option<Flashcard>),
    StudyFlashcards,
    ContextPageFrontInput(String),
    ContextPageBackInput(String),
    UpdateFlashcardStatus(Flashcard, StudyActions),
    UpdatedStatus(Vec<Flashcard>),
    SwapFlashcardSide,
    Delete(Option<i32>),
}

/// A side-effecting request that the surrounding application dispatches to
/// the database layer or to the navigation.
pub enum Command {
    /// The `i32` is the folder identifier.
    LoadFlashcards(i32),
    ToggleCreateFlashcardPage(Option<Flashcard>),
    UpsertFlashcard(Flashcard),
    OpenStudyFolderFlashcardsPage,
    UpdateFlashcardStatus(Flashcard),
    DeleteFlashcard(Option<i32>),
}

/// How the user graded the card shown in the study session.
#[derive(Debug, Clone)]
pub enum StudyActions {
    Bad,
    Okay,
    Good,
}

/// Which side of the studied card is facing the user.
#[derive(Debug, Clone)]
pub enum CurrentFlashcardSide {
    Front,
    Back,
}

/// Mathematical view of the page state.
pub struct FlashcardsView {
    pub current_folder_id: int,
    pub flashcards: Seq<FlashcardView>,
    pub new_edit_flashcard: FlashcardView,
    pub currently_studying_flashcard: FlashcardView,
    pub currently_studying_flashcard_side: CurrentFlashcardSide,
}

impl View for Flashcards {
    type V = FlashcardsView;

    open spec fn view(&self) -> FlashcardsView {
        FlashcardsView {
            current_folder_id: self.current_folder_id as int,
            flashcards: cards_view(self.flashcards@),
            new_edit_flashcard: self.new_edit_flashcard@,
            currently_studying_flashcard: self.currently_studying_flashcard@,
            currently_studying_flashcard_side: self.currently_studying_flashcard_side,
        }
    }
}

/// Mathematical view of a [`Command`].
pub enum CommandView {
    LoadFlashcards(int),
    ToggleCreateFlashcardPage(Option<FlashcardView>),
    UpsertFlashcard(FlashcardView),
    OpenStudyFolderFlashcardsPage,
    UpdateFlashcardStatus(FlashcardView),
    DeleteFlashcard(Option<int>),
}

impl View for Command {
    type V = CommandView;

    open spec fn view(&self) -> CommandView {
        match self {
            Command::LoadFlashcards(folder_id) => CommandView::LoadFlashcards(*folder_id as int),
            Command::ToggleCreateFlashcardPage(card) => CommandView::ToggleCreateFlashcardPage(
                opt_card_view(*card),
            ),
            Command::UpsertFlashcard(card) => CommandView::UpsertFlashcard(card@),
            Command::OpenStudyFolderFlashcardsPage => CommandView::OpenStudyFolderFlashcardsPage,
            Command::UpdateFlashcardStatus(card) => CommandView::UpdateFlashcardStatus(card@),
            Command::DeleteFlashcard(id) => CommandView::DeleteFlashcard(id_view(*id)),
        }
    }
}

/// The view of an optional flashcard.
pub open spec fn opt_card_view(card: Option<Flashcard>) -> Option<FlashcardView> {
    match card {
        Some(c) => Some(c@),
        None => None,
    }
}

/// The views of the emitted commands, in emission order.
pub open spec fn commands_view(commands: Seq<Command>) -> Seq<CommandView> {
    commands.map_values(|command: Command| command@)
}

/// The editor as it stands before any input: no identifier, empty texts,
/// status "new".
pub open spec fn empty_editor() -> FlashcardView {
    FlashcardView { id: None, front: Seq::<char>::empty(), back: Seq::<char>::empty(), status: 0 }
}

/// The placeholder card shown when the study pool is empty.
pub open spec fn error_flashcard() -> FlashcardView {
    FlashcardView { id: None, front: "Error"@, back: "Error"@, status: 0 }
}

/// The status code that a study grade assigns: bad = 1, ok = 2, good = 3.
pub open spec fn status_of_action(action: StudyActions) -> int {
    match action {
        StudyActions::Bad => 1,
        StudyActions::Okay => 2,
        StudyActions::Good => 3,
    }
}

/// The opposite card side.
pub open spec fn flipped_side(side: CurrentFlashcardSide) -> CurrentFlashcardSide {
    match side {
        CurrentFlashcardSide::Front => CurrentFlashcardSide::Back,
        CurrentFlashcardSide::Back => CurrentFlashcardSide::Front,
    }
}

/// The transition emitted no command.
pub open spec fn emits_none(commands: Seq<CommandView>) -> bool {
    commands.len() == 0
}

/// The transition emitted exactly the given command.
pub open spec fn emits_one(commands: Seq<CommandView>, command: CommandView) -> bool {
    commands.len() == 1 && commands[0] == command
}

/// The folder being viewed did not change.
pub open spec fn keeps_folder(pre: FlashcardsView, post: FlashcardsView) -> bool {
    post.current_folder_id == pre.current_folder_id
}

/// The list of loaded cards did not change.
pub open spec fn keeps_list(pre: FlashcardsView, post: FlashcardsView) -> bool {
    post.flashcards == pre.flashcards
}

/// The editor state did not change.
pub open spec fn keeps_editor(pre: FlashcardsView, post: FlashcardsView) -> bool {
    post.new_edit_flashcard == pre.new_edit_flashcard
}

/// The card under study did not change.
pub open spec fn keeps_study_card(pre: FlashcardsView, post: FlashcardsView) -> bool {
    post.currently_studying_flashcard == pre.currently_studying_flashcard
}

/// The facing side of the studied card did not change.
pub open spec fn keeps_side(pre: FlashcardsView, post: FlashcardsView) -> bool {
    post.currently_studying_flashcard_side == pre.currently_studying_flashcard_side
}

/// Nothing in the page state changed.
pub open spec fn state_unchanged(pre: FlashcardsView, post: FlashcardsView) -> bool {
    &&& keeps_folder(pre, post)
    &&& keeps_list(pre, post)
    &&& keeps_editor(pre, post)
    &&& keeps_study_card(pre, post)
    &&& keeps_side(pre, post)
}

/// The full transition table of the flashcards page: for each message, how
/// the state after the call relates to the state before it, and exactly
/// which commands are emitted.
pub open spec fn update_transition(
    pre: FlashcardsView,
    message: Message,
    post: FlashcardsView,
    commands: Seq<CommandView>,
) -> bool {
    match message {
        Message::Upsert => {
            &&& state_unchanged(pre, post)
            &&& emits_one(commands, CommandView::UpsertFlashcard(pre.new_edit_flashcard))
        },
        Message::Upserted => {
            &&& keeps_folder(pre, post)
            &&& keeps_list(pre, post)
            &&& keeps_study_card(pre, post)
            &&& keeps_side(pre, post)
            &&& post.new_edit_flashcard == empty_editor()
            &&& emits_one(commands, CommandView::LoadFlashcards(pre.current_folder_id))
        },
        Message::Load => {
            &&& state_unchanged(pre, post)
            &&& emits_one(commands, CommandView::LoadFlashcards(pre.current_folder_id))
        },
        Message::LoadedSingle(card) => {
            &&& keeps_folder(pre, post)
            &&& keeps_list(pre, post)
            &&& keeps_study_card(pre, post)
            &&& keeps_side(pre, post)
            &&& post.new_edit_flashcard == card@
            &&& emits_none(commands)
        },
        Message::SetFlashcards(cards) => {
            &&& keeps_folder(pre, post)
            &&& keeps_editor(pre, post)
            &&& keeps_study_card(pre, post)
            &&& keeps_side(pre, post)
            &&& post.flashcards == cards_view(cards@)
            &&& emits_none(commands)
        },
        Message::ToggleCreatePage(card) => {
            &&& keeps_folder(pre, post)
            &&& keeps_list(pre, post)
            &&& keeps_study_card(pre, post)
            &&& keeps_side(pre, post)
            &&& post.new_edit_flashcard == (match card {
                Some(_) => pre.new_edit_flashcard,
                None => empty_editor(),
            })
            &&& emits_one(commands, CommandView::ToggleCreateFlashcardPage(opt_card_view(card)))
        },
        Message::StudyFlashcards => {
            &&& state_unchanged(pre, post)
            &&& emits_one(commands, CommandView::OpenStudyFolderFlashcardsPage)
        },
        Message::ContextPageFrontInput(value) => {
            &&& keeps_folder(pre, post)
            &&& keeps_list(pre, post)
            &&& keeps_study_card(pre, post)
            &&& keeps_side(pre, post)
            &&& post.new_edit_flashcard == (FlashcardView {
                front: value@,
                ..pre.new_edit_flashcard
            })
            &&& emits_none(commands)
        },
        Message::ContextPageBackInput(value) => {
            &&& keeps_folder(pre, post)
            &&& keeps_list(pre, post)
            &&& keeps_study_card(pre, post)
            &&& keeps_side(pre, post)
            &&& post.new_edit_flashcard == (FlashcardView {
                back: value@,
                ..pre.new_edit_flashcard
            })
            &&& emits_none(commands)
        },
        Message::UpdateFlashcardStatus(card, action) => {
            &&& state_unchanged(pre, post)
            &&& emits_one(commands, CommandView::UpdateFlashcardStatus(FlashcardView {
                status: status_of_action(action),
                ..card@
            }))
        },
        Message::UpdatedStatus(cards) => {
            &&& keeps_folder(pre, post)
            &&& keeps_editor(pre, post)
            &&& keeps_side(pre, post)
            &&& post.flashcards == cards_view(cards@)
            &&& if cards@.len() == 0 {
                post.currently_studying_flashcard == error_flashcard()
            } else {
                exists|i: int|
                    0 <= i < cards@.len() && post.currently_studying_flashcard == cards@[i]@
            }
            &&& emits_none(commands)
        },
        Message::SwapFlashcardSide => {
            &&& keeps_folder(pre, post)
            &&& keeps_list(pre, post)
            &&& keeps_editor(pre, post)
            &&& keeps_study_card(pre, post)
            &&& post.currently_studying_flashcard_side == flipped_side(
                pre.currently_studying_flashcard_side,
            )
            &&& emits_none(commands)
        },
        Message::Delete(flashcard_id) => {
            &&& state_unchanged(pre, post)
            &&& emits_one(commands, CommandView::DeleteFlashcard(id_view(flashcard_id)))
        },
    }
}

impl Flashcards {
    /// A fresh page: folder 0, no cards loaded, an empty editor, the
    /// placeholder card under study, front side up.
    pub fn new() -> (result: Self)
        ensures
            result@.current_folder_id == 0,
            result@.flashcards.len() == 0,
            result@.new_edit_flashcard == empty_editor(),
            result@.currently_studying_flashcard == error_flashcard(),
            result@.currently_studying_flashcard_side is Front,
    {
        Self {
            current_folder_id: 0,
            flashcards: Vec::new(),
            currently_studying_flashcard: Flashcard {
                id: None,
                front: "Error".to_owned(),
                back: "Error".to_owned(),
                status: 0,
            },
            new_edit_flashcard: CreateEditFlashcardState {
                id: None,
                front: String::new(),
                back: String::new(),
                status: 0,
            },
            currently_studying_flashcard_side: CurrentFlashcardSide::Front,
        }
    }

    /// Applies one user-interface message to the page, as
    /// [`update_transition`] states it.
    pub fn update(&mut self, message: Message) -> (commands: Vec<Command>)
        ensures
            update_transition(old(self)@, message, final(self)@, commands_view(commands@)),
    {
        let mut commands: Vec<Command> = Vec::new();

        match message {
            Message::Upsert => commands.push(Command::UpsertFlashcard(Flashcard {
                id: self.new_edit_flashcard.id,
                front: self.new_edit_flashcard.front.clone(),
                back: self.new_edit_flashcard.back.clone(),
                status: self.new_edit_flashcard.status,
            })),
            Message::Upserted => {
                self.new_edit_flashcard = CreateEditFlashcardState {
                    id: None,
                    front: String::new(),
                    back: String::new(),
                    status: 0,
                };
                commands.push(Command::LoadFlashcards(self.current_folder_id))
            },
            Message::LoadedSingle(flashcard) => {
                self.new_edit_flashcard = CreateEditFlashcardState {
                    id: flashcard.id,
                    front: flashcard.front,
                    back: flashcard.back,
                    status: flashcard.status,
                };
            },
            Message::SetFlashcards(flashcards) => self.flashcards = flashcards,
            Message::ToggleCreatePage(flashcard) => {
                if flashcard.is_none() {
                    self.new_edit_flashcard = CreateEditFlashcardState {
                        id: None,
                        front: String::new(),
                        back: String::new(),
                        status: 0,
                    };
                }
                commands.push(Command::ToggleCreateFlashcardPage(flashcard))
            },
            Message::StudyFlashcards => commands.push(Command::OpenStudyFolderFlashcardsPage),
            Message::ContextPageFrontInput(value) => self.new_edit_flashcard.front = value,
            Message::ContextPageBackInput(value) => self.new_edit_flashcard.back = value,
            Message::UpdateFlashcardStatus(flashcard, action) => {
                let mut flashcard = flashcard;
                match action {
                    StudyActions::Bad => flashcard.status = 1,
                    StudyActions::Okay => flashcard.status = 2,
                    StudyActions::Good => flashcard.status = 3,
                }
                commands.push(Command::UpdateFlashcardStatus(flashcard))
            },
            Message::UpdatedStatus(flashcards) => {
                self.flashcards = flashcards;
                self.currently_studying_flashcard = match select_random_flashcard(
                    &self.flashcards,
                ) {
                    Some(card) => card,
                    None => Flashcard {
                        id: None,
                        front: "Error".to_owned(),
                        back: "Error".to_owned(),
                        status: 0,
                    },
                };
            },
            Message::SwapFlashcardSide => {
                match self.currently_studying_flashcard_side {
                    CurrentFlashcardSide::Front => {
                        self.currently_studying_flashcard_side = CurrentFlashcardSide::Back
                    },
                    CurrentFlashcardSide::Back => {
                        self.currently_studying_flashcard_side = CurrentFlashcardSide::Front
                    },
                }
            },
            Message::Delete(flashcard_id) => commands.push(Command::DeleteFlashcard(flashcard_id)),
            Message::Load => commands.push(Command::LoadFlashcards(self.current_folder_id)),
        }

        commands
    }
}

/// Law: after storage reports the graded statuses back, the page studies a
/// card drawn from the freshly loaded pool; only an empty pool puts the
/// placeholder card under study.
pub proof fn lemma_study_draw_from_pool(
    pre: FlashcardsView,
    cards: Vec<Flashcard>,
    post: FlashcardsView,
    commands: Seq<CommandView>,
)
    requires
        update_transition(pre, Message::UpdatedStatus(cards), post, commands),
    ensures
        cards@.len() > 0 ==> exists|i: int|
            0 <= i < cards@.len() && post.currently_studying_flashcard == cards@[i]@,
        cards@.len() == 0 ==> post.currently_studying_flashcard == error_flashcard(),
        post.flashcards == cards_view(cards@),
{
}

/// Law: upsert-then-reload reflects the edited card. The upsert command
/// carries exactly the card standing in the editor, and once the reloaded
/// list holds that card at some position, the page's list holds it there
/// too.
pub proof fn lemma_upsert_then_reload(
    s0: FlashcardsView,
    s1: FlashcardsView,
    upsert_commands: Seq<CommandView>,
    cards: Vec<Flashcard>,
    s2: FlashcardsView,
    load_commands: Seq<CommandView>,
    i: int,
)
    requires
        update_transition(s0, Message::Upsert, s1, upsert_commands),
        update_transition(s1, Message::SetFlashcards(cards), s2, load_commands),
        0 <= i < cards@.len(),
        cards@[i]@ == s0.new_edit_flashcard,
    ensures
        upsert_commands.len() == 1,
        upsert_commands[0] == CommandView::UpsertFlashcard(s0.new_edit_flashcard),
        s2.flashcards[i] == s0.new_edit_flashcard,
{
    assert(s2.flashcards[i] == cards@[i]@);
}

/// Law: grading the studied card changes no page state and asks storage to
/// store the very card that was graded, with only its status rewritten to a
/// valid, non-new code.
pub proof fn lemma_grade_keeps_card(
    pre: FlashcardsView,
    card: Flashcard,
    action: StudyActions,
    post: FlashcardsView,
    commands: Seq<CommandView>,
)
    requires
        update_transition(pre, Message::UpdateFlashcardStatus(card, action), post, commands),
    ensures
        state_unchanged(pre, post),
        commands.len() == 1,
        commands[0] matches CommandView::UpdateFlashcardStatus(graded)
            && graded.status == status_of_action(action)
            && valid_status(graded.status)
            && graded.status != 0
            && graded.id == card@.id
            && graded.front == card@.front
            && graded.back == card@.back,
{
}

} // verus!
