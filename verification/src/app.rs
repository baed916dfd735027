//! Application-level messages and navigation state.
//!
//! The window chrome, the nav bar and the context drawer are drawn by the
//! surrounding application; this module holds the data they exchange: which
//! page is shown, which context page the drawer holds, and the top-level
//! message type that routes page messages and menu actions.

use vstd::prelude::*;
use crate::studysets;

verus! {

/// Marker standing for an established connection to the embedded database.
/// The connection itself is opened and held outside the verified library.
#[derive(Debug, Clone)]
pub struct OboeteDb {}

/// A top-level application event.
#[derive(Debug, Clone)]
pub enum Message {
    LaunchUrl(String),
    ToggleContextPage(ContextPage),
    DbConnected(OboeteDb),
    StudySets(studysets::Message),
}

/// Identifies a page in the application.
pub enum Page {
    StudySets,
    AllFlashcards,
}

/// The page that a nav-bar selection lands on: the page stored with the
/// selected nav item, or the study-sets page when the item carries none.
pub fn resolve_nav_selection(selected: Option<Page>) -> (result: Page)
    ensures
        selected matches Some(page) ==> result == page,
        selected is None ==> result is StudySets,
{
    match selected {
        Some(page) => page,
        None => Page::StudySets,
    }
}

/// What toggling a context page does to the drawer: toggling the page that
/// is already shown flips the drawer open or closed; toggling another page
/// switches the drawer to it and opens it.
pub fn toggle_context_page(
    current: ContextPage,
    shown: bool,
    toggled: ContextPage,
) -> (result: (ContextPage, bool))
    ensures
        current == toggled ==> result == (current, !shown),
        current != toggled ==> result == (toggled, true),
{
    if current == toggled {
        (current, !shown)
    } else {
        (toggled, true)
    }
}

/// Identifies a context page to display in the context drawer.
#[derive(Clone, Copy, Debug, Default, PartialEq, Eq, Structural)]
pub enum ContextPage {
    #[default]
    About,
    NewStudySet,
    NewFolder,
    NewFlashcard,
}

/// The title shown over each context page.
pub open spec fn context_page_title(page: ContextPage) -> Seq<char> {
    match page {
        ContextPage::About => "About"@,
        ContextPage::NewStudySet => "New Study Set"@,
        ContextPage::NewFolder => "New Folder"@,
        ContextPage::NewFlashcard => "New Flashcard"@,
    }
}

impl ContextPage {
    /// The title of the context drawer for this page.
    pub fn title(&self) -> (result: String)
        ensures
            result@ == context_page_title(*self),
    {
        match self {
            Self::About => "About".to_owned(),
            Self::NewStudySet => "New Study Set".to_owned(),
            Self::NewFolder => "New Folder".to_owned(),
            Self::NewFlashcard => "New Flashcard".to_owned(),
        }
    }
}

/// An entry of the application's menu bar.
#[derive(Clone, Copy, Debug, PartialEq, Eq, Structural)]
pub enum MenuAction {
    About,
}

impl MenuAction {
    /// The application message that choosing this menu entry sends: the
    /// about entry toggles the about context page.
    pub fn message(&self) -> (result: Message)
        ensures
            result matches Message::ToggleContextPage(page) && page is About,
    {
        match self {
            MenuAction::About => Message::ToggleContextPage(ContextPage::About),
        }
    }
}

} // verus!
