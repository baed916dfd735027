use oboete::app::{
    resolve_nav_selection, toggle_context_page, ContextPage, MenuAction, Message, Page,
};

#[test]
fn context_page_titles() {
    assert_eq!(ContextPage::About.title(), "About");
    assert_eq!(ContextPage::NewStudySet.title(), "New Study Set");
    assert_eq!(ContextPage::NewFolder.title(), "New Folder");
    assert_eq!(ContextPage::NewFlashcard.title(), "New Flashcard");
}

#[test]
fn default_context_page_is_about() {
    assert_eq!(ContextPage::default(), ContextPage::About);
}

#[test]
fn nav_selection_takes_the_selected_page() {
    assert!(matches!(
        resolve_nav_selection(Some(Page::AllFlashcards)),
        Page::AllFlashcards
    ));
    assert!(matches!(
        resolve_nav_selection(Some(Page::StudySets)),
        Page::StudySets
    ));
}

#[test]
fn nav_selection_without_data_falls_back_to_study_sets() {
    assert!(matches!(resolve_nav_selection(None), Page::StudySets));
}

#[test]
fn toggling_the_shown_context_page_flips_the_drawer() {
    assert_eq!(
        toggle_context_page(ContextPage::About, true, ContextPage::About),
        (ContextPage::About, false)
    );
    assert_eq!(
        toggle_context_page(ContextPage::About, false, ContextPage::About),
        (ContextPage::About, true)
    );
}

#[test]
fn toggling_another_context_page_switches_and_opens_the_drawer() {
    assert_eq!(
        toggle_context_page(ContextPage::About, false, ContextPage::NewFolder),
        (ContextPage::NewFolder, true)
    );
    assert_eq!(
        toggle_context_page(ContextPage::NewFolder, true, ContextPage::NewFlashcard),
        (ContextPage::NewFlashcard, true)
    );
}

#[test]
fn about_menu_entry_toggles_the_about_page() {
    match MenuAction::About.message() {
        Message::ToggleContextPage(page) => assert_eq!(page, ContextPage::About),
        _ => panic!("expected a context page toggle"),
    }
}
