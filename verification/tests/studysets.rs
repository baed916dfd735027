use oboete::models::StudySet;
use oboete::studysets::{Command, Message, StudySets};

#[test]
fn new_page_is_empty() {
    let page = StudySets::new();
    assert!(page.studysets.is_empty());
    assert_eq!(page.new_studyset_name, "");
}

#[test]
fn create_sends_the_typed_name() {
    let mut page = StudySets::new();
    assert!(page
        .update(Message::NewStudySetNameInput("Biology".to_owned()))
        .is_empty());
    let mut commands = page.update(Message::Create);
    assert_eq!(commands.len(), 1);
    match commands.pop().unwrap() {
        Command::CreateStudySet(set) => {
            assert_eq!(set.id, None);
            assert_eq!(set.name, "Biology");
            assert!(set.folders.is_empty());
        }
    }
    assert!(page.studysets.is_empty());
    assert_eq!(page.new_studyset_name, "Biology");
}

#[test]
fn loaded_study_sets_are_stored() {
    let mut page = StudySets::new();
    let sets = vec![
        StudySet {
            id: Some(1),
            name: "Maths".to_owned(),
            folders: Vec::new(),
        },
        StudySet {
            id: Some(2),
            name: "History".to_owned(),
            folders: Vec::new(),
        },
    ];
    assert!(page.update(Message::StudySetsLoaded(sets)).is_empty());
    assert_eq!(page.studysets.len(), 2);
    assert_eq!(page.studysets[0].name, "Maths");
    assert_eq!(page.studysets[1].id, Some(2));
}
