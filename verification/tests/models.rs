use oboete::models::{Flashcard, Folder, StudySet};

fn card(id: Option<i32>, front: &str, back: &str, status: i32) -> Flashcard {
    Flashcard {
        id,
        front: front.to_owned(),
        back: back.to_owned(),
        status,
    }
}

#[test]
fn cloning_a_study_set_preserves_every_field() {
    let set = StudySet {
        id: Some(3),
        name: "Latin".to_owned(),
        folders: vec![Folder {
            id: Some(5),
            name: "Nouns".to_owned(),
            flashcards: vec![card(Some(8), "puella", "girl", 2)],
        }],
    };
    let copy = set.clone();
    assert_eq!(copy.id, Some(3));
    assert_eq!(copy.name, "Latin");
    assert_eq!(copy.folders.len(), 1);
    assert_eq!(copy.folders[0].id, Some(5));
    assert_eq!(copy.folders[0].name, "Nouns");
    assert_eq!(copy.folders[0].flashcards.len(), 1);
    assert_eq!(copy.folders[0].flashcards[0].id, Some(8));
    assert_eq!(copy.folders[0].flashcards[0].front, "puella");
    assert_eq!(copy.folders[0].flashcards[0].back, "girl");
    assert_eq!(copy.folders[0].flashcards[0].status, 2);
}
