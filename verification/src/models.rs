//! The three flat entities of the application: study sets, folders and
//! flashcards, together with their mathematical views.
//!
//! Identifiers are unset (`None`) until the persistence layer assigns one.
//! A flashcard's status code records how the last study grade went:
//! 0 = new, 1 = bad, 2 = ok, 3 = good.

use vstd::prelude::*;

verus! {

/// Mathematical view of a flashcard: the identifier (if assigned), the two
/// text sides, and the study-status code.
pub struct FlashcardView {
    pub id: Option<int>,
    pub front: Seq<char>,
    pub back: Seq<char>,
    pub status: int,
}

/// Mathematical view of a folder: its identifier, name and owned flashcards.
pub struct FolderView {
    pub id: Option<int>,
    pub name: Seq<char>,
    pub flashcards: Seq<FlashcardView>,
}

/// Mathematical view of a study set: its identifier, name and owned folders.
pub struct StudySetView {
    pub id: Option<int>,
    pub name: Seq<char>,
    pub folders: Seq<FolderView>,
}

/// An identifier as the persistence layer hands it out, widened to `int`.
pub open spec fn id_view(id: Option<i32>) -> Option<int> {
    match id {
        Some(i) => Some(i as int),
        None => None,
    }
}

/// The views of a sequence of flashcards, element by element.
pub open spec fn cards_view(cards: Seq<Flashcard>) -> Seq<FlashcardView> {
    cards.map_values(|card: Flashcard| card@)
}

/// The views of a sequence of folders, element by element.
pub open spec fn folders_view(folders: Seq<Folder>) -> Seq<FolderView> {
    folders.map_values(|folder: Folder| folder@)
}

/// The views of a sequence of study sets, element by element.
pub open spec fn sets_view(sets: Seq<StudySet>) -> Seq<StudySetView> {
    sets.map_values(|set: StudySet| set@)
}

/// A status code that a flashcard can carry: 0 = new, 1 = bad, 2 = ok,
/// 3 = good.
pub open spec fn valid_status(status: int) -> bool {
    0 <= status <= 3
}

/// A front/back text pair with a study-status code.
#[derive(Debug)]
pub struct Flashcard {
    pub id: Option<i32>,
    pub front: String,
    pub back: String,
    pub status: i32,
}

impl View for Flashcard {
    type V = FlashcardView;

    open spec fn view(&self) -> FlashcardView {
        FlashcardView {
            id: id_view(self.id),
            front: self.front@,
            back: self.back@,
            status: self.status as int,
        }
    }
}

impl Clone for Flashcard {
    fn clone(&self) -> (result: Self)
        ensures
            result@ == self@,
    {
        Flashcard {
            id: self.id,
            front: self.front.clone(),
            back: self.back.clone(),
            status: self.status,
        }
    }
}

/// A named collection of flashcards within a study set.
#[derive(Debug)]
pub struct Folder {
    pub id: Option<i32>,
    pub name: String,
    pub flashcards: Vec<Flashcard>,
}

impl View for Folder {
    type V = FolderView;

    open spec fn view(&self) -> FolderView {
        FolderView {
            id: id_view(self.id),
            name: self.name@,
            flashcards: cards_view(self.flashcards@),
        }
    }
}

impl Clone for Folder {
    fn clone(&self) -> (result: Self)
        ensures
            result@ == self@,
    {
        let mut cards: Vec<Flashcard> = Vec::new();
        let mut i: usize = 0;
        while i < self.flashcards.len()
            invariant
                i <= self.flashcards.len(),
                cards@.len() == i as int,
                forall|j: int| 0 <= j < i as int ==> cards@[j]@ == self.flashcards@[j]@,
            decreases self.flashcards.len() - i,
        {
            cards.push(self.flashcards[i].clone());
            i = i + 1;
        }
        proof {
            assert(cards_view(cards@) =~= cards_view(self.flashcards@));
        }
        Folder {
            id: self.id,
            name: self.name.clone(),
            flashcards: cards,
        }
    }
}

/// A top-level named collection of folders.
#[derive(Debug)]
pub struct StudySet {
    pub id: Option<i32>,
    pub name: String,
    pub folders: Vec<Folder>,
}

impl View for StudySet {
    type V = StudySetView;

    open spec fn view(&self) -> StudySetView {
        StudySetView {
            id: id_view(self.id),
            name: self.name@,
            folders: folders_view(self.folders@),
        }
    }
}

impl Clone for StudySet {
    fn clone(&self) -> (result: Self)
        ensures
            result@ == self@,
    {
        let mut folders: Vec<Folder> = Vec::new();
        let mut i: usize = 0;
        while i < self.folders.len()
            invariant
                i <= self.folders.len(),
                folders@.len() == i as int,
                forall|j: int| 0 <= j < i as int ==> folders@[j]@ == self.folders@[j]@,
            decreases self.folders.len() - i,
        {
            folders.push(self.folders[i].clone());
            i = i + 1;
        }
        proof {
            assert(folders_view(folders@) =~= folders_view(self.folders@));
        }
        StudySet {
            id: self.id,
            name: self.name.clone(),
            folders,
        }
    }
}

} // verus!
