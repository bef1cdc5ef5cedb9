//! How a request names the medicine it is for.

use crate::models::{Medicine, MedicineView};
use crate::text::chars_of;
use vstd::prelude::*;

verus! {

/// Names a medicine by its identifier, or by a piece of its name.
#[derive(Debug)]
pub enum MedicineSelector {
    /// The medicine with this identifier.
    Id(i64),
    /// The first medicine whose name holds this text, whatever the case of
    /// the letters A to Z.
    Name(String),
}

/// What a [`MedicineSelector`] holds.
pub enum SelectorView {
    Id(int),
    Name(Seq<char>),
}

impl View for MedicineSelector {
    type V = SelectorView;

    open spec fn view(&self) -> SelectorView {
        match self {
            MedicineSelector::Id(id) => SelectorView::Id(*id as int),
            MedicineSelector::Name(text) => SelectorView::Name(text@),
        }
    }
}

/// A letter from A to Z as its small letter; any other character as it is.
pub open spec fn folded(c: char) -> char {
    if 'A' <= c && c <= 'Z' {
        ((c as u8 + 32) as u8) as char
    } else {
        c
    }
}

/// Whether `text` holds `piece` at the offset `at`, the case of letters aside.
pub open spec fn holds_at(text: Seq<char>, piece: Seq<char>, at: int) -> bool {
    &&& 0 <= at
    &&& at + piece.len() <= text.len()
    &&& forall|k: int| 0 <= k < piece.len() ==> folded(#[trigger] text[at + k]) == folded(piece[k])
}

/// Whether `text` holds `piece` somewhere, the case of letters aside.
pub open spec fn holds(text: Seq<char>, piece: Seq<char>) -> bool {
    exists|at: int| holds_at(text, piece, at)
}

/// Whether the selector names this medicine.
pub open spec fn selects(selector: SelectorView, medicine: MedicineView) -> bool {
    match selector {
        SelectorView::Id(id) => medicine.id == id,
        SelectorView::Name(piece) => holds(medicine.name, piece),
    }
}

/// The position of the first medicine at or after `from` that the selector
/// names, if there is one.
pub open spec fn first_selected_from(
    medicines: Seq<MedicineView>,
    selector: SelectorView,
    from: int,
) -> Option<int>
    decreases medicines.len() - from,
{
    if from < 0 || from >= medicines.len() {
        None
    } else if selects(selector, medicines[from]) {
        Some(from)
    } else {
        first_selected_from(medicines, selector, from + 1)
    }
}

/// The position of the first medicine that the selector names, if there is one.
pub open spec fn first_selected(medicines: Seq<MedicineView>, selector: SelectorView) -> Option<
    int,
> {
    first_selected_from(medicines, selector, 0)
}

/// The first selected medicine is selected, lies at or after `from`, and no
/// medicine between `from` and it is selected; where there is none, no
/// medicine at or after `from` is selected.
pub proof fn lemma_first_selected_from(
    medicines: Seq<MedicineView>,
    selector: SelectorView,
    from: int,
)
    requires
        0 <= from,
    ensures
        match first_selected_from(medicines, selector, from) {
            Some(at) => {
                &&& from <= at < medicines.len()
                &&& selects(selector, medicines[at])
                &&& forall|i: int| from <= i < at ==> !selects(selector, #[trigger] medicines[i])
            },
            None => forall|i: int|
                from <= i < medicines.len() ==> !selects(selector, #[trigger] medicines[i]),
        },
    decreases medicines.len() - from,
{
    if from < medicines.len() && !selects(selector, medicines[from]) {
        lemma_first_selected_from(medicines, selector, from + 1);
    }
}

fn fold(c: char) -> (f: char)
    ensures
        f == folded(c),
{
    if 'A' <= c && c <= 'Z' {
        ((c as u8) + 32) as char
    } else {
        c
    }
}

fn matches_at(text: &Vec<char>, piece: &Vec<char>, at: usize) -> (b: bool)
    requires
        at + piece.len() <= text.len(),
    ensures
        b == holds_at(text@, piece@, at as int),
{
    let mut k: usize = 0;
    while k < piece.len()
        invariant
            k <= piece.len(),
            at + piece.len() <= text.len(),
            forall|j: int| 0 <= j < k ==> folded(#[trigger] text@[at + j]) == folded(piece@[j]),
        decreases piece.len() - k,
    {
        if fold(text[at + k]) != fold(piece[k]) {
            return false;
        }
        k = k + 1;
    }
    true
}

/// Tells whether `text` holds `piece`, the case of the letters A to Z aside.
pub fn contains_folded(text: &str, piece: &str) -> (b: bool)
    ensures
        b == holds(text@, piece@),
{
    let t = chars_of(text);
    let p = chars_of(piece);
    if p.len() > t.len() {
        return false;
    }
    let last = t.len() - p.len();
    let mut at: usize = 0;
    while at <= last
        invariant
            t@ == text@,
            p@ == piece@,
            p.len() <= t.len(),
            last == t.len() - p.len(),
            at <= last + 1,
            forall|a: int| 0 <= a < at ==> !holds_at(t@, p@, a),
        decreases last + 1 - at,
    {
        if matches_at(&t, &p, at) {
            assert(holds_at(t@, p@, at as int));
            return true;
        }
        at = at + 1;
    }
    false
}

impl MedicineSelector {
    /// Tells whether the selector names `medicine`.
    pub fn names(&self, medicine: &Medicine) -> (b: bool)
        ensures
            b == selects(self@, medicine@),
    {
        match self {
            MedicineSelector::Id(id) => medicine.id == *id,
            MedicineSelector::Name(piece) => contains_folded(medicine.name.as_str(), piece.as_str()),
        }
    }
}

} // verus!
