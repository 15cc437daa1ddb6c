//! The trophy case: the awards an account holds, in the order in which
//! they were earned.

use vstd::prelude::*;
use crate::time::{utc_now, Timestamp};

verus! {

/// One award: its name and when it was earned.
#[derive(Clone, Debug, PartialEq, Eq)]
pub struct Trophy {
    /// Name of the trophy.
    pub name: String,
    /// Time at which the trophy was earned.
    pub rewarded_at: Option<Timestamp>,
}

/// The awards of one account. A case that was never written holds `None`.
#[derive(Clone, Debug, PartialEq, Eq)]
pub struct TrophyCase {
    pub trophies: Option<Vec<Trophy>>,
}

/// An award as characters.
pub struct TrophyView {
    pub name: Seq<char>,
    pub rewarded_at: Option<Timestamp>,
}

impl View for Trophy {
    type V = TrophyView;

    open spec fn view(&self) -> TrophyView {
        TrophyView { name: self.name@, rewarded_at: self.rewarded_at }
    }
}

impl View for TrophyCase {
    type V = Option<Seq<TrophyView>>;

    open spec fn view(&self) -> Option<Seq<TrophyView>> {
        match self.trophies {
            Some(v) => Some(Seq::new(v@.len(), |i: int| v@[i]@)),
            None => None,
        }
    }
}

/// The awards of a case in order; a case that was never written has none.
pub open spec fn awards(case: Option<Seq<TrophyView>>) -> Seq<TrophyView> {
    match case {
        Some(s) => s,
        None => Seq::empty(),
    }
}

impl Trophy {
    /// A trophy with the given name that is stamped with the time at
    /// which it is made.
    pub fn new(name: String) -> (r: Self)
        ensures
            r.name == name,
            r.rewarded_at matches Some(t) && t.wf(),
    {
        Self { name, rewarded_at: Some(utc_now()) }
    }
}

impl TrophyCase {
    /// Puts `trophy` behind the awards already held. Nothing is removed,
    /// reordered or merged: a name that is already there is added again.
    pub fn append(&mut self, trophy: Trophy)
        ensures
            final(self)@ == Some(awards(old(self)@).push(trophy@)),
    {
        match self.trophies.take() {
            Some(mut v) => {
                v.push(trophy);
                self.trophies = Some(v);
            },
            None => {
                let mut v: Vec<Trophy> = Vec::new();
                v.push(trophy);
                self.trophies = Some(v);
            },
        }
    }
}

/// Appending never merges: after two awards are appended, both stand at
/// the end of the case in the order in which they came, also where they
/// bear the same name.
pub proof fn lemma_append_keeps_both(
    case: Option<Seq<TrophyView>>,
    first: TrophyView,
    second: TrophyView,
)
    ensures
        ({
            let after = awards(Some(awards(Some(awards(case).push(first))).push(second)));
            &&& after.len() == awards(case).len() + 2
            &&& after[after.len() - 2] == first
            &&& after[after.len() - 1] == second
            &&& after.subrange(0, awards(case).len() as int) == awards(case)
        }),
{
}

/// A trophy case that holds one trophy for each of the names, in their
/// order, each stamped with the time at which it was made.
pub fn new_trophy_case_by_trophy_names(trophie_names: Vec<String>) -> (case: TrophyCase)
    ensures
        case@ matches Some(trophies) && {
            &&& trophies.len() == trophie_names@.len()
            &&& forall|i: int|
                0 <= i < trophies.len() ==> {
                    &&& (#[trigger] trophies[i]).name == trophie_names@[i]@
                    &&& trophies[i].rewarded_at matches Some(t) && t.wf()
                }
        },
{
    let mut trophies: Vec<Trophy> = Vec::new();
    let mut i: usize = 0;
    while i < trophie_names.len()
        invariant
            i <= trophie_names.len(),
            trophies.len() == i,
            forall|j: int|
                0 <= j < i ==> {
                    &&& (#[trigger] trophies@[j]).name@ == trophie_names@[j]@
                    &&& trophies@[j].rewarded_at matches Some(t) && t.wf()
                },
        decreases trophie_names.len() - i,
    {
        let trophy = Trophy::new(trophie_names[i].clone());
        trophies.push(trophy);
        i += 1;
    }
    let case = TrophyCase { trophies: Some(trophies) };
    case
}

} // verus!
