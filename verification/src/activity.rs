//! Achievement evaluation: which trophy, if any, a post title earns under
//! the configured trigger table.

use vstd::prelude::*;
use crate::text::{chars_of, contains_chars, is_substring, opt_view};

verus! {

/// One trigger: titles that contain `title_pattern` earn `trophy_name`.
#[derive(Clone, Debug, PartialEq, Eq)]
pub struct TrophyActivity {
    pub title_pattern: String,
    pub trophy_name: String,
}

/// The trigger table: a switch and the triggers in the order in which they
/// are tried.
#[derive(Clone, Debug, PartialEq, Eq)]
pub struct TrophyActivityConfig {
    pub enabled: bool,
    pub activities: Vec<TrophyActivity>,
}

/// A trigger as characters.
pub struct Trigger {
    pub pattern: Seq<char>,
    pub award: Seq<char>,
}

/// A trigger table as characters.
pub struct TriggerTable {
    pub enabled: bool,
    pub triggers: Seq<Trigger>,
}

impl View for TrophyActivity {
    type V = Trigger;

    open spec fn view(&self) -> Trigger {
        Trigger { pattern: self.title_pattern@, award: self.trophy_name@ }
    }
}

impl View for TrophyActivityConfig {
    type V = TriggerTable;

    open spec fn view(&self) -> TriggerTable {
        TriggerTable {
            enabled: self.enabled,
            triggers: Seq::new(self.activities@.len(), |i: int| self.activities@[i]@),
        }
    }
}

/// Trigger `i` matches `title` and no trigger before it does.
pub open spec fn is_first_match(table: TriggerTable, title: Seq<char>, i: int) -> bool {
    &&& 0 <= i < table.triggers.len()
    &&& is_substring(title, table.triggers[i].pattern)
    &&& forall|j: int| 0 <= j < i ==> !is_substring(title, #[trigger] table.triggers[j].pattern)
}

/// The award that `title` earns: that of the first trigger whose pattern it
/// contains, if the table is enabled and there is one.
pub open spec fn award_for(table: TriggerTable, title: Seq<char>) -> Option<Seq<char>> {
    if table.enabled && exists|i: int| is_first_match(table, title, i) {
        Some(table.triggers[choose|i: int| is_first_match(table, title, i)].award)
    } else {
        None
    }
}

/// At most one trigger is the first to match.
pub proof fn lemma_first_match_unique(table: TriggerTable, title: Seq<char>, i: int, j: int)
    requires
        is_first_match(table, title, i),
        is_first_match(table, title, j),
    ensures
        i == j,
{
}

/// First match wins: in an enabled table the earliest trigger whose pattern
/// the title contains decides the award, whatever the later triggers are.
pub proof fn lemma_first_match_wins(table: TriggerTable, title: Seq<char>, i: int)
    requires
        table.enabled,
        0 <= i < table.triggers.len(),
        is_substring(title, table.triggers[i].pattern),
        forall|j: int| 0 <= j < i ==> !is_substring(title, #[trigger] table.triggers[j].pattern),
    ensures
        award_for(table, title) == Some(table.triggers[i].award),
{
    assert(is_first_match(table, title, i));
    let k = choose|k: int| is_first_match(table, title, k);
    lemma_first_match_unique(table, title, i, k);
}

/// An award is always that of a trigger the title matches, and no earlier
/// trigger matches.
pub proof fn lemma_award_has_trigger(table: TriggerTable, title: Seq<char>)
    requires
        award_for(table, title) is Some,
    ensures
        table.enabled,
        exists|i: int|
            is_first_match(table, title, i) && award_for(table, title) == Some(
                #[trigger] table.triggers[i].award,
            ),
{
}

/// A title that contains none of the patterns earns nothing.
pub proof fn lemma_no_match_no_award(table: TriggerTable, title: Seq<char>)
    requires
        forall|i: int|
            0 <= i < table.triggers.len() ==> !is_substring(
                title,
                #[trigger] table.triggers[i].pattern,
            ),
    ensures
        award_for(table, title) is None,
{
}

/// Evaluation depends on the table and the title alone: evaluating twice
/// gives the same award or none both times.
pub proof fn lemma_evaluation_repeatable(
    table: TriggerTable,
    title: Seq<char>,
    first: Option<Seq<char>>,
    second: Option<Seq<char>>,
)
    requires
        first == award_for(table, title),
        second == award_for(table, title),
    ensures
        first == second,
{
}

/// A disabled table awards nothing, whatever the title and the triggers.
pub proof fn lemma_disabled_awards_nothing(table: TriggerTable, title: Seq<char>)
    requires
        !table.enabled,
    ensures
        award_for(table, title) is None,
{
}

/// The trophy that a post with this title earns: the name of the first
/// configured activity whose pattern occurs in the title, or none when the
/// feature is disabled or nothing matches.
pub fn get_trophy_for_post(config: &TrophyActivityConfig, post_title: &str) -> (r: Option<String>)
    ensures
        opt_view(r) == award_for(config@, post_title@),
{
    if !config.enabled {
        return None;
    }
    let title = chars_of(post_title);
    let mut i: usize = 0;
    while i < config.activities.len()
        invariant
            i <= config.activities.len(),
            config.enabled,
            title@ == post_title@,
            forall|j: int|
                0 <= j < i ==> !is_substring(post_title@, #[trigger] config@.triggers[j].pattern),
        decreases config.activities.len() - i,
    {
        let activity = &config.activities[i];
        let pattern = chars_of(activity.title_pattern.as_str());
        if contains_chars(&title, &pattern) {
            proof {
                lemma_first_match_wins(config@, post_title@, i as int);
            }
            return Some(activity.trophy_name.clone());
        }
        i += 1;
    }
    None
}

} // verus!
