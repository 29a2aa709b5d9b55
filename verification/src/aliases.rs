//! Names added by hand: aliases and common misspellings under which a place
//! is to be found as well.
use crate::dedup::text_of;
use crate::plan::{Step, plan_view, silent};
use crate::sql::DELETE_MISLEADING_NAMES;
use crate::text::same_text;
use vstd::prelude::*;

verus! {

/// One rule: the place that has the canonical name `city_name` and is known
/// under `known_as`, within `country_name` where one is given, is to be
/// found under `alias` too.
#[derive(Clone, Copy, Debug)]
pub struct Alias {
    pub alias: &'static str,
    pub city_name: &'static str,
    pub known_as: &'static str,
    pub country_name: Option<&'static str>,
}

/// What an [`Alias`] holds.
pub struct AliasView {
    pub alias: Seq<char>,
    pub city_name: Seq<char>,
    pub known_as: Seq<char>,
    pub country_name: Option<Seq<char>>,
}

impl View for Alias {
    type V = AliasView;

    open spec fn view(&self) -> AliasView {
        AliasView {
            alias: self.alias@,
            city_name: self.city_name@,
            known_as: self.known_as@,
            country_name: match self.country_name {
                Some(c) => Some(c@),
                None => None,
            },
        }
    }
}

/// The rules of a list.
pub open spec fn alias_views(rules: Seq<Alias>) -> Seq<AliasView> {
    Seq::new(rules.len(), |i: int| rules[i]@)
}

/// A row of the table of names that consumers read, as far as the rules
/// read it.
#[derive(Debug)]
pub struct KnownName {
    pub city_name: String,
    pub alt_name: String,
    pub country_name: Option<String>,
}

/// What a [`KnownName`] holds.
pub struct KnownNameView {
    pub city_name: Seq<char>,
    pub alt_name: Seq<char>,
    pub country_name: Option<Seq<char>>,
}

impl View for KnownName {
    type V = KnownNameView;

    open spec fn view(&self) -> KnownNameView {
        KnownNameView {
            city_name: self.city_name@,
            alt_name: self.alt_name@,
            country_name: text_of(self.country_name),
        }
    }
}

/// The rows of a list.
pub open spec fn known_views(rows: Seq<KnownName>) -> Seq<KnownNameView> {
    Seq::new(rows.len(), |i: int| rows[i]@)
}

/// Whether a rule applies to a row.
pub open spec fn applies(rule: AliasView, row: KnownNameView) -> bool {
    &&& row.city_name == rule.city_name
    &&& row.alt_name == rule.known_as
    &&& rule.country_name is Some ==> row.country_name == rule.country_name
}

/// The rows among the first `n` to which a rule applies, in their order.
pub open spec fn hits(rule: AliasView, rows: Seq<KnownNameView>, n: int) -> Seq<usize>
    decreases n,
{
    if n <= 0 {
        Seq::empty()
    } else if applies(rule, rows[n - 1]) {
        hits(rule, rows, n - 1).push((n - 1) as usize)
    } else {
        hits(rule, rows, n - 1)
    }
}

/// The names to add on account of the first `r` rules: for each rule in
/// turn, and each row to which it applies in turn, the rule and the row.
/// The row is to be added once more, under the alias of the rule.
pub open spec fn injections(rules: Seq<AliasView>, rows: Seq<KnownNameView>, r: int) -> Seq<
    (usize, usize),
>
    decreases r,
{
    if r <= 0 {
        Seq::empty()
    } else {
        injections(rules, rows, r - 1) + hits(rules[r - 1], rows, rows.len() as int).map_values(
            |k: usize| ((r - 1) as usize, k),
        )
    }
}

/// Tests whether a rule applies to a row.
pub fn rule_applies(rule: &Alias, row: &KnownName) -> (b: bool)
    ensures
        b == applies(rule@, row@),
{
    if !same_text(row.city_name.as_str(), rule.city_name) {
        return false;
    }
    if !same_text(row.alt_name.as_str(), rule.known_as) {
        return false;
    }
    match rule.country_name {
        None => true,
        Some(wanted) => match &row.country_name {
            None => false,
            Some(c) => same_text(c.as_str(), wanted),
        },
    }
}

/// Finds the names to add: the pairs of a rule and a row to which it
/// applies, by their places in the two lists.
pub fn find_injections(rules: &Vec<Alias>, rows: &Vec<KnownName>) -> (found: Vec<(usize, usize)>)
    ensures
        found@ == injections(alias_views(rules@), known_views(rows@), rules@.len() as int),
{
    let ghost all_rules = alias_views(rules@);
    let ghost all_rows = known_views(rows@);
    let mut found: Vec<(usize, usize)> = Vec::new();
    let mut r: usize = 0;
    while r < rules.len()
        invariant
            r <= rules.len(),
            all_rules == alias_views(rules@),
            all_rows == known_views(rows@),
            found@ == injections(all_rules, all_rows, r as int),
        decreases rules.len() - r,
    {
        let ghost before = found@;
        let mut k: usize = 0;
        while k < rows.len()
            invariant
                k <= rows.len(),
                r < rules.len(),
                all_rules == alias_views(rules@),
                all_rows == known_views(rows@),
                found@ == before + hits(all_rules[r as int], all_rows, k as int).map_values(
                    |k: usize| (r, k),
                ),
            decreases rows.len() - k,
        {
            if rule_applies(&rules[r], &rows[k]) {
                found.push((r, k));
            }
            k += 1;
        }
        r += 1;
    }
    found
}

/// The rules that the run works with unless it is given others.
pub open spec fn stock_aliases() -> Seq<AliasView> {
    seq![
        AliasView {
            alias: "new york"@,
            city_name: "New York City"@,
            known_as: "new york city"@,
            country_name: None,
        },
        AliasView {
            alias: "bucuresti"@,
            city_name: "Bucharest"@,
            known_as: "bucharest"@,
            country_name: None,
        },
        AliasView {
            alias: "besancon"@,
            city_name: "Besançon"@,
            known_as: "besançon"@,
            country_name: None,
        },
        AliasView {
            alias: "clermont ferrand"@,
            city_name: "Clermont-Ferrand"@,
            known_as: "clermont-ferrand"@,
            country_name: None,
        },
        AliasView {
            alias: "tubingen"@,
            city_name: "Tübingen"@,
            known_as: "tübingen"@,
            country_name: None,
        },
        AliasView {
            alias: "wuerzburg"@,
            city_name: "Würzburg"@,
            known_as: "würzburg"@,
            country_name: None,
        },
        AliasView {
            alias: "luebeck"@,
            city_name: "Lübeck"@,
            known_as: "lübeck"@,
            country_name: None,
        },
        AliasView {
            alias: "munchen"@,
            city_name: "Munich"@,
            known_as: "munich"@,
            country_name: None,
        },
        AliasView {
            alias: "kanagawa"@,
            city_name: "Yokohama"@,
            known_as: "yokohama"@,
            country_name: None,
        },
        AliasView {
            alias: "saint-petersburg"@,
            city_name: "Saint Petersburg"@,
            known_as: "saint petersburg"@,
            country_name: None,
        },
        AliasView {
            alias: "saint-petersburg"@,
            city_name: "St Petersburg"@,
            known_as: "saint petersburg"@,
            country_name: None,
        },
        AliasView {
            alias: "caba"@,
            city_name: "Buenos Aires"@,
            known_as: "buenos aires"@,
            country_name: Some("Argentina"@),
        },
        AliasView {
            alias: "ciudad autonoma de buenos aires"@,
            city_name: "Buenos Aires"@,
            known_as: "buenos aires"@,
            country_name: Some("Argentina"@),
        },
    ]
}

/// Gives the rules that the run works with unless it is given others.
pub fn default_aliases() -> (rules: Vec<Alias>)
    ensures
        alias_views(rules@) == stock_aliases(),
{
    let mut rules: Vec<Alias> = Vec::new();
    rules.push(
        Alias {
            alias: "new york",
            city_name: "New York City",
            known_as: "new york city",
            country_name: None,
        },
    );
    rules.push(
        Alias {
            alias: "bucuresti",
            city_name: "Bucharest",
            known_as: "bucharest",
            country_name: None,
        },
    );
    rules.push(
        Alias {
            alias: "besancon",
            city_name: "Besançon",
            known_as: "besançon",
            country_name: None,
        },
    );
    rules.push(
        Alias {
            alias: "clermont ferrand",
            city_name: "Clermont-Ferrand",
            known_as: "clermont-ferrand",
            country_name: None,
        },
    );
    rules.push(
        Alias {
            alias: "tubingen",
            city_name: "Tübingen",
            known_as: "tübingen",
            country_name: None,
        },
    );
    rules.push(
        Alias {
            alias: "wuerzburg",
            city_name: "Würzburg",
            known_as: "würzburg",
            country_name: None,
        },
    );
    rules.push(
        Alias {
            alias: "luebeck",
            city_name: "Lübeck",
            known_as: "lübeck",
            country_name: None,
        },
    );
    rules.push(
        Alias {
            alias: "munchen",
            city_name: "Munich",
            known_as: "munich",
            country_name: None,
        },
    );
    rules.push(
        Alias {
            alias: "kanagawa",
            city_name: "Yokohama",
            known_as: "yokohama",
            country_name: None,
        },
    );
    rules.push(
        Alias {
            alias: "saint-petersburg",
            city_name: "Saint Petersburg",
            known_as: "saint petersburg",
            country_name: None,
        },
    );
    rules.push(
        Alias {
            alias: "saint-petersburg",
            city_name: "St Petersburg",
            known_as: "saint petersburg",
            country_name: None,
        },
    );
    rules.push(
        Alias {
            alias: "caba",
            city_name: "Buenos Aires",
            known_as: "buenos aires",
            country_name: Some("Argentina"),
        },
    );
    rules.push(
        Alias {
            alias: "ciudad autonoma de buenos aires",
            city_name: "Buenos Aires",
            known_as: "buenos aires",
            country_name: Some("Argentina"),
        },
    );
    rules
}

/// The statements that come before the aliases are added: two names that
/// lead to the wrong place are deleted.
pub fn make_mdr_related_changes_1() -> (plan: Vec<Step>)
    ensures
        plan_view(plan@) == seq![(DELETE_MISLEADING_NAMES@, None::<Seq<char>>)],
{
    let mut plan: Vec<Step> = Vec::new();
    plan.push(silent(DELETE_MISLEADING_NAMES));
    plan
}

} // verus!
