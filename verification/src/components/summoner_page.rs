use vstd::prelude::*;
use crate::text::{chars_eq_str, chars_of};

verus! {

/// The tabs of a summoner's page.
#[derive(Debug, Clone, Copy, PartialEq, Eq, Structural)]
pub enum Tabs {
    Matches,
    Champions,
    Encounters,
    Live,
}

impl Default for Tabs {
    /// The matches tab.
    fn default() -> (res: Self)
        ensures
            res == Tabs::Matches,
    {
        Tabs::Matches
    }
}

/// The name of a tab as it stands in addresses.
pub open spec fn tab_name(t: Tabs) -> Seq<char> {
    match t {
        Tabs::Matches => "matches"@,
        Tabs::Champions => "champions"@,
        Tabs::Encounters => "encounters"@,
        Tabs::Live => "live"@,
    }
}

impl Tabs {
    /// The name of the tab as it stands in addresses, such as `matches`.
    pub fn to_string(&self) -> (res: String)
        ensures
            res@ == tab_name(*self),
    {
        match self {
            Tabs::Matches => String::from_str("matches"),
            Tabs::Champions => String::from_str("champions"),
            Tabs::Encounters => String::from_str("encounters"),
            Tabs::Live => String::from_str("live"),
        }
    }
}

/// Whether tab `t` is the one shown for the `tab` query value: the matches tab when there is
/// none, else the tab whose name it is.
pub open spec fn tab_selected(query: Option<Seq<char>>, t: Tabs) -> bool {
    match query {
        None => t == Tabs::Matches,
        Some(q) => q == tab_name(t),
    }
}

impl Tabs {
    /// Whether the tab is the one shown for the `tab` query value.
    pub fn is_selected(&self, query: Option<&str>) -> (res: bool)
        ensures
            res == tab_selected(
                match query {
                    Some(q) => Some(q@),
                    None => None::<Seq<char>>,
                },
                *self,
            ),
    {
        match query {
            None => match self {
                Tabs::Matches => true,
                _ => false,
            },
            Some(q) => {
                let name = self.to_string();
                let cs = chars_of(q);
                chars_eq_str(&cs, name.as_str())
            },
        }
    }
}

} // verus!
