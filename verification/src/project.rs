//! What this project is, for command-line runs and smoke tests.

use vstd::prelude::*;

verus! {

/// Static project metadata.
#[derive(Debug, Clone, Copy, PartialEq, Eq)]
pub struct ProjectCard {
    pub name: &'static str,
    pub role: &'static str,
    pub upstream: &'static str,
    pub relationship: &'static str,
}

/// The project's name.
pub const PROJECT_NAME: &'static str = "gear-depot";

/// The project's role.
pub const PROJECT_ROLE: &'static str = "sovereign supply-chain depot";

/// The project it descends from.
pub const PROJECT_UPSTREAM: &'static str = "Starmetal";

/// How the project stands to its upstream.
pub const PROJECT_RELATIONSHIP: &'static str = "Infrastructure POC for registry caching and policy enforcement; not critical production path until promoted.";

/// The card that these constants make up.
pub open spec fn the_project() -> ProjectCard {
    ProjectCard {
        name: PROJECT_NAME,
        role: PROJECT_ROLE,
        upstream: PROJECT_UPSTREAM,
        relationship: PROJECT_RELATIONSHIP,
    }
}

/// The repository's scope card.
pub fn project_card() -> (card: ProjectCard)
    ensures
        card == the_project(),
{
    ProjectCard {
        name: PROJECT_NAME,
        role: PROJECT_ROLE,
        upstream: PROJECT_UPSTREAM,
        relationship: PROJECT_RELATIONSHIP,
    }
}

/// The one-line summary: name, em dash, role, and the upstream in brackets.
pub open spec fn summary_text(card: ProjectCard) -> Seq<char> {
    card.name@ + " \u{2014} "@ + card.role@ + " (upstream: "@ + card.upstream@ + ")"@
}

/// Human-readable summary for command-line smoke runs.
pub fn summary() -> (s: String)
    ensures
        s@ == summary_text(the_project()),
{
    let card = project_card();
    let mut s = String::from_str(card.name);
    s.append(" \u{2014} ");
    s.append(card.role);
    s.append(" (upstream: ");
    s.append(card.upstream);
    s.append(")");
    s
}

} // verus!
