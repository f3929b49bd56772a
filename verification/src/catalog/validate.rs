//! Consistency checks over the model profiles.

use vstd::prelude::*;
use crate::text::{push_str, str_eq, string_of};

verus! {

/// What the checks read of an EQ profile: how many bands it defines and the
/// dictionary sort key of each preset.
#[derive(Debug)]
pub struct EqSummary {
    pub band_count: usize,
    pub dict_sorts: Vec<u8>,
}

/// What the checks read of a model profile.
#[derive(Debug)]
pub struct ProfileSummary {
    pub id: String,
    pub eq: Option<EqSummary>,
}

pub struct EqSummaryView {
    pub band_count: nat,
    pub dict_sorts: Seq<u8>,
}

pub struct ProfileSummaryView {
    pub id: Seq<char>,
    pub eq: Option<EqSummaryView>,
}

impl View for ProfileSummary {
    type V = ProfileSummaryView;

    open spec fn view(&self) -> ProfileSummaryView {
        ProfileSummaryView {
            id: self.id@,
            eq: match self.eq {
                Some(e) => Some(EqSummaryView { band_count: e.band_count as nat, dict_sorts: e.dict_sorts@ }),
                None => None,
            },
        }
    }
}

/// Views of every profile, in order.
pub open spec fn profile_views(v: Seq<ProfileSummary>) -> Seq<ProfileSummaryView> {
    v.map_values(|p: ProfileSummary| p@)
}

/// Some value occurs twice.
pub open spec fn has_duplicate(s: Seq<u8>) -> bool {
    exists|a: int, b: int| 0 <= a < b < s.len() && s[a] == s[b]
}

/// An earlier profile has the same id as profile `i`.
pub open spec fn id_seen_before(ps: Seq<ProfileSummaryView>, i: int) -> bool {
    exists|j: int| 0 <= j < i && ps[j].id == ps[i].id
}

/// The problem with profile `i` alone, given the ones before it.
pub open spec fn problem_at(ps: Seq<ProfileSummaryView>, i: int) -> Option<Seq<char>> {
    let p = ps[i];
    if id_seen_before(ps, i) {
        Some("duplicate model profile: "@ + p.id)
    } else {
        match p.eq {
            Some(eq) => if eq.band_count != 8 {
                Some(p.id + " must define eight EQ bands"@)
            } else if has_duplicate(eq.dict_sorts) {
                Some("duplicate EQ dictSort in "@ + p.id)
            } else {
                None
            },
            None => None,
        }
    }
}

/// The first problem found checking profiles from `i` on, in order.
pub open spec fn first_problem(ps: Seq<ProfileSummaryView>, i: int) -> Option<Seq<char>>
    decreases ps.len() - i,
{
    if i < 0 || i >= ps.len() {
        None
    } else {
        match problem_at(ps, i) {
            Some(m) => Some(m),
            None => first_problem(ps, i + 1),
        }
    }
}

fn duplicate_sort(s: &Vec<u8>) -> (r: bool)
    ensures
        r == has_duplicate(s@),
{
    let mut b: usize = 0;
    while b < s.len()
        invariant
            b <= s.len(),
            forall|x: int, y: int| 0 <= x < y < b ==> s@[x] != s@[y],
        decreases s.len() - b,
    {
        let mut a: usize = 0;
        while a < b
            invariant
                a <= b,
                b < s.len(),
                forall|x: int| 0 <= x < a ==> s@[x] != s@[b as int],
            decreases b - a,
        {
            if s[a] == s[b] {
                return true;
            }
            a = a + 1;
        }
        b = b + 1;
    }
    false
}

fn id_before(ps: &Vec<ProfileSummary>, i: usize) -> (r: bool)
    requires
        i < ps.len(),
    ensures
        r == id_seen_before(profile_views(ps@), i as int),
{
    let ghost v = profile_views(ps@);
    let mut j: usize = 0;
    while j < i
        invariant
            i < ps.len(),
            v == profile_views(ps@),
            j <= i,
            forall|x: int| 0 <= x < j ==> v[x].id != v[i as int].id,
        decreases i - j,
    {
        if str_eq(ps[j].id.as_str(), ps[i].id.as_str()) {
            assert(v[j as int].id == v[i as int].id);
            return true;
        }
        j = j + 1;
    }
    false
}

/// Check the profiles in order: ids are unique, and every EQ profile has
/// eight bands and presets with distinct dictionary sort keys. The first
/// problem found is reported.
pub fn validate(profiles: &Vec<ProfileSummary>) -> (r: Result<(), String>)
    ensures
        match first_problem(profile_views(profiles@), 0) {
            Some(m) => r matches Err(e) && e@ == m,
            None => r is Ok,
        },
{
    let ghost v = profile_views(profiles@);
    let mut i: usize = 0;
    while i < profiles.len()
        invariant
            i <= profiles.len(),
            v == profile_views(profiles@),
            first_problem(v, 0) == first_problem(v, i as int),
        decreases profiles.len() - i,
    {
        let p = &profiles[i];
        if id_before(profiles, i) {
            let mut msg = string_of("duplicate model profile: ");
            push_str(&mut msg, p.id.as_str());
            return Err(msg);
        }
        match &p.eq {
            Some(eq) => {
                if eq.band_count != 8 {
                    let mut msg = string_of(p.id.as_str());
                    push_str(&mut msg, " must define eight EQ bands");
                    return Err(msg);
                }
                if duplicate_sort(&eq.dict_sorts) {
                    let mut msg = string_of("duplicate EQ dictSort in ");
                    push_str(&mut msg, p.id.as_str());
                    return Err(msg);
                }
            },
            None => {},
        }
        assert(problem_at(v, i as int) is None);
        i = i + 1;
    }
    Ok(())
}

} // verus!
