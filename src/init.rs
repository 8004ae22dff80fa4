use crate::error::DaoError;
use crate::identity::{contains_principal, insert_principal};
use crate::state::{groups_distinct, places_distinct, DaoDetails, State};
use crate::proposal::Proposals;
use crate::types::{DaoGroup, ProposalPlace, ProposalState, ProposalType};
use candid::Principal;
use vstd::prelude::*;

verus! {

broadcast use vstd::seq_lib::lemma_seq_contains_after_push;

/// The configuration a new governance instance is installed with.
#[derive(Clone, Debug)]
pub struct DaoConfig {
    pub dao_name: String,
    pub purpose: String,
    pub cool_down_period: u32,
    pub required_votes: u32,
    pub ask_to_join_dao: bool,
    pub members: Vec<Principal>,
    pub members_permissions: Vec<ProposalType>,
    pub proposal_entry: Vec<ProposalPlace>,
    pub dao_groups: Vec<DaoGroup>,
    pub daohouse_canister_id: Principal,
    pub token_ledger_id: Principal,
}

/// `who` is on the council or in some group.
pub open spec fn belongs(members: Seq<Principal>, groups: Seq<DaoGroup>, who: Principal) -> bool {
    members.contains(who) || exists|g: int|
        0 <= g < groups.len() && #[trigger] groups[g].group_members@.contains(who)
}

/// Whether no two places share a name.
fn places_are_distinct(places: &Vec<ProposalPlace>) -> (r: bool)
    ensures
        r == places_distinct(places@),
{
    let mut i: usize = 0;
    while i < places.len()
        invariant
            i <= places@.len(),
            forall|a: int, b: int|
                0 <= a < i && 0 <= b < places@.len() && a != b ==> #[trigger] places@[a].place_name@
                    != #[trigger] places@[b].place_name@,
        decreases places@.len() - i,
    {
        let mut j: usize = 0;
        while j < places.len()
            invariant
                i < places@.len(),
                j <= places@.len(),
                forall|a: int, b: int|
                    0 <= a < i && 0 <= b < places@.len() && a != b ==> #[trigger] places@[a].place_name@
                        != #[trigger] places@[b].place_name@,
                forall|b: int|
                    0 <= b < j && b != i ==> places@[i as int].place_name@ != #[trigger] places@[b].place_name@,
            decreases places@.len() - j,
        {
            if j != i && places[i].place_name == places[j].place_name {
                return false;
            }
            j += 1;
        }
        i += 1;
    }
    true
}

/// Whether no two groups share a name.
fn groups_are_distinct(groups: &Vec<DaoGroup>) -> (r: bool)
    ensures
        r == groups_distinct(groups@),
{
    let mut i: usize = 0;
    while i < groups.len()
        invariant
            i <= groups@.len(),
            forall|a: int, b: int|
                0 <= a < i && 0 <= b < groups@.len() && a != b ==> #[trigger] groups@[a].group_name@
                    != #[trigger] groups@[b].group_name@,
        decreases groups@.len() - i,
    {
        let mut j: usize = 0;
        while j < groups.len()
            invariant
                i < groups@.len(),
                j <= groups@.len(),
                forall|a: int, b: int|
                    0 <= a < i && 0 <= b < groups@.len() && a != b ==> #[trigger] groups@[a].group_name@
                        != #[trigger] groups@[b].group_name@,
                forall|b: int|
                    0 <= b < j && b != i ==> groups@[i as int].group_name@ != #[trigger] groups@[b].group_name@,
            decreases groups@.len() - j,
        {
            if j != i && groups[i].group_name == groups[j].group_name {
                return false;
            }
            j += 1;
        }
        i += 1;
    }
    true
}

/// Whether no identity occurs twice in `list`.
fn principals_distinct(list: &Vec<Principal>) -> (r: bool)
    ensures
        r == list@.no_duplicates(),
{
    let mut i: usize = 0;
    while i < list.len()
        invariant
            i <= list@.len(),
            forall|a: int, b: int|
                0 <= a < i && 0 <= b < list@.len() && a != b ==> list@[a] != list@[b],
        decreases list@.len() - i,
    {
        let mut j: usize = 0;
        while j < list.len()
            invariant
                i < list@.len(),
                j <= list@.len(),
                forall|a: int, b: int|
                    0 <= a < i && 0 <= b < list@.len() && a != b ==> list@[a] != list@[b],
                forall|b: int| 0 <= b < j && b != i ==> list@[i as int] != list@[b],
            decreases list@.len() - j,
        {
            if j != i && crate::identity::same_principal(&list[i], &list[j]) {
                return false;
            }
            j += 1;
        }
        i += 1;
    }
    true
}

/// Whether no group lists an identity twice.
fn group_rosters_distinct(groups: &Vec<DaoGroup>) -> (r: bool)
    ensures
        r == forall|g: int|
            0 <= g < groups@.len() ==> (#[trigger] groups@[g]).group_members@.no_duplicates(),
{
    let mut g: usize = 0;
    while g < groups.len()
        invariant
            g <= groups@.len(),
            forall|h: int| 0 <= h < g ==> (#[trigger] groups@[h]).group_members@.no_duplicates(),
        decreases groups@.len() - g,
    {
        if !principals_distinct(&groups[g].group_members) {
            return false;
        }
        g += 1;
    }
    true
}

/// Everyone on the council or in a group, each once.
fn everyone(members: &Vec<Principal>, groups: &Vec<DaoGroup>) -> (r: Vec<Principal>)
    ensures
        forall|who: Principal| r@.contains(who) <==> belongs(members@, groups@, who),
        r@.no_duplicates(),
{
    let mut r: Vec<Principal> = Vec::new();
    let mut i: usize = 0;
    while i < members.len()
        invariant
            i <= members@.len(),
            r@.no_duplicates(),
            forall|who: Principal| r@.contains(who) <==> members@.subrange(0, i as int).contains(who),
        decreases members@.len() - i,
    {
        insert_principal(&mut r, members[i]);
        proof {
            assert(members@.subrange(0, i as int + 1) =~= members@.subrange(0, i as int).push(
                members@[i as int],
            ));
        }
        i += 1;
    }
    assert(members@.subrange(0, i as int) =~= members@);
    let mut g: usize = 0;
    while g < groups.len()
        invariant
            g <= groups@.len(),
            r@.no_duplicates(),
            forall|who: Principal|
                r@.contains(who) <==> (members@.contains(who) || exists|h: int|
                    0 <= h < g && #[trigger] groups@[h].group_members@.contains(who)),
        decreases groups@.len() - g,
    {
        let list = &groups[g].group_members;
        let mut k: usize = 0;
        while k < list.len()
            invariant
                g < groups@.len(),
                r@.no_duplicates(),
                list@ == groups@[g as int].group_members@,
                k <= list@.len(),
                forall|who: Principal|
                    r@.contains(who) <==> (members@.contains(who) || (exists|h: int|
                        0 <= h < g && #[trigger] groups@[h].group_members@.contains(who))
                        || list@.subrange(0, k as int).contains(who)),
            decreases list@.len() - k,
        {
            insert_principal(&mut r, list[k]);
            proof {
                assert(list@.subrange(0, k as int + 1) =~= list@.subrange(0, k as int).push(
                    list@[k as int],
                ));
            }
            k += 1;
        }
        proof {
            assert(list@.subrange(0, k as int) =~= list@);
            assert forall|who: Principal|
                r@.contains(who) <==> (members@.contains(who) || exists|h: int|
                    0 <= h < g + 1 && #[trigger] groups@[h].group_members@.contains(who)) by {
                if exists|h: int| 0 <= h < g + 1 && #[trigger] groups@[h].group_members@.contains(who) {
                    let h = choose|h: int| 0 <= h < g + 1 && #[trigger] groups@[h].group_members@.contains(who);
                    if h < g {
                    } else {
                        assert(list@.contains(who));
                    }
                }
            }
        }
        g += 1;
    }
    r
}

/// The council and every group of `config` list each identity at most once.
pub open spec fn rosters_distinct_in(config: DaoConfig) -> bool {
    &&& config.members@.no_duplicates()
    &&& forall|g: int|
        0 <= g < config.dao_groups@.len() ==> (#[trigger] config.dao_groups@[g]).group_members@.no_duplicates()
}

/// Whether every element of `a` is missing from `b`.
fn none_in(a: &Vec<Principal>, b: &Vec<Principal>) -> (r: bool)
    ensures
        r == forall|v: Principal| #[trigger] a@.contains(v) ==> !b@.contains(v),
{
    let mut i: usize = 0;
    while i < a.len()
        invariant
            i <= a@.len(),
            forall|j: int| 0 <= j < i ==> !b@.contains(#[trigger] a@[j]),
        decreases a@.len() - i,
    {
        if contains_principal(b, &a[i]) {
            assert(a@.contains(a@[i as int]));
            return false;
        }
        i += 1;
    }
    assert forall|v: Principal| #[trigger] a@.contains(v) implies !b@.contains(v) by {
        let j = choose|j: int| 0 <= j < a@.len() && a@[j] == v;
    }
    true
}

/// Whether every element of `a` is in `b`.
fn all_in(a: &Vec<Principal>, b: &Vec<Principal>) -> (r: bool)
    ensures
        r == forall|v: Principal| #[trigger] a@.contains(v) ==> b@.contains(v),
{
    let mut i: usize = 0;
    while i < a.len()
        invariant
            i <= a@.len(),
            forall|j: int| 0 <= j < i ==> b@.contains(#[trigger] a@[j]),
        decreases a@.len() - i,
    {
        if !contains_principal(b, &a[i]) {
            assert(a@.contains(a@[i as int]));
            return false;
        }
        i += 1;
    }
    assert forall|v: Principal| #[trigger] a@.contains(v) implies b@.contains(v) by {
        let j = choose|j: int| 0 <= j < a@.len() && a@[j] == v;
    }
    true
}

/// Whether `p` is well formed; see `Proposals::wf`.
fn proposal_is_wf(p: &Proposals) -> (r: bool)
    ensures
        r == p.wf(),
{
    if p.proposal_approved_votes as u128 != p.approved_votes_list.len() as u128
        || p.proposal_rejected_votes as u128 != p.rejected_votes_list.len() as u128 {
        return false;
    }
    if p.proposal_approved_votes as u128 + p.proposal_rejected_votes as u128
        > p.required_votes as u128 {
        return false;
    }
    if !none_in(&p.approved_votes_list, &p.rejected_votes_list) {
        return false;
    }
    if p.decided != (p.proposal_status != ProposalState::Open) {
        return false;
    }
    if p.effects_applied && p.proposal_status != ProposalState::Accepted && p.proposal_status
        != ProposalState::Succeeded {
        return false;
    }
    let mut k: usize = 0;
    while k < p.poll_options.len()
        invariant
            k <= p.poll_options@.len(),
            forall|m: int|
                0 <= m < k ==> #[trigger] p.poll_options@[m].poll_approved_votes
                    <= p.proposal_approved_votes,
            forall|m: int, v: Principal|
                0 <= m < k && #[trigger] p.poll_options@[m].approved_users@.contains(v)
                    ==> p.approved_votes_list@.contains(v),
        decreases p.poll_options@.len() - k,
    {
        if p.poll_options[k].poll_approved_votes > p.proposal_approved_votes {
            return false;
        }
        if !all_in(&p.poll_options[k].approved_users, &p.approved_votes_list) {
            return false;
        }
        k += 1;
    }
    true
}

/// Whether no two proposals share an identifier.
fn ids_are_distinct(proposals: &Vec<Proposals>) -> (r: bool)
    ensures
        r == crate::state::ids_distinct(proposals@),
{
    let mut i: usize = 0;
    while i < proposals.len()
        invariant
            i <= proposals@.len(),
            forall|a: int, b: int|
                0 <= a < i && 0 <= b < proposals@.len() && a != b ==> #[trigger] proposals@[a].proposal_id@
                    != #[trigger] proposals@[b].proposal_id@,
        decreases proposals@.len() - i,
    {
        let mut j: usize = 0;
        while j < proposals.len()
            invariant
                i < proposals@.len(),
                j <= proposals@.len(),
                forall|a: int, b: int|
                    0 <= a < i && 0 <= b < proposals@.len() && a != b ==> #[trigger] proposals@[a].proposal_id@
                        != #[trigger] proposals@[b].proposal_id@,
                forall|b: int|
                    0 <= b < j && b != i ==> proposals@[i as int].proposal_id@
                        != #[trigger] proposals@[b].proposal_id@,
            decreases proposals@.len() - j,
        {
            if j != i && proposals[i].proposal_id == proposals[j].proposal_id {
                return false;
            }
            j += 1;
        }
        i += 1;
    }
    true
}

impl State {
    /// Whether the state is well formed, as a state restored from storage
    /// must be before any other call; see `State::wf`.
    pub fn check_wf(&self) -> (r: bool)
        ensures
            r == self.wf(),
    {
        let mut i: usize = 0;
        while i < self.proposals.len()
            invariant
                i <= self.proposals@.len(),
                forall|j: int| 0 <= j < i ==> (#[trigger] self.proposals@[j]).wf(),
            decreases self.proposals@.len() - i,
        {
            if !proposal_is_wf(&self.proposals[i]) {
                return false;
            }
            i += 1;
        }
        ids_are_distinct(&self.proposals) && places_are_distinct(&self.dao.proposal_entry)
            && groups_are_distinct(&self.dao_groups) && principals_distinct(&self.dao.members)
            && principals_distinct(&self.dao.all_dao_user) && group_rosters_distinct(
            &self.dao_groups,
        )
    }

    /// A new instance configured by `config`, with no proposal yet; everyone
    /// on the council or in a group belongs to it. Refused when two places
    /// or two groups share a name, or when the council or a group lists an
    /// identity twice.
    pub fn new(config: DaoConfig) -> (r: Result<State, DaoError>)
        ensures
            !places_distinct(config.proposal_entry@) || !groups_distinct(config.dao_groups@) ==> r
                == Err::<State, DaoError>(DaoError::DuplicateName),
            places_distinct(config.proposal_entry@) && groups_distinct(config.dao_groups@) ==> (r
                is Err <==> !rosters_distinct_in(config)),
            r is Err ==> r == Err::<State, DaoError>(DaoError::DuplicateName) || r == Err::<
                State,
                DaoError,
            >(DaoError::DuplicateMember),
            r matches Ok(s) ==> {
                &&& s.wf()
                &&& s.proposals@.len() == 0
                &&& s.dao.proposal_ids@.len() == 0
                &&& s.dao.requested_dao_user@.len() == 0
                &&& s.dao.dao_name == config.dao_name
                &&& s.dao.purpose == config.purpose
                &&& s.dao.cool_down_period == config.cool_down_period
                &&& s.dao.required_votes == config.required_votes
                &&& s.dao.ask_to_join_dao == config.ask_to_join_dao
                &&& s.dao.members == config.members
                &&& s.dao.members_permissions == config.members_permissions
                &&& s.dao.proposal_entry == config.proposal_entry
                &&& s.dao_groups == config.dao_groups
                &&& s.dao.daohouse_canister_id == config.daohouse_canister_id
                &&& s.dao.token_ledger_id == config.token_ledger_id
                &&& forall|who: Principal|
                    s.dao.all_dao_user@.contains(who) <==> belongs(
                        config.members@,
                        config.dao_groups@,
                        who,
                    )
            },
    {
        if !places_are_distinct(&config.proposal_entry) || !groups_are_distinct(&config.dao_groups) {
            return Err(DaoError::DuplicateName);
        }
        if !principals_distinct(&config.members) || !group_rosters_distinct(&config.dao_groups) {
            return Err(DaoError::DuplicateMember);
        }
        let all_dao_user = everyone(&config.members, &config.dao_groups);
        let s = State {
            dao: DaoDetails {
                dao_name: config.dao_name,
                purpose: config.purpose,
                cool_down_period: config.cool_down_period,
                required_votes: config.required_votes,
                ask_to_join_dao: config.ask_to_join_dao,
                members: config.members,
                all_dao_user,
                requested_dao_user: Vec::new(),
                members_permissions: config.members_permissions,
                proposal_entry: config.proposal_entry,
                daohouse_canister_id: config.daohouse_canister_id,
                token_ledger_id: config.token_ledger_id,
                proposal_ids: Vec::new(),
            },
            proposals: Vec::new(),
            dao_groups: config.dao_groups,
        };
        Ok(s)
    }

    /// The council roster.
    pub fn get_dao_members(&self) -> (r: &Vec<Principal>)
        ensures
            r@ == self.dao.members@,
    {
        &self.dao.members
    }

    /// How many identities are on the council.
    pub fn members_count(&self) -> (r: usize)
        ensures
            r == self.dao.members@.len(),
    {
        self.dao.members.len()
    }

    /// How many proposals were made.
    pub fn proposals_count(&self) -> (r: usize)
        ensures
            r == self.proposals@.len(),
    {
        self.proposals.len()
    }

    /// The groups of the instance.
    pub fn get_dao_groups(&self) -> (r: &Vec<DaoGroup>)
        ensures
            r@ == self.dao_groups@,
    {
        &self.dao_groups
    }

    /// The members of the group named `group`.
    pub fn get_members_of_group(&self, group: &String) -> (r: Result<&Vec<Principal>, DaoError>)
        ensures
            r is Err <==> !crate::state::has_group(self.dao_groups@, group@),
            r is Err ==> r == Err::<&Vec<Principal>, DaoError>(DaoError::GroupNotFound),
            r matches Ok(m) ==> exists|i: int|
                0 <= i < self.dao_groups@.len() && #[trigger] self.dao_groups@[i].group_name@
                    == group@ && self.dao_groups@[i].group_members@ == m@,
    {
        match self.find_group(group) {
            Some(i) => Ok(&self.dao_groups[i].group_members),
            None => Err(DaoError::GroupNotFound),
        }
    }

    /// Registers the companion ledger; only the factory may do so.
    pub fn add_ledger_canister_id(&mut self, caller: Principal, id: Principal) -> (r: Result<
        (),
        DaoError,
    >)
        ensures
            caller == old(self).dao.daohouse_canister_id ==> r is Ok && final(self).dao == (
            DaoDetails { token_ledger_id: id, ..old(self).dao }) && final(self).proposals == old(
                self,
            ).proposals && final(self).dao_groups == old(self).dao_groups,
            caller != old(self).dao.daohouse_canister_id ==> r == Err::<(), DaoError>(
                DaoError::NotAllowed,
            ) && *final(self) == *old(self),
    {
        if !crate::identity::same_principal(&caller, &self.dao.daohouse_canister_id) {
            return Err(DaoError::NotAllowed);
        }
        self.dao.token_ledger_id = id;
        Ok(())
    }
}

} // verus!
