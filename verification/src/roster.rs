//! The members of a guild and the roles they hold.

use vstd::prelude::*;

verus! {

/// What the role commands read of a guild member.
#[derive(Clone, Debug, PartialEq, Eq)]
pub struct Member {
    pub id: u64,
    pub roles: Vec<u64>,
}

/// The member holds the role.
pub open spec fn holds_role(member: Member, role: u64) -> bool {
    member.roles@.contains(role)
}

/// Holding `role`, as a predicate on members.
pub open spec fn holding(role: u64) -> spec_fn(Member) -> bool {
    |member: Member| holds_role(member, role)
}

/// The identifiers of the members that hold the role, in the order of
/// the roster.
pub open spec fn holders(members: Seq<Member>, role: u64) -> Seq<u64> {
    members.filter(holding(role)).map_values(|member: Member| member.id)
}

/// One more member adds its identifier if it holds the role, and changes
/// nothing otherwise.
pub proof fn lemma_holders_push(members: Seq<Member>, last: Member, role: u64)
    ensures
        holders(members.push(last), role) == if holds_role(last, role) {
            holders(members, role).push(last.id)
        } else {
            holders(members, role)
        },
{
    let kept = members.filter(holding(role));
    members.lemma_filter_push(last, holding(role));
    if holds_role(last, role) {
        assert(kept.push(last).map_values(|member: Member| member.id) =~= kept.map_values(
            |member: Member| member.id,
        ).push(last.id));
    }
}

impl Member {
    /// Whether the member holds the role.
    pub fn has_role(&self, role: u64) -> (r: bool)
        ensures
            r == holds_role(*self, role),
    {
        let mut i: usize = 0;
        while i < self.roles.len()
            invariant
                i <= self.roles@.len(),
                forall|j: int| 0 <= j < i ==> self.roles@[j] != role,
            decreases self.roles.len() - i,
        {
            if self.roles[i] == role {
                return true;
            }
            i += 1;
        }
        false
    }
}

/// The identifiers of the members that hold the role, in the order of
/// the roster.
pub fn members_with_role(members: &Vec<Member>, role: u64) -> (r: Vec<u64>)
    ensures
        r@ == holders(members@, role),
        r@.len() <= members@.len(),
{
    let mut ids: Vec<u64> = Vec::new();
    let mut i: usize = 0;
    assert(members@.take(0) =~= Seq::<Member>::empty());
    while i < members.len()
        invariant
            i <= members@.len(),
            ids@ == holders(members@.take(i as int), role),
            ids@.len() <= i,
        decreases members.len() - i,
    {
        proof {
            assert(members@.take(i + 1) =~= members@.take(i as int).push(members@[i as int]));
            lemma_holders_push(members@.take(i as int), members@[i as int], role);
        }
        if members[i].has_role(role) {
            ids.push(members[i].id);
        }
        i += 1;
    }
    assert(members@.take(i as int) =~= members@);
    ids
}

} // verus!
