//! Reconciling a channel's permission overwrites.
//!
//! A channel holds a list of overwrites, at most one for each role or
//! member. Locking or unlocking a channel for a target changes one or two
//! flags of the target's overwrite and leaves every other flag, and every
//! other overwrite, as it was. The result is a single overwrite, to be
//! created or to replace the one of its kind.

use vstd::prelude::*;
use crate::permissions::{Permission, PermissionSet};

verus! {

/// Whom an overwrite applies to.
#[derive(Clone, Copy, Debug, PartialEq, Eq, Structural)]
pub enum OverwriteKind {
    Role(u64),
    Member(u64),
}

/// A permission exception of one role or member in one channel.
#[derive(Clone, Copy, Debug, PartialEq, Eq, Structural)]
pub struct PermissionOverwrite {
    pub kind: OverwriteKind,
    pub allow: PermissionSet,
    pub deny: PermissionSet,
}

/// What an overwrite says: its kind and the two sets of flags.
#[verifier::ext_equal]
pub struct OverwriteView {
    pub kind: OverwriteKind,
    pub allow: Set<Permission>,
    pub deny: Set<Permission>,
}

impl View for PermissionOverwrite {
    type V = OverwriteView;

    open spec fn view(&self) -> OverwriteView {
        OverwriteView { kind: self.kind, allow: self.allow@, deny: self.deny@ }
    }
}

impl PermissionOverwrite {
    /// No flag is both allowed and denied.
    pub open spec fn consistent(self) -> bool {
        self.allow@.disjoint(self.deny@)
    }

    /// Whether no flag is both allowed and denied.
    pub fn is_consistent(&self) -> (r: bool)
        ensures
            r == self.consistent(),
    {
        self.allow.is_disjoint(&self.deny)
    }

    /// An overwrite is determined by what it says.
    pub proof fn lemma_view_injective(a: PermissionOverwrite, b: PermissionOverwrite)
        requires
            a@ == b@,
        ensures
            a == b,
    {
        PermissionSet::lemma_view_injective(a.allow, b.allow);
        PermissionSet::lemma_view_injective(a.deny, b.deny);
    }
}

/// For whom a channel is locked or unlocked.
#[derive(Clone, Copy, Debug, PartialEq, Eq, Structural)]
pub enum ToggleTarget {
    Role(u64),
    Member(u64),
    Everyone,
}

impl ToggleTarget {
    /// A role wins over a user; with neither, everyone is meant.
    pub open spec fn spec_resolve(role: Option<u64>, user: Option<u64>) -> ToggleTarget {
        match (role, user) {
            (Some(r), _) => ToggleTarget::Role(r),
            (None, Some(u)) => ToggleTarget::Member(u),
            (None, None) => ToggleTarget::Everyone,
        }
    }

    /// The kind of the overwrite that holds this target's exceptions.
    pub open spec fn spec_kind(self, everyone_role: u64) -> OverwriteKind {
        match self {
            ToggleTarget::Role(r) => OverwriteKind::Role(r),
            ToggleTarget::Member(u) => OverwriteKind::Member(u),
            ToggleTarget::Everyone => OverwriteKind::Role(everyone_role),
        }
    }

    /// The target that a command's optional role and user name.
    #[verifier::when_used_as_spec(spec_resolve)]
    pub fn resolve(role: Option<u64>, user: Option<u64>) -> (r: ToggleTarget)
        ensures
            r == ToggleTarget::spec_resolve(role, user),
            role is Some ==> r == ToggleTarget::Role(role->0),
    {
        match role {
            Some(r) => ToggleTarget::Role(r),
            None => match user {
                Some(u) => ToggleTarget::Member(u),
                None => ToggleTarget::Everyone,
            },
        }
    }

    /// The kind of the overwrite that holds this target's exceptions.
    #[verifier::when_used_as_spec(spec_kind)]
    pub fn kind(self, everyone_role: u64) -> (r: OverwriteKind)
        ensures
            r == self.spec_kind(everyone_role),
    {
        match self {
            ToggleTarget::Role(r) => OverwriteKind::Role(r),
            ToggleTarget::Member(u) => OverwriteKind::Member(u),
            ToggleTarget::Everyone => OverwriteKind::Role(everyone_role),
        }
    }
}

/// What to do to the target's overwrite.
#[derive(Clone, Copy, Debug, PartialEq, Eq, Structural)]
pub enum Operation {
    Lock,
    Unlock,
    ViewLock,
    UnviewLock,
}

impl Operation {
    /// The flags that the operation toggles.
    pub open spec fn affected(self) -> Set<Permission> {
        match self {
            Operation::Lock | Operation::Unlock => PermissionSet::spec_messaging(),
            Operation::ViewLock | Operation::UnviewLock => PermissionSet::spec_viewing(),
        }
    }

    /// Whether the operation lifts a lock.
    pub open spec fn spec_lifts(self) -> bool {
        self == Operation::Unlock || self == Operation::UnviewLock
    }

    /// The operation that undoes this one.
    pub open spec fn spec_counterpart(self) -> Operation {
        match self {
            Operation::Lock => Operation::Unlock,
            Operation::Unlock => Operation::Lock,
            Operation::ViewLock => Operation::UnviewLock,
            Operation::UnviewLock => Operation::ViewLock,
        }
    }

    /// The state an unlock sets when none is given: the flags are allowed
    /// again, not merely no longer denied.
    pub open spec fn effective_state(explicit_state: Option<bool>) -> bool {
        match explicit_state {
            Some(state) => state,
            None => true,
        }
    }

    /// The flags that the operation adds to `allow`.
    pub open spec fn granted(self, explicit_state: Option<bool>) -> Set<Permission> {
        if self.spec_lifts() && Operation::effective_state(explicit_state) {
            self.affected()
        } else {
            Set::empty()
        }
    }

    /// The flags that the operation adds to `deny`.
    pub open spec fn denied(self) -> Set<Permission> {
        if self.spec_lifts() {
            Set::empty()
        } else {
            self.affected()
        }
    }

    /// Whether the operation lifts a lock.
    #[verifier::when_used_as_spec(spec_lifts)]
    pub fn lifts(self) -> (r: bool)
        ensures
            r == self.spec_lifts(),
    {
        match self {
            Operation::Unlock | Operation::UnviewLock => true,
            Operation::Lock | Operation::ViewLock => false,
        }
    }

    /// The operation that undoes this one.
    #[verifier::when_used_as_spec(spec_counterpart)]
    pub fn counterpart(self) -> (r: Operation)
        ensures
            r == self.spec_counterpart(),
    {
        match self {
            Operation::Lock => Operation::Unlock,
            Operation::Unlock => Operation::Lock,
            Operation::ViewLock => Operation::UnviewLock,
            Operation::UnviewLock => Operation::ViewLock,
        }
    }

    /// The flags that the operation toggles.
    pub fn affected_set(self) -> (r: PermissionSet)
        ensures
            r@ == self.affected(),
    {
        match self {
            Operation::Lock | Operation::Unlock => PermissionSet::messaging(),
            Operation::ViewLock | Operation::UnviewLock => PermissionSet::viewing(),
        }
    }
}

/// The position of the first overwrite of `kind`, if there is one.
pub open spec fn first_index(
    overwrites: Seq<PermissionOverwrite>,
    kind: OverwriteKind,
) -> Option<int>
    decreases overwrites.len(),
{
    if overwrites.len() == 0 {
        None
    } else {
        match first_index(overwrites.drop_last(), kind) {
            Some(i) => Some(i),
            None => if overwrites.last().kind == kind {
                Some(overwrites.len() - 1)
            } else {
                None
            },
        }
    }
}

/// `i` is the position of the first overwrite of `kind`.
pub open spec fn is_first_match(
    overwrites: Seq<PermissionOverwrite>,
    kind: OverwriteKind,
    i: int,
) -> bool {
    &&& 0 <= i < overwrites.len()
    &&& overwrites[i].kind == kind
    &&& forall|j: int| 0 <= j < i ==> (#[trigger] overwrites[j]).kind != kind
}

/// No overwrite is of `kind`.
pub open spec fn lacks_kind(overwrites: Seq<PermissionOverwrite>, kind: OverwriteKind) -> bool {
    forall|j: int| 0 <= j < overwrites.len() ==> (#[trigger] overwrites[j]).kind != kind
}

/// No two overwrites are of the same kind.
pub open spec fn unique_kinds(overwrites: Seq<PermissionOverwrite>) -> bool {
    forall|i: int, j: int|
        0 <= i < j < overwrites.len() ==> (#[trigger] overwrites[i]).kind != (
        #[trigger] overwrites[j]).kind
}

/// `first_index` finds the first match, or tells that there is none.
pub proof fn lemma_first_index(overwrites: Seq<PermissionOverwrite>, kind: OverwriteKind)
    ensures
        match first_index(overwrites, kind) {
            Some(i) => is_first_match(overwrites, kind, i),
            None => lacks_kind(overwrites, kind),
        },
    decreases overwrites.len(),
{
    if overwrites.len() > 0 {
        let front = overwrites.drop_last();
        lemma_first_index(front, kind);
        assert forall|j: int| 0 <= j < front.len() implies front[j] == overwrites[j] by {}
        match first_index(front, kind) {
            Some(i) => {
                assert(is_first_match(front, kind, i));
                assert(overwrites[i] == front[i]);
                assert forall|j: int| 0 <= j < i implies (#[trigger] overwrites[j]).kind
                    != kind by {
                    assert(front[j].kind != kind);
                }
            },
            None => {
                assert forall|j: int| 0 <= j < front.len() implies (#[trigger] overwrites[j]).kind
                    != kind by {
                    assert(front[j].kind != kind);
                }
            },
        }
    }
}

/// A first match is what `first_index` returns.
pub proof fn lemma_first_match_found(
    overwrites: Seq<PermissionOverwrite>,
    kind: OverwriteKind,
    i: int,
)
    requires
        is_first_match(overwrites, kind, i),
    ensures
        first_index(overwrites, kind) == Some(i),
{
    lemma_first_index(overwrites, kind);
    match first_index(overwrites, kind) {
        Some(k) => {
            if k < i {
                assert(overwrites[k].kind != kind);
            }
            if i < k {
                assert(overwrites[i].kind != kind);
            }
        },
        None => {
            assert(overwrites[i].kind != kind);
        },
    }
}

/// Without a match `first_index` returns nothing.
pub proof fn lemma_no_match_found(overwrites: Seq<PermissionOverwrite>, kind: OverwriteKind)
    requires
        lacks_kind(overwrites, kind),
    ensures
        first_index(overwrites, kind) is None,
{
    lemma_first_index(overwrites, kind);
    if let Some(i) = first_index(overwrites, kind) {
        assert(overwrites[i].kind != kind);
    }
}

/// The position of the first overwrite of `kind`.
pub fn find_overwrite(
    overwrites: &Vec<PermissionOverwrite>,
    kind: OverwriteKind,
) -> (r: Option<usize>)
    ensures
        match r {
            Some(i) => first_index(overwrites@, kind) == Some(i as int),
            None => first_index(overwrites@, kind) is None,
        },
{
    let mut i: usize = 0;
    while i < overwrites.len()
        invariant
            i <= overwrites.len(),
            forall|j: int| 0 <= j < i ==> (#[trigger] overwrites@[j]).kind != kind,
        decreases overwrites.len() - i,
    {
        if overwrites[i].kind == kind {
            proof {
                lemma_first_match_found(overwrites@, kind, i as int);
            }
            return Some(i);
        }
        i += 1;
    }
    proof {
        lemma_no_match_found(overwrites@, kind);
    }
    None
}

/// The target's overwrite before an operation: the first of its kind, or,
/// where the channel has none, one without flags.
pub open spec fn base_of(overwrites: Seq<PermissionOverwrite>, kind: OverwriteKind) -> OverwriteView {
    match first_index(overwrites, kind) {
        Some(i) => overwrites[i]@,
        None => OverwriteView { kind, allow: Set::empty(), deny: Set::empty() },
    }
}

/// `base` after `operation`: the affected flags leave both sets, then the
/// operation adds them to `allow`, to `deny`, or to neither.
pub open spec fn toggled(
    base: OverwriteView,
    operation: Operation,
    explicit_state: Option<bool>,
) -> OverwriteView {
    OverwriteView {
        kind: base.kind,
        allow: base.allow.difference(operation.affected()).union(
            operation.granted(explicit_state),
        ),
        deny: base.deny.difference(operation.affected()).union(operation.denied()),
    }
}

/// The overwrite to submit for `operation` on `target`.
pub open spec fn reconciled(
    overwrites: Seq<PermissionOverwrite>,
    target: ToggleTarget,
    everyone_role: u64,
    operation: Operation,
    explicit_state: Option<bool>,
) -> OverwriteView {
    toggled(base_of(overwrites, target.spec_kind(everyone_role)), operation, explicit_state)
}

/// The channel's overwrites after `overwrite` was submitted: it replaces
/// the first of its kind, or joins the list where there is none.
pub open spec fn upserted(
    overwrites: Seq<PermissionOverwrite>,
    overwrite: PermissionOverwrite,
) -> Seq<PermissionOverwrite> {
    match first_index(overwrites, overwrite.kind) {
        Some(i) => overwrites.update(i, overwrite),
        None => overwrites.push(overwrite),
    }
}

/// What a reconciliation asks for.
#[derive(Clone, Copy, Debug, PartialEq, Eq, Structural)]
pub struct Reconciled {
    /// The overwrite to submit.
    pub overwrite: PermissionOverwrite,
    /// Whether the channel already has an overwrite of this kind.
    pub should_replace_existing: bool,
}

/// Computes the one overwrite to submit so that `operation` takes effect
/// for `target`. `explicit_state` matters to the two unlocking operations
/// only: `Some(false)` stops denying the flags, anything else allows them.
pub fn reconcile(
    overwrites: &Vec<PermissionOverwrite>,
    target: ToggleTarget,
    everyone_role: u64,
    operation: Operation,
    explicit_state: Option<bool>,
) -> (r: Reconciled)
    ensures
        r.overwrite@ == reconciled(overwrites@, target, everyone_role, operation, explicit_state),
        r.overwrite.kind == target.spec_kind(everyone_role),
        r.should_replace_existing == (first_index(overwrites@, r.overwrite.kind) is Some),
        base_of(overwrites@, r.overwrite.kind).allow.disjoint(
            base_of(overwrites@, r.overwrite.kind).deny,
        ) ==> r.overwrite.consistent(),
{
    let kind = target.kind(everyone_role);
    let affected = operation.affected_set();
    let none = PermissionSet::empty();
    let state = match explicit_state {
        Some(state) => state,
        None => true,
    };
    let granted = if operation.lifts() && state {
        affected
    } else {
        none
    };
    let denied = if operation.lifts() {
        none
    } else {
        affected
    };
    proof {
        lemma_first_index(overwrites@, kind);
    }
    let found = find_overwrite(overwrites, kind);
    let (allow, deny) = match found {
        Some(i) => (overwrites[i].allow, overwrites[i].deny),
        None => (none, none),
    };
    let overwrite = PermissionOverwrite {
        kind,
        allow: allow.difference(&affected).union(&granted),
        deny: deny.difference(&affected).union(&denied),
    };
    proof {
        let want = reconciled(overwrites@, target, everyone_role, operation, explicit_state);
        assert(overwrite@.allow =~= want.allow);
        assert(overwrite@.deny =~= want.deny);
        assert(overwrite@ =~= want);
    }
    Reconciled { overwrite, should_replace_existing: found.is_some() }
}

/// Being of `kind`, as a predicate on overwrites.
pub open spec fn of_kind(kind: OverwriteKind) -> spec_fn(PermissionOverwrite) -> bool {
    |overwrite: PermissionOverwrite| overwrite.kind == kind
}

/// The overwrites to submit where a channel may hold several of the
/// target's kind: each of them after the operation, in the order of the
/// list, or, where the channel has none, the one that is made anew.
pub open spec fn reconciled_each(
    overwrites: Seq<PermissionOverwrite>,
    target: ToggleTarget,
    everyone_role: u64,
    operation: Operation,
    explicit_state: Option<bool>,
) -> Seq<OverwriteView> {
    let kind = target.spec_kind(everyone_role);
    let found = overwrites.filter(of_kind(kind));
    if found.len() == 0 {
        seq![
            toggled(
                OverwriteView { kind, allow: Set::empty(), deny: Set::empty() },
                operation,
                explicit_state,
            ),
        ]
    } else {
        found.map_values(
            |overwrite: PermissionOverwrite| toggled(overwrite@, operation, explicit_state),
        )
    }
}

/// The overwrites of a kind start with the first of that kind.
pub proof fn lemma_found_starts_with_first(
    overwrites: Seq<PermissionOverwrite>,
    kind: OverwriteKind,
)
    ensures
        match first_index(overwrites, kind) {
            Some(i) => overwrites.filter(of_kind(kind)).len() > 0 && overwrites.filter(
                of_kind(kind),
            )[0] == overwrites[i],
            None => overwrites.filter(of_kind(kind)).len() == 0,
        },
    decreases overwrites.len(),
{
    if overwrites.len() > 0 {
        let front = overwrites.drop_last();
        lemma_found_starts_with_first(front, kind);
        lemma_first_index(front, kind);
        assert(overwrites =~= front.push(overwrites.last()));
        front.lemma_filter_push(overwrites.last(), of_kind(kind));
    }
}

/// A channel without two overwrites of one kind has at most one of any.
pub proof fn lemma_unique_found_once(overwrites: Seq<PermissionOverwrite>, kind: OverwriteKind)
    requires
        unique_kinds(overwrites),
    ensures
        overwrites.filter(of_kind(kind)).len() <= 1,
    decreases overwrites.len(),
{
    if overwrites.len() > 0 {
        let front = overwrites.drop_last();
        assert forall|i: int, j: int| 0 <= i < j < front.len() implies (#[trigger] front[i]).kind
            != (#[trigger] front[j]).kind by {
            assert(front[i] == overwrites[i]);
            assert(front[j] == overwrites[j]);
        }
        lemma_unique_found_once(front, kind);
        assert(overwrites =~= front.push(overwrites.last()));
        front.lemma_filter_push(overwrites.last(), of_kind(kind));
        if overwrites.last().kind == kind {
            assert forall|j: int| 0 <= j < front.len() implies (#[trigger] front[j]).kind
                != kind by {
                assert(front[j] == overwrites[j]);
                assert(overwrites[j].kind != overwrites[overwrites.len() - 1].kind);
            }
            lemma_no_match_found(front, kind);
            lemma_found_starts_with_first(front, kind);
        }
    }
}

/// Of the overwrites to submit for a channel that may hold several of
/// the target's kind, the first is the one that `reconciled` gives; and
/// it is the only one where the channel holds no two of one kind.
pub proof fn lemma_each_starts_with_reconciled(
    overwrites: Seq<PermissionOverwrite>,
    target: ToggleTarget,
    everyone_role: u64,
    operation: Operation,
    explicit_state: Option<bool>,
)
    ensures
        reconciled_each(overwrites, target, everyone_role, operation, explicit_state).len() >= 1,
        reconciled_each(overwrites, target, everyone_role, operation, explicit_state)[0]
            == reconciled(overwrites, target, everyone_role, operation, explicit_state),
        unique_kinds(overwrites) ==> reconciled_each(
            overwrites,
            target,
            everyone_role,
            operation,
            explicit_state,
        ).len() == 1,
{
    let kind = target.spec_kind(everyone_role);
    lemma_found_starts_with_first(overwrites, kind);
    if unique_kinds(overwrites) {
        lemma_unique_found_once(overwrites, kind);
    }
}

/// Computes the overwrites to submit, in order, for a channel that may
/// hold several overwrites of the target's kind: the operation applied to
/// every one of them, or the one overwrite made anew where there is none.
pub fn reconcile_each(
    overwrites: &Vec<PermissionOverwrite>,
    target: ToggleTarget,
    everyone_role: u64,
    operation: Operation,
    explicit_state: Option<bool>,
) -> (r: Vec<PermissionOverwrite>)
    ensures
        r@.map_values(|overwrite: PermissionOverwrite| overwrite@) == reconciled_each(
            overwrites@,
            target,
            everyone_role,
            operation,
            explicit_state,
        ),
{
    let kind = target.kind(everyone_role);
    let affected = operation.affected_set();
    let none = PermissionSet::empty();
    let state = match explicit_state {
        Some(state) => state,
        None => true,
    };
    let granted = if operation.lifts() && state {
        affected
    } else {
        none
    };
    let denied = if operation.lifts() {
        none
    } else {
        affected
    };
    let mut out: Vec<PermissionOverwrite> = Vec::new();
    let mut i: usize = 0;
    assert(overwrites@.take(0) =~= Seq::<PermissionOverwrite>::empty());
    while i < overwrites.len()
        invariant
            i <= overwrites@.len(),
            kind == target.spec_kind(everyone_role),
            affected@ == operation.affected(),
            granted@ == operation.granted(explicit_state),
            denied@ == operation.denied(),
            out@.len() == overwrites@.take(i as int).filter(of_kind(kind)).len(),
            forall|j: int|
                0 <= j < out@.len() ==> (#[trigger] out@[j])@ == toggled(
                    overwrites@.take(i as int).filter(of_kind(kind))[j]@,
                    operation,
                    explicit_state,
                ),
        decreases overwrites.len() - i,
    {
        let existing = overwrites[i];
        proof {
            assert(overwrites@.take(i + 1) =~= overwrites@.take(i as int).push(existing));
            overwrites@.take(i as int).lemma_filter_push(existing, of_kind(kind));
        }
        if existing.kind == kind {
            let next = PermissionOverwrite {
                kind,
                allow: existing.allow.difference(&affected).union(&granted),
                deny: existing.deny.difference(&affected).union(&denied),
            };
            proof {
                let want = toggled(existing@, operation, explicit_state);
                assert(next@.allow =~= want.allow);
                assert(next@.deny =~= want.deny);
                assert(next@ =~= want);
            }
            out.push(next);
        }
        i += 1;
    }
    proof {
        assert(overwrites@.take(i as int) =~= overwrites@);
    }
    if out.len() == 0 {
        let fresh = PermissionOverwrite {
            kind,
            allow: none.difference(&affected).union(&granted),
            deny: none.difference(&affected).union(&denied),
        };
        proof {
            let want = toggled(
                OverwriteView { kind, allow: Set::empty(), deny: Set::empty() },
                operation,
                explicit_state,
            );
            assert(fresh@.allow =~= want.allow);
            assert(fresh@.deny =~= want.deny);
            assert(fresh@ =~= want);
        }
        out.push(fresh);
    }
    proof {
        let got = out@.map_values(|overwrite: PermissionOverwrite| overwrite@);
        let want = reconciled_each(overwrites@, target, everyone_role, operation, explicit_state);
        assert(got.len() == want.len());
        assert forall|j: int| 0 <= j < got.len() implies got[j] == want[j] by {
            assert(got[j] == out@[j]@);
        }
        assert(got =~= want);
    }
    out
}

/// Submits `overwrite` to a list of overwrites as the platform does to a
/// channel's: it replaces the first of its kind, or is added.
pub fn upsert(overwrites: &mut Vec<PermissionOverwrite>, overwrite: PermissionOverwrite)
    ensures
        final(overwrites)@ == upserted(old(overwrites)@, overwrite),
{
    proof {
        lemma_first_index(overwrites@, overwrite.kind);
    }
    match find_overwrite(overwrites, overwrite.kind) {
        Some(i) => {
            overwrites.set(i, overwrite);
        },
        None => {
            overwrites.push(overwrite);
        },
    }
}

/// Whether no two overwrites are of the same kind.
pub fn has_unique_kinds(overwrites: &Vec<PermissionOverwrite>) -> (r: bool)
    ensures
        r == unique_kinds(overwrites@),
{
    let mut j: usize = 0;
    while j < overwrites.len()
        invariant
            j <= overwrites.len(),
            unique_kinds(overwrites@.take(j as int)),
        decreases overwrites.len() - j,
    {
        let mut i: usize = 0;
        while i < j
            invariant
                i <= j < overwrites.len(),
                forall|k: int| 0 <= k < i ==> (#[trigger] overwrites@[k]).kind != overwrites@[j as int].kind,
            decreases j - i,
        {
            if overwrites[i].kind == overwrites[j].kind {
                return false;
            }
            i += 1;
        }
        proof {
            let before = overwrites@.take(j as int);
            let after = overwrites@.take(j + 1);
            assert forall|a: int, b: int| 0 <= a < b < after.len() implies (#[trigger] after[a]).kind
                != (#[trigger] after[b]).kind by {
                if b < j {
                    assert(before[a].kind != before[b].kind);
                }
            }
        }
        j += 1;
    }
    proof {
        assert(overwrites@.take(j as int) =~= overwrites@);
    }
    true
}

/// An operation touches none but the flags it is about.
pub proof fn lemma_toggle_keeps_other_flags(
    base: OverwriteView,
    operation: Operation,
    explicit_state: Option<bool>,
)
    ensures
        toggled(base, operation, explicit_state).kind == base.kind,
        toggled(base, operation, explicit_state).allow.difference(operation.affected())
            == base.allow.difference(operation.affected()),
        toggled(base, operation, explicit_state).deny.difference(operation.affected())
            == base.deny.difference(operation.affected()),
{
    let after = toggled(base, operation, explicit_state);
    assert(after.allow.difference(operation.affected()) =~= base.allow.difference(
        operation.affected(),
    ));
    assert(after.deny.difference(operation.affected()) =~= base.deny.difference(
        operation.affected(),
    ));
}

/// An operation on an overwrite that allows and denies no flag at once
/// gives one of which the same holds.
pub proof fn lemma_toggle_keeps_consistent(
    base: OverwriteView,
    operation: Operation,
    explicit_state: Option<bool>,
)
    requires
        base.allow.disjoint(base.deny),
    ensures
        toggled(base, operation, explicit_state).allow.disjoint(
            toggled(base, operation, explicit_state).deny,
        ),
{
}

/// After a lock the affected flags are denied and not allowed; after an
/// unlock they are not denied, and allowed unless the state says otherwise.
pub proof fn lemma_toggle_sets_affected_flags(
    base: OverwriteView,
    operation: Operation,
    explicit_state: Option<bool>,
)
    ensures
        ({
            let after = toggled(base, operation, explicit_state);
            if operation.spec_lifts() {
                &&& after.deny.disjoint(operation.affected())
                &&& if Operation::effective_state(explicit_state) {
                    operation.affected().subset_of(after.allow)
                } else {
                    after.allow.disjoint(operation.affected())
                }
            } else {
                &&& operation.affected().subset_of(after.deny)
                &&& after.allow.disjoint(operation.affected())
            }
        }),
{
}

/// The state matters to the unlocking operations only.
pub proof fn lemma_lock_ignores_state(
    base: OverwriteView,
    operation: Operation,
    explicit_state: Option<bool>,
)
    requires
        !operation.spec_lifts(),
    ensures
        toggled(base, operation, explicit_state) == toggled(base, operation, None),
{
}

/// Once submitted, an overwrite is the first of its kind.
pub proof fn lemma_upserted_holds(
    overwrites: Seq<PermissionOverwrite>,
    overwrite: PermissionOverwrite,
)
    ensures
        base_of(upserted(overwrites, overwrite), overwrite.kind) == overwrite@,
        first_index(upserted(overwrites, overwrite), overwrite.kind) is Some,
{
    let after = upserted(overwrites, overwrite);
    lemma_first_index(overwrites, overwrite.kind);
    let i = match first_index(overwrites, overwrite.kind) {
        Some(i) => i,
        None => overwrites.len() as int,
    };
    assert(after[i] == overwrite);
    assert forall|j: int| 0 <= j < i implies (#[trigger] after[j]).kind != overwrite.kind by {
        assert(after[j] == overwrites[j]);
    }
    lemma_first_match_found(after, overwrite.kind, i);
}

/// Submitting an overwrite leaves the overwrites of every other kind as
/// they were.
pub proof fn lemma_upserted_keeps_others(
    overwrites: Seq<PermissionOverwrite>,
    overwrite: PermissionOverwrite,
    kind: OverwriteKind,
)
    requires
        kind != overwrite.kind,
    ensures
        base_of(upserted(overwrites, overwrite), kind) == base_of(overwrites, kind),
        first_index(upserted(overwrites, overwrite), kind) == first_index(overwrites, kind),
{
    let after = upserted(overwrites, overwrite);
    lemma_first_index(overwrites, overwrite.kind);
    lemma_first_index(overwrites, kind);
    match first_index(overwrites, kind) {
        Some(i) => {
            assert(after[i] == overwrites[i]);
            assert forall|j: int| 0 <= j < i implies (#[trigger] after[j]).kind != kind by {
                if after[j] != overwrite {
                    assert(after[j] == overwrites[j]);
                }
            }
            lemma_first_match_found(after, kind, i);
        },
        None => {
            assert forall|j: int| 0 <= j < after.len() implies (#[trigger] after[j]).kind
                != kind by {
                if after[j] != overwrite {
                    assert(after[j] == overwrites[j]);
                }
            }
            lemma_no_match_found(after, kind);
        },
    }
}

/// Submitting an overwrite never gives a channel two of one kind.
pub proof fn lemma_upserted_keeps_unique(
    overwrites: Seq<PermissionOverwrite>,
    overwrite: PermissionOverwrite,
)
    requires
        unique_kinds(overwrites),
    ensures
        unique_kinds(upserted(overwrites, overwrite)),
{
    let after = upserted(overwrites, overwrite);
    lemma_first_index(overwrites, overwrite.kind);
    let at = match first_index(overwrites, overwrite.kind) {
        Some(i) => i,
        None => overwrites.len() as int,
    };
    assert forall|i: int, j: int| 0 <= i < j < after.len() implies (#[trigger] after[i]).kind != (
    #[trigger] after[j]).kind by {
        if i != at && j != at {
            assert(after[i] == overwrites[i]);
            assert(after[j] == overwrites[j]);
        } else if i == at {
            assert(after[j] == overwrites[j]);
            if at < overwrites.len() {
                assert(overwrites[at].kind != overwrites[j].kind);
            }
        } else {
            assert(after[i] == overwrites[i]);
            if at < overwrites.len() {
                assert(overwrites[i].kind != overwrites[at].kind);
            }
        }
    }
}

/// Locking a target, submitting the result and unlocking the same target
/// gives an overwrite that differs from the one before the lock in the
/// affected flags at most, whatever state the unlock asks for.
pub proof fn lemma_lock_then_unlock_restores_other_flags(
    overwrites: Seq<PermissionOverwrite>,
    target: ToggleTarget,
    everyone_role: u64,
    operation: Operation,
    locked: PermissionOverwrite,
    explicit_state: Option<bool>,
)
    requires
        !operation.spec_lifts(),
        locked@ == reconciled(overwrites, target, everyone_role, operation, None),
    ensures
        ({
            let before = base_of(overwrites, target.spec_kind(everyone_role));
            let unlocked = reconciled(
                upserted(overwrites, locked),
                target,
                everyone_role,
                operation.spec_counterpart(),
                explicit_state,
            );
            &&& unlocked.kind == before.kind
            &&& unlocked.allow.difference(operation.affected()) == before.allow.difference(
                operation.affected(),
            )
            &&& unlocked.deny.difference(operation.affected()) == before.deny.difference(
                operation.affected(),
            )
        }),
{
    let kind = target.spec_kind(everyone_role);
    let before = base_of(overwrites, kind);
    lemma_first_index(overwrites, kind);
    assert(locked.kind == kind);
    lemma_upserted_holds(overwrites, locked);
    let unlocked = reconciled(
        upserted(overwrites, locked),
        target,
        everyone_role,
        operation.spec_counterpart(),
        explicit_state,
    );
    assert(unlocked.allow.difference(operation.affected()) =~= before.allow.difference(
        operation.affected(),
    ));
    assert(unlocked.deny.difference(operation.affected()) =~= before.deny.difference(
        operation.affected(),
    ));
}

/// Applying an operation, submitting the result and applying the same
/// operation again asks for the overwrite that was just submitted.
pub proof fn lemma_repeat_is_idempotent(
    overwrites: Seq<PermissionOverwrite>,
    target: ToggleTarget,
    everyone_role: u64,
    operation: Operation,
    explicit_state: Option<bool>,
    once: PermissionOverwrite,
)
    requires
        once@ == reconciled(overwrites, target, everyone_role, operation, explicit_state),
    ensures
        reconciled(upserted(overwrites, once), target, everyone_role, operation, explicit_state)
            == once@,
{
    let kind = target.spec_kind(everyone_role);
    lemma_first_index(overwrites, kind);
    assert(once.kind == kind);
    lemma_upserted_holds(overwrites, once);
    let twice = reconciled(
        upserted(overwrites, once),
        target,
        everyone_role,
        operation,
        explicit_state,
    );
    assert(twice.allow =~= once@.allow);
    assert(twice.deny =~= once@.deny);
}

} // verus!
