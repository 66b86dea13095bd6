//! The configuration store: an in-memory, transactional realization of
//! the five-table layered record. The root table is keyed by tenant
//! (guild) id, each sub-table by the owning module's surrogate id.
//!
//! A partial update stages the merged rows of every present section
//! and writes them only when every staged operation and the commit
//! have succeeded, so a failure leaves no partial mutation behind. A
//! fault plan stands in for the persistence layer's failure modes so
//! that callers can exercise exactly that behaviour.

use vstd::prelude::*;
use std::collections::HashMap;
use crate::decimal::spec_udigits;
use crate::decimal::u64_to_string;
use crate::welcome::{
    fill_join, fill_join_dm, join_content_of, join_dm_content_of, merge_join, merge_join_dm,
    merge_join_roles, merge_leave, spec_fill_join, spec_fill_join_dm, spec_join_content_of,
    spec_join_dm_content_of, spec_merge_join, spec_merge_join_dm, spec_merge_join_roles,
    spec_merge_leave, view_opt_join_content, WelcomeExpanded, WelcomeExpandedRow, WelcomeExpandedView, WelcomeJoin, WelcomeJoinContent,
    WelcomeJoinContentView, WelcomeJoinDm, WelcomeJoinDmContent, WelcomeJoinDmContentView,
    WelcomeJoinDmView, WelcomeJoinRoles, WelcomeJoinRolesContent, WelcomeJoinRolesView,
    WelcomeJoinView, WelcomeLeave, WelcomeLeaveContent, WelcomeLeaveView, WelcomeModule,
    WelcomeModuleInsert, WelcomeModuleView, WelcomeRequestData, WelcomeRequestDataView,
};

verus! {

broadcast use vstd::std_specs::hash::group_hash_axioms;

/// The persistence operation that a failure is attributed to.
#[derive(Clone, Copy, PartialEq, Eq, Structural, Debug)]
pub enum StoreStage {
    ModuleInsert,
    ModuleUpsert,
    JoinUpsert,
    JoinDmUpsert,
    JoinRolesUpsert,
    LeaveUpsert,
    Commit,
}

/// The single error shape the store surfaces: a record that could not
/// be lazily created, or a persistence failure with its stage named.
#[derive(Clone, Copy, PartialEq, Eq, Structural, Debug)]
pub enum StoreError {
    NotFound,
    Persistence(StoreStage),
}

/// Stands in for the persistence layer's failure modes: `fail_insert`
/// fails the lazy creation of the root row, and `fail_at` fails the
/// n-th operation of the update transaction, counted from zero over
/// the present sections in root, join, join-dm, join-roles, leave
/// order, with the commit as the final operation.
#[derive(Clone, Copy, PartialEq, Eq, Structural, Debug)]
pub struct FaultPlan {
    pub fail_insert: bool,
    pub fail_at: Option<u64>,
}

impl FaultPlan {
    /// The plan under which every operation succeeds.
    pub fn none() -> (p: FaultPlan)
        ensures
            !p.fail_insert,
            p.fail_at is None,
    {
        FaultPlan { fail_insert: false, fail_at: None }
    }

    fn hits(&self, op: u64) -> (b: bool)
        ensures
            b == (self.fail_at == Some(op)),
    {
        match self.fail_at {
            Some(k) => k == op,
            None => false,
        }
    }
}

/// The mathematical model of the store: the five tables and the next
/// surrogate id.
#[verifier::ext_equal]
pub ghost struct StoreView {
    pub modules: Map<u64, WelcomeModuleView>,
    pub join: Map<i64, WelcomeJoinView>,
    pub join_dm: Map<i64, WelcomeJoinDmView>,
    pub join_roles: Map<i64, WelcomeJoinRolesView>,
    pub leave: Map<i64, WelcomeLeaveView>,
    pub next_id: i64,
}

impl StoreView {
    /// Well-formedness: ids are positive, below the next free id and
    /// unique; a module's guild column renders its key; and every
    /// sub-row is keyed by its own id column.
    pub open spec fn wf(self) -> bool {
        &&& 1 <= self.next_id
        &&& forall|g: u64|
            #[trigger] self.modules.contains_key(g) ==> {
                &&& 0 < self.modules[g].id < self.next_id
                &&& self.modules[g].guild_id == spec_udigits(g as nat)
            }
        &&& forall|g1: u64, g2: u64|
            #[trigger] self.modules.contains_key(g1) && #[trigger] self.modules.contains_key(g2)
                && g1 != g2 ==> self.modules[g1].id != self.modules[g2].id
        &&& forall|k: i64|
            #[trigger] self.join.contains_key(k) ==> 0 < k < self.next_id && self.join[k].id == k
        &&& forall|k: i64|
            #[trigger] self.join_dm.contains_key(k) ==> 0 < k < self.next_id
                && self.join_dm[k].id == k
        &&& forall|k: i64|
            #[trigger] self.join_roles.contains_key(k) ==> 0 < k < self.next_id
                && self.join_roles[k].id == k
        &&& forall|k: i64|
            #[trigger] self.leave.contains_key(k) ==> 0 < k < self.next_id && self.leave[k].id
                == k
    }
}

/// The expanded record that a read of tenant `g` produces.
pub open spec fn spec_expanded(s: StoreView, g: u64) -> WelcomeExpandedView
    recommends
        s.modules.contains_key(g),
{
    let m = s.modules[g];
    WelcomeExpandedView {
        id: m.id,
        guild_id: m.guild_id,
        enabled: m.enabled,
        join: if s.join.contains_key(m.id) {
            Some(spec_join_content_of(s.join[m.id]))
        } else {
            None
        },
        join_dm: if s.join_dm.contains_key(m.id) {
            Some(spec_join_dm_content_of(s.join_dm[m.id]))
        } else {
            None
        },
        join_roles: if s.join_roles.contains_key(m.id) {
            Some(Some(s.join_roles[m.id].enabled))
        } else {
            None
        },
        leave: if s.leave.contains_key(m.id) {
            Some(Some(s.leave[m.id].enabled))
        } else {
            None
        },
    }
}

/// The fresh default root row that lazy creation writes.
pub open spec fn spec_fresh_module(s: StoreView, g: u64) -> WelcomeModuleView {
    WelcomeModuleView { id: s.next_id, guild_id: spec_udigits(g as nat), enabled: false }
}

/// The store after the fetch-or-create of tenant `g`'s root row.
pub open spec fn spec_after_create(s: StoreView, g: u64) -> StoreView {
    if s.modules.contains_key(g) {
        s
    } else {
        StoreView {
            modules: s.modules.insert(g, spec_fresh_module(s, g)),
            next_id: (s.next_id + 1) as i64,
            ..s
        }
    }
}

/// Whether the lazy creation of tenant `g`'s root row fails under the
/// given fault plan: either by injected fault or because the surrogate
/// id space is exhausted.
pub open spec fn spec_create_fails(s: StoreView, g: u64, fp: FaultPlan) -> bool {
    !s.modules.contains_key(g) && (fp.fail_insert || s.next_id == i64::MAX)
}

#[verifier::rlimit(50)]
proof fn lemma_wf_insert_fresh(s0: StoreView, g: u64, enabled: bool)
    requires
        s0.wf(),
        s0.next_id < i64::MAX,
        !s0.modules.contains_key(g),
    ensures
        (StoreView {
            modules: s0.modules.insert(
                g,
                WelcomeModuleView { id: s0.next_id, guild_id: spec_udigits(g as nat), enabled },
            ),
            next_id: (s0.next_id + 1) as i64,
            ..s0
        }).wf(),
{
    let s1 = StoreView {
        modules: s0.modules.insert(
            g,
            WelcomeModuleView { id: s0.next_id, guild_id: spec_udigits(g as nat), enabled },
        ),
        next_id: (s0.next_id + 1) as i64,
        ..s0
    };
    assert forall|g1: u64| #[trigger] s1.modules.contains_key(g1) implies 0 < s1.modules[g1].id
        < s1.next_id && s1.modules[g1].guild_id == spec_udigits(g1 as nat) by {
        if g1 != g {
            assert(s0.modules.contains_key(g1));
        }
    }
    assert forall|g1: u64, g2: u64|
        #[trigger] s1.modules.contains_key(g1) && #[trigger] s1.modules.contains_key(g2) && g1
            != g2 implies s1.modules[g1].id != s1.modules[g2].id by {
        if g1 != g && g2 != g {
            assert(s0.modules.contains_key(g1));
            assert(s0.modules.contains_key(g2));
        } else if g1 == g {
            assert(s0.modules.contains_key(g2));
            assert(s0.modules[g2].id < s0.next_id);
        } else {
            assert(s0.modules.contains_key(g1));
            assert(s0.modules[g1].id < s0.next_id);
        }
    }
    assert forall|k: i64| #[trigger] s1.join.contains_key(k) implies 0 < k < s1.next_id
        && s1.join[k].id == k by {
        assert(s0.join.contains_key(k) && s0.join[k].id == k);
    }
    assert forall|k: i64| #[trigger] s1.join_dm.contains_key(k) implies 0 < k < s1.next_id
        && s1.join_dm[k].id == k by {
        assert(s0.join_dm.contains_key(k) && s0.join_dm[k].id == k);
    }
    assert forall|k: i64| #[trigger] s1.join_roles.contains_key(k) implies 0 < k < s1.next_id
        && s1.join_roles[k].id == k by {
        assert(s0.join_roles.contains_key(k) && s0.join_roles[k].id == k);
    }
    assert forall|k: i64| #[trigger] s1.leave.contains_key(k) implies 0 < k < s1.next_id
        && s1.leave[k].id == k by {
        assert(s0.leave.contains_key(k) && s0.leave[k].id == k);
    }
}


/// The join section's current contents, as the merge reads them.
pub open spec fn spec_existing_join(s: StoreView, id: i64) -> Option<WelcomeJoinContentView> {
    if s.join.contains_key(id) {
        Some(spec_join_content_of(s.join[id]))
    } else {
        None
    }
}

/// The direct-message section's current contents.
pub open spec fn spec_existing_join_dm(s: StoreView, id: i64) -> Option<
    WelcomeJoinDmContentView,
> {
    if s.join_dm.contains_key(id) {
        Some(spec_join_dm_content_of(s.join_dm[id]))
    } else {
        None
    }
}

/// The role-assignment section's current contents.
pub open spec fn spec_existing_roles_enabled(s: StoreView, id: i64) -> Option<Option<bool>> {
    if s.join_roles.contains_key(id) {
        Some(Some(s.join_roles[id].enabled))
    } else {
        None
    }
}

/// The farewell section's current contents.
pub open spec fn spec_existing_leave_enabled(s: StoreView, id: i64) -> Option<Option<bool>> {
    if s.leave.contains_key(id) {
        Some(Some(s.leave[id].enabled))
    } else {
        None
    }
}

/// The default fill of an enabled flag: unset stores as `false`.
pub open spec fn spec_enabled_fill(o: Option<bool>) -> bool {
    match o {
        Some(b) => b,
        None => false,
    }
}

/// The role-assignment row an upsert writes: the merged enabled flag;
/// the role list and deferred flag keep their stored values, or start
/// empty and unset.
pub open spec fn spec_roles_row(s: StoreView, id: i64, enabled: bool) -> WelcomeJoinRolesView {
    WelcomeJoinRolesView {
        id,
        enabled,
        roles: if s.join_roles.contains_key(id) {
            s.join_roles[id].roles
        } else {
            Seq::empty()
        },
        delay: if s.join_roles.contains_key(id) {
            s.join_roles[id].delay
        } else {
            false
        },
    }
}

/// The farewell row an upsert writes, likewise keeping the stored
/// channel and content columns.
pub open spec fn spec_leave_row(s: StoreView, id: i64, enabled: bool) -> WelcomeLeaveView {
    WelcomeLeaveView {
        id,
        enabled,
        channel_id: if s.leave.contains_key(id) {
            s.leave[id].channel_id
        } else {
            None
        },
        content: if s.leave.contains_key(id) {
            s.leave[id].content
        } else {
            None
        },
    }
}

/// The store after the update transaction of one request commits:
/// each present section's table gains the merged, default-filled row
/// keyed by the root's id; each absent section's table is untouched.
pub open spec fn spec_apply(s: StoreView, g: u64, u: WelcomeRequestDataView) -> StoreView
    recommends
        s.modules.contains_key(g),
{
    let id = s.modules[g].id;
    StoreView {
        modules: match u.enabled {
            Some(b) => s.modules.insert(
                g,
                WelcomeModuleView { enabled: b, ..s.modules[g] },
            ),
            None => s.modules,
        },
        join: match u.join {
            Some(p) => s.join.insert(
                id,
                spec_fill_join(id, spec_merge_join(spec_existing_join(s, id), p)),
            ),
            None => s.join,
        },
        join_dm: match u.join_dm {
            Some(p) => s.join_dm.insert(
                id,
                spec_fill_join_dm(id, spec_merge_join_dm(spec_existing_join_dm(s, id), p)),
            ),
            None => s.join_dm,
        },
        join_roles: match u.join_roles {
            Some(pe) => s.join_roles.insert(
                id,
                spec_roles_row(
                    s,
                    id,
                    spec_enabled_fill(
                        spec_merge_join_roles(spec_existing_roles_enabled(s, id), pe),
                    ),
                ),
            ),
            None => s.join_roles,
        },
        leave: match u.leave {
            Some(pe) => s.leave.insert(
                id,
                spec_leave_row(
                    s,
                    id,
                    spec_enabled_fill(spec_merge_leave(spec_existing_leave_enabled(s, id), pe)),
                ),
            ),
            None => s.leave,
        },
        next_id: s.next_id,
    }
}

/// The stage at which the transaction's operation number `k` runs:
/// the present sections in order, then the commit.
pub open spec fn spec_fault_stage(u: WelcomeRequestDataView, k: int) -> Option<StoreStage> {
    let a1 = if u.enabled is Some { 1int } else { 0int };
    let a2 = a1 + if u.join is Some { 1int } else { 0int };
    let a3 = a2 + if u.join_dm is Some { 1int } else { 0int };
    let a4 = a3 + if u.join_roles is Some { 1int } else { 0int };
    let a5 = a4 + if u.leave is Some { 1int } else { 0int };
    if u.enabled is Some && k == 0 {
        Some(StoreStage::ModuleUpsert)
    } else if u.join is Some && k == a1 {
        Some(StoreStage::JoinUpsert)
    } else if u.join_dm is Some && k == a2 {
        Some(StoreStage::JoinDmUpsert)
    } else if u.join_roles is Some && k == a3 {
        Some(StoreStage::JoinRolesUpsert)
    } else if u.leave is Some && k == a4 {
        Some(StoreStage::LeaveUpsert)
    } else if k == a5 {
        Some(StoreStage::Commit)
    } else {
        None
    }
}

/// The transaction operation the fault plan fails, if any.
pub open spec fn spec_tx_fault(u: WelcomeRequestDataView, fp: FaultPlan) -> Option<StoreStage> {
    match fp.fail_at {
        Some(k) => spec_fault_stage(u, k as int),
        None => None,
    }
}

proof fn lemma_wf_set_enabled(s0: StoreView, g: u64, b: bool)
    requires
        s0.wf(),
        s0.modules.contains_key(g),
    ensures
        (StoreView {
            modules: s0.modules.insert(g, WelcomeModuleView { enabled: b, ..s0.modules[g] }),
            ..s0
        }).wf(),
{
    let s1 = StoreView {
        modules: s0.modules.insert(g, WelcomeModuleView { enabled: b, ..s0.modules[g] }),
        ..s0
    };
    assert forall|g1: u64| #[trigger] s1.modules.contains_key(g1) implies 0 < s1.modules[g1].id
        < s1.next_id && s1.modules[g1].guild_id == spec_udigits(g1 as nat) by {
        assert(s0.modules.contains_key(g1));
    }
    assert forall|g1: u64, g2: u64|
        #[trigger] s1.modules.contains_key(g1) && #[trigger] s1.modules.contains_key(g2) && g1
            != g2 implies s1.modules[g1].id != s1.modules[g2].id by {
        assert(s0.modules.contains_key(g1));
        assert(s0.modules.contains_key(g2));
    }
}

proof fn lemma_wf_upsert_join(s0: StoreView, k: i64, row: WelcomeJoinView)
    requires
        s0.wf(),
        0 < k < s0.next_id,
        row.id == k,
    ensures
        (StoreView { join: s0.join.insert(k, row), ..s0 }).wf(),
{
    let s1 = StoreView { join: s0.join.insert(k, row), ..s0 };
    assert forall|k1: i64| #[trigger] s1.join.contains_key(k1) implies 0 < k1 < s1.next_id
        && s1.join[k1].id == k1 by {
        if k1 != k {
            assert(s0.join.contains_key(k1));
        }
    }
}

proof fn lemma_wf_upsert_join_dm(s0: StoreView, k: i64, row: WelcomeJoinDmView)
    requires
        s0.wf(),
        0 < k < s0.next_id,
        row.id == k,
    ensures
        (StoreView { join_dm: s0.join_dm.insert(k, row), ..s0 }).wf(),
{
    let s1 = StoreView { join_dm: s0.join_dm.insert(k, row), ..s0 };
    assert forall|k1: i64| #[trigger] s1.join_dm.contains_key(k1) implies 0 < k1 < s1.next_id
        && s1.join_dm[k1].id == k1 by {
        if k1 != k {
            assert(s0.join_dm.contains_key(k1));
        }
    }
}

proof fn lemma_wf_upsert_join_roles(s0: StoreView, k: i64, row: WelcomeJoinRolesView)
    requires
        s0.wf(),
        0 < k < s0.next_id,
        row.id == k,
    ensures
        (StoreView { join_roles: s0.join_roles.insert(k, row), ..s0 }).wf(),
{
    let s1 = StoreView { join_roles: s0.join_roles.insert(k, row), ..s0 };
    assert forall|k1: i64| #[trigger] s1.join_roles.contains_key(k1) implies 0 < k1 < s1.next_id
        && s1.join_roles[k1].id == k1 by {
        if k1 != k {
            assert(s0.join_roles.contains_key(k1));
        }
    }
}

proof fn lemma_wf_upsert_leave(s0: StoreView, k: i64, row: WelcomeLeaveView)
    requires
        s0.wf(),
        0 < k < s0.next_id,
        row.id == k,
    ensures
        (StoreView { leave: s0.leave.insert(k, row), ..s0 }).wf(),
{
    let s1 = StoreView { leave: s0.leave.insert(k, row), ..s0 };
    assert forall|k1: i64| #[trigger] s1.leave.contains_key(k1) implies 0 < k1 < s1.next_id
        && s1.leave[k1].id == k1 by {
        if k1 != k {
            assert(s0.leave.contains_key(k1));
        }
    }
}

/// The in-memory configuration store.
pub struct WelcomeQueries {
    modules: HashMap<u64, WelcomeModule>,
    join: HashMap<i64, WelcomeJoin>,
    join_dm: HashMap<i64, WelcomeJoinDm>,
    join_roles: HashMap<i64, WelcomeJoinRoles>,
    leave: HashMap<i64, WelcomeLeave>,
    next_id: i64,
}

impl View for WelcomeQueries {
    type V = StoreView;

    closed spec fn view(&self) -> StoreView {
        StoreView {
            modules: self.modules@.map_values(|m: WelcomeModule| m@),
            join: self.join@.map_values(|r: WelcomeJoin| r@),
            join_dm: self.join_dm@.map_values(|r: WelcomeJoinDm| r@),
            join_roles: self.join_roles@.map_values(|r: WelcomeJoinRoles| r@),
            leave: self.leave@.map_values(|r: WelcomeLeave| r@),
            next_id: self.next_id,
        }
    }
}

impl WelcomeQueries {
    /// Well-formedness of the store's model.
    pub open spec fn wf(&self) -> bool {
        self@.wf()
    }

    /// A store with no tenants.
    pub fn new() -> (s: Self)
        ensures
            s.wf(),
            s@.modules == Map::<u64, WelcomeModuleView>::empty(),
            s@.join == Map::<i64, WelcomeJoinView>::empty(),
            s@.join_dm == Map::<i64, WelcomeJoinDmView>::empty(),
            s@.join_roles == Map::<i64, WelcomeJoinRolesView>::empty(),
            s@.leave == Map::<i64, WelcomeLeaveView>::empty(),
            s@.next_id == 1,
    {
        let s = WelcomeQueries {
            modules: HashMap::new(),
            join: HashMap::new(),
            join_dm: HashMap::new(),
            join_roles: HashMap::new(),
            leave: HashMap::new(),
            next_id: 1,
        };
        proof {
            assert(s@.modules =~= Map::<u64, WelcomeModuleView>::empty());
            assert(s@.join =~= Map::<i64, WelcomeJoinView>::empty());
            assert(s@.join_dm =~= Map::<i64, WelcomeJoinDmView>::empty());
            assert(s@.join_roles =~= Map::<i64, WelcomeJoinRolesView>::empty());
            assert(s@.leave =~= Map::<i64, WelcomeLeaveView>::empty());
        }
        s
    }

    /// Inserts the root row for a tenant. When the row already exists
    /// the existing row is returned unchanged: a concurrent first
    /// writer's insert is success-with-reread, not a fatal error. The
    /// one failure is exhaustion of the surrogate id space.
    pub fn module_insert(&mut self, data: WelcomeModuleInsert) -> (r: Result<
        WelcomeModule,
        StoreError,
    >)
        requires
            old(self).wf(),
        ensures
            final(self).wf(),
            final(self)@.join == old(self)@.join,
            final(self)@.join_dm == old(self)@.join_dm,
            final(self)@.join_roles == old(self)@.join_roles,
            final(self)@.leave == old(self)@.leave,
            r is Err <==> !old(self)@.modules.contains_key(data.guild_id) && old(self)@.next_id
                == i64::MAX,
            r is Err ==> r == Err::<WelcomeModule, StoreError>(
                StoreError::Persistence(StoreStage::ModuleInsert),
            ) && final(self)@ == old(self)@,
            r matches Ok(m) ==> {
                &&& final(self)@.modules.contains_key(data.guild_id)
                &&& m@ == final(self)@.modules[data.guild_id]
                &&& if old(self)@.modules.contains_key(data.guild_id) {
                    final(self)@ == old(self)@
                } else {
                    &&& m@ == (WelcomeModuleView {
                        id: old(self)@.next_id,
                        guild_id: spec_udigits(data.guild_id as nat),
                        enabled: data.enabled,
                    })
                    &&& final(self)@.modules == old(self)@.modules.insert(data.guild_id, m@)
                    &&& final(self)@.next_id == old(self)@.next_id + 1
                }
            },
    {
        let existing = self.modules.get(&data.guild_id);
        match existing {
            Some(m) => {
                let m = m.clone();
                proof {
                    assert(m@ == self@.modules[data.guild_id]);
                }
                Ok(m)
            },
            None => {
                if self.next_id == i64::MAX {
                    return Err(StoreError::Persistence(StoreStage::ModuleInsert));
                }
                let id = self.next_id;
                let m = WelcomeModule {
                    id,
                    guild_id: u64_to_string(data.guild_id),
                    enabled: data.enabled,
                };
                let m2 = m.clone();
                self.modules.insert(data.guild_id, m);
                self.next_id = id + 1;
                proof {
                    assert(final(self)@.modules =~= old(self)@.modules.insert(
                        data.guild_id,
                        m2@,
                    ));
                    assert(final(self)@.join =~= old(self)@.join);
                    assert(final(self)@.join_dm =~= old(self)@.join_dm);
                    assert(final(self)@.join_roles =~= old(self)@.join_roles);
                    assert(final(self)@.leave =~= old(self)@.leave);
                    lemma_wf_insert_fresh(old(self)@, data.guild_id, data.enabled);
                    assert(final(self)@ =~= (StoreView {
                        modules: old(self)@.modules.insert(data.guild_id, m2@),
                        next_id: (old(self)@.next_id + 1) as i64,
                        ..old(self)@
                    }));
                }
                Ok(m2)
            },
        }
    }

    /// Fetches the root row, creating the default-disabled one if the
    /// tenant has none; `fail_insert` injects a creation failure.
    fn fetch_or_create(&mut self, guild_id: u64, fail_insert: bool) -> (r: Result<
        WelcomeModule,
        StoreError,
    >)
        requires
            old(self).wf(),
        ensures
            final(self).wf(),
            final(self)@.join == old(self)@.join,
            final(self)@.join_dm == old(self)@.join_dm,
            final(self)@.join_roles == old(self)@.join_roles,
            final(self)@.leave == old(self)@.leave,
            r is Err <==> spec_create_fails(
                old(self)@,
                guild_id,
                FaultPlan { fail_insert, fail_at: None },
            ),
            r is Err ==> r == Err::<WelcomeModule, StoreError>(StoreError::NotFound)
                && final(self)@ == old(self)@,
            r matches Ok(m) ==> {
                &&& final(self)@ == spec_after_create(old(self)@, guild_id)
                &&& final(self)@.modules.contains_key(guild_id)
                &&& m@ == final(self)@.modules[guild_id]
            },
    {
        if self.modules.contains_key(&guild_id) {
            let m = match self.modules.get(&guild_id) {
                Some(m) => m.clone(),
                None => vstd::pervasive::unreached(),
            };
            proof {
                assert(spec_after_create(old(self)@, guild_id) == old(self)@);
            }
            Ok(m)
        } else {
            if fail_insert {
                return Err(StoreError::NotFound);
            }
            match self.module_insert(WelcomeModuleInsert { guild_id, enabled: false }) {
                Ok(m) => {
                    proof {
                        assert(final(self)@ =~= spec_after_create(old(self)@, guild_id));
                    }
                    Ok(m)
                },
                Err(_) => Err(StoreError::NotFound),
            }
        }
    }

    /// The flat joined row of a tenant's record, given its root row.
    fn expanded_row_of(&self, m: &WelcomeModule) -> (row: WelcomeExpandedRow)
        requires
            self.wf(),
        ensures
            row.id == m.id,
            row.guild_id@ == m.guild_id@,
            row.enabled == m.enabled,
            row.join_enabled is Some <==> self@.join.contains_key(m.id),
            self@.join.contains_key(m.id) ==> (WelcomeJoinContentView {
                enabled: row.join_enabled,
                message_type: crate::text::opt_str_view(row.join_message_type),
                channel_id: crate::text::opt_str_view(row.join_channel_id),
                content: crate::text::opt_str_view(row.join_content),
                embed: crate::embed::opt_embed_view(row.join_embed),
            }) == spec_join_content_of(self@.join[m.id as i64]),
            row.join_dm_enabled is Some <==> self@.join_dm.contains_key(m.id),
            self@.join_dm.contains_key(m.id) ==> (WelcomeJoinDmContentView {
                enabled: row.join_dm_enabled,
                message_type: crate::text::opt_str_view(row.join_dm_message_type),
                content: crate::text::opt_str_view(row.join_dm_content),
                embed: crate::embed::opt_embed_view(row.join_dm_embed),
            }) == spec_join_dm_content_of(self@.join_dm[m.id as i64]),
            row.join_roles_enabled is Some <==> self@.join_roles.contains_key(m.id),
            self@.join_roles.contains_key(m.id) ==> row.join_roles_enabled == Some(
                self@.join_roles[m.id as i64].enabled,
            ),
            row.leave_enabled is Some <==> self@.leave.contains_key(m.id),
            self@.leave.contains_key(m.id) ==> row.leave_enabled == Some(
                self@.leave[m.id as i64].enabled,
            ),
    {
        let join = self.join.get(&m.id);
        let join_dm = self.join_dm.get(&m.id);
        let join_roles = self.join_roles.get(&m.id);
        let leave = self.leave.get(&m.id);
        WelcomeExpandedRow {
            id: m.id,
            guild_id: m.guild_id.clone(),
            enabled: m.enabled,
            join_enabled: match join {
                Some(r) => Some(r.enabled),
                None => None,
            },
            join_message_type: match join {
                Some(r) => Some(r.message_type.clone()),
                None => None,
            },
            join_channel_id: match join {
                Some(r) => crate::text::clone_opt_string(&r.channel_id),
                None => None,
            },
            join_content: match join {
                Some(r) => crate::text::clone_opt_string(&r.content),
                None => None,
            },
            join_embed: match join {
                Some(r) => crate::embed::clone_opt_embed(&r.embed),
                None => None,
            },
            join_dm_enabled: match join_dm {
                Some(r) => Some(r.enabled),
                None => None,
            },
            join_dm_message_type: match join_dm {
                Some(r) => Some(r.message_type.clone()),
                None => None,
            },
            join_dm_content: match join_dm {
                Some(r) => crate::text::clone_opt_string(&r.content),
                None => None,
            },
            join_dm_embed: match join_dm {
                Some(r) => crate::embed::clone_opt_embed(&r.embed),
                None => None,
            },
            join_roles_enabled: match join_roles {
                Some(r) => Some(r.enabled),
                None => None,
            },
            leave_enabled: match leave {
                Some(r) => Some(r.enabled),
                None => None,
            },
        }
    }

    /// The expanded record of a tenant whose root row is known.
    fn read_expanded(&self, guild_id: u64) -> (e: WelcomeExpanded)
        requires
            self.wf(),
            self@.modules.contains_key(guild_id),
        ensures
            e@ == spec_expanded(self@, guild_id),
    {
        let m = match self.modules.get(&guild_id) {
            Some(m) => m,
            None => vstd::pervasive::unreached(),
        };
        let row = self.expanded_row_of(m);
        let e = WelcomeExpanded::from(row);
        proof {
            assert(e@ =~= spec_expanded(self@, guild_id));
        }
        e
    }

    /// The expanded record of a tenant, or nothing when the tenant has
    /// never been seen. Read-only: no lazy creation.
    pub fn module_expanded_fetch_by_guild_id(&self, guild_id: u64) -> (r: Option<WelcomeExpanded>)
        requires
            self.wf(),
        ensures
            r is Some <==> self@.modules.contains_key(guild_id),
            r matches Some(e) ==> e@ == spec_expanded(self@, guild_id),
    {
        if self.modules.contains_key(&guild_id) {
            Some(self.read_expanded(guild_id))
        } else {
            None
        }
    }

    /// The stored join row of a tenant, when the tenant and the row
    /// both exist.
    pub fn module_join_fetch_by_guild_id(&self, guild_id: u64) -> (r: Option<WelcomeJoin>)
        requires
            self.wf(),
        ensures
            r is Some <==> self@.modules.contains_key(guild_id) && self@.join.contains_key(
                self@.modules[guild_id].id,
            ),
            r matches Some(j) ==> j@ == self@.join[self@.modules[guild_id].id],
    {
        match self.modules.get(&guild_id) {
            Some(m) => match self.join.get(&m.id) {
                Some(j) => Some(j.clone()),
                None => None,
            },
            None => None,
        }
    }

    /// The stored direct-message join row of a tenant, when present.
    pub fn module_join_dm_fetch_by_guild_id(&self, guild_id: u64) -> (r: Option<WelcomeJoinDm>)
        requires
            self.wf(),
        ensures
            r is Some <==> self@.modules.contains_key(guild_id) && self@.join_dm.contains_key(
                self@.modules[guild_id].id,
            ),
            r matches Some(j) ==> j@ == self@.join_dm[self@.modules[guild_id].id],
    {
        match self.modules.get(&guild_id) {
            Some(m) => match self.join_dm.get(&m.id) {
                Some(j) => Some(j.clone()),
                None => None,
            },
            None => None,
        }
    }

    /// The stored role-assignment row of a tenant, when present.
    pub fn module_join_roles_fetch_by_guild_id(&self, guild_id: u64) -> (r: Option<
        WelcomeJoinRoles,
    >)
        requires
            self.wf(),
        ensures
            r is Some <==> self@.modules.contains_key(guild_id) && self@.join_roles.contains_key(
                self@.modules[guild_id].id,
            ),
            r matches Some(j) ==> j@ == self@.join_roles[self@.modules[guild_id].id],
    {
        match self.modules.get(&guild_id) {
            Some(m) => match self.join_roles.get(&m.id) {
                Some(j) => Some(j.clone()),
                None => None,
            },
            None => None,
        }
    }

    /// The stored farewell row of a tenant, when present.
    pub fn module_leave_fetch_by_guild_id(&self, guild_id: u64) -> (r: Option<WelcomeLeave>)
        requires
            self.wf(),
        ensures
            r is Some <==> self@.modules.contains_key(guild_id) && self@.leave.contains_key(
                self@.modules[guild_id].id,
            ),
            r matches Some(j) ==> j@ == self@.leave[self@.modules[guild_id].id],
    {
        match self.modules.get(&guild_id) {
            Some(m) => match self.leave.get(&m.id) {
                Some(j) => Some(j.clone()),
                None => None,
            },
            None => None,
        }
    }

    /// Fetch-or-create: returns the expanded record, creating the
    /// default-disabled root row as a side effect when the tenant has
    /// never been seen. Idempotent: a second call returns the same
    /// record, with the same root id, and changes nothing.
    pub fn fetch_expanded(&mut self, guild_id: u64) -> (r: Result<WelcomeExpanded, StoreError>)
        requires
            old(self).wf(),
        ensures
            final(self).wf(),
            final(self)@.join == old(self)@.join,
            final(self)@.join_dm == old(self)@.join_dm,
            final(self)@.join_roles == old(self)@.join_roles,
            final(self)@.leave == old(self)@.leave,
            old(self)@.modules.contains_key(guild_id) ==> final(self)@ == old(self)@,
            r is Err <==> !old(self)@.modules.contains_key(guild_id) && old(self)@.next_id
                == i64::MAX,
            r is Err ==> r == Err::<WelcomeExpanded, StoreError>(StoreError::NotFound)
                && final(self)@ == old(self)@,
            r matches Ok(e) ==> {
                &&& final(self)@ == spec_after_create(old(self)@, guild_id)
                &&& final(self)@.modules.contains_key(guild_id)
                &&& e@ == spec_expanded(final(self)@, guild_id)
                &&& !old(self)@.modules.contains_key(guild_id) ==> e@.enabled == false
                    && e@.join is None && e@.join_dm is None && e@.join_roles is None
                    && e@.leave is None
            },
    {
        match self.fetch_or_create(guild_id, false) {
            Ok(_) => {
                let e = self.read_expanded(guild_id);
                Ok(e)
            },
            Err(e) => Err(e),
        }
    }

    /// Applies one partial update atomically: fetch-or-create the root
    /// row, then stage the merged row of every present section and
    /// commit them together. On any failure the transaction leaves no
    /// partial mutation behind: at most the fresh default root row
    /// that creation added before the transaction opened.
    #[verifier::rlimit(100)]
    #[verifier::spinoff_prover]
    pub fn apply_partial_update(
        &mut self,
        guild_id: u64,
        data: &WelcomeRequestData,
        faults: &FaultPlan,
    ) -> (r: Result<WelcomeExpanded, StoreError>)
        requires
            old(self).wf(),
        ensures
            final(self).wf(),
            // partial-update isolation: an absent section's table is
            // untouched, whether the update succeeds or fails
            data.join is None ==> final(self)@.join == old(self)@.join,
            data.join_dm is None ==> final(self)@.join_dm == old(self)@.join_dm,
            data.join_roles is None ==> final(self)@.join_roles == old(self)@.join_roles,
            data.leave is None ==> final(self)@.leave == old(self)@.leave,
            // exactly when the update fails, and with which error
            r is Err <==> spec_create_fails(old(self)@, guild_id, *faults) || spec_tx_fault(
                data@,
                *faults,
            ) is Some,
            spec_create_fails(old(self)@, guild_id, *faults) ==> r == Err::<
                WelcomeExpanded,
                StoreError,
            >(StoreError::NotFound),
            !spec_create_fails(old(self)@, guild_id, *faults) ==> (spec_tx_fault(
                data@,
                *faults,
            ) matches Some(st) ==> r == Err::<WelcomeExpanded, StoreError>(
                StoreError::Persistence(st),
            )),
            // all-or-nothing: a failed update changes no sub-table and
            // at most creates the default-disabled root row
            r is Err ==> final(self)@.join == old(self)@.join && final(self)@.join_dm == old(
                self,
            )@.join_dm && final(self)@.join_roles == old(self)@.join_roles && final(self)@.leave
                == old(self)@.leave,
            r is Err ==> final(self)@ == (if spec_create_fails(old(self)@, guild_id, *faults) {
                old(self)@
            } else {
                spec_after_create(old(self)@, guild_id)
            }),
            // success: the new state is exactly the staged merge of
            // every present section, and the returned record is the
            // expanded view of that state
            r matches Ok(e) ==> {
                &&& final(self)@ == spec_apply(
                    spec_after_create(old(self)@, guild_id),
                    guild_id,
                    data@,
                )
                &&& final(self)@.modules.contains_key(guild_id)
                &&& e@ == spec_expanded(final(self)@, guild_id)
            },
    {
        let module = match self.fetch_or_create(guild_id, faults.fail_insert) {
            Ok(m) => m,
            Err(e) => {
                return Err(e);
            },
        };
        let ghost s1 = self@;
        let id = module.id;
        proof {
            assert(s1.modules.contains_key(guild_id));
            assert(module@ == s1.modules[guild_id]);
            assert(0 < id < s1.next_id);
        }
        let mut op: u64 = 0;
        let staged_root: Option<bool> = match data.enabled {
            Some(b) => {
                if faults.hits(op) {
                    return Err(StoreError::Persistence(StoreStage::ModuleUpsert));
                }
                op = op + 1;
                Some(b)
            },
            None => None,
        };
        let staged_join: Option<WelcomeJoin> = match &data.join {
            Some(p) => {
                if faults.hits(op) {
                    return Err(StoreError::Persistence(StoreStage::JoinUpsert));
                }
                op = op + 1;
                let existing: Option<WelcomeJoinContent> = match self.join.get(&id) {
                    Some(row) => Some(join_content_of(row)),
                    None => None,
                };
                proof {
                    assert(view_opt_join_content(
                        match existing {
                            Some(ref c) => Some(c),
                            None => None,
                        },
                    ) == spec_existing_join(s1, id));
                }
                let merged = merge_join(existing.as_ref(), p);
                Some(fill_join(id, &merged))
            },
            None => None,
        };
        let staged_join_dm: Option<WelcomeJoinDm> = match &data.join_dm {
            Some(p) => {
                if faults.hits(op) {
                    return Err(StoreError::Persistence(StoreStage::JoinDmUpsert));
                }
                op = op + 1;
                let existing: Option<WelcomeJoinDmContent> = match self.join_dm.get(&id) {
                    Some(row) => Some(join_dm_content_of(row)),
                    None => None,
                };
                let merged = merge_join_dm(existing.as_ref(), p);
                Some(fill_join_dm(id, &merged))
            },
            None => None,
        };
        let staged_roles: Option<WelcomeJoinRoles> = match &data.join_roles {
            Some(p) => {
                if faults.hits(op) {
                    return Err(StoreError::Persistence(StoreStage::JoinRolesUpsert));
                }
                op = op + 1;
                match self.join_roles.get(&id) {
                    Some(row) => {
                        let kept = row.clone();
                        let existing = WelcomeJoinRolesContent { enabled: Some(kept.enabled) };
                        let merged = merge_join_roles(Some(&existing), p);
                        Some(
                            WelcomeJoinRoles {
                                id,
                                enabled: merged.enabled.unwrap_or(false),
                                roles: kept.roles,
                                delay: kept.delay,
                            },
                        )
                    },
                    None => {
                        let merged = merge_join_roles(None, p);
                        Some(
                            WelcomeJoinRoles {
                                id,
                                enabled: merged.enabled.unwrap_or(false),
                                roles: Vec::new(),
                                delay: false,
                            },
                        )
                    },
                }
            },
            None => None,
        };
        let staged_leave: Option<WelcomeLeave> = match &data.leave {
            Some(p) => {
                if faults.hits(op) {
                    return Err(StoreError::Persistence(StoreStage::LeaveUpsert));
                }
                op = op + 1;
                match self.leave.get(&id) {
                    Some(row) => {
                        let kept = row.clone();
                        let existing = WelcomeLeaveContent { enabled: Some(kept.enabled) };
                        let merged = merge_leave(Some(&existing), p);
                        Some(
                            WelcomeLeave {
                                id,
                                enabled: merged.enabled.unwrap_or(false),
                                channel_id: kept.channel_id,
                                content: kept.content,
                            },
                        )
                    },
                    None => {
                        let merged = merge_leave(None, p);
                        Some(
                            WelcomeLeave {
                                id,
                                enabled: merged.enabled.unwrap_or(false),
                                channel_id: None,
                                content: None,
                            },
                        )
                    },
                }
            },
            None => None,
        };
        if faults.hits(op) {
            return Err(StoreError::Persistence(StoreStage::Commit));
        }
        let ghost target = spec_apply(s1, guild_id, data@);
        match staged_root {
            Some(b) => {
                let m2 = WelcomeModule { id, guild_id: module.guild_id.clone(), enabled: b };
                self.modules.insert(guild_id, m2);
                proof {
                    assert(self@.modules =~= target.modules);
                    lemma_wf_set_enabled(s1, guild_id, b);
                    assert(self@ =~= (StoreView { modules: target.modules, ..s1 }));
                }
            },
            None => {
                proof {
                    assert(self@.modules =~= target.modules);
                }
            },
        }
        let ghost s2 = self@;
        match staged_join {
            Some(rw) => {
                let ghost rv = rw@;
                self.join.insert(id, rw);
                proof {
                    assert(self@.join =~= target.join);
                    lemma_wf_upsert_join(s2, id, rv);
                    assert(self@ =~= (StoreView { join: target.join, ..s2 }));
                }
            },
            None => {
                proof {
                    assert(self@.join =~= target.join);
                }
            },
        }
        let ghost s3 = self@;
        match staged_join_dm {
            Some(rw) => {
                let ghost rv = rw@;
                self.join_dm.insert(id, rw);
                proof {
                    assert(self@.join_dm =~= target.join_dm);
                    lemma_wf_upsert_join_dm(s3, id, rv);
                    assert(self@ =~= (StoreView { join_dm: target.join_dm, ..s3 }));
                }
            },
            None => {
                proof {
                    assert(self@.join_dm =~= target.join_dm);
                }
            },
        }
        let ghost s4 = self@;
        match staged_roles {
            Some(rw) => {
                let ghost rv = rw@;
                self.join_roles.insert(id, rw);
                proof {
                    assert(self@.join_roles =~= target.join_roles);
                    lemma_wf_upsert_join_roles(s4, id, rv);
                    assert(self@ =~= (StoreView { join_roles: target.join_roles, ..s4 }));
                }
            },
            None => {
                proof {
                    assert(self@.join_roles =~= target.join_roles);
                }
            },
        }
        let ghost s5 = self@;
        match staged_leave {
            Some(rw) => {
                let ghost rv = rw@;
                self.leave.insert(id, rw);
                proof {
                    assert(self@.leave =~= target.leave);
                    lemma_wf_upsert_leave(s5, id, rv);
                    assert(self@ =~= (StoreView { leave: target.leave, ..s5 }));
                }
            },
            None => {
                proof {
                    assert(self@.leave =~= target.leave);
                }
            },
        }
        proof {
            assert(self@ =~= target);
        }
        let e = self.read_expanded(guild_id);
        Ok(e)
    }
}

/// Fetch-or-create idempotence: the root row of a tenant is created at
/// most once; a second fetch finds the row, changes nothing, and reads
/// the identical root id.
pub proof fn lemma_fetch_expanded_idempotent(s: StoreView, g: u64)
    ensures
        ({
            let s1 = spec_after_create(s, g);
            &&& spec_after_create(s1, g) == s1
            &&& spec_expanded(spec_after_create(s1, g), g) == spec_expanded(s1, g)
        }),
{
}

/// Upsert idempotence: applying the same partial update twice, each
/// time through fetch-or-create and the staged transaction, yields the
/// same store state, and so the same expanded record, as applying it
/// once.
pub proof fn lemma_apply_partial_update_idempotent(
    s: StoreView,
    g: u64,
    u: WelcomeRequestDataView,
)
    ensures
        ({
            let s1 = spec_apply(spec_after_create(s, g), g, u);
            let s2 = spec_apply(spec_after_create(s1, g), g, u);
            &&& s2 == s1
            &&& spec_expanded(s2, g) == spec_expanded(s1, g)
        }),
{
    let t = spec_after_create(s, g);
    let s1 = spec_apply(t, g, u);
    assert(s1.modules.contains_key(g));
    assert(spec_after_create(s1, g) == s1);
    let s2 = spec_apply(s1, g, u);
    let id = t.modules[g].id;
    assert(s1.modules[g].id == id);
    match u.enabled {
        Some(b) => {
            assert(s1.modules[g] == (WelcomeModuleView { enabled: b, ..s1.modules[g] }));
            assert(s2.modules =~= s1.modules);
        },
        None => {
            assert(s2.modules == s1.modules);
        },
    }
    match u.join {
        Some(p) => {
            let e0 = spec_existing_join(t, id);
            crate::welcome::lemma_merge_fill_join_idempotent(e0, p, id);
            assert(s1.join[id] == spec_fill_join(id, spec_merge_join(e0, p)));
            assert(s2.join =~= s1.join);
        },
        None => {
            assert(s2.join == s1.join);
        },
    }
    match u.join_dm {
        Some(p) => {
            let e0 = spec_existing_join_dm(t, id);
            crate::welcome::lemma_merge_fill_join_dm_idempotent(e0, p, id);
            assert(s1.join_dm[id] == spec_fill_join_dm(id, spec_merge_join_dm(e0, p)));
            assert(s2.join_dm =~= s1.join_dm);
        },
        None => {
            assert(s2.join_dm == s1.join_dm);
        },
    }
    match u.join_roles {
        Some(pe) => {
            let e0 = spec_existing_roles_enabled(t, id);
            let b1 = spec_enabled_fill(spec_merge_join_roles(e0, pe));
            assert(s1.join_roles[id] == spec_roles_row(t, id, b1));
            let e1 = spec_existing_roles_enabled(s1, id);
            assert(e1 == Some(Some(b1)));
            assert(spec_enabled_fill(spec_merge_join_roles(e1, pe)) == b1);
            assert(spec_roles_row(s1, id, b1) == s1.join_roles[id]);
            assert(s2.join_roles =~= s1.join_roles);
        },
        None => {
            assert(s2.join_roles == s1.join_roles);
        },
    }
    match u.leave {
        Some(pe) => {
            let e0 = spec_existing_leave_enabled(t, id);
            let b1 = spec_enabled_fill(spec_merge_leave(e0, pe));
            assert(s1.leave[id] == spec_leave_row(t, id, b1));
            let e1 = spec_existing_leave_enabled(s1, id);
            assert(e1 == Some(Some(b1)));
            assert(spec_enabled_fill(spec_merge_leave(e1, pe)) == b1);
            assert(spec_leave_row(s1, id, b1) == s1.leave[id]);
            assert(s2.leave =~= s1.leave);
        },
        None => {
            assert(s2.leave == s1.leave);
        },
    }
    assert(s2 =~= s1);
}

/// Lazy creation of a root row touches no sub-configuration table.
/// With the update's own failure clauses this is the all-or-nothing
/// law in full: a failed update leaves the store at the old state or
/// at this one, so every stored sub-configuration row is exactly as
/// it was before the transaction.
pub proof fn lemma_create_preserves_sections(s: StoreView, g: u64)
    ensures
        spec_after_create(s, g).join == s.join,
        spec_after_create(s, g).join_dm == s.join_dm,
        spec_after_create(s, g).join_roles == s.join_roles,
        spec_after_create(s, g).leave == s.leave,
{
}

/// Fetch-or-create on a never-seen tenant: the record read back is
/// the default-disabled one with every sub-section absent, and a
/// second fetch finds the same root row, with the same id, changing
/// nothing.
pub proof fn lemma_fetch_expanded_fresh(s: StoreView, g: u64)
    requires
        s.wf(),
        !s.modules.contains_key(g),
    ensures
        ({
            let s1 = spec_after_create(s, g);
            &&& spec_expanded(s1, g).enabled == false
            &&& spec_expanded(s1, g).guild_id == spec_udigits(g as nat)
            &&& spec_expanded(s1, g).join is None
            &&& spec_expanded(s1, g).join_dm is None
            &&& spec_expanded(s1, g).join_roles is None
            &&& spec_expanded(s1, g).leave is None
            &&& spec_after_create(s1, g) == s1
            &&& spec_expanded(spec_after_create(s1, g), g) == spec_expanded(s1, g)
        }),
{
    let s1 = spec_after_create(s, g);
    assert(s1.modules[g].id == s.next_id);
    // well-formedness bounds every stored sub-row key below the fresh id
    assert(!s.join.contains_key(s.next_id));
    assert(!s.join_dm.contains_key(s.next_id));
    assert(!s.join_roles.contains_key(s.next_id));
    assert(!s.leave.contains_key(s.next_id));
}

} // verus!
