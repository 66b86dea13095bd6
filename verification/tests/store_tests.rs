use guild_welcome::store::{FaultPlan, StoreError, StoreStage, WelcomeQueries};
use guild_welcome::welcome::{
    WelcomeJoinDmRequestData, WelcomeJoinRequestData, WelcomeJoinRoleRequestData,
    WelcomeLeaveRequestData, WelcomeModuleInsert, WelcomeRequestData,
};

fn empty_update() -> WelcomeRequestData {
    WelcomeRequestData { enabled: None, join: None, join_dm: None, join_roles: None, leave: None }
}

fn full_update() -> WelcomeRequestData {
    WelcomeRequestData {
        enabled: None,
        join: Some(WelcomeJoinRequestData {
            enabled: Some(true),
            message_type: Some("text".to_string()),
            channel_id: Some("100".to_string()),
            content: Some("hello {user.name}".to_string()),
            embed: None,
        }),
        join_dm: Some(WelcomeJoinDmRequestData {
            enabled: Some(true),
            message_type: Some("text".to_string()),
            content: Some("dm hello".to_string()),
            embed: None,
        }),
        join_roles: Some(WelcomeJoinRoleRequestData { enabled: Some(true) }),
        leave: Some(WelcomeLeaveRequestData { enabled: Some(true) }),
    }
}

#[test]
fn fetch_or_create_defaults_and_is_idempotent() {
    let mut store = WelcomeQueries::new();
    let first = store.fetch_expanded(42).expect("fetch-or-create succeeds");
    assert!(!first.enabled);
    assert_eq!(first.guild_id, "42");
    assert!(first.join.is_none());
    assert!(first.join_dm.is_none());
    assert!(first.join_roles.is_none());
    assert!(first.leave.is_none());
    let second = store.fetch_expanded(42).expect("second fetch succeeds");
    assert_eq!(second.id, first.id);
    assert_eq!(second, first);
}

#[test]
fn partial_update_isolation() {
    let mut store = WelcomeQueries::new();
    store.apply_partial_update(1, &full_update(), &FaultPlan::none()).expect("seed");
    let dm_before = store.module_join_dm_fetch_by_guild_id(1).expect("dm row");
    let roles_before = store.module_join_roles_fetch_by_guild_id(1).expect("roles row");
    let leave_before = store.module_leave_fetch_by_guild_id(1).expect("leave row");

    let mut join_only = empty_update();
    join_only.join = Some(WelcomeJoinRequestData {
        enabled: Some(false),
        message_type: Some("embed".to_string()),
        channel_id: Some("200".to_string()),
        content: None,
        embed: None,
    });
    store.apply_partial_update(1, &join_only, &FaultPlan::none()).expect("join-only update");

    assert_eq!(store.module_join_dm_fetch_by_guild_id(1).expect("dm row"), dm_before);
    assert_eq!(store.module_join_roles_fetch_by_guild_id(1).expect("roles row"), roles_before);
    assert_eq!(store.module_leave_fetch_by_guild_id(1).expect("leave row"), leave_before);
}

#[test]
fn upsert_idempotence() {
    let mut store = WelcomeQueries::new();
    let update = full_update();
    let once = store.apply_partial_update(5, &update, &FaultPlan::none()).expect("first");
    let twice = store.apply_partial_update(5, &update, &FaultPlan::none()).expect("second");
    assert_eq!(twice, once);
}

#[test]
fn all_or_nothing_on_midway_failure() {
    let mut store = WelcomeQueries::new();
    store.fetch_expanded(9).expect("seed tenant");
    let before = store.fetch_expanded(9).expect("snapshot");

    // four sub-configuration upserts; the third (join_roles) fails
    let plan = FaultPlan { fail_insert: false, fail_at: Some(2) };
    let r = store.apply_partial_update(9, &full_update(), &plan);
    assert_eq!(r, Err(StoreError::Persistence(StoreStage::JoinRolesUpsert)));

    let after = store.fetch_expanded(9).expect("re-read");
    assert_eq!(after, before);
    assert!(after.join.is_none());
    assert!(after.join_dm.is_none());
    assert!(after.join_roles.is_none());
    assert!(after.leave.is_none());
}

#[test]
fn commit_failure_rolls_back() {
    let mut store = WelcomeQueries::new();
    store.fetch_expanded(9).expect("seed tenant");
    let before = store.fetch_expanded(9).expect("snapshot");
    // ops 0..3 are the four sub-config upserts; op 4 is the commit
    let plan = FaultPlan { fail_insert: false, fail_at: Some(4) };
    let r = store.apply_partial_update(9, &full_update(), &plan);
    assert_eq!(r, Err(StoreError::Persistence(StoreStage::Commit)));
    assert_eq!(store.fetch_expanded(9).expect("re-read"), before);
}

#[test]
fn root_upsert_failure_names_its_stage() {
    let mut store = WelcomeQueries::new();
    let mut update = empty_update();
    update.enabled = Some(true);
    let plan = FaultPlan { fail_insert: false, fail_at: Some(0) };
    let r = store.apply_partial_update(3, &update, &plan);
    assert_eq!(r, Err(StoreError::Persistence(StoreStage::ModuleUpsert)));
    // the transaction wrote nothing, but the lazy creation stands
    let read = store.fetch_expanded(3).expect("re-read");
    assert!(!read.enabled);
}

#[test]
fn creation_failure_surfaces_not_found() {
    let mut store = WelcomeQueries::new();
    let plan = FaultPlan { fail_insert: true, fail_at: None };
    let r = store.apply_partial_update(77, &full_update(), &plan);
    assert_eq!(r, Err(StoreError::NotFound));
    assert!(store.module_expanded_fetch_by_guild_id(77).is_none());
}

#[test]
fn partial_update_keeps_unmentioned_fields() {
    let mut store = WelcomeQueries::new();
    store.apply_partial_update(4, &full_update(), &FaultPlan::none()).expect("seed");

    // patch only the content: the channel id must not be reset
    let mut patch = empty_update();
    patch.join = Some(WelcomeJoinRequestData {
        enabled: None,
        message_type: None,
        channel_id: None,
        content: Some("new text".to_string()),
        embed: None,
    });
    let after = store.apply_partial_update(4, &patch, &FaultPlan::none()).expect("patch");
    let join = after.join.expect("join section");
    assert_eq!(join.content, Some("new text".to_string()));
    assert_eq!(join.channel_id, Some("100".to_string()));
    assert_eq!(join.enabled, Some(true));
    assert_eq!(join.message_type, Some("text".to_string()));
}

#[test]
fn upsert_defaults_fill_unset_fields() {
    let mut store = WelcomeQueries::new();
    let mut update = empty_update();
    // a join section written with nothing but a channel id
    update.join = Some(WelcomeJoinRequestData {
        enabled: None,
        message_type: None,
        channel_id: Some("55".to_string()),
        content: None,
        embed: None,
    });
    let read = store.apply_partial_update(6, &update, &FaultPlan::none()).expect("apply");
    let join = read.join.expect("join section");
    assert_eq!(join.enabled, Some(false));
    assert_eq!(join.message_type, Some("text".to_string()));
    assert_eq!(join.channel_id, Some("55".to_string()));
    assert_eq!(join.content, None);
}

#[test]
fn disabling_retains_stored_content() {
    let mut store = WelcomeQueries::new();
    store.apply_partial_update(8, &full_update(), &FaultPlan::none()).expect("seed");
    let mut disable = empty_update();
    disable.join = Some(WelcomeJoinRequestData {
        enabled: Some(false),
        message_type: None,
        channel_id: None,
        content: None,
        embed: None,
    });
    let read = store.apply_partial_update(8, &disable, &FaultPlan::none()).expect("disable");
    let join = read.join.expect("join section");
    assert_eq!(join.enabled, Some(false));
    assert_eq!(join.content, Some("hello {user.name}".to_string()));
    assert_eq!(join.channel_id, Some("100".to_string()));
}

#[test]
fn module_insert_is_success_with_reread() {
    let mut store = WelcomeQueries::new();
    let first = store
        .module_insert(WelcomeModuleInsert { guild_id: 11, enabled: false })
        .expect("insert");
    let second = store
        .module_insert(WelcomeModuleInsert { guild_id: 11, enabled: true })
        .expect("reread");
    assert_eq!(second.id, first.id);
    assert_eq!(second.enabled, first.enabled);
    assert_eq!(second.guild_id, "11");
}

#[test]
fn unknown_tenant_read_returns_nothing() {
    let store = WelcomeQueries::new();
    assert!(store.module_expanded_fetch_by_guild_id(123).is_none());
    assert!(store.module_join_fetch_by_guild_id(123).is_none());
}

#[test]
fn root_enabled_update_applies() {
    let mut store = WelcomeQueries::new();
    let mut update = empty_update();
    update.enabled = Some(true);
    let read = store.apply_partial_update(2, &update, &FaultPlan::none()).expect("apply");
    assert!(read.enabled);
    let again = store.fetch_expanded(2).expect("re-read");
    assert!(again.enabled);
}

#[test]
fn each_transaction_stage_can_fail() {
    // one present section at a time: the first operation is that
    // section's upsert
    let mut store = WelcomeQueries::new();
    store.fetch_expanded(50).expect("seed");
    let plan = FaultPlan { fail_insert: false, fail_at: Some(0) };

    let mut join_only = empty_update();
    join_only.join = Some(WelcomeJoinRequestData {
        enabled: Some(true),
        message_type: None,
        channel_id: None,
        content: None,
        embed: None,
    });
    assert_eq!(
        store.apply_partial_update(50, &join_only, &plan),
        Err(StoreError::Persistence(StoreStage::JoinUpsert))
    );

    let mut dm_only = empty_update();
    dm_only.join_dm = Some(WelcomeJoinDmRequestData {
        enabled: Some(true),
        message_type: None,
        content: None,
        embed: None,
    });
    assert_eq!(
        store.apply_partial_update(50, &dm_only, &plan),
        Err(StoreError::Persistence(StoreStage::JoinDmUpsert))
    );

    let mut leave_only = empty_update();
    leave_only.leave = Some(WelcomeLeaveRequestData { enabled: Some(true) });
    assert_eq!(
        store.apply_partial_update(50, &leave_only, &plan),
        Err(StoreError::Persistence(StoreStage::LeaveUpsert))
    );

    // nothing stuck
    let read = store.fetch_expanded(50).expect("re-read");
    assert!(read.join.is_none());
    assert!(read.join_dm.is_none());
    assert!(read.leave.is_none());
}
