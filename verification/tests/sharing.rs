use bevy_hookup_core::client_id::ClientId;
use bevy_hookup_core::component_sharing::receive::{component_relay_targets, ComponentReceipt};
use bevy_hookup_core::component_sharing::share_component::ShareComponent;
use bevy_hookup_core::connection::connection_id::ConnectionId;
use bevy_hookup_core::connection::remote_action::EntityAction;
use bevy_hookup_core::entity_sharing::entity_sync::{entity_update, may_write, EntityUpdate};
use bevy_hookup_core::entity_sharing::sync_entity::SyncEntityOwner;
use bevy_hookup_core::filter::Filter;
use bevy_hookup_core::presence::{decide_presence, presence_pass, Presence};
use bevy_hookup_core::resharing::reshare_entity_plugin::reshare_filters;

struct Marker;

#[test]
fn presence_table() {
    assert_eq!(decide_presence(false, true, true), Presence::Add);
    assert_eq!(decide_presence(true, true, true), Presence::Update);
    assert_eq!(decide_presence(true, false, true), Presence::Remove);
    assert_eq!(decide_presence(true, true, false), Presence::Forget);
    assert_eq!(decide_presence(false, false, true), Presence::Skip);
    assert_eq!(decide_presence(false, true, false), Presence::Skip);
}

#[test]
fn shared_component_follows_its_filters() {
    let a = ConnectionId::default();
    let b = ConnectionId::default();
    let mut share = ShareComponent::<Marker>::default();
    let allow_all = Filter::allow_all();
    let step = share.plan(&a, &allow_all, None);
    assert_eq!(step, Presence::Add);
    share.record(a, step);
    assert_eq!(share.on_sessions, vec![a]);
    assert_eq!(share.plan(&a, &allow_all, None), Presence::Update);

    let block_a = Filter::Blacklist(vec![a]);
    let step = share.plan(&a, &block_a, None);
    assert_eq!(step, Presence::Remove);
    share.record(a, step);
    assert!(share.on_sessions.is_empty());

    let step = share.plan(&b, &allow_all, Some(&Filter::allow_none()));
    assert_eq!(step, Presence::Skip);
    share.record(b, step);
    assert!(share.on_sessions.is_empty());
}

#[test]
fn hidden_entity_forgets_component_without_message() {
    let a = ConnectionId::default();
    let mut share = ShareComponent::<Marker>::default();
    share.record(a, Presence::Add);
    let step = share.plan(&a, &Filter::allow_all(), Some(&Filter::Blacklist(vec![a])));
    assert_eq!(step, Presence::Forget);
    share.record(a, step);
    assert!(share.on_sessions.is_empty());
}

#[test]
fn owned_entity_announced_then_withdrawn() {
    let a = ConnectionId::default();
    let mut owner = SyncEntityOwner::new();
    let step = owner.plan(&a, &Filter::allow_all());
    assert_eq!(step, Presence::Add);
    owner.record(a, step);
    assert_eq!(owner.plan(&a, &Filter::allow_all()), Presence::Update);
    let step = owner.plan(&a, &Filter::allow_none());
    assert_eq!(step, Presence::Remove);
    owner.record(a, step);
    assert!(owner.on_connections.is_empty());
    assert_eq!(owner.plan_initial(&a, &Filter::allow_none()), Presence::Skip);
    assert_eq!(owner.plan_initial(&a, &Filter::allow_all()), Presence::Add);
}

#[test]
fn received_entity_messages() {
    let me = ClientId::default();
    let other = ClientId::default();
    let read = Filter::Whitelist(vec![me]);
    let write = Filter::allow_none();
    let add = EntityAction::AddOrUpdate { client_read_filter: read.clone(), client_write_filter: write.clone() };
    assert_eq!(entity_update(&add, None, &me), EntityUpdate::Spawn { visible: true });
    assert_eq!(entity_update(&add, None, &other), EntityUpdate::Spawn { visible: false });
    assert_eq!(entity_update(&add, Some((&read, &write)), &me), EntityUpdate::Unchanged);
    let old_read = Filter::allow_all();
    assert_eq!(entity_update(&add, Some((&old_read, &write)), &other), EntityUpdate::Refilter { visible: false });
    assert_eq!(entity_update(&EntityAction::Remove, Some((&read, &write)), &me), EntityUpdate::Despawn);
    assert_eq!(entity_update(&EntityAction::Remove, None, &me), EntityUpdate::Missing);
}

#[test]
fn write_permission() {
    let a = ConnectionId::default();
    let b = ConnectionId::default();
    assert!(may_write(None, &a));
    assert!(may_write(Some(&Filter::Whitelist(vec![a])), &a));
    assert!(!may_write(Some(&Filter::Whitelist(vec![a])), &b));
}

#[test]
fn reshared_entity_skips_and_trusts_its_source() {
    let source = ConnectionId::default();
    let other = ConnectionId::default();
    let (read, write) = reshare_filters(source);
    assert_eq!(read.0, Filter::Blacklist(vec![source]));
    assert_eq!(write.0, Filter::Whitelist(vec![source]));
    assert!(!read.0.is_allowed(&source) && read.0.is_allowed(&other));
    assert!(write.0.is_allowed(&source) && !write.0.is_allowed(&other));
}

#[test]
fn one_pass_leaves_component_on_exactly_the_allowed_connections() {
    let connections: Vec<ConnectionId> = (0..4).map(|_| ConnectionId::default()).collect();
    let mut share = ShareComponent::<Marker>::default();
    share.record(connections[0], Presence::Add);
    share.record(connections[1], Presence::Add);
    let component_filter = Filter::Blacklist(vec![connections[1], connections[2]]);
    let entity_filter = Filter::Blacklist(vec![connections[3]]);
    let mut steps = Vec::new();
    for id in &connections {
        let step = share.plan(id, &component_filter, Some(&entity_filter));
        share.record(*id, step);
        steps.push(step);
    }
    assert_eq!(steps, vec![Presence::Update, Presence::Remove, Presence::Skip, Presence::Skip]);
    assert_eq!(share.on_sessions, vec![connections[0]]);
}

#[test]
fn pass_puts_thing_on_exactly_the_allowed_connections() {
    let a = ConnectionId::default();
    let b = ConnectionId::default();
    let c = ConnectionId::default();
    let d = ConnectionId::default();
    let mut on = vec![b, c, d];
    let checks = vec![(a, true, true), (b, false, true), (c, true, true), (d, true, false)];
    let steps = presence_pass(&mut on, &checks);
    assert_eq!(steps, vec![Presence::Add, Presence::Remove, Presence::Update, Presence::Forget]);
    assert_eq!(on, vec![c, a]);
}

#[test]
fn only_stored_updates_of_shared_components_are_relayed() {
    let ids = vec![ConnectionId::default(), ConnectionId::default(), ConnectionId::default()];
    let from = ids[2];
    assert_eq!(component_relay_targets(ComponentReceipt::Store, true, &ids, &from), vec![true, true, false]);
    assert_eq!(component_relay_targets(ComponentReceipt::Store, false, &ids, &from), vec![false, false, false]);
    assert_eq!(component_relay_targets(ComponentReceipt::Remove, true, &ids, &from), vec![false, false, false]);
    assert_eq!(component_relay_targets(ComponentReceipt::Refused, true, &ids, &from), vec![false, false, false]);
    assert_eq!(component_relay_targets(ComponentReceipt::UnknownEntity, true, &ids, &from), vec![false, false, false]);
}
