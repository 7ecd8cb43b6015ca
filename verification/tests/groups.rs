use presage::model::access::Role;
use presage::model::groups::{
    Group, GroupMembersUpdate, GroupUpdate, PendingMember, ServerGroup, ServiceIdType,
};
use presage::service_id::{Aci, Pni, ServiceId, Uuid};

fn uuid(n: u128) -> Uuid {
    Uuid::from_bytes(n.to_be_bytes())
}

fn server_group(version: u32) -> ServerGroup {
    ServerGroup {
        title: "Renamed".into(),
        avatar: String::new(),
        disappearing_messages_timer: None,
        access_control: None,
        version,
        members: vec![],
        members_pending_profile_key: vec![],
        members_pending_admin_approval: vec![],
        invite_link_password: vec![],
        description_text: None,
        announcements_only: false,
    }
}

#[test]
fn from_server_keeps_the_flags_only_this_device_knows() {
    let mut local = Group::from_server_copy(server_group(3));
    local.needs_hydration = true;
    local.blocked = true;
    local.archived = true;
    local.muted_until_timestamp = 1_700_000_000_000;

    let merged = Group::from_server(server_group(4), Some(&local));

    assert_eq!(merged.revision, 4);
    assert_eq!(merged.title.as_deref(), Some("Renamed"));
    assert!(!merged.needs_hydration);
    assert!(merged.blocked);
    assert!(merged.archived);
    assert_eq!(merged.muted_until_timestamp, 1_700_000_000_000);
}

#[test]
fn from_server_without_a_local_copy_is_the_plain_conversion() {
    let merged = Group::from_server(server_group(1), None);
    assert!(!merged.blocked);
    assert_eq!(merged.muted_until_timestamp, 0);
}

#[test]
fn a_pending_member_addresses_by_its_identity_kind() {
    let uuid = uuid(7);
    let added_by_aci = Aci::from(Uuid::from_bytes(1u128.to_be_bytes()));
    let aci_pending = PendingMember {
        uuid,
        service_id_type: ServiceIdType::AccountIdentity,
        role: Role::Default,
        added_by_aci,
        timestamp: 0,
    };
    let pni_pending = PendingMember {
        service_id_type: ServiceIdType::PhoneNumberIdentity,
        ..PendingMember {
            uuid,
            service_id_type: ServiceIdType::AccountIdentity,
            role: Role::Default,
            added_by_aci,
            timestamp: 0,
        }
    };
    assert_eq!(aci_pending.service_id(), ServiceId::from(Aci::from(uuid)));
    assert_eq!(pni_pending.service_id(), ServiceId::from(Pni::from(uuid)));
}

#[test]
fn active_means_member_or_invitee() {
    let me = Aci::from(uuid(9));
    let mut group = Group::from_server_copy(server_group(1));
    assert!(!group.is_active(me));
    group.pending_members.push(PendingMember {
        uuid: me.uuid,
        service_id_type: ServiceIdType::AccountIdentity,
        role: Role::Default,
        added_by_aci: Aci::from(uuid(1)),
        timestamp: 0,
    });
    assert!(group.is_active(me));
    assert!(!group.is_member(me));
}

#[test]
fn a_members_update_with_nothing_set_is_empty() {
    assert!(GroupMembersUpdate::default().is_empty());
    assert!(!GroupMembersUpdate {
        remove: vec![Aci::from(uuid(2))],
        ..Default::default()
    }
    .is_empty());
}

#[test]
fn an_update_with_nothing_set_is_empty() {
    assert!(GroupUpdate::default().is_empty());
    assert!(!GroupUpdate {
        expire_timer_seconds: Some(0),
        ..Default::default()
    }
    .is_empty());
}
