use iota::decode::{decode_id_message, decode_status_message, locate, DecodeError, RunningOnPart};
use iota::model::{
    AppDesc, DeviceState, IdMessage, OtaState, Partition, PartitionAppSubtype,
    PartitionDataSubtype, PartitionType, Partitions, Software, StatusMessage,
};
use iota::render::{part_flag, part_symbol, state_shade, Shade};

fn part(address: usize, part_type: PartitionType, ota_state: OtaState) -> Partition {
    Partition {
        flash_chip_id: 0,
        part_type,
        address,
        size: 0x100000,
        label: format!("p{:x}", address),
        encrypted: false,
        ota_state,
    }
}

fn identity(running: Option<usize>, next_update: Option<usize>, list: Vec<Partition>) -> IdMessage {
    IdMessage {
        software: Software {
            app_desc: AppDesc {
                project_name: "sensor".to_string(),
                version: "1.0.0".to_string(),
                secure_version: 0,
                date: "Jan  1 2021".to_string(),
                time: "12:00:00".to_string(),
            },
            partitions: Partitions {
                boot: running,
                running,
                last_invalid: None,
                next_update,
                is_rollback_possible: true,
                list,
            },
        },
    }
}

fn standard_list(factory: OtaState, slot0: OtaState) -> Vec<Partition> {
    vec![
        part(0x9000, PartitionType::Data(PartitionDataSubtype::Nvs), OtaState::Undefined),
        part(0x10000, PartitionType::App(PartitionAppSubtype::Factory), factory),
        part(0x110000, PartitionType::App(PartitionAppSubtype::Ota { id: 0 }), slot0),
        part(0x210000, PartitionType::App(PartitionAppSubtype::Ota { id: 1 }), OtaState::Undefined),
    ]
}

#[test]
fn decode_copies_running_state() {
    let id = identity(Some(0x10000), Some(0x110000), standard_list(OtaState::NotPresent, OtaState::Undefined));
    let d = decode_id_message(id.clone()).unwrap();
    assert_eq!(d.ota_info.running_addr, 0x10000);
    assert_eq!(d.ota_info.running_on_part, RunningOnPart::Factory);
    assert_eq!(d.ota_info.running_ota_state, OtaState::NotPresent);
    assert_eq!(d.ota_info.next_update_addr, 0x110000);
    assert_eq!(d.msg, id);
}

#[test]
fn decode_ota_slot() {
    let id = identity(Some(0x110000), Some(0x210000), standard_list(OtaState::NotPresent, OtaState::PendingVerify));
    let d = decode_id_message(id).unwrap();
    assert_eq!(d.ota_info.running_on_part, RunningOnPart::Ota { id: 0 });
    assert_eq!(d.ota_info.running_ota_state, OtaState::PendingVerify);
}

#[test]
fn decode_ambiguous_running_partition() {
    let mut list = standard_list(OtaState::NotPresent, OtaState::Valid);
    list.push(part(0x110000, PartitionType::App(PartitionAppSubtype::Ota { id: 2 }), OtaState::Valid));
    let id = identity(Some(0x110000), Some(0x210000), list);
    assert_eq!(
        decode_id_message(id).unwrap_err(),
        DecodeError::AmbiguousRunningPartition { address: 0x110000 }
    );
}

#[test]
fn decode_no_free_update_slot() {
    let id = identity(Some(0x10000), None, standard_list(OtaState::NotPresent, OtaState::Undefined));
    assert_eq!(decode_id_message(id).unwrap_err(), DecodeError::NoFreeUpdateSlot);
}

#[test]
fn decode_no_running_reported() {
    let id = identity(None, Some(0x110000), standard_list(OtaState::NotPresent, OtaState::Undefined));
    assert_eq!(decode_id_message(id).unwrap_err(), DecodeError::NoRunningPartitionReported);
}

#[test]
fn decode_running_partition_missing() {
    let id = identity(Some(0x300000), Some(0x110000), standard_list(OtaState::NotPresent, OtaState::Undefined));
    assert_eq!(
        decode_id_message(id).unwrap_err(),
        DecodeError::RunningPartitionMissing { address: 0x300000 }
    );
}

#[test]
fn decode_unknown_running_kind() {
    let id = identity(Some(0x9000), Some(0x110000), standard_list(OtaState::NotPresent, OtaState::Undefined));
    assert_eq!(
        decode_id_message(id).unwrap_err(),
        DecodeError::UnknownRunningPartitionKind {
            address: 0x9000,
            part_type: PartitionType::Data(PartitionDataSubtype::Nvs),
        }
    );
    let mut list = standard_list(OtaState::NotPresent, OtaState::Undefined);
    list.push(part(0x310000, PartitionType::App(PartitionAppSubtype::Test), OtaState::Valid));
    let id = identity(Some(0x310000), Some(0x110000), list);
    assert_eq!(
        decode_id_message(id).unwrap_err(),
        DecodeError::UnknownRunningPartitionKind {
            address: 0x310000,
            part_type: PartitionType::App(PartitionAppSubtype::Test),
        }
    );
}

#[test]
fn decode_empty_table() {
    let id = identity(Some(0x10000), Some(0x110000), vec![]);
    assert_eq!(
        decode_id_message(id).unwrap_err(),
        DecodeError::RunningPartitionMissing { address: 0x10000 }
    );
}

#[test]
fn locate_counts_and_finds_first() {
    let mut list = standard_list(OtaState::NotPresent, OtaState::Valid);
    assert_eq!(locate(&list, 0x110000), (1, 2));
    assert_eq!(locate(&list, 0x42).0, 0);
    list.push(part(0x110000, PartitionType::App(PartitionAppSubtype::Ota { id: 2 }), OtaState::Valid));
    assert_eq!(locate(&list, 0x110000), (2, 2));
}

#[test]
fn status_message_shows_state() {
    let up = decode_status_message(&StatusMessage { state: DeviceState::Up });
    assert!(up == "Up" || up == "\x1b[32mUp\x1b[0m", "{:?}", up);
    let down = decode_status_message(&StatusMessage { state: DeviceState::Down });
    assert!(down == "Down" || down == "\x1b[31mDown\x1b[0m", "{:?}", down);
}

#[test]
fn render_symbols_and_flags() {
    assert_eq!(part_symbol(PartitionType::Data(PartitionDataSubtype::Ota)), '~');
    assert_eq!(part_symbol(PartitionType::App(PartitionAppSubtype::Factory)), 'F');
    assert_eq!(part_symbol(PartitionType::App(PartitionAppSubtype::Test)), 'T');
    assert_eq!(part_symbol(PartitionType::App(PartitionAppSubtype::Ota { id: 3 })), 'O');
    assert_eq!(state_shade(OtaState::Invalid), Shade::Red);
    assert_eq!(state_shade(OtaState::PendingVerify), Shade::Yellow);
    assert_eq!(state_shade(OtaState::Valid), Shade::Green);
    assert_eq!(state_shade(OtaState::NotPresent), Shade::White);
    assert_eq!(state_shade(OtaState::Undefined), Shade::Cyan);
    let mut p = identity(Some(0x110000), Some(0x210000), vec![]).software.partitions;
    p.boot = Some(0x10000);
    p.last_invalid = Some(0x9000);
    assert_eq!(part_flag(&p, 0x110000, 0x110000), 'R');
    assert_eq!(part_flag(&p, 0x110000, 0x10000), 'B');
    assert_eq!(part_flag(&p, 0x110000, 0x210000), 'U');
    assert_eq!(part_flag(&p, 0x110000, 0x9000), 'I');
    assert_eq!(part_flag(&p, 0x110000, 0x5000), ' ');
}
