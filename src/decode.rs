use vstd::prelude::*;

use crate::model::{
    DeviceState, IdMessage, OtaState, Partition, PartitionAppSubtype, PartitionType, Partitions,
    StatusMessage,
};

verus! {

/// The kind of application partition a device may legitimately run from.
#[derive(Debug, Clone, Copy, PartialEq, Eq, Structural)]
pub enum RunningOnPart {
    Factory,
    Ota { id: usize },
}

/// What the decoder derives from an identity payload.
#[derive(Debug, Clone, Copy, PartialEq, Eq, Structural)]
pub struct RuntimeOtaInfo {
    pub running_addr: usize,
    pub running_on_part: RunningOnPart,
    pub running_ota_state: OtaState,
    pub next_update_addr: usize,
}

/// A snapshot: the identity payload as received, with its derived OTA info.
#[derive(Debug, Clone)]
pub struct DecodedIdMessage {
    pub msg: IdMessage,
    pub ota_info: RuntimeOtaInfo,
}

/// Why an identity payload could not be turned into a snapshot.
#[derive(Debug, Clone, Copy, PartialEq, Eq, Structural)]
pub enum DecodeError {
    /// The payload is not a well-formed identity message.
    MalformedPayload,
    /// The table names no running address.
    NoRunningPartitionReported,
    /// No partition lies at the running address.
    RunningPartitionMissing { address: usize },
    /// Two or more partitions lie at the running address.
    AmbiguousRunningPartition { address: usize },
    /// The running partition is neither the factory image nor an OTA slot.
    UnknownRunningPartitionKind { address: usize, part_type: PartitionType },
    /// The table names no slot for the next update.
    NoFreeUpdateSlot,
}

/// Number of partitions of `parts` that lie at `addr`.
pub open spec fn count_at(parts: Seq<Partition>, addr: usize) -> nat
    decreases parts.len(),
{
    if parts.len() == 0 {
        0
    } else {
        count_at(parts.drop_last(), addr) + if parts.last().address == addr {
            1nat
        } else {
            0nat
        }
    }
}

/// An index of a partition of `parts` at `addr` (the only one where the
/// address is unique).
pub open spec fn index_at(parts: Seq<Partition>, addr: usize) -> int {
    choose|i: int| 0 <= i < parts.len() && parts[i].address == addr
}

/// The kind of slot a partition of type `t` counts as when it is running.
pub open spec fn running_kind(t: PartitionType) -> Option<RunningOnPart> {
    match t {
        PartitionType::App(PartitionAppSubtype::Factory) => Some(RunningOnPart::Factory),
        PartitionType::App(PartitionAppSubtype::Ota { id }) => Some(RunningOnPart::Ota { id }),
        _ => None,
    }
}

/// The result of decoding a partition table.
pub open spec fn decode_spec(p: Partitions) -> Result<RuntimeOtaInfo, DecodeError> {
    match p.running {
        None => Err(DecodeError::NoRunningPartitionReported),
        Some(addr) => {
            let parts = p.list@;
            if count_at(parts, addr) == 0 {
                Err(DecodeError::RunningPartitionMissing { address: addr })
            } else if count_at(parts, addr) > 1 {
                Err(DecodeError::AmbiguousRunningPartition { address: addr })
            } else {
                let part = parts[index_at(parts, addr)];
                match running_kind(part.part_type) {
                    None => Err(
                        DecodeError::UnknownRunningPartitionKind {
                            address: addr,
                            part_type: part.part_type,
                        },
                    ),
                    Some(kind) => match p.next_update {
                        None => Err(DecodeError::NoFreeUpdateSlot),
                        Some(next) => Ok(
                            RuntimeOtaInfo {
                                running_addr: addr,
                                running_on_part: kind,
                                running_ota_state: part.ota_state,
                                next_update_addr: next,
                            },
                        ),
                    },
                }
            }
        },
    }
}

proof fn lemma_count_one(parts: Seq<Partition>, addr: usize, i: int)
    requires
        0 <= i < parts.len(),
        parts[i].address == addr,
    ensures
        count_at(parts, addr) >= 1,
    decreases parts.len(),
{
    if i < parts.len() - 1 {
        lemma_count_one(parts.drop_last(), addr, i);
    }
}

proof fn lemma_count_two(parts: Seq<Partition>, addr: usize, i: int, j: int)
    requires
        0 <= i < j < parts.len(),
        parts[i].address == addr,
        parts[j].address == addr,
    ensures
        count_at(parts, addr) >= 2,
    decreases parts.len(),
{
    if j == parts.len() - 1 {
        lemma_count_one(parts.drop_last(), addr, i);
    } else {
        lemma_count_two(parts.drop_last(), addr, i, j);
    }
}

proof fn lemma_count_none(parts: Seq<Partition>, addr: usize)
    requires
        forall|k: int| 0 <= k < parts.len() ==> parts[k].address != addr,
    ensures
        count_at(parts, addr) == 0,
    decreases parts.len(),
{
    if parts.len() > 0 {
        lemma_count_none(parts.drop_last(), addr);
    }
}

proof fn lemma_count_unique(parts: Seq<Partition>, addr: usize, i: int)
    requires
        0 <= i < parts.len(),
        parts[i].address == addr,
        forall|k: int| 0 <= k < parts.len() && parts[k].address == addr ==> k == i,
    ensures
        count_at(parts, addr) == 1,
    decreases parts.len(),
{
    if i == parts.len() - 1 {
        lemma_count_none(parts.drop_last(), addr);
    } else {
        lemma_count_unique(parts.drop_last(), addr, i);
    }
}

/// Where exactly one partition lies at `addr`, `index_at` finds it.
proof fn lemma_index_at_unique(parts: Seq<Partition>, addr: usize, i: int)
    requires
        0 <= i < parts.len(),
        parts[i].address == addr,
        count_at(parts, addr) == 1,
    ensures
        index_at(parts, addr) == i,
{
    let k = index_at(parts, addr);
    if k != i {
        if k < i {
            lemma_count_two(parts, addr, k, i);
        } else {
            lemma_count_two(parts, addr, i, k);
        }
    }
}

/// Decoding succeeds on every table with exactly one partition at the
/// declared running address, where that partition is the factory image or an
/// OTA slot and a next update slot is named; the running state is then the
/// one that partition reports.
pub proof fn lemma_decode_unique_running(p: Partitions, i: int)
    requires
        p.running is Some,
        0 <= i < p.list@.len(),
        p.list@[i].address == p.running->0,
        forall|k: int|
            0 <= k < p.list@.len() && p.list@[k].address == p.running->0 ==> k == i,
        running_kind(p.list@[i].part_type) is Some,
        p.next_update is Some,
    ensures
        decode_spec(p) is Ok,
        decode_spec(p)->Ok_0.running_ota_state == p.list@[i].ota_state,
        decode_spec(p)->Ok_0.running_addr == p.running->0,
        decode_spec(p)->Ok_0.next_update_addr == p.next_update->0,
{
    lemma_count_unique(p.list@, p.running->0, i);
    lemma_index_at_unique(p.list@, p.running->0, i);
}

/// Two partitions at the running address make decoding fail as ambiguous.
pub proof fn lemma_decode_ambiguous(p: Partitions, i: int, j: int)
    requires
        p.running is Some,
        0 <= i < p.list@.len(),
        0 <= j < p.list@.len(),
        i != j,
        p.list@[i].address == p.running->0,
        p.list@[j].address == p.running->0,
    ensures
        decode_spec(p) == Err::<RuntimeOtaInfo, DecodeError>(
            DecodeError::AmbiguousRunningPartition { address: p.running->0 },
        ),
{
    if i < j {
        lemma_count_two(p.list@, p.running->0, i, j);
    } else {
        lemma_count_two(p.list@, p.running->0, j, i);
    }
}

/// A table that names no next update slot fails to decode for that reason,
/// once its running partition is found and of a kind that may run.
pub proof fn lemma_decode_no_update_slot(p: Partitions, i: int)
    requires
        p.running is Some,
        0 <= i < p.list@.len(),
        p.list@[i].address == p.running->0,
        forall|k: int|
            0 <= k < p.list@.len() && p.list@[k].address == p.running->0 ==> k == i,
        running_kind(p.list@[i].part_type) is Some,
        p.next_update is None,
    ensures
        decode_spec(p) == Err::<RuntimeOtaInfo, DecodeError>(DecodeError::NoFreeUpdateSlot),
{
    lemma_count_unique(p.list@, p.running->0, i);
    lemma_index_at_unique(p.list@, p.running->0, i);
}

/// Counts the partitions at `addr`, and gives the index of the first.
pub fn locate(list: &Vec<Partition>, addr: usize) -> (r: (usize, usize))
    ensures
        r.0 == count_at(list@, addr),
        r.0 >= 1 ==> r.1 < list@.len() && list@[r.1 as int].address == addr,
        r.0 == 1 ==> r.1 == index_at(list@, addr),
{
    let ghost parts = list@;
    let mut count: usize = 0;
    let mut found: usize = 0;
    let mut i: usize = 0;
    while i < list.len()
        invariant
            parts == list@,
            0 <= i <= list.len(),
            count <= i,
            count == count_at(parts.take(i as int), addr),
            count > 0 ==> found < i && parts[found as int].address == addr,
        decreases list.len() - i,
    {
        assert(parts.take(i as int + 1).drop_last() == parts.take(i as int));
        if list[i].address == addr {
            if count == 0 {
                found = i;
            }
            count = count + 1;
        }
        i = i + 1;
    }
    assert(parts.take(list.len() as int) == parts);
    if count == 1 {
        proof {
            lemma_index_at_unique(parts, addr, found as int);
        }
    }
    (count, found)
}


/// Decodes an identity payload into a snapshot.
pub fn decode_id_message(id: IdMessage) -> (r: Result<DecodedIdMessage, DecodeError>)
    ensures
        match r {
            Ok(d) => d.msg == id && decode_spec(id.software.partitions) == Ok::<
                RuntimeOtaInfo,
                DecodeError,
            >(d.ota_info),
            Err(e) => decode_spec(id.software.partitions) == Err::<RuntimeOtaInfo, DecodeError>(
                e,
            ),
        },
{
    let running_addr = match id.software.partitions.running {
        None => return Err(DecodeError::NoRunningPartitionReported),
        Some(a) => a,
    };
    let list = &id.software.partitions.list;
    let (count, found) = locate(list, running_addr);
    if count == 0 {
        return Err(DecodeError::RunningPartitionMissing { address: running_addr });
    }
    if count > 1 {
        return Err(DecodeError::AmbiguousRunningPartition { address: running_addr });
    }
    let part_type = list[found].part_type;
    let running_ota_state = list[found].ota_state;
    let running_on_part = match part_type {
        PartitionType::App(PartitionAppSubtype::Factory) => RunningOnPart::Factory,
        PartitionType::App(PartitionAppSubtype::Ota { id }) => RunningOnPart::Ota { id },
        _ => {
            return Err(
                DecodeError::UnknownRunningPartitionKind { address: running_addr, part_type },
            )
        },
    };
    let next_update_addr = match id.software.partitions.next_update {
        None => return Err(DecodeError::NoFreeUpdateSlot),
        Some(a) => a,
    };
    Ok(
        DecodedIdMessage {
            msg: id,
            ota_info: RuntimeOtaInfo {
                running_addr,
                running_on_part,
                running_ota_state,
                next_update_addr,
            },
        },
    )
}

/// `text` as console writes it in green: bare where colours are disabled,
/// else between the green escape and the reset.
pub open spec fn green_text(text: Seq<char>) -> Set<Seq<char>> {
    set![text, "\x1b[32m"@ + text + "\x1b[0m"@]
}

/// `text` as console writes it in red, as `green_text` with the red escape.
pub open spec fn red_text(text: Seq<char>) -> Set<Seq<char>> {
    set![text, "\x1b[31m"@ + text + "\x1b[0m"@]
}

/// Relies on console's `style(..).green()` and its `Display`: the text is
/// written as is, preceded by the escape `ESC[32m` and followed by the reset
/// `ESC[0m` when colours are enabled (no other style is set).
#[verifier::external_body]
fn paint_green(text: &str) -> (r: String)
    ensures
        green_text(text@).contains(r@),
{
    console::style(text).green().to_string()
}

/// Relies on console's `style(..).red()` and its `Display`, as `paint_green`
/// with the escape `ESC[31m`.
#[verifier::external_body]
fn paint_red(text: &str) -> (r: String)
    ensures
        red_text(text@).contains(r@),
{
    console::style(text).red().to_string()
}

/// Renders a liveness message for the terminal.
pub fn decode_status_message(status: &StatusMessage) -> (r: String)
    ensures
        status.state == DeviceState::Up ==> green_text("Up"@).contains(r@),
        status.state == DeviceState::Down ==> red_text("Down"@).contains(r@),
{
    match status.state {
        DeviceState::Up => paint_green("Up"),
        DeviceState::Down => paint_red("Down"),
    }
}

} // verus!
