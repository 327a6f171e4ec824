use vstd::prelude::*;
use vstd::string::StringExecFns;

use crate::model::{OtaState, PartitionAppSubtype, PartitionType, Partitions};

verus! {

/// The background a partition's symbol is drawn on, by OTA state.
#[derive(Debug, Clone, Copy, PartialEq, Eq, Structural)]
pub enum Shade {
    Red,
    Yellow,
    White,
    Cyan,
    Green,
}

pub open spec fn spec_part_symbol(t: PartitionType) -> char {
    match t {
        PartitionType::Data(_) => '~',
        PartitionType::App(PartitionAppSubtype::Factory) => 'F',
        PartitionType::App(PartitionAppSubtype::Test) => 'T',
        PartitionType::App(PartitionAppSubtype::Ota { .. }) => 'O',
    }
}

/// The symbol of a partition in the table line.
pub fn part_symbol(t: PartitionType) -> (r: char)
    ensures
        r == spec_part_symbol(t),
{
    match t {
        PartitionType::Data(_) => '~',
        PartitionType::App(PartitionAppSubtype::Factory) => 'F',
        PartitionType::App(PartitionAppSubtype::Test) => 'T',
        PartitionType::App(PartitionAppSubtype::Ota { .. }) => 'O',
    }
}

pub open spec fn spec_state_shade(s: OtaState) -> Shade {
    match s {
        OtaState::Aborted | OtaState::Invalid => Shade::Red,
        OtaState::New | OtaState::PendingVerify => Shade::Yellow,
        OtaState::NotPresent => Shade::White,
        OtaState::Undefined => Shade::Cyan,
        OtaState::Valid => Shade::Green,
    }
}

/// Failed states are red, states awaiting a decision yellow, `Valid` green.
pub fn state_shade(s: OtaState) -> (r: Shade)
    ensures
        r == spec_state_shade(s),
{
    match s {
        OtaState::Aborted | OtaState::Invalid => Shade::Red,
        OtaState::New | OtaState::PendingVerify => Shade::Yellow,
        OtaState::NotPresent => Shade::White,
        OtaState::Undefined => Shade::Cyan,
        OtaState::Valid => Shade::Green,
    }
}

pub open spec fn spec_part_flag(p: Partitions, running: usize, addr: usize) -> char {
    if addr == running {
        'R'
    } else if p.boot == Some(addr) {
        'B'
    } else if p.next_update == Some(addr) {
        'U'
    } else if p.last_invalid == Some(addr) {
        'I'
    } else {
        ' '
    }
}

/// The flag under the partition at `addr`: running, boot, next update or last
/// invalid, the first that applies.
pub fn part_flag(p: &Partitions, running: usize, addr: usize) -> (r: char)
    ensures
        r == spec_part_flag(*p, running, addr),
{
    if addr == running {
        'R'
    } else if p.boot == Some(addr) {
        'B'
    } else if p.next_update == Some(addr) {
        'U'
    } else if p.last_invalid == Some(addr) {
        'I'
    } else {
        ' '
    }
}

/// What the dashboard shows of one device: its latest rendered liveness and
/// identity, once each has been seen.
#[derive(Debug, Clone)]
pub struct DeviceDisplayInfo {
    pub status_fmt: Option<String>,
    pub id_fmt: Option<String>,
}

impl DeviceDisplayInfo {
    pub fn new() -> (r: DeviceDisplayInfo)
        ensures
            r.status_fmt is None,
            r.id_fmt is None,
    {
        DeviceDisplayInfo { status_fmt: None, id_fmt: None }
    }

    pub fn integrate_status_fmt(&mut self, status_fmt: String)
        ensures
            final(self).status_fmt == Some(status_fmt),
            final(self).id_fmt == old(self).id_fmt,
    {
        self.status_fmt = Some(status_fmt);
    }

    pub fn integrate_id_fmt(&mut self, id_fmt: String)
        ensures
            final(self).id_fmt == Some(id_fmt),
            final(self).status_fmt == old(self).status_fmt,
    {
        self.id_fmt = Some(id_fmt);
    }
}

/// The decimal digits of `n`, most significant first.
pub open spec fn decimal(n: nat) -> Seq<char>
    decreases n,
{
    let digit = (('0' as nat) + n % 10) as char;
    if n < 10 {
        seq![digit]
    } else {
        decimal(n / 10).push(digit)
    }
}

/// The decimal digit `d` as text.
fn digit_text(d: u128) -> (r: &'static str)
    requires
        d < 10,
    ensures
        r@ == seq![(('0' as nat) + d) as char],
{
    proof {
        reveal_strlit("0");
        reveal_strlit("1");
        reveal_strlit("2");
        reveal_strlit("3");
        reveal_strlit("4");
        reveal_strlit("5");
        reveal_strlit("6");
        reveal_strlit("7");
        reveal_strlit("8");
        reveal_strlit("9");
    }
    match d {
        1 => "1",
        2 => "2",
        3 => "3",
        4 => "4",
        5 => "5",
        6 => "6",
        7 => "7",
        8 => "8",
        9 => "9",
        _ => "0",
    }
}

/// The decimal digits of `n`, most significant first.
fn decimal_string(n: u128) -> (r: String)
    ensures
        r@ == decimal(n as nat),
    decreases n,
{
    if n < 10 {
        String::from_str(digit_text(n))
    } else {
        decimal_string(n / 10).concat(digit_text(n % 10))
    }
}

/// The name under which an upload made at `millis` milliseconds after the
/// Unix epoch is staged.
pub fn gen_tmp_id(millis: u128) -> (r: String)
    ensures
        r@ == "iota-"@ + decimal(millis as nat),
{
    let digits = decimal_string(millis);
    String::from_str("iota-").concat(digits.as_str())
}

/// The PEM text of a DER certificate, as the `pem` crate encodes it.
pub uninterp spec fn certificate_pem_of(der: Seq<u8>) -> Seq<char>;

/// Relies on `pem::encode` with the tag `CERTIFICATE`: the result depends on
/// the bytes alone and opens with the `BEGIN CERTIFICATE` line.
#[verifier::external_body]
fn certificate_pem(der: Vec<u8>) -> (r: String)
    ensures
        r@ == certificate_pem_of(der@),
        "-----BEGIN CERTIFICATE-----\r\n"@.is_prefix_of(r@),
{
    pem::encode(&pem::Pem { tag: "CERTIFICATE".to_string(), contents: der })
}

/// The PEM text of the last certificate of a chain a server presented, which
/// is the one nearest to its root; `None` for an empty chain.
pub fn root_cert_pem(chain: Vec<Vec<u8>>) -> (r: Option<String>)
    ensures
        chain@.len() == 0 ==> r is None,
        chain@.len() > 0 ==> r is Some && r->0@ == certificate_pem_of(chain@.last()@),
{
    let mut chain = chain;
    match chain.pop() {
        None => None,
        Some(last) => Some(certificate_pem(last)),
    }
}

} // verus!
