use vstd::prelude::*;
use crate::date::Date;
use crate::text::{clone_opt, opt_view};
use keygen_rs::machine::Machine as OutsideMachine;

verus! {

/// Options of a request for an offline machine file: its time-to-live in
/// seconds (none or a non-positive one leaves it to the remote authority) and
/// the related records to embed (`"license"` embeds the license).
pub struct MachineCheckoutOpts {
    pub ttl: Option<i64>,
    pub embed: Option<Vec<String>>,
}

/// A device activated against a license. Immutable.
#[derive(Clone, Debug)]
pub struct Machine {
    id: String,
    fingerprint: String,
    name: Option<String>,
    platform: Option<String>,
    hostname: Option<String>,
    cores: Option<i32>,
    require_heartbeat: bool,
    heartbeat_status: String,
    heartbeat_duration: Option<i32>,
    created: Date,
    updated: Date,
}

/// What a `Machine` holds, as plain values.
pub struct MachineView {
    pub id: Seq<char>,
    pub fingerprint: Seq<char>,
    pub name: Option<Seq<char>>,
    pub platform: Option<Seq<char>>,
    pub hostname: Option<Seq<char>>,
    pub cores: Option<i32>,
    pub require_heartbeat: bool,
    pub heartbeat_status: Seq<char>,
    pub heartbeat_duration: Option<i32>,
    pub created: Date,
    pub updated: Date,
}

impl View for Machine {
    type V = MachineView;

    closed spec fn view(&self) -> MachineView {
        MachineView {
            id: self.id@,
            fingerprint: self.fingerprint@,
            name: opt_view(self.name),
            platform: opt_view(self.platform),
            hostname: opt_view(self.hostname),
            cores: self.cores,
            require_heartbeat: self.require_heartbeat,
            heartbeat_status: self.heartbeat_status@,
            heartbeat_duration: self.heartbeat_duration,
            created: self.created,
            updated: self.updated,
        }
    }
}

impl Machine {
    pub fn id(&self) -> (r: String)
        ensures
            r@ == self@.id,
    {
        self.id.clone()
    }

    /// The caller's stable identifier of the device.
    pub fn fingerprint(&self) -> (r: String)
        ensures
            r@ == self@.fingerprint,
    {
        self.fingerprint.clone()
    }

    pub fn name(&self) -> (r: Option<String>)
        ensures
            opt_view(r) == self@.name,
    {
        clone_opt(&self.name)
    }

    pub fn platform(&self) -> (r: Option<String>)
        ensures
            opt_view(r) == self@.platform,
    {
        clone_opt(&self.platform)
    }

    pub fn hostname(&self) -> (r: Option<String>)
        ensures
            opt_view(r) == self@.hostname,
    {
        clone_opt(&self.hostname)
    }

    pub fn cores(&self) -> (r: Option<i32>)
        ensures
            r == self@.cores,
    {
        self.cores
    }

    /// Whether the machine must send heartbeats to stay in good standing.
    pub fn require_heartbeat(&self) -> (r: bool)
        ensures
            r == self@.require_heartbeat,
    {
        self.require_heartbeat
    }

    /// The heartbeat state that the remote authority last reported.
    pub fn heartbeat_status(&self) -> (r: String)
        ensures
            r@ == self@.heartbeat_status,
    {
        self.heartbeat_status.clone()
    }

    /// The seconds allowed between two heartbeats, where set.
    pub fn heartbeat_duration(&self) -> (r: Option<i32>)
        ensures
            r == self@.heartbeat_duration,
    {
        self.heartbeat_duration
    }

    pub fn created(&self) -> (r: Date)
        ensures
            r == self@.created,
    {
        self.created
    }

    pub fn updated(&self) -> (r: Date)
        ensures
            r == self@.updated,
    {
        self.updated
    }

    /// A second handle on the same values.
    pub fn copy(&self) -> (r: Machine)
        ensures
            r@ == self@,
    {
        Machine {
            id: self.id(),
            fingerprint: self.fingerprint(),
            name: self.name(),
            platform: self.platform(),
            hostname: self.hostname(),
            cores: self.cores,
            require_heartbeat: self.require_heartbeat,
            heartbeat_status: self.heartbeat_status(),
            heartbeat_duration: self.heartbeat_duration,
            created: self.created,
            updated: self.updated,
        }
    }
}

impl Machine {
    /// Builds the record from its values.
    pub fn new(id: String, fingerprint: String, name: Option<String>, platform: Option<String>, hostname: Option<String>, cores: Option<i32>, require_heartbeat: bool, heartbeat_status: String, heartbeat_duration: Option<i32>, created: Date, updated: Date) -> (r: Machine)
        ensures
            r@.id == id@,
            r@.fingerprint == fingerprint@,
            r@.name == opt_view(name),
            r@.platform == opt_view(platform),
            r@.hostname == opt_view(hostname),
            r@.cores == cores,
            r@.require_heartbeat == require_heartbeat,
            r@.heartbeat_status == heartbeat_status@,
            r@.heartbeat_duration == heartbeat_duration,
            r@.created == created,
            r@.updated == updated,
    {
        Machine { id, fingerprint, name, platform, hostname, cores, require_heartbeat, heartbeat_status, heartbeat_duration, created, updated }
    }
}

/// Relies on keygen_rs's Machine: copies its public fields, reading each date
/// through chrono's DateTime::timestamp and timestamp_subsec_micros.
#[verifier::external_body]
pub(crate) fn machine_fields(m: &OutsideMachine) -> (r: Machine)
{
    let date = |d: chrono::DateTime<chrono::Utc>| Date { secs: d.timestamp(), micros: d.timestamp_subsec_micros() };
    Machine {
        id: m.id.clone(), fingerprint: m.fingerprint.clone(), name: m.name.clone(),
        platform: m.platform.clone(), hostname: m.hostname.clone(), cores: m.cores,
        require_heartbeat: m.require_heartbeat, heartbeat_status: m.heartbeat_status.clone(),
        heartbeat_duration: m.heartbeat_duration, created: date(m.created), updated: date(m.updated),
    }
}

impl Machine {
    /// The machine as read from the remote-API collaborator's record of it.
    pub fn from(origin: OutsideMachine) -> Machine {
        machine_fields(&origin)
    }
}

} // verus!
