//! The process supervisor: the single slot that holds the running server,
//! and every decision about reusing, replacing, stopping and reporting it.
//!
//! The supervisor never spawns or kills a process itself; it hands the host
//! explicit instructions (a handle to kill, a plan to spawn) and records
//! the outcomes the host reports.  The host serialises all operations on
//! one `OpenCodeState` value, so `&mut self` here captures exactly the
//! mutual exclusion the design asks for.

use vstd::prelude::*;
use crate::errors::ServerError;
use crate::planner::url_of;
use crate::text;

verus! {

/// The record of the one running server: the host-assigned handle of the
/// spawned subprocess, the port it was bound to, and the project it serves.
/// The supervisor owns this record exclusively; callers only ever see
/// derived [`ServerInfo`] snapshots.
pub struct OpenCodeProcess {
    pub handle: u64,
    pub port: u16,
    pub project_path: String,
}

/// The supervisor's whole state: the at-most-one-entry slot.  Either empty
/// or holding the one live process record.
pub struct OpenCodeState {
    pub process: Option<OpenCodeProcess>,
}

/// A read-only, copyable snapshot of the running server, as handed to
/// callers.
#[derive(Debug, Clone)]
pub struct ServerInfo {
    pub port: u16,
    pub url: String,
    pub project_path: String,
    pub running: bool,
}

/// The mathematical shadow of a process record.
pub ghost struct ProcModel {
    pub handle: u64,
    pub port: u16,
    pub project_path: Seq<char>,
}

impl View for OpenCodeProcess {
    type V = ProcModel;

    open spec fn view(&self) -> ProcModel {
        ProcModel { handle: self.handle, port: self.port, project_path: self.project_path@ }
    }
}

impl View for OpenCodeState {
    type V = Option<ProcModel>;

    open spec fn view(&self) -> Option<ProcModel> {
        match self.process {
            Some(p) => Some(p@),
            None => None,
        }
    }
}

/// What a snapshot says of a server on `port` serving `path`: the port, the
/// derived URL, the path, and that it is running.
pub open spec fn describes(info: ServerInfo, port: u16, path: Seq<char>) -> bool {
    &&& info.port == port
    &&& info.url@ == url_of(port)
    &&& info.project_path@ == path
    &&& info.running
}

/// A start request for `path` reuses the slot exactly when the slot holds a
/// server for that same path.
pub open spec fn reuses(slot: Option<ProcModel>, path: Seq<char>) -> bool {
    slot matches Some(p) && p.project_path == path
}

/// Which handle a start request for `path` orders killed: the old server's,
/// exactly when one runs for a different path.
pub open spec fn handle_to_kill(slot: Option<ProcModel>, path: Seq<char>) -> Option<u64> {
    match slot {
        Some(p) => if p.project_path == path {
            None
        } else {
            Some(p.handle)
        },
        None => None,
    }
}

/// The slot after the start request for `path` has been prepared: unchanged
/// on reuse, emptied otherwise (the old server, if any, is on its way out).
pub open spec fn slot_after_prepare(slot: Option<ProcModel>, path: Seq<char>) -> Option<
    ProcModel,
> {
    if reuses(slot, path) {
        slot
    } else {
        None
    }
}

/// The slot after a successful spawn has been recorded: it holds exactly
/// the new server.
pub open spec fn slot_after_record(handle: u64, port: u16, path: Seq<char>) -> Option<ProcModel> {
    Some(ProcModel { handle, port, project_path: path })
}

/// The slot after a stop: empty, whatever it held.
pub open spec fn slot_after_stop(slot: Option<ProcModel>) -> Option<ProcModel> {
    None
}

/// What a stop returns once the host has reported the kill and reap
/// outcomes: the first failure surfaces as `TerminationFailed`, and the
/// stop succeeds exactly when both went through.
pub open spec fn stop_outcome(kill_error: Option<String>, wait_error: Option<String>) -> Result<
    (),
    ServerError,
> {
    match kill_error {
        Some(reason) => Err(ServerError::TerminationFailed(reason)),
        None => match wait_error {
            Some(reason) => Err(ServerError::TerminationFailed(reason)),
            None => Ok(()),
        },
    }
}

/// The outcome a start request was prepared to: either the snapshot of the
/// server being reused, or the go-ahead to spawn, carrying the handle of
/// the old server to kill first, if one was running.
pub enum StartPrep {
    Reuse(ServerInfo),
    Proceed(Option<u64>),
}

/// The snapshot describing a server on `port` serving `project_path`.
pub fn server_info(port: u16, project_path: &String) -> (info: ServerInfo)
    ensures
        describes(info, port, project_path@),
{
    ServerInfo {
        port,
        url: crate::planner::build_url(port),
        project_path: project_path.clone(),
        running: true,
    }
}

impl Default for OpenCodeState {
    /// A supervisor with an empty slot.
    fn default() -> (s: Self)
        ensures
            s@ is None,
    {
        OpenCodeState { process: None }
    }
}

impl OpenCodeState {
    /// Prepares a start request: reuse the running server when it already
    /// serves `project_path`, otherwise empty the slot and order the old
    /// server, if any, killed so the host may spawn the new one.
    pub fn prepare_start(&mut self, project_path: &String) -> (r: StartPrep)
        ensures
            final(self)@ == slot_after_prepare(old(self)@, project_path@),
            (r is Reuse <==> reuses(old(self)@, project_path@)),
            r matches StartPrep::Reuse(info) ==> describes(
                info,
                old(self)@->0.port,
                old(self)@->0.project_path,
            ),
            r matches StartPrep::Proceed(kill) ==> kill == handle_to_kill(
                old(self)@,
                project_path@,
            ),
    {
        let same = match &self.process {
            Some(server) => text::str_eq(server.project_path.as_str(), project_path.as_str()),
            None => false,
        };
        if same {
            let port = self.process.as_ref().unwrap().port;
            let path = &self.process.as_ref().unwrap().project_path;
            StartPrep::Reuse(server_info(port, path))
        } else {
            match self.process.take() {
                Some(old_server) => StartPrep::Proceed(Some(old_server.handle)),
                None => StartPrep::Proceed(None),
            }
        }
    }

    /// Records the successful spawn the host reports and returns its
    /// snapshot.  The slot ends holding exactly the new server.
    pub fn record_spawned(&mut self, handle: u64, port: u16, project_path: String) -> (info:
        ServerInfo)
        ensures
            final(self)@ == slot_after_record(handle, port, project_path@),
            describes(info, port, project_path@),
    {
        let info = server_info(port, &project_path);
        self.process = Some(OpenCodeProcess { handle, port, project_path });
        info
    }

    /// Takes the running server, if any, out of the slot for the host to
    /// terminate.  The slot ends empty in every case.
    pub fn take_process(&mut self) -> (r: Option<OpenCodeProcess>)
        ensures
            final(self)@ == slot_after_stop(old(self)@),
            r == old(self).process,
    {
        self.process.take()
    }

    /// The read-only snapshot of the slot: the running server's info, or
    /// nothing.  `running` is always true when present — the slot never
    /// holds a dead handle, since termination always empties it first.
    pub fn status(&self) -> (r: Option<ServerInfo>)
        ensures
            (r is Some <==> self@ is Some),
            r matches Some(info) ==> describes(info, self@->0.port, self@->0.project_path),
    {
        match &self.process {
            Some(server) => Some(server_info(server.port, &server.project_path)),
            None => None,
        }
    }
}

/// Idempotence: a start for the path the slot already serves changes
/// nothing — the slot keeps the same record, no kill is ordered, no spawn
/// happens, the request keeps reusing that record however often it is
/// repeated, and any two snapshots it hands back agree in every field.
pub proof fn lemma_start_idempotent(
    slot: Option<ProcModel>,
    path: Seq<char>,
    first: ServerInfo,
    second: ServerInfo,
)
    requires
        reuses(slot, path),
        describes(first, slot->0.port, slot->0.project_path),
        describes(second, slot->0.port, slot->0.project_path),
    ensures
        slot_after_prepare(slot, path) == slot,
        handle_to_kill(slot, path) is None,
        reuses(slot_after_prepare(slot, path), path),
        first.port == second.port,
        first.url@ == second.url@,
        first.project_path@ == second.project_path@,
        first.running == second.running,
{
}

/// Replacement: a start for a path other than the one served orders
/// exactly the old server's handle killed and empties the slot, and
/// recording the new spawn leaves the slot holding only the new server.
pub proof fn lemma_replacement(
    slot: Option<ProcModel>,
    old_proc: ProcModel,
    new_path: Seq<char>,
    new_handle: u64,
    new_port: u16,
)
    requires
        slot == Some(old_proc),
        old_proc.project_path != new_path,
    ensures
        handle_to_kill(slot, new_path) == Some(old_proc.handle),
        slot_after_prepare(slot, new_path) is None,
        slot_after_record(new_handle, new_port, new_path) == Some(
            ProcModel { handle: new_handle, port: new_port, project_path: new_path },
        ),
{
}

/// Port uniqueness: as long as the port source does not hand out the same
/// port twice, the snapshots of two recorded starts differ both in the
/// port and in the URL.
pub proof fn lemma_port_uniqueness(
    first: ServerInfo,
    second: ServerInfo,
    port_a: u16,
    port_b: u16,
    path_a: Seq<char>,
    path_b: Seq<char>,
)
    requires
        port_a != port_b,
        describes(first, port_a, path_a),
        describes(second, port_b, path_b),
    ensures
        first.port != second.port,
        first.url@ != second.url@,
{
    crate::planner::lemma_url_injective(port_a, port_b);
}

/// Stop when empty: stopping with nothing in the slot kills nothing,
/// leaves the slot empty, and — since no kill or reap was attempted —
/// succeeds without error.
pub proof fn lemma_stop_when_empty(slot: Option<ProcModel>)
    requires
        slot is None,
    ensures
        slot_after_stop(slot) is None,
        stop_outcome(None, None) is Ok,
{
}

/// Status reflects reality: a recorded start shows up in the slot with its
/// port and path, and a stop leaves the slot showing empty.
pub proof fn lemma_status_reflects(handle: u64, port: u16, path: Seq<char>)
    ensures
        slot_after_record(handle, port, path) matches Some(p) && p.port == port
            && p.project_path == path,
        slot_after_stop(slot_after_record(handle, port, path)) is None,
{
}

/// Maps the kill and reap outcomes of a stop to its result: the first
/// failure surfaces as `TerminationFailed`; both clean means success.
pub fn stop_result(kill_error: Option<String>, wait_error: Option<String>) -> (r: Result<
    (),
    ServerError,
>)
    ensures
        r == stop_outcome(kill_error, wait_error),
{
    match kill_error {
        Some(reason) => Err(ServerError::TerminationFailed(reason)),
        None => match wait_error {
            Some(reason) => Err(ServerError::TerminationFailed(reason)),
            None => Ok(()),
        },
    }
}

} // verus!
