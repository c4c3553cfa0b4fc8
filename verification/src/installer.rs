//! State machine that provisions an external engine: download, extract,
//! report availability.

use vstd::prelude::*;

verus! {

/// Which external engine an installer instance provisions.
#[derive(Clone, Copy, PartialEq, Eq, Structural, Debug)]
pub enum EngineKind {
    Recognition,
    Translation,
}

/// Phase label carried by a progress event.
#[derive(Clone, Copy, PartialEq, Eq, Structural, Debug)]
pub enum InstallPhase {
    Downloading,
    Extracting,
    Completed,
    Failed,
}

/// One event on the progress channel: bytes fetched so far, the payload size
/// if the server announced one (zero means unknown), and the phase.
#[derive(Clone, Copy, PartialEq, Eq, Structural, Debug)]
pub struct ProgressEvent {
    pub bytes_done: u64,
    pub bytes_total: u64,
    pub phase: InstallPhase,
}

/// Where an installation attempt stands.  Not persisted: after a restart the
/// state is recomputed from filesystem presence.
#[derive(Debug, PartialEq)]
pub enum EngineInstallState {
    NotInstalled,
    Downloading { bytes_done: u64, bytes_total: u64 },
    Extracting,
    Installed,
    Failed { reason: String },
}

/// Drives one engine's installation attempt and emits the progress events
/// the presentation layer renders.  Any I/O failure is terminal for the
/// attempt: only a fresh `start_download` leaves the `Failed` state.
pub struct EngineInstaller {
    state: EngineInstallState,
}

impl EngineInstaller {
    /// The current state of the attempt.
    pub closed spec fn state(&self) -> EngineInstallState {
        self.state
    }

    /// Reads the current state of the attempt.
    pub fn current_state(&self) -> (r: &EngineInstallState)
        ensures
            r == self.state(),
    {
        &self.state
    }

    /// The sole source of truth after a restart: an engine is exactly as
    /// installed as its binary is present on disk.
    pub fn from_presence(present: bool) -> (r: EngineInstaller)
        ensures
            present ==> r.state() is Installed,
            !present ==> r.state() is NotInstalled,
    {
        if present {
            EngineInstaller { state: EngineInstallState::Installed }
        } else {
            EngineInstaller { state: EngineInstallState::NotInstalled }
        }
    }

    /// Begins a (fresh or retried) attempt.  `bytes_total` is the announced
    /// payload size, zero when the server did not say.
    pub fn start_download(&mut self, bytes_total: u64)
        requires
            !(old(self).state() is Downloading),
            !(old(self).state() is Extracting),
        ensures
            final(self).state() == (EngineInstallState::Downloading {
                bytes_done: 0,
                bytes_total,
            }),
    {
        self.state = EngineInstallState::Downloading { bytes_done: 0, bytes_total };
    }

    /// Accounts one received chunk and yields the progress event to emit.
    /// Progress never decreases.
    pub fn on_chunk(&mut self, chunk_len: u64) -> (ev: ProgressEvent)
        requires
            old(self).state() is Downloading,
            old(self).state()->bytes_done + chunk_len <= u64::MAX,
        ensures
            final(self).state() == (EngineInstallState::Downloading {
                bytes_done: (old(self).state()->bytes_done + chunk_len) as u64,
                bytes_total: old(self).state()->bytes_total,
            }),
            ev.bytes_done == old(self).state()->bytes_done + chunk_len,
            ev.bytes_done >= old(self).state()->bytes_done,
            ev.bytes_total == old(self).state()->bytes_total,
            ev.phase == InstallPhase::Downloading,
    {
        match &self.state {
            EngineInstallState::Downloading { bytes_done, bytes_total } => {
                let done = *bytes_done + chunk_len;
                let total = *bytes_total;
                self.state = EngineInstallState::Downloading {
                    bytes_done: done,
                    bytes_total: total,
                };
                ProgressEvent { bytes_done: done, bytes_total: total, phase: InstallPhase::Downloading }
            },
            _ => {
                proof {
                    assert(false);
                }
                ProgressEvent { bytes_done: 0, bytes_total: 0, phase: InstallPhase::Failed }
            },
        }
    }

    /// The stream ended: move to extraction and yield the phase-transition
    /// event, which carries the final byte count.
    pub fn on_download_complete(&mut self) -> (ev: ProgressEvent)
        requires
            old(self).state() is Downloading,
        ensures
            final(self).state() is Extracting,
            ev.bytes_done == old(self).state()->bytes_done,
            ev.bytes_total == old(self).state()->bytes_total,
            ev.phase == InstallPhase::Extracting,
    {
        match &self.state {
            EngineInstallState::Downloading { bytes_done, bytes_total } => {
                let done = *bytes_done;
                let total = *bytes_total;
                self.state = EngineInstallState::Extracting;
                ProgressEvent { bytes_done: done, bytes_total: total, phase: InstallPhase::Extracting }
            },
            _ => {
                proof {
                    assert(false);
                }
                ProgressEvent { bytes_done: 0, bytes_total: 0, phase: InstallPhase::Failed }
            },
        }
    }

    /// The archive was unpacked: the engine is installed, and the single
    /// terminal completion event is yielded.
    pub fn on_extracted(&mut self, bytes_done: u64, bytes_total: u64) -> (ev: ProgressEvent)
        requires
            old(self).state() is Extracting,
        ensures
            final(self).state() is Installed,
            ev == (ProgressEvent { bytes_done, bytes_total, phase: InstallPhase::Completed }),
    {
        self.state = EngineInstallState::Installed;
        ProgressEvent { bytes_done, bytes_total, phase: InstallPhase::Completed }
    }

    /// An I/O error at any step: the attempt ends in `Failed` with the
    /// reason, surfaced on the same channel as a terminal failure phase.
    pub fn on_failure(&mut self, reason: String) -> (ev: ProgressEvent)
        requires
            old(self).state() is Downloading || old(self).state() is Extracting,
        ensures
            final(self).state() matches EngineInstallState::Failed { reason: r } && r@ == reason@,
            ev.phase == InstallPhase::Failed,
    {
        self.state = EngineInstallState::Failed { reason };
        ProgressEvent { bytes_done: 0, bytes_total: 0, phase: InstallPhase::Failed }
    }
}

/// The bytes accounted after the first `i` chunks of a stream.
pub open spec fn bytes_after(chunks: Seq<u64>, i: int) -> int
    decreases i,
{
    if i <= 0 {
        0
    } else {
        bytes_after(chunks, i - 1) + chunks[i - 1]
    }
}

/// The whole progress-event trace of a download that succeeds: one
/// downloading event per chunk, then the extracting transition, then the
/// single completion.  Events are modelled as (bytes done, phase).
pub open spec fn install_run_events(chunks: Seq<u64>) -> Seq<(int, InstallPhase)> {
    Seq::new(chunks.len(), |i: int| (bytes_after(chunks, i + 1), InstallPhase::Downloading)) + seq![
        (bytes_after(chunks, chunks.len() as int), InstallPhase::Extracting),
        (bytes_after(chunks, chunks.len() as int), InstallPhase::Completed),
    ]
}

proof fn lemma_bytes_after_monotone(chunks: Seq<u64>, i: int, j: int)
    requires
        i <= j,
    ensures
        bytes_after(chunks, i) <= bytes_after(chunks, j),
    decreases j - i,
{
    if i < j {
        lemma_bytes_after_monotone(chunks, i, j - 1);
        if j - 1 < chunks.len() && j >= 1 {
            assert(chunks[j - 1] >= 0);
        }
    }
}

/// Law: over a successful installation run, the bytes-done field of the
/// emitted events never decreases, and exactly one event — the last — has
/// the completed phase.
pub proof fn lemma_install_progress(chunks: Seq<u64>)
    ensures
        forall|i: int, j: int|
            0 <= i <= j < install_run_events(chunks).len() ==> install_run_events(chunks)[i].0
                <= install_run_events(chunks)[j].0,
        install_run_events(chunks).len() > 0,
        install_run_events(chunks).last().1 == InstallPhase::Completed,
        forall|i: int|
            0 <= i < install_run_events(chunks).len() - 1 ==> install_run_events(chunks)[i].1
                != InstallPhase::Completed,
{
    let evs = install_run_events(chunks);
    let n = chunks.len() as int;
    assert forall|i: int, j: int| 0 <= i <= j < evs.len() implies evs[i].0 <= evs[j].0 by {
        let bi = if i < n {
            i + 1
        } else {
            n
        };
        let bj = if j < n {
            j + 1
        } else {
            n
        };
        assert(evs[i].0 == bytes_after(chunks, bi));
        assert(evs[j].0 == bytes_after(chunks, bj));
        lemma_bytes_after_monotone(chunks, bi, bj);
    }
}

} // verus!
