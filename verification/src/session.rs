//! Session controller: exactly one capture session at a time.
//!
//! Starting derives the target and mode from the request parameters,
//! rejecting what cannot be captured; the caller stops any session this
//! hands back before spawning the next, so a second start always ends the
//! first. Stopping is a no-op without a session or with a stale session
//! identifier.

use vstd::prelude::*;
use vstd::string::StringExecFns;

verus! {

use crate::parse::dec_of;
use crate::parse::exclude_target_id_for_pid;
use crate::parse::parse_target_pid;
use crate::parse::spec_parse_target_pid;
use crate::parse::target_id_for_pid;
use crate::parse::u64_to_dec;
use crate::targets::AudioTarget;

/// Whether a session captures the target's process tree or everything
/// except it.
#[derive(Clone, Copy, Debug, PartialEq, Eq, Structural)]
pub enum CaptureMode {
    Include,
    Exclude,
}

/// The wire string for each capture mode.
pub open spec fn mode_str(m: CaptureMode) -> Seq<char> {
    match m {
        CaptureMode::Include => "include"@,
        CaptureMode::Exclude => "exclude"@,
    }
}

impl CaptureMode {
    /// The literal string reported in the start descriptor for this mode.
    pub fn as_str(self) -> (r: &'static str)
        ensures
            r@ == mode_str(self),
    {
        match self {
            CaptureMode::Include => "include",
            CaptureMode::Exclude => "exclude",
        }
    }
}

/// What a start request asks for, as plain values.
pub struct StartParams {
    /// An opaque `window:<HWND>:<slot>` source to resolve.
    pub source_id: Option<String>,
    /// An explicit `pid:<N>` target identifier.
    pub app_audio_target_id: Option<String>,
    /// When set, capture everything except this process tree.
    pub exclude_pid: Option<u32>,
}

/// A start request the controller accepted: what to capture and how.
#[derive(Debug)]
pub struct StartPlan {
    /// The target identifier echoed on every frame and the `ended` event.
    pub target_id: String,
    /// The process the loopback stream is scoped to.
    pub target_pid: u32,
    /// Include or exclude the target's process tree.
    pub mode: CaptureMode,
}

/// The target identifier a start request asks for: the explicit one when
/// given, else the resolved source, else nothing.
pub open spec fn spec_requested_target_id(
    app_audio_target_id: Option<Seq<char>>,
    resolved_source_pid: Option<u32>,
) -> Option<Seq<char>> {
    match app_audio_target_id {
        Some(t) => Some(t),
        None => match resolved_source_pid {
            Some(p) => Some("pid:"@ + dec_of(p as nat)),
            None => None,
        },
    }
}

/// Whether some enumerated target carries this identifier.
pub open spec fn spec_target_available(targets: Seq<AudioTarget>, target_id: Seq<char>) -> bool {
    exists|j: int| 0 <= j < targets.len() && #[trigger] targets[j].id@ == target_id
}

/// Derives `(target, mode)` for a start request, or the exact error the
/// request is refused with: capture needs the platform engine; an exclude
/// request is taken as-is; an include request needs a resolvable, valid
/// `pid:<N>` identifier naming a currently enumerated target.
pub fn plan_start(
    windows_supported: bool,
    params: StartParams,
    resolved_source_pid: Option<u32>,
    available: &Vec<AudioTarget>,
) -> (r: Result<StartPlan, String>)
    ensures
        !windows_supported ==> (r matches Err(m) && m@
            == "Per-app audio capture is only available on Windows."@),
        windows_supported ==> match params.exclude_pid {
            Some(p) => r matches Ok(plan) && plan.target_id@ == "excl:pid:"@ + dec_of(p as nat)
                && plan.target_pid == p && plan.mode == CaptureMode::Exclude,
            None => {
                let requested = spec_requested_target_id(
                    match params.app_audio_target_id {
                        Some(t) => Some(t@),
                        None => None,
                    },
                    resolved_source_pid,
                );
                match requested {
                    None => r matches Err(m) && m@
                        == "No app audio target provided and source mapping failed"@,
                    Some(tid) => match spec_parse_target_pid(tid) {
                        None => r matches Err(m) && m@ == "Invalid app audio target id"@,
                        Some(pid) => if spec_target_available(available@, tid) {
                            r matches Ok(plan) && plan.target_id@ == tid && plan.target_pid == pid
                                && plan.mode == CaptureMode::Include
                        } else {
                            r matches Err(m) && m@ == "Target process with pid "@ + dec_of(
                                pid as nat,
                            ) + " is not available"@
                        },
                    },
                }
            },
        },
{
    if !windows_supported {
        return Err(String::from_str("Per-app audio capture is only available on Windows."));
    }
    if let Some(excl_pid) = params.exclude_pid {
        return Ok(
            StartPlan {
                target_id: exclude_target_id_for_pid(excl_pid),
                target_pid: excl_pid,
                mode: CaptureMode::Exclude,
            },
        );
    }
    let target_id: String = match params.app_audio_target_id {
        Some(t) => t,
        None => match resolved_source_pid {
            Some(p) => target_id_for_pid(p),
            None => {
                return Err(
                    String::from_str("No app audio target provided and source mapping failed"),
                );
            },
        },
    };
    let target_pid: u32 = match parse_target_pid(target_id.as_str()) {
        Some(p) => p,
        None => {
            return Err(String::from_str("Invalid app audio target id"));
        },
    };
    let mut found = false;
    let mut j: usize = 0;
    while j < available.len()
        invariant
            j <= available@.len(),
            found <==> exists|k: int|
                0 <= k < j && #[trigger] available@[k].id@ == target_id@,
        decreases available@.len() - j,
    {
        if available[j].id == target_id {
            found = true;
        }
        j = j + 1;
    }
    if !found {
        let mut m = String::from_str("Target process with pid ");
        m.append(u64_to_dec(target_pid as u64).as_str());
        m.append(" is not available");
        proof {
            assert(m@ =~= "Target process with pid "@ + dec_of(target_pid as nat)
                + " is not available"@);
        }
        return Err(m);
    }
    Ok(StartPlan { target_id, target_pid, mode: CaptureMode::Include })
}

/// One running capture session, as the controller sees it.
pub struct SessionRecord {
    /// The fresh identifier minted at start.
    pub session_id: String,
    /// The target identifier the session captures.
    pub target_id: String,
    /// Include or exclude mode.
    pub mode: CaptureMode,
}

/// Owns the at-most-one active session record.
pub struct SessionController {
    active: Option<SessionRecord>,
}

impl SessionController {
    /// The active session, if one is running.
    pub closed spec fn active_session(&self) -> Option<SessionRecord> {
        self.active
    }

    /// A controller with no session.
    pub fn new() -> (r: SessionController)
        ensures
            r.active_session() is None,
    {
        SessionController { active: None }
    }

    /// Installs the session a successful start spawned. The previous
    /// record, already stopped by `take_for_stop`, is gone.
    pub fn install(&mut self, record: SessionRecord)
        requires
            old(self).active_session() is None,
        ensures
            final(self).active_session() == Some(record),
    {
        self.active = Some(record);
    }

    /// Takes the session the caller must now stop and join, if any: with no
    /// requested identifier, always the active one (a second start stops
    /// the first this way); with one, only a match. A stale identifier
    /// leaves the session running and stops nothing.
    pub fn take_for_stop(&mut self, requested_session_id: Option<&String>) -> (stopped: Option<
        SessionRecord,
    >)
        ensures
            old(self).active_session() is None ==> stopped is None && final(self).active_session()
                is None,
            old(self).active_session() matches Some(active) ==> match requested_session_id {
                None => stopped == Some(active) && final(self).active_session() is None,
                Some(requested) => if requested@ == active.session_id@ {
                    stopped == Some(active) && final(self).active_session() is None
                } else {
                    stopped is None && final(self).active_session() == Some(active)
                },
            },
    {
        let active = match self.active.take() {
            Some(a) => a,
            None => {
                return None;
            },
        };
        let should_stop = match requested_session_id {
            None => true,
            Some(requested) => *requested == active.session_id,
        };
        if should_stop {
            Some(active)
        } else {
            self.active = Some(active);
            None
        }
    }
}

} // verus!
