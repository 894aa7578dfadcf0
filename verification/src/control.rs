//! The capture control block: the runtime state machine of a session, its
//! mutable configuration and its error queue.
//!
//! The block here is the sequential core. The embedding program shares one
//! block between the capture loop, the flush task and the controlling caller
//! (under a lock, with a wake notification sent after every transition), and
//! performs the blocking work the decisions here call for: a thread that must
//! wait while paused loops on [`ControlBlock::is_paused`] under the lock,
//! re-checking after each wake.

use vstd::prelude::*;
use std::collections::VecDeque;
use crate::errors::{CaptureError, ConfigError, SnifferError};
use crate::parameters::Parameters;

verus! {

/// There are 3 possible states:
/// 1. The capture is running
/// 2. The capture is paused
/// 3. The capture is stopped
#[derive(Debug, Eq, PartialEq, Structural, Clone, Copy)]
pub enum CaptureState {
    Capturing(),
    Paused(),
    Stopped(),
}

/// What the capture loop does at the top of an iteration: leave the loop,
/// block until the session is resumed, or read the next frame.
#[derive(Debug, Eq, PartialEq, Structural, Clone, Copy)]
pub enum CaptureAction {
    ExitLoop(),
    AwaitResume(),
    ReadFrame(),
}

/// What the flush task does after its sleep: skip the cycle, block until the
/// session is resumed, or write a snapshot of the report.
#[derive(Debug, Eq, PartialEq, Structural, Clone, Copy)]
pub enum FlushAction {
    SkipCycle(),
    AwaitResume(),
    WriteSnapshot(),
}

/// Controls the capture process.
#[derive(Debug, Clone)]
pub struct ControlBlock {
    /// The runtime state of the session.
    pub state: CaptureState,
    /// The flush interval in seconds.
    pub timeout: u32,
    /// The path the report is written to.
    pub output_file: String,
    /// Capture-layer errors accumulated for later inspection, oldest first.
    pub error_list: VecDeque<SnifferError>,
}

impl ControlBlock {
    /// Whether a caller that must wait while the session is paused has to
    /// keep waiting.
    pub open spec fn spec_is_paused(self) -> bool {
        self.state == CaptureState::Paused()
    }

    /// The transition `pause` performs: only the state changes, to `Paused`.
    pub open spec fn pause_transition(pre: ControlBlock, post: ControlBlock) -> bool {
        post == (ControlBlock { state: CaptureState::Paused(), ..pre })
    }

    /// The transition `resume` performs: only the state changes, to
    /// `Capturing`.
    pub open spec fn resume_transition(pre: ControlBlock, post: ControlBlock) -> bool {
        post == (ControlBlock { state: CaptureState::Capturing(), ..pre })
    }

    /// The transition `stop` performs: only the state changes, to `Stopped`.
    pub open spec fn stop_transition(pre: ControlBlock, post: ControlBlock) -> bool {
        post == (ControlBlock { state: CaptureState::Stopped(), ..pre })
    }

    /// Builds a control block for a fresh session: capturing, five-second
    /// flush interval, no output path, no errors.
    pub fn new() -> (r: ControlBlock)
        ensures
            r.state == CaptureState::Capturing(),
            r.timeout == 5,
            r.output_file@ == Seq::<char>::empty(),
            r.error_list@ == Seq::<SnifferError>::empty(),
    {
        ControlBlock {
            state: CaptureState::Capturing(),
            timeout: 5,
            output_file: String::new(),
            error_list: VecDeque::new(),
        }
    }

    /// Gets the current state of the capture.
    pub fn get_state(&self) -> (r: CaptureState)
        ensures
            r == self.state,
    {
        self.state
    }

    /// Pauses the capture. The embedding program wakes all waiters after the
    /// transition.
    pub fn pause(&mut self)
        ensures
            ControlBlock::pause_transition(*old(self), *final(self)),
    {
        self.state = CaptureState::Paused();
    }

    /// Resumes the capture. The embedding program wakes all waiters after
    /// the transition.
    pub fn resume(&mut self)
        ensures
            ControlBlock::resume_transition(*old(self), *final(self)),
    {
        self.state = CaptureState::Capturing();
    }

    /// Stops the capture. Terminal: the session is expected to wind down.
    /// The embedding program wakes all waiters after the transition.
    pub fn stop(&mut self)
        ensures
            ControlBlock::stop_transition(*old(self), *final(self)),
    {
        self.state = CaptureState::Stopped();
    }

    /// The predicate a waiter blocks on: true exactly while the session is
    /// paused.
    pub fn is_paused(&self) -> (r: bool)
        ensures
            r == self.spec_is_paused(),
    {
        self.state == CaptureState::Paused()
    }

    /// Gets the flush interval of the capture.
    pub fn get_timeout(&self) -> (r: u32)
        ensures
            r == self.timeout,
    {
        self.timeout
    }

    /// Sets the flush interval for the capture; it takes effect on the flush
    /// task's next cycle.
    pub fn set_timeout(&mut self, timeout: u32)
        ensures
            *final(self) == (ControlBlock { timeout, ..*old(self) }),
    {
        self.timeout = timeout;
    }

    /// Gets the output file of the capture.
    pub fn get_output_file(&self) -> (r: String)
        ensures
            r@ == self.output_file@,
    {
        self.output_file.clone()
    }

    /// Sets the output file for the capture. The caller reports in
    /// `path_usable` whether the path exists or could be created (that probe
    /// is I/O and lives with the caller): when it is usable the path is
    /// stored, otherwise the previously configured path stays active and a
    /// configuration error is returned.
    pub fn set_output_file(&mut self, output_file: String, path_usable: bool) -> (r: Result<
        (),
        SnifferError,
    >)
        ensures
            path_usable ==> r is Ok && *final(self) == (ControlBlock {
                output_file,
                ..*old(self)
            }),
            !path_usable ==> *final(self) == *old(self) && (r matches Err(
                SnifferError::ConfigError(ConfigError::InvalidFilePath(m)),
            ) && m@ == "Invalid file path"@),
    {
        if path_usable {
            self.output_file = output_file;
            Ok(())
        } else {
            Err(
                SnifferError::ConfigError(
                    ConfigError::InvalidFilePath("Invalid file path".to_owned()),
                ),
            )
        }
    }

    /// Resolves a 1-based device index against a device list of the given
    /// length: `Ok` with the 0-based index exactly when the index addresses
    /// a device, a configuration error otherwise.
    pub fn resolve_device_index(device_id: usize, device_count: usize) -> (r: Result<
        usize,
        SnifferError,
    >)
        ensures
            1 <= device_id <= device_count ==> (r matches Ok(i) && i == device_id - 1),
            !(1 <= device_id <= device_count) ==> (r matches Err(
                SnifferError::ConfigError(ConfigError::InvalidDeviceId(m)),
            ) && m@ == "Invalid device id"@),
    {
        if 1 <= device_id && device_id <= device_count {
            Ok(device_id - 1)
        } else {
            Err(
                SnifferError::ConfigError(
                    ConfigError::InvalidDeviceId("Invalid device id".to_owned()),
                ),
            )
        }
    }

    /// Applies the outcome of a filter change. The embedding program applies
    /// the expression to the active capture handle and hands in the result
    /// (a failed application leaves the handle at its previous filter). On
    /// success the session implicitly resumes; on failure the session is
    /// forced to wait for an explicit resume and the error is reported, so a
    /// bad filter never silently continues capturing with a stale one.
    pub fn set_filter(&mut self, applied: Result<(), String>) -> (r: Result<(), CaptureError>)
        ensures
            applied is Ok ==> r is Ok && ControlBlock::resume_transition(*old(self), *final(self)),
            (applied matches Err(m) ==> (r matches Err(CaptureError::FilterError(e)) && e@ == m@)
                && ControlBlock::pause_transition(*old(self), *final(self))),
    {
        match applied {
            Ok(()) => {
                self.resume();
                Ok(())
            },
            Err(m) => {
                self.pause();
                Err(CaptureError::FilterError(m))
            },
        }
    }

    /// The accumulated capture-layer errors, oldest first; reading does not
    /// drain them.
    pub fn get_errors(&self) -> (r: &VecDeque<SnifferError>)
        ensures
            r == &self.error_list,
    {
        &self.error_list
    }

    /// Drops the oldest `size` errors (all of them when fewer are queued).
    pub fn clear_errors(&mut self, size: usize)
        ensures
            final(self).error_list@ == old(self).error_list@.skip(
                if size <= old(self).error_list@.len() {
                    size as int
                } else {
                    old(self).error_list@.len() as int
                },
            ),
            *final(self) == (ControlBlock { error_list: final(self).error_list, ..*old(self) }),
    {
        let ghost pre = self.error_list@;
        let mut k: usize = 0;
        while k < size
            invariant
                k <= size,
                *self == (ControlBlock {
                    error_list: self.error_list,
                    ..*old(self)
                }),
                self.error_list@ == pre.skip(if k <= pre.len() {
                    k as int
                } else {
                    pre.len() as int
                }),
            decreases size - k,
        {
            self.error_list.pop_front();
            proof {
                if k < pre.len() {
                    assert(pre.skip(k as int).drop_first() =~= pre.skip(k as int + 1));
                } else {
                    assert(pre.skip(pre.len() as int) =~= Seq::<SnifferError>::empty());
                }
            }
            k = k + 1;
        }
    }

    /// Queues a capture-layer error for later inspection.
    pub fn push_error(&mut self, error: SnifferError)
        ensures
            final(self).error_list@ == old(self).error_list@.push(error),
            *final(self) == (ControlBlock { error_list: final(self).error_list, ..*old(self) }),
    {
        self.error_list.push_back(error);
    }

    /// What the capture loop does at the top of an iteration, given the
    /// current state: exit when stopped, wait when paused, read a frame when
    /// capturing.
    pub fn capture_step(&self) -> (a: CaptureAction)
        ensures
            a == (match self.state {
                CaptureState::Stopped() => CaptureAction::ExitLoop(),
                CaptureState::Paused() => CaptureAction::AwaitResume(),
                CaptureState::Capturing() => CaptureAction::ReadFrame(),
            }),
    {
        match self.state {
            CaptureState::Stopped() => CaptureAction::ExitLoop(),
            CaptureState::Paused() => CaptureAction::AwaitResume(),
            CaptureState::Capturing() => CaptureAction::ReadFrame(),
        }
    }

    /// Whether a frame already read may still be dispatched for dissection:
    /// only while the session is capturing. A frame delivered across a
    /// pause or stop boundary is discarded.
    pub fn should_dispatch(&self) -> (b: bool)
        ensures
            b == (self.state == CaptureState::Capturing()),
    {
        self.state == CaptureState::Capturing()
    }

    /// What the flush task does when its sleep elapses: nothing this cycle
    /// when stopped (the task itself keeps running), wait when paused, write
    /// a snapshot when capturing.
    pub fn flush_step(&self) -> (a: FlushAction)
        ensures
            a == (match self.state {
                CaptureState::Stopped() => FlushAction::SkipCycle(),
                CaptureState::Paused() => FlushAction::AwaitResume(),
                CaptureState::Capturing() => FlushAction::WriteSnapshot(),
            }),
    {
        match self.state {
            CaptureState::Stopped() => FlushAction::SkipCycle(),
            CaptureState::Paused() => FlushAction::AwaitResume(),
            CaptureState::Capturing() => FlushAction::WriteSnapshot(),
        }
    }
}

/// Pausing and then immediately resuming never wedges the session: after the
/// two transitions no waiter's blocking predicate holds, whether or not any
/// caller was waiting in between, so a `wait` loop driven by
/// [`ControlBlock::is_paused`] returns as soon as it observes the resumed
/// state, and the rest of the block is exactly as it was.
pub proof fn lemma_pause_then_resume_unblocks(
    cb0: ControlBlock,
    cb1: ControlBlock,
    cb2: ControlBlock,
)
    requires
        ControlBlock::pause_transition(cb0, cb1),
        ControlBlock::resume_transition(cb1, cb2),
    ensures
        !cb2.spec_is_paused(),
        cb2.state == CaptureState::Capturing(),
        cb2.timeout == cb0.timeout,
        cb2.output_file == cb0.output_file,
        cb2.error_list == cb0.error_list,
{
}

/// The label shown for a device: its description when it has one, else its
/// name.
pub fn device_label(name: String, desc: Option<String>) -> (r: String)
    ensures
        (match desc {
            Some(d) => r@ == d@,
            None => r@ == name@,
        }),
{
    match desc {
        Some(d) => d,
        None => name,
    }
}

/// Resolves the 0-based device index a session starts from against a device
/// list of the given length: the index itself exactly when it addresses a
/// device, a configuration error otherwise.
pub fn resolve_initial_device(device_index: usize, device_count: usize) -> (r: Result<
    usize,
    SnifferError,
>)
    ensures
        device_index < device_count ==> (r matches Ok(i) && i == device_index),
        device_index >= device_count ==> (r matches Err(
            SnifferError::ConfigError(ConfigError::InvalidDeviceId(m)),
        ) && m@ == "Invalid device id"@),
{
    if device_index < device_count {
        Ok(device_index)
    } else {
        Err(SnifferError::ConfigError(ConfigError::InvalidDeviceId("Invalid device id".to_owned())))
    }
}

/// Classifies the outcome of applying the session's initial capture filter:
/// a rejected expression at session start is a configuration error, and the
/// session never starts.
pub fn accept_initial_filter(applied: Result<(), String>) -> (r: Result<(), SnifferError>)
    ensures
        applied is Ok ==> r is Ok,
        (applied matches Err(m) ==> (r matches Err(
            SnifferError::ConfigError(ConfigError::InvalidFilter(e)),
        ) && e@ == m@)),
{
    match applied {
        Ok(()) => Ok(()),
        Err(m) => Err(SnifferError::ConfigError(ConfigError::InvalidFilter(m))),
    }
}

/// Builds and configures the control block of a new session from its
/// parameters: a non-empty output path is installed (the caller reports in
/// `path_usable` whether the path exists or could be created), a non-zero
/// flush interval replaces the default, and the session starts capturing.
/// An unusable non-empty path rejects the whole configuration.
pub fn configure_session(parameters: &Parameters, path_usable: bool) -> (r: Result<
    ControlBlock,
    SnifferError,
>)
    ensures
        parameters.file_path@.len() > 0 && !path_usable ==> (r matches Err(
            SnifferError::ConfigError(ConfigError::InvalidFilePath(m)),
        ) && m@ == "Invalid file path"@),
        !(parameters.file_path@.len() > 0 && !path_usable) ==> (r matches Ok(cb) && cb.state
            == CaptureState::Capturing() && cb.error_list@ == Seq::<SnifferError>::empty()
            && cb.output_file@ == parameters.file_path@ && (parameters.timeout != 0 ==> cb.timeout
            == parameters.timeout) && (parameters.timeout == 0 ==> cb.timeout == 5)),
{
    let mut control_block = ControlBlock::new();
    if !parameters.file_path.as_str().is_empty() {
        match control_block.set_output_file(parameters.file_path.clone(), path_usable) {
            Ok(()) => (),
            Err(e) => {
                return Err(e);
            },
        }
    }
    if parameters.timeout != 0 {
        control_block.set_timeout(parameters.timeout);
    }
    proof {
        if parameters.file_path@.len() == 0 {
            assert(control_block.output_file@ =~= parameters.file_path@);
        }
    }
    Ok(control_block)
}

} // verus!
