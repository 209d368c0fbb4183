//! Realtime sessions: a scoped elevation of the calling thread to realtime
//! scheduling priority, for the thread that pumps a polling-mode stream.
//! Callback-mode backends schedule their own audio thread, so for them a
//! session is a no-op token.

use vstd::prelude::*;
use vstd::string::StringExecFns;

use crate::api::Error;
use crate::api::StreamMode;
use crate::api::DEFAULT_SAMPLE_RATE;
use crate::instance::Instance;

verus! {

#[verifier::external_type_specification]
#[verifier::external_body]
pub struct ExRtPriorityHandle(audio_thread_priority::RtPriorityHandle);

#[verifier::external_type_specification]
#[verifier::external_body]
pub struct ExAudioThreadPriorityError(audio_thread_priority::AudioThreadPriorityError);

/// Relies on audio_thread_priority::promote_current_thread_to_real_time:
/// raises the calling thread to the platform's realtime scheduling class.
/// Whether the platform grants the promotion depends on the environment, so
/// nothing is promised of the outcome beyond what the source checks first:
/// a zero sample rate is always rejected. On success the returned handle
/// carries the thread's previous scheduling, for the matching demotion.
pub assume_specification[ audio_thread_priority::promote_current_thread_to_real_time ](
    audio_buffer_frames: u32,
    audio_samplerate_hz: u32,
) -> (r: Result<
    audio_thread_priority::RtPriorityHandle,
    audio_thread_priority::AudioThreadPriorityError,
>)
    ensures
        audio_samplerate_hz == 0 ==> r is Err,
;

/// Relies on audio_thread_priority::demote_current_thread_from_real_time:
/// restores the calling thread to the scheduling the handle recorded at
/// promotion time. Whether the platform carries it out depends on the
/// environment, so nothing is promised of the outcome.
pub assume_specification[ audio_thread_priority::demote_current_thread_from_real_time ](
    handle: audio_thread_priority::RtPriorityHandle,
) -> (r: Result<(), audio_thread_priority::AudioThreadPriorityError>);

/// A scoped realtime-priority token. While a session holds a promotion, the
/// thread that created it runs at realtime priority; ending the session
/// demotes the thread back to the scheduling it had before. End every
/// session on every exit path, and never let it outlive its device.
pub struct Session {
    /// The promotion to undo at the end of the session, where one was made.
    pub rt: Option<audio_thread_priority::RtPriorityHandle>,
    /// The sample rate the session's timing is derived from.
    pub sample_rate: usize,
}

impl Session {
    /// Whether the session holds no promotion, so that ending it cannot
    /// fail: true for every session of a callback-mode backend.
    pub open spec fn is_noop(self) -> bool {
        self.rt is None
    }

    /// End the session: a held promotion is undone, restoring the creating
    /// thread's previous scheduling. A session without a promotion ends
    /// without an error; failure to demote is reported as `Internal`.
    pub fn end(self) -> (r: Result<(), Error>)
        ensures
            self.is_noop() ==> r is Ok,
            r matches Err(e) ==> e is Internal,
    {
        match self.rt {
            None => Ok(()),
            Some(handle) => {
                match audio_thread_priority::demote_current_thread_from_real_time(handle) {
                    Ok(_) => Ok(()),
                    Err(_) => Err(
                        Error::Internal {
                            cause: String::from_str(
                                "could not demote the thread from realtime priority",
                            ),
                        },
                    ),
                }
            },
        }
    }
}

impl Instance {
    /// Create an audio session for streaming at the given sample rate.
    ///
    /// The sentinel rate is rejected: session timing is derived from the
    /// rate, so it must be explicit; so is a rate beyond what the platform
    /// primitive takes. On a callback-mode backend the session is a no-op
    /// token, created without fail: the backend already runs its own
    /// realtime thread. On a polling backend the calling thread is promoted
    /// to realtime priority; where the platform refuses the promotion, the
    /// failure is reported as `Internal`.
    pub fn create_session(&self, sample_rate: usize) -> (r: Result<Session, Error>)
        ensures
            sample_rate == DEFAULT_SAMPLE_RATE ==> (r matches Err(e) && e is Validation),
            sample_rate > u32::MAX as usize ==> (r matches Err(e) && e is Validation),
            (r matches Err(e) && e is Validation) ==> (sample_rate == DEFAULT_SAMPLE_RATE
                || sample_rate > u32::MAX as usize),
            r matches Ok(s) ==> s.sample_rate == sample_rate && sample_rate != DEFAULT_SAMPLE_RATE,
            (self.props.stream_mode is Callback && sample_rate != DEFAULT_SAMPLE_RATE
                && sample_rate <= u32::MAX as usize) ==> (r matches Ok(s) && s.is_noop()),
            self.props.stream_mode is Polling ==> (r matches Ok(s) ==> s.rt is Some),
            r matches Err(e) ==> (e is Validation || e is Internal),
    {
        if sample_rate == DEFAULT_SAMPLE_RATE {
            return Error::validation("the default sample rate cannot be used for session creation");
        }
        if sample_rate > u32::MAX as usize {
            return Error::validation("the sample rate is out of range for session creation");
        }
        if matches!(self.props.stream_mode, StreamMode::Callback) {
            return Ok(Session { rt: None, sample_rate });
        }
        match audio_thread_priority::promote_current_thread_to_real_time(0, sample_rate as u32) {
            Ok(handle) => Ok(Session { rt: Some(handle), sample_rate }),
            Err(_) => Err(
                Error::Internal {
                    cause: String::from_str("could not promote the thread to realtime priority"),
                },
            ),
        }
    }
}

} // verus!
