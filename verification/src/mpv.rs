//! Model of the host player's interface: the notification events the engine
//! consumes and the capability object through which it requests host
//! mutations.
//!
//! The host itself (the C event loop, property accessors, OSD) lives in the
//! embedding layer.  Every decision made here turns into a `HostAction`
//! recorded on the `Handle`; the embedder drains the queue after each
//! notification and performs the calls, so the library's choices are checked
//! while the foreign calls stay outside it.

use vstd::prelude::*;

use crate::segment::{Category, Segment};

verus! {

/// Reply id under which playback-position updates are requested.
pub const REPL_PROP_TIME: u64 = 1;

/// Reply id under which mute-flag updates are requested.
pub const REPL_PROP_MUTE: u64 = 2;

/// A decoded property value carried by a property-change notification.
#[derive(Clone, Copy, Debug, PartialEq, Eq, Structural)]
pub enum PropertyData {
    /// A playback position, in milliseconds.
    TimePos(u64),
    /// A boolean flag such as the mute state.
    Flag(bool),
}

/// Payload of a property-change (or get-property-reply) notification.
pub struct EventProperty {
    /// Name of the observed property.
    pub name: String,
    /// The new value; none when the host sent no data or data of another
    /// format.
    pub data: Option<PropertyData>,
}

impl EventProperty {
    pub fn get_name(&self) -> (r: &String)
        ensures
            r@ == self.name@,
    {
        &self.name
    }

    pub fn get_data(&self) -> (r: Option<PropertyData>)
        ensures
            r == self.data,
    {
        self.data
    }

    /// The playback position the notification carries, if it carries one.
    pub fn time_pos(&self) -> (r: Option<u64>)
        ensures
            r == (match self.data {
                Some(PropertyData::TimePos(t)) => Some(t),
                _ => None::<u64>,
            }),
    {
        match self.data {
            Some(PropertyData::TimePos(t)) => Some(t),
            _ => None,
        }
    }

    /// The flag value the notification carries, if it carries one.
    pub fn flag(&self) -> (r: Option<bool>)
        ensures
            r == (match self.data {
                Some(PropertyData::Flag(b)) => Some(b),
                _ => None::<bool>,
            }),
    {
        match self.data {
            Some(PropertyData::Flag(b)) => Some(b),
            _ => None,
        }
    }
}

/// Payload of a start-file notification.
pub struct EventStartFile {
    pub playlist_entry_id: u64,
}

impl EventStartFile {
    pub fn get_playlist_entry_id(&self) -> (r: u64)
        ensures
            r == self.playlist_entry_id,
    {
        self.playlist_entry_id
    }
}

/// Payload of a hook notification.
pub struct EventHook {
    pub name: String,
    pub id: u64,
}

impl EventHook {
    pub fn get_name(&self) -> (r: &String)
        ensures
            r@ == self.name@,
    {
        &self.name
    }

    pub fn get_id(&self) -> (r: u64)
        ensures
            r == self.id,
    {
        self.id
    }
}

/// One notification from the host event loop, already decoded to plain
/// values by the embedding layer.
pub enum Event {
    /// Empty notification: nothing happened within the host's wait timeout.
    NoEvent,
    Shutdown,
    LogMessage,
    GetPropertyReply(EventProperty),
    SetPropertyReply,
    CommandReply,
    StartFile(EventStartFile),
    EndFile,
    FileLoaded,
    /// The message's arguments, such as a key-binding invocation.
    ClientMessage(Vec<String>),
    VideoReconfig,
    AudioReconfig,
    Seek,
    PlaybackRestart,
    PropertyChange(EventProperty),
    QueueOverflow,
    Hook(EventHook),
}

/// One mutation or control request addressed to the embedding layer, to be
/// performed against the host player or the fetch worker.
#[derive(Clone, Debug, PartialEq)]
pub enum HostAction {
    /// Subscribe to playback-position updates under the reply id.
    ObserveTimePos { reply: u64 },
    /// Subscribe to mute-flag updates under the reply id.
    ObserveMute { reply: u64 },
    /// Drop the subscription registered under the reply id.
    UnobserveProperty { reply: u64 },
    /// Seek to the position, in milliseconds.
    SetTimePos { time_pos: u64 },
    /// Set the host's mute flag.
    SetMute { value: bool },
    /// Show free-form text on screen for the duration, in milliseconds.
    ShowText { text: String, duration_ms: u64 },
    /// Announce that the segment was skipped.
    ShowSkipNotice { segment: Segment },
    /// Announce that the segment is being muted.
    ShowMuteNotice { segment: Segment },
    /// Announce a jump to the highlight at the position, in milliseconds.
    ShowPoiNotice { time_pos: u64 },
    /// Announce that the whole video belongs to the category.
    ShowCategoryNotice { category: Category },
    /// Spawn the fetch worker for the video identifier.
    StartWorker { video_id: String },
    /// Cancel the fetch worker and wait for it to stop.
    StopWorker,
    /// Let the host continue past the hook with the given id.
    HookContinue { id: u64 },
}

/// Capability standing for one host client connection.  It carries the
/// connection's raw address word and records, oldest first, the actions the
/// engine asks the embedder to perform.
pub struct Handle {
    /// Nonzero address word identifying the underlying host client.
    pub raw: usize,
    /// Actions requested since the embedder last drained them.
    pub actions: Vec<HostAction>,
}

impl Handle {
    /// Wrap a host client handle; the host never hands out a null one.
    pub fn from_ptr(raw: usize) -> (r: Handle)
        requires
            raw != 0,
        ensures
            r.raw == raw,
            r.actions@ == Seq::<HostAction>::empty(),
    {
        Handle { raw, actions: Vec::new() }
    }

    /// Hand the recorded actions to the embedder, leaving the queue empty.
    pub fn take_actions(&mut self) -> (r: Vec<HostAction>)
        ensures
            r@ == old(self).actions@,
            final(self).actions@ == Seq::<HostAction>::empty(),
            final(self).raw == old(self).raw,
    {
        let mut drained: Vec<HostAction> = Vec::new();
        core::mem::swap(&mut drained, &mut self.actions);
        drained
    }

    /// Ask the host to show `text` for the duration.
    pub fn osd_message(&mut self, text: String, duration_ms: u64)
        ensures
            final(self).raw == old(self).raw,
            final(self).actions@ == old(self).actions@.push(
                HostAction::ShowText { text, duration_ms },
            ),
    {
        self.actions.push(HostAction::ShowText { text, duration_ms });
    }

    /// Ask the host to continue past the hook.
    pub fn hook_continue(&mut self, id: u64)
        ensures
            final(self).raw == old(self).raw,
            final(self).actions@ == old(self).actions@.push(HostAction::HookContinue { id }),
    {
        self.actions.push(HostAction::HookContinue { id });
    }

    /// Subscribe to playback-position updates.
    pub fn observe_time_pos(&mut self, reply: u64)
        ensures
            final(self).raw == old(self).raw,
            final(self).actions@ == old(self).actions@.push(HostAction::ObserveTimePos { reply }),
    {
        self.actions.push(HostAction::ObserveTimePos { reply });
    }

    /// Subscribe to mute-flag updates.
    pub fn observe_mute(&mut self, reply: u64)
        ensures
            final(self).raw == old(self).raw,
            final(self).actions@ == old(self).actions@.push(HostAction::ObserveMute { reply }),
    {
        self.actions.push(HostAction::ObserveMute { reply });
    }

    /// Drop a property subscription.
    pub fn unobserve_property(&mut self, reply: u64)
        ensures
            final(self).raw == old(self).raw,
            final(self).actions@ == old(self).actions@.push(
                HostAction::UnobserveProperty { reply },
            ),
    {
        self.actions.push(HostAction::UnobserveProperty { reply });
    }

    /// Seek to the position, in milliseconds.
    pub fn set_time_pos(&mut self, time_pos: u64)
        ensures
            final(self).raw == old(self).raw,
            final(self).actions@ == old(self).actions@.push(HostAction::SetTimePos { time_pos }),
    {
        self.actions.push(HostAction::SetTimePos { time_pos });
    }

    /// Set the host's mute flag.
    pub fn set_mute(&mut self, value: bool)
        ensures
            final(self).raw == old(self).raw,
            final(self).actions@ == old(self).actions@.push(HostAction::SetMute { value }),
    {
        self.actions.push(HostAction::SetMute { value });
    }

    /// Announce that `segment` was skipped.
    pub fn show_skip_notice(&mut self, segment: Segment)
        ensures
            final(self).raw == old(self).raw,
            final(self).actions@ == old(self).actions@.push(HostAction::ShowSkipNotice { segment }),
    {
        self.actions.push(HostAction::ShowSkipNotice { segment });
    }

    /// Announce that `segment` is being muted.
    pub fn show_mute_notice(&mut self, segment: Segment)
        ensures
            final(self).raw == old(self).raw,
            final(self).actions@ == old(self).actions@.push(HostAction::ShowMuteNotice { segment }),
    {
        self.actions.push(HostAction::ShowMuteNotice { segment });
    }

    /// Announce a jump to the highlight.
    pub fn show_poi_notice(&mut self, time_pos: u64)
        ensures
            final(self).raw == old(self).raw,
            final(self).actions@ == old(self).actions@.push(HostAction::ShowPoiNotice { time_pos }),
    {
        self.actions.push(HostAction::ShowPoiNotice { time_pos });
    }

    /// Announce the whole-video category.
    pub fn show_category_notice(&mut self, category: Category)
        ensures
            final(self).raw == old(self).raw,
            final(self).actions@ == old(self).actions@.push(
                HostAction::ShowCategoryNotice { category },
            ),
    {
        self.actions.push(HostAction::ShowCategoryNotice { category });
    }

    /// Spawn the fetch worker for the video identifier.
    pub fn start_worker(&mut self, video_id: String)
        ensures
            final(self).raw == old(self).raw,
            final(self).actions@ == old(self).actions@.push(HostAction::StartWorker { video_id }),
    {
        self.actions.push(HostAction::StartWorker { video_id });
    }

    /// Cancel the fetch worker and wait for it to stop.
    pub fn stop_worker(&mut self)
        ensures
            final(self).raw == old(self).raw,
            final(self).actions@ == old(self).actions@.push(HostAction::StopWorker),
    {
        self.actions.push(HostAction::StopWorker);
    }
}

} // verus!
