//! The interfaces a plugin implements, and the small conversions the
//! boundary applies to raw host values.
use vstd::prelude::*;
use crate::text::ReceivedData;
use crate::types::{
    ChannelIdT, ConnectionT, ErrorT, PluginId, TalkingStateT, UserIdT, Version,
    PLUGIN_API_VERSION_MAJOR, PLUGIN_API_VERSION_MINOR, PLUGIN_API_VERSION_PATCH,
};

verus! {

/// The hooks the host calls on a running plugin. Every hook but `shutdown`
/// does nothing by default, so a plugin implements only what it cares about.
///
/// An audio hook hands the plugin the host's interleaved sample buffer in
/// place and returns whether the plugin changed it; a plugin that answers
/// "not changed" must leave the buffer as it was.
pub trait MumblePlugin {
    fn shutdown(&self);

    fn on_server_connected(&mut self, conn: ConnectionT) {
    }

    fn on_server_disconnected(&mut self, conn: ConnectionT) {
    }

    fn on_server_synchronized(&mut self, conn: ConnectionT) {
    }

    /// `previous` is `None` when the user just joined the server, `current`
    /// when the user left it.
    fn on_channel_entered(
        &mut self,
        conn: ConnectionT,
        user: UserIdT,
        previous: Option<ChannelIdT>,
        current: Option<ChannelIdT>,
    ) {
    }

    fn on_channel_exited(&mut self, conn: ConnectionT, user: UserIdT, channel: Option<ChannelIdT>) {
    }

    fn on_user_talking_state_changed(
        &mut self,
        conn: ConnectionT,
        user: UserIdT,
        talking_state: TalkingStateT,
    ) {
    }

    /// Microphone input; `pcm` holds `sample_count * channel_count` samples.
    fn on_audio_input(
        &mut self,
        pcm: &mut [i16],
        sample_count: u32,
        channel_count: u16,
        is_speech: bool,
    ) -> (mutated: bool)
        ensures
            !mutated ==> final(pcm)@ == old(pcm)@,
    {
        false
    }

    /// Data another client sent; `data` decodes the payload only when asked.
    /// Returns whether this plugin consumed the data.
    fn on_receive_data(
        &mut self,
        conn: ConnectionT,
        sender: UserIdT,
        data_id: &str,
        data: &ReceivedData,
    ) -> bool {
        false
    }

    fn on_user_added(&mut self, conn: ConnectionT, user: UserIdT) {
    }

    fn on_user_removed(&mut self, conn: ConnectionT, user: UserIdT) {
    }

    fn on_channel_added(&mut self, conn: ConnectionT, channel: Option<ChannelIdT>) {
    }

    fn on_channel_removed(&mut self, conn: ConnectionT, channel: Option<ChannelIdT>) {
    }

    fn on_channel_renamed(&mut self, conn: ConnectionT, channel: Option<ChannelIdT>) {
    }

    fn on_key_event(&mut self, key_code: u32, pressed: bool) {
    }
}

/// The audio-output hooks, over the host's output sample type `S`.
pub trait MumbleOutputAudio<S> {
    /// Audio of one source before mixing; `user_id` is the speaking user, when
    /// the audio is speech from a known user.
    fn on_audio_source_fetched(
        &mut self,
        pcm: &mut [S],
        sample_count: u32,
        channel_count: u16,
        sample_rate: u32,
        is_speech: bool,
        user_id: Option<UserIdT>,
    ) -> (mutated: bool)
        ensures
            !mutated ==> final(pcm)@ == old(pcm)@,
    {
        false
    }

    /// The mixed output just before it is played.
    fn on_audio_output_about_to_play(
        &mut self,
        pcm: &mut [S],
        sample_count: u32,
        channel_count: u16,
    ) -> (mutated: bool)
        ensures
            !mutated ==> final(pcm)@ == old(pcm)@,
    {
        false
    }
}

/// An optional capability: telling the host about newer plugin versions.
pub trait MumblePluginUpdater {
    fn has_update(&mut self) -> bool {
        false
    }

    fn get_update_download_url(&mut self) -> String {
        String::new()
    }
}

/// What the host asks of a plugin type before it runs: its metadata, and how
/// to build it once both its identity and the host's table `H` are known.
pub trait MumblePluginDescriptor<H>: MumblePlugin + Sized {
    fn name() -> &'static str;

    fn author() -> &'static str;

    fn description() -> &'static str;

    fn version() -> Version {
        Version { major: 0, minor: 0, patch: 1 }
    }

    /// The host interface version the plugin is written against.
    fn api_version() -> Version {
        Version {
            major: PLUGIN_API_VERSION_MAJOR,
            minor: PLUGIN_API_VERSION_MINOR,
            patch: PLUGIN_API_VERSION_PATCH,
        }
    }

    /// Builds the plugin; a failure status is handed back to the host.
    fn init(id: PluginId, api: H) -> Result<Self, ErrorT>;
}

/// A handle type whose raw encoding reserves values meaning "none".
pub trait CheckableId where Self: Sized {
    spec fn spec_check(self) -> Option<Self>;

    /// The handle, or `None` when the raw value is a "none" sentinel.
    fn check(self) -> (r: Option<Self>)
        ensures
            r == self.spec_check(),
    ;
}

/// A status value that can be read as a `Result`.
pub trait ErrAsResult where Self: Sized {
    type ErrType;

    spec fn spec_resultify(self) -> Result<Self, Self::ErrType>;

    /// `Ok(self)` on success, the failure otherwise.
    fn resultify(self) -> (r: Result<Self, Self::ErrType>)
        ensures
            r == self.spec_resultify(),
    ;
}

} // verus!
