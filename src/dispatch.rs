//! Routing of host hook calls into the active plugin, with the translation of
//! raw parameters: sentinel handles become `Option`s, raw buffers arrive as
//! slices over the host's memory, payloads are decoded only on demand.
use vstd::prelude::*;
use crate::registry::{HookAnswer, HookCall, Lifecycle, PluginRegistry};
use crate::status::spec_channel;
use crate::text::ReceivedData;
use crate::traits::{
    CheckableId, MumbleOutputAudio, MumblePlugin, MumblePluginDescriptor, MumblePluginUpdater,
};
use crate::types::{ChannelIdT, ConnectionT, TalkingStateT, UserIdT};

verus! {

/// The speaking user of a fetched audio source: known only for speech, and
/// only when the host gave a non-zero identity.
pub open spec fn spec_speaking_user(is_speech: bool, user_id: UserIdT) -> Option<UserIdT> {
    if is_speech && user_id.0 != 0 {
        Some(user_id)
    } else {
        None
    }
}

pub fn speaking_user(is_speech: bool, user_id: UserIdT) -> (r: Option<UserIdT>)
    ensures
        r == spec_speaking_user(is_speech, user_id),
{
    if is_speech && user_id.0 != 0 {
        Some(user_id)
    } else {
        None
    }
}

/// The number of interleaved samples in a buffer of `sample_count` frames of
/// `channel_count` channels; `None` when it does not fit in `usize`.
pub fn pcm_length(sample_count: u32, channel_count: u16) -> (r: Option<usize>)
    ensures
        match r {
            Some(n) => n == sample_count as int * channel_count as int,
            None => sample_count as int * channel_count as int > usize::MAX,
        },
{
    let frames = sample_count as u64;
    let channels = channel_count as u64;
    assert(frames * channels <= 0xffff_ffff_ffff) by (nonlinear_arith)
        requires
            frames <= 0xffff_ffff,
            channels <= 0xffff,
    ;
    let total = frames * channels;
    if total > usize::MAX as u64 {
        None
    } else {
        Some(total as usize)
    }
}

impl<P: MumblePluginDescriptor<H>, H: Copy> PluginRegistry<P, H> {
    /// The plugin's hook gets the connection as the host gave it.
    pub fn on_server_connected(&mut self, conn: ConnectionT)
        requires
            old(self).wf(),
            old(self).phase() == Lifecycle::Active,
        ensures
            final(self).after_hook(old(self)),
            final(self).hooks() == old(self).hooks().push((HookCall::ServerConnected(conn), HookAnswer::Done)),
    {
        self.plugin_mut().on_server_connected(conn);
        self.note_hook(Ghost(HookCall::ServerConnected(conn)), Ghost(HookAnswer::Done));
    }

    pub fn on_server_disconnected(&mut self, conn: ConnectionT)
        requires
            old(self).wf(),
            old(self).phase() == Lifecycle::Active,
        ensures
            final(self).after_hook(old(self)),
            final(self).hooks() == old(self).hooks().push((HookCall::ServerDisconnected(conn), HookAnswer::Done)),
    {
        self.plugin_mut().on_server_disconnected(conn);
        self.note_hook(Ghost(HookCall::ServerDisconnected(conn)), Ghost(HookAnswer::Done));
    }

    pub fn on_server_synchronized(&mut self, conn: ConnectionT)
        requires
            old(self).wf(),
            old(self).phase() == Lifecycle::Active,
        ensures
            final(self).after_hook(old(self)),
            final(self).hooks() == old(self).hooks().push((HookCall::ServerSynchronized(conn), HookAnswer::Done)),
    {
        self.plugin_mut().on_server_synchronized(conn);
        self.note_hook(Ghost(HookCall::ServerSynchronized(conn)), Ghost(HookAnswer::Done));
    }

    /// A user moved from channel `previous` to `current`; each handle is
    /// decoded on its own, the "no channel" sentinel becoming `None`.
    pub fn on_channel_entered(&mut self, conn: ConnectionT, user: UserIdT, previous: ChannelIdT, current: ChannelIdT)
        requires
            old(self).wf(),
            old(self).phase() == Lifecycle::Active,
        ensures
            final(self).after_hook(old(self)),
            final(self).hooks() == old(self).hooks().push((HookCall::ChannelEntered(conn, user, spec_channel(previous), spec_channel(current)), HookAnswer::Done)),
    {
        let previous = previous.check();
        let current = current.check();
        self.plugin_mut().on_channel_entered(conn, user, previous, current);
        self.note_hook(Ghost(HookCall::ChannelEntered(conn, user, previous, current)), Ghost(HookAnswer::Done));
    }

    pub fn on_channel_exited(&mut self, conn: ConnectionT, user: UserIdT, exited: ChannelIdT)
        requires
            old(self).wf(),
            old(self).phase() == Lifecycle::Active,
        ensures
            final(self).after_hook(old(self)),
            final(self).hooks() == old(self).hooks().push((HookCall::ChannelExited(conn, user, spec_channel(exited)), HookAnswer::Done)),
    {
        let exited = exited.check();
        self.plugin_mut().on_channel_exited(conn, user, exited);
        self.note_hook(Ghost(HookCall::ChannelExited(conn, user, exited)), Ghost(HookAnswer::Done));
    }

    /// The handles and the state reach the plugin unchanged.
    pub fn on_user_talking_state_changed(&mut self, conn: ConnectionT, user: UserIdT, talking_state: TalkingStateT)
        requires
            old(self).wf(),
            old(self).phase() == Lifecycle::Active,
        ensures
            final(self).after_hook(old(self)),
            final(self).hooks() == old(self).hooks().push((HookCall::UserTalkingStateChanged(conn, user, talking_state), HookAnswer::Done)),
    {
        self.plugin_mut().on_user_talking_state_changed(conn, user, talking_state);
        self.note_hook(Ghost(HookCall::UserTalkingStateChanged(conn, user, talking_state)), Ghost(HookAnswer::Done));
    }

    /// Microphone input, in place: the plugin's hook gets the host's buffer
    /// itself and its answer is returned. When it reports no change, the
    /// buffer is exactly as the host passed it.
    pub fn on_audio_input(
        &mut self,
        pcm: &mut [i16],
        sample_count: u32,
        channel_count: u16,
        is_speech: bool,
    ) -> (mutated: bool)
        requires
            old(self).wf(),
            old(self).phase() == Lifecycle::Active,
            old(pcm)@.len() == sample_count as int * channel_count as int,
        ensures
            final(self).after_hook(old(self)),
            final(self).hooks() == old(self).hooks().push(
                (
                    HookCall::AudioInput(old(pcm)@, sample_count, channel_count, is_speech),
                    HookAnswer::Flag(mutated),
                ),
            ),
            !mutated ==> final(pcm)@ == old(pcm)@,
    {
        let ghost before = pcm@;
        let mutated = self.plugin_mut().on_audio_input(pcm, sample_count, channel_count, is_speech);
        self.note_hook(
            Ghost(HookCall::AudioInput(before, sample_count, channel_count, is_speech)),
            Ghost(HookAnswer::Flag(mutated)),
        );
        mutated
    }

    /// One source's audio before mixing, in place; the speaking user is
    /// passed only for speech from a known user, and the plugin's answer is
    /// returned.
    pub fn on_audio_source_fetched<S>(
        &mut self,
        pcm: &mut [S],
        sample_count: u32,
        channel_count: u16,
        sample_rate: u32,
        is_speech: bool,
        user_id: UserIdT,
    ) -> (mutated: bool) where P: MumbleOutputAudio<S>
        requires
            old(self).wf(),
            old(self).phase() == Lifecycle::Active,
            old(pcm)@.len() == sample_count as int * channel_count as int,
        ensures
            final(self).after_hook(old(self)),
            final(self).hooks() == old(self).hooks().push(
                (
                    HookCall::AudioSourceFetched(
                        old(pcm)@.len(),
                        sample_count,
                        channel_count,
                        sample_rate,
                        is_speech,
                        spec_speaking_user(is_speech, user_id),
                    ),
                    HookAnswer::Flag(mutated),
                ),
            ),
            !mutated ==> final(pcm)@ == old(pcm)@,
    {
        let ghost len = pcm@.len();
        let speaker = speaking_user(is_speech, user_id);
        let mutated = self.plugin_mut().on_audio_source_fetched(
            pcm,
            sample_count,
            channel_count,
            sample_rate,
            is_speech,
            speaker,
        );
        self.note_hook(
            Ghost(
                HookCall::AudioSourceFetched(
                    len,
                    sample_count,
                    channel_count,
                    sample_rate,
                    is_speech,
                    speaker,
                ),
            ),
            Ghost(HookAnswer::Flag(mutated)),
        );
        mutated
    }

    /// The mixed output before it plays, in place; the plugin's answer is
    /// returned.
    pub fn on_audio_output_about_to_play<S>(
        &mut self,
        pcm: &mut [S],
        sample_count: u32,
        channel_count: u16,
    ) -> (mutated: bool) where P: MumbleOutputAudio<S>
        requires
            old(self).wf(),
            old(self).phase() == Lifecycle::Active,
            old(pcm)@.len() == sample_count as int * channel_count as int,
        ensures
            final(self).after_hook(old(self)),
            final(self).hooks() == old(self).hooks().push(
                (
                    HookCall::AudioOutputAboutToPlay(old(pcm)@.len(), sample_count, channel_count),
                    HookAnswer::Flag(mutated),
                ),
            ),
            !mutated ==> final(pcm)@ == old(pcm)@,
    {
        let ghost len = pcm@.len();
        let mutated = self.plugin_mut().on_audio_output_about_to_play(pcm, sample_count, channel_count);
        self.note_hook(
            Ghost(HookCall::AudioOutputAboutToPlay(len, sample_count, channel_count)),
            Ghost(HookAnswer::Flag(mutated)),
        );
        mutated
    }

    /// Data from another client: the plugin's hook gets the connection, the
    /// sender, the data tag and the host's NUL-terminated payload undecoded,
    /// as a `ReceivedData` over exactly `data`. Returns the plugin's answer,
    /// whether it consumed the data.
    pub fn on_receive_data(
        &mut self,
        conn: ConnectionT,
        sender: UserIdT,
        data: &[u8],
        data_id: &str,
    ) -> (consumed: bool)
        requires
            old(self).wf(),
            old(self).phase() == Lifecycle::Active,
        ensures
            final(self).after_hook(old(self)),
            final(self).hooks() == old(self).hooks().push(
                (HookCall::ReceiveData(conn, sender, data_id@, data@), HookAnswer::Flag(consumed)),
            ),
    {
        let payload = ReceivedData::new(data);
        let consumed = self.plugin_mut().on_receive_data(conn, sender, data_id, &payload);
        self.note_hook(
            Ghost(HookCall::ReceiveData(conn, sender, data_id@, payload.bytes())),
            Ghost(HookAnswer::Flag(consumed)),
        );
        consumed
    }

    pub fn on_user_added(&mut self, conn: ConnectionT, user: UserIdT)
        requires
            old(self).wf(),
            old(self).phase() == Lifecycle::Active,
        ensures
            final(self).after_hook(old(self)),
            final(self).hooks() == old(self).hooks().push((HookCall::UserAdded(conn, user), HookAnswer::Done)),
    {
        self.plugin_mut().on_user_added(conn, user);
        self.note_hook(Ghost(HookCall::UserAdded(conn, user)), Ghost(HookAnswer::Done));
    }

    pub fn on_user_removed(&mut self, conn: ConnectionT, user: UserIdT)
        requires
            old(self).wf(),
            old(self).phase() == Lifecycle::Active,
        ensures
            final(self).after_hook(old(self)),
            final(self).hooks() == old(self).hooks().push((HookCall::UserRemoved(conn, user), HookAnswer::Done)),
    {
        self.plugin_mut().on_user_removed(conn, user);
        self.note_hook(Ghost(HookCall::UserRemoved(conn, user)), Ghost(HookAnswer::Done));
    }

    pub fn on_channel_added(&mut self, conn: ConnectionT, channel: ChannelIdT)
        requires
            old(self).wf(),
            old(self).phase() == Lifecycle::Active,
        ensures
            final(self).after_hook(old(self)),
            final(self).hooks() == old(self).hooks().push((HookCall::ChannelAdded(conn, spec_channel(channel)), HookAnswer::Done)),
    {
        let channel = channel.check();
        self.plugin_mut().on_channel_added(conn, channel);
        self.note_hook(Ghost(HookCall::ChannelAdded(conn, channel)), Ghost(HookAnswer::Done));
    }

    pub fn on_channel_removed(&mut self, conn: ConnectionT, channel: ChannelIdT)
        requires
            old(self).wf(),
            old(self).phase() == Lifecycle::Active,
        ensures
            final(self).after_hook(old(self)),
            final(self).hooks() == old(self).hooks().push((HookCall::ChannelRemoved(conn, spec_channel(channel)), HookAnswer::Done)),
    {
        let channel = channel.check();
        self.plugin_mut().on_channel_removed(conn, channel);
        self.note_hook(Ghost(HookCall::ChannelRemoved(conn, channel)), Ghost(HookAnswer::Done));
    }

    pub fn on_channel_renamed(&mut self, conn: ConnectionT, channel: ChannelIdT)
        requires
            old(self).wf(),
            old(self).phase() == Lifecycle::Active,
        ensures
            final(self).after_hook(old(self)),
            final(self).hooks() == old(self).hooks().push((HookCall::ChannelRenamed(conn, spec_channel(channel)), HookAnswer::Done)),
    {
        let channel = channel.check();
        self.plugin_mut().on_channel_renamed(conn, channel);
        self.note_hook(Ghost(HookCall::ChannelRenamed(conn, channel)), Ghost(HookAnswer::Done));
    }

    pub fn on_key_event(&mut self, key_code: u32, pressed: bool)
        requires
            old(self).wf(),
            old(self).phase() == Lifecycle::Active,
        ensures
            final(self).after_hook(old(self)),
            final(self).hooks() == old(self).hooks().push((HookCall::KeyEvent(key_code, pressed), HookAnswer::Done)),
    {
        self.plugin_mut().on_key_event(key_code, pressed);
        self.note_hook(Ghost(HookCall::KeyEvent(key_code, pressed)), Ghost(HookAnswer::Done));
    }

    /// Whether the active plugin, as its own updater, knows of a newer
    /// version: its answer.
    pub fn has_update(&mut self) -> (r: bool) where P: MumblePluginUpdater
        requires
            old(self).wf(),
            old(self).phase() == Lifecycle::Active,
        ensures
            final(self).after_hook(old(self)),
            final(self).hooks() == old(self).hooks().push((HookCall::HasUpdate, HookAnswer::Flag(r))),
    {
        let r = has_update(Some(self.plugin_mut()));
        self.note_hook(Ghost(HookCall::HasUpdate), Ghost(HookAnswer::Flag(r)));
        r
    }

    /// Answers the host's request for the update URL from the active plugin,
    /// as `get_update_download_url` does.
    pub fn get_update_download_url(&mut self, buffer: &mut [u8], offset: usize) -> (complete: bool) where
        P: MumblePluginUpdater,
        requires
            old(self).wf(),
            old(self).phase() == Lifecycle::Active,
            old(buffer)@.len() >= 1,
        ensures
            final(self).after_hook(old(self)),
            final(self).hooks() == old(self).hooks().push(
                (HookCall::UpdateDownloadUrl(old(buffer)@.len(), offset), HookAnswer::Flag(complete)),
            ),
            final(buffer)@.len() == old(buffer)@.len(),
    {
        let ghost len = buffer@.len();
        let complete = get_update_download_url(Some(self.plugin_mut()), buffer, offset);
        self.note_hook(Ghost(HookCall::UpdateDownloadUrl(len, offset)), Ghost(HookAnswer::Flag(complete)));
        complete
    }
}

/// Whether a newer plugin version exists; without an updater, no.
pub fn has_update<U: MumblePluginUpdater>(updater: Option<&mut U>) -> (r: bool)
    ensures
        updater is None ==> !r,
{
    match updater {
        Some(u) => u.has_update(),
        None => false,
    }
}

/// The part of `url` from `offset` on that a buffer of `capacity` bytes can
/// hold next to its terminating NUL.
pub open spec fn spec_url_chunk(url: Seq<u8>, offset: int, capacity: int) -> Seq<u8> {
    if offset >= url.len() {
        Seq::empty()
    } else if url.len() - offset <= capacity - 1 {
        url.subrange(offset, url.len() as int)
    } else {
        url.subrange(offset, offset + capacity - 1)
    }
}

/// Copies the part of `url` from `offset` on into `buffer`, as much as fits,
/// followed by a NUL. Returns whether the rest of the URL fit completely.
pub fn write_url_chunk(url: &[u8], offset: usize, buffer: &mut [u8]) -> (complete: bool)
    requires
        old(buffer)@.len() >= 1,
    ensures
        ({
            let chunk = spec_url_chunk(url@, offset as int, old(buffer)@.len() as int);
            &&& final(buffer)@.len() == old(buffer)@.len()
            &&& forall|j: int| 0 <= j < chunk.len() ==> #[trigger] final(buffer)@[j] == chunk[j]
            &&& final(buffer)@[chunk.len() as int] == 0u8
            &&& forall|j: int|
                chunk.len() < j < old(buffer)@.len() ==> #[trigger] final(buffer)@[j] == old(
                    buffer,
                )@[j]
        }),
        complete == (offset >= url@.len() || url@.len() - offset <= old(buffer)@.len() - 1),
{
    let cap = buffer.len();
    let ghost chunk = spec_url_chunk(url@, offset as int, cap as int);
    if offset >= url.len() {
        buffer[0] = 0u8;
        return true;
    }
    let rest = url.len() - offset;
    let n = if rest <= cap - 1 {
        rest
    } else {
        cap - 1
    };
    assert(chunk =~= url@.subrange(offset as int, offset + n));
    let mut i: usize = 0;
    while i < n
        invariant
            n < cap,
            cap == buffer@.len(),
            offset + n <= url@.len(),
            url@.len() == url.len(),
            0 <= i <= n,
            forall|j: int| 0 <= j < i ==> buffer@[j] == url@[offset + j],
            forall|j: int| i <= j < cap ==> buffer@[j] == old(buffer)@[j],
        decreases n - i,
    {
        buffer[i] = url[offset + i];
        i = i + 1;
    }
    buffer[n] = 0u8;
    rest <= cap - 1
}

/// Answers the host's request for the update URL, from `offset` on, into
/// `buffer`. Without an updater the URL is empty: the buffer gets a lone NUL
/// and the answer is complete.
pub fn get_update_download_url<U: MumblePluginUpdater>(
    updater: Option<&mut U>,
    buffer: &mut [u8],
    offset: usize,
) -> (complete: bool)
    requires
        old(buffer)@.len() >= 1,
    ensures
        final(buffer)@.len() == old(buffer)@.len(),
        updater is None ==> complete && final(buffer)@[0] == 0u8,
{
    match updater {
        Some(u) => {
            let url = u.get_update_download_url();
            let bytes = url.as_str().as_bytes_vec();
            write_url_chunk(bytes.as_slice(), offset, buffer)
        },
        None => {
            let empty: [u8; 0] = [];
            write_url_chunk(&empty, offset, buffer)
        },
    }
}

} // verus!
