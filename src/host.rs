//! The capability table the host hands to the plugin. `HostPort` is the raw
//! set of calls, with nothing assumed of what they return; `HostTable` makes
//! each call through the port and records it, with its arguments and the
//! host's answer, in a ghost log that the library's contracts speak of.
//! Pointers the host allocates are carried as addresses and must go back
//! through `free_memory`.
use vstd::prelude::*;
use crate::types::{
    ChannelIdT, ConnectionT, ErrorT, PluginId, TransmissionModeT, UserIdT,
};

verus! {

/// One method per host function, plus the three reads of host memory that
/// decoding a returned pointer needs. Every call takes the plugin's identity
/// first and reports a status; out-parameters are written through `&mut`.
/// Nothing is assumed of what any of them returns: the library treats every
/// status, address and count as arbitrary.
pub trait HostPort {
    fn get_active_server_connection(&self, id: PluginId, conn: &mut ConnectionT) -> ErrorT;

    fn is_connection_synchronized(
        &self,
        id: PluginId,
        conn: ConnectionT,
        synchronized: &mut bool,
    ) -> ErrorT;

    fn get_local_user_id(&self, id: PluginId, conn: ConnectionT, user: &mut UserIdT) -> ErrorT;

    fn get_user_name(
        &self,
        id: PluginId,
        conn: ConnectionT,
        user: UserIdT,
        name: &mut usize,
    ) -> ErrorT;

    fn get_channel_name(
        &self,
        id: PluginId,
        conn: ConnectionT,
        channel: ChannelIdT,
        name: &mut usize,
    ) -> ErrorT;

    fn get_all_users(
        &self,
        id: PluginId,
        conn: ConnectionT,
        users: &mut usize,
        count: &mut usize,
    ) -> ErrorT;

    fn get_all_channels(
        &self,
        id: PluginId,
        conn: ConnectionT,
        channels: &mut usize,
        count: &mut usize,
    ) -> ErrorT;

    fn get_channel_of_user(
        &self,
        id: PluginId,
        conn: ConnectionT,
        user: UserIdT,
        channel: &mut ChannelIdT,
    ) -> ErrorT;

    fn get_users_in_channel(
        &self,
        id: PluginId,
        conn: ConnectionT,
        channel: ChannelIdT,
        users: &mut usize,
        count: &mut usize,
    ) -> ErrorT;

    fn get_local_user_transmission_mode(&self, id: PluginId, mode: &mut TransmissionModeT) -> ErrorT;

    fn is_user_locally_muted(
        &self,
        id: PluginId,
        conn: ConnectionT,
        user: UserIdT,
        muted: &mut bool,
    ) -> ErrorT;

    fn is_local_user_muted(&self, id: PluginId, muted: &mut bool) -> ErrorT;

    fn get_user_hash(
        &self,
        id: PluginId,
        conn: ConnectionT,
        user: UserIdT,
        hash: &mut usize,
    ) -> ErrorT;

    fn get_server_hash(&self, id: PluginId, conn: ConnectionT, hash: &mut usize) -> ErrorT;

    fn get_user_comment(
        &self,
        id: PluginId,
        conn: ConnectionT,
        user: UserIdT,
        comment: &mut usize,
    ) -> ErrorT;

    fn get_channel_description(
        &self,
        id: PluginId,
        conn: ConnectionT,
        channel: ChannelIdT,
        description: &mut usize,
    ) -> ErrorT;

    fn request_local_user_transmission_mode(&self, id: PluginId, mode: TransmissionModeT) -> ErrorT;

    /// `password` holds no NUL character.
    fn request_user_move(
        &self,
        id: PluginId,
        conn: ConnectionT,
        user: UserIdT,
        channel: ChannelIdT,
        password: Option<&str>,
    ) -> ErrorT;

    fn request_microphone_activation_overwrite(&self, id: PluginId, activated: bool) -> ErrorT;

    fn request_local_mute(
        &self,
        id: PluginId,
        conn: ConnectionT,
        user: UserIdT,
        muted: bool,
    ) -> ErrorT;

    fn request_local_user_mute(&self, id: PluginId, muted: bool) -> ErrorT;

    /// `comment` holds no NUL character.
    fn request_set_local_user_comment(&self, id: PluginId, conn: ConnectionT, comment: &str) -> ErrorT;

    /// `name` holds no NUL character.
    fn find_user_by_name(
        &self,
        id: PluginId,
        conn: ConnectionT,
        name: &str,
        user: &mut UserIdT,
    ) -> ErrorT;

    /// `name` holds no NUL character.
    fn find_channel_by_name(
        &self,
        id: PluginId,
        conn: ConnectionT,
        name: &str,
        channel: &mut ChannelIdT,
    ) -> ErrorT;

    /// `data` and `data_id` hold no NUL character.
    fn send_data(
        &self,
        id: PluginId,
        conn: ConnectionT,
        users: &[UserIdT],
        data: &str,
        data_id: &str,
    ) -> ErrorT;

    /// `message` holds no NUL character.
    fn log(&self, id: PluginId, message: &str) -> ErrorT;

    /// `path` holds no NUL character.
    fn play_sample(&self, id: PluginId, path: &str) -> ErrorT;

    /// Gives host-allocated memory back to the host. The host guarantees that
    /// this succeeds; a binding treats any other status as fatal.
    fn free_memory(&self, id: PluginId, pointer: usize);

    /// The bytes of the NUL-terminated text at `pointer`, without the NUL.
    fn read_c_string(&self, pointer: usize) -> Vec<u8>;

    /// The `count` user handles stored at `pointer`.
    fn read_user_ids(&self, pointer: usize, count: usize) -> Vec<UserIdT>;

    /// The `count` channel handles stored at `pointer`.
    fn read_channel_ids(&self, pointer: usize, count: usize) -> Vec<ChannelIdT>;
}

/// A host function as it was called: the identity first, then the caller's
/// arguments, text as its characters.
pub ghost enum HostRequest {
    GetActiveServerConnection(PluginId),
    IsConnectionSynchronized(PluginId, ConnectionT),
    GetLocalUserId(PluginId, ConnectionT),
    GetUserName(PluginId, ConnectionT, UserIdT),
    GetChannelName(PluginId, ConnectionT, ChannelIdT),
    GetAllUsers(PluginId, ConnectionT),
    GetAllChannels(PluginId, ConnectionT),
    GetChannelOfUser(PluginId, ConnectionT, UserIdT),
    GetUsersInChannel(PluginId, ConnectionT, ChannelIdT),
    GetLocalUserTransmissionMode(PluginId),
    IsUserLocallyMuted(PluginId, ConnectionT, UserIdT),
    IsLocalUserMuted(PluginId),
    GetUserHash(PluginId, ConnectionT, UserIdT),
    GetServerHash(PluginId, ConnectionT),
    GetUserComment(PluginId, ConnectionT, UserIdT),
    GetChannelDescription(PluginId, ConnectionT, ChannelIdT),
    RequestLocalUserTransmissionMode(PluginId, TransmissionModeT),
    RequestUserMove(PluginId, ConnectionT, UserIdT, ChannelIdT, Option<Seq<char>>),
    RequestMicrophoneActivationOverwrite(PluginId, bool),
    RequestLocalMute(PluginId, ConnectionT, UserIdT, bool),
    RequestLocalUserMute(PluginId, bool),
    RequestSetLocalUserComment(PluginId, ConnectionT, Seq<char>),
    FindUserByName(PluginId, ConnectionT, Seq<char>),
    FindChannelByName(PluginId, ConnectionT, Seq<char>),
    SendData(PluginId, ConnectionT, Seq<UserIdT>, Seq<char>, Seq<char>),
    Log(PluginId, Seq<char>),
    PlaySample(PluginId, Seq<char>),
    FreeMemory(PluginId, usize),
    ReadCString(usize),
    ReadUserIds(usize, usize),
    ReadChannelIds(usize, usize),
}

/// A plain value a host function wrote to its out-parameter.
pub ghost enum HostValue {
    Connection(ConnectionT),
    Flag(bool),
    User(UserIdT),
    Channel(ChannelIdT),
    Mode(TransmissionModeT),
}

/// What the host answered to one call.
pub ghost enum HostAnswer {
    /// A status alone.
    Status(ErrorT),
    /// A status and the plain value written out.
    Value(ErrorT, HostValue),
    /// A status and the address of host-allocated memory written out.
    Pointer(ErrorT, usize),
    /// A status, the address of a host-allocated array and its length.
    Array(ErrorT, usize, usize),
    /// The memory was given back.
    Freed,
    /// Bytes read from host memory.
    Bytes(Seq<u8>),
    /// User handles read from host memory.
    Users(Seq<UserIdT>),
    /// Channel handles read from host memory.
    Channels(Seq<ChannelIdT>),
}

/// The host's table, used through its port; every call made through it is
/// appended to `calls`, together with the host's answer.
pub struct HostTable<P> {
    port: P,
    log: Ghost<Seq<(HostRequest, HostAnswer)>>,
}

impl<P: HostPort> HostTable<P> {
    /// The calls made through this table, in order, with their answers.
    pub closed spec fn calls(&self) -> Seq<(HostRequest, HostAnswer)> {
        self.log@
    }

    pub closed spec fn spec_port(&self) -> P {
        self.port
    }

    /// A table that calls `port`, with no call made yet.
    pub fn new(port: P) -> (r: Self)
        ensures
            r.calls() == Seq::<(HostRequest, HostAnswer)>::empty(),
            r.spec_port() == port,
    {
        HostTable { port, log: Ghost(Seq::empty()) }
    }

    pub fn port(&self) -> (r: &P)
        ensures
            *r == self.spec_port(),
    {
        &self.port
    }

    pub fn get_active_server_connection(&mut self, id: PluginId, conn: &mut ConnectionT) -> (r: ErrorT)
        ensures
            final(self).spec_port() == old(self).spec_port(),
            final(self).calls() == old(self).calls().push(
                (HostRequest::GetActiveServerConnection(id), HostAnswer::Value(r, HostValue::Connection(*final(conn)))),
            ),
    {
        let r = self.port.get_active_server_connection(id, conn);
        proof {
            self.log@ = self.log@.push(
                (HostRequest::GetActiveServerConnection(id), HostAnswer::Value(r, HostValue::Connection(*conn))),
            );
        }
        r
    }

    pub fn is_connection_synchronized(&mut self, id: PluginId, conn: ConnectionT, synchronized: &mut bool) -> (r: ErrorT)
        ensures
            final(self).spec_port() == old(self).spec_port(),
            final(self).calls() == old(self).calls().push(
                (HostRequest::IsConnectionSynchronized(id, conn), HostAnswer::Value(r, HostValue::Flag(*final(synchronized)))),
            ),
    {
        let r = self.port.is_connection_synchronized(id, conn, synchronized);
        proof {
            self.log@ = self.log@.push(
                (HostRequest::IsConnectionSynchronized(id, conn), HostAnswer::Value(r, HostValue::Flag(*synchronized))),
            );
        }
        r
    }

    pub fn get_local_user_id(&mut self, id: PluginId, conn: ConnectionT, user: &mut UserIdT) -> (r: ErrorT)
        ensures
            final(self).spec_port() == old(self).spec_port(),
            final(self).calls() == old(self).calls().push(
                (HostRequest::GetLocalUserId(id, conn), HostAnswer::Value(r, HostValue::User(*final(user)))),
            ),
    {
        let r = self.port.get_local_user_id(id, conn, user);
        proof {
            self.log@ = self.log@.push(
                (HostRequest::GetLocalUserId(id, conn), HostAnswer::Value(r, HostValue::User(*user))),
            );
        }
        r
    }

    pub fn get_user_name(&mut self, id: PluginId, conn: ConnectionT, user: UserIdT, name: &mut usize) -> (r: ErrorT)
        ensures
            final(self).spec_port() == old(self).spec_port(),
            final(self).calls() == old(self).calls().push(
                (HostRequest::GetUserName(id, conn, user), HostAnswer::Pointer(r, *final(name))),
            ),
    {
        let r = self.port.get_user_name(id, conn, user, name);
        proof {
            self.log@ = self.log@.push((HostRequest::GetUserName(id, conn, user), HostAnswer::Pointer(r, *name)));
        }
        r
    }

    pub fn get_channel_name(&mut self, id: PluginId, conn: ConnectionT, channel: ChannelIdT, name: &mut usize) -> (r: ErrorT)
        ensures
            final(self).spec_port() == old(self).spec_port(),
            final(self).calls() == old(self).calls().push(
                (HostRequest::GetChannelName(id, conn, channel), HostAnswer::Pointer(r, *final(name))),
            ),
    {
        let r = self.port.get_channel_name(id, conn, channel, name);
        proof {
            self.log@ = self.log@.push((HostRequest::GetChannelName(id, conn, channel), HostAnswer::Pointer(r, *name)));
        }
        r
    }

    pub fn get_all_users(&mut self, id: PluginId, conn: ConnectionT, users: &mut usize, count: &mut usize) -> (r: ErrorT)
        ensures
            final(self).spec_port() == old(self).spec_port(),
            final(self).calls() == old(self).calls().push(
                (HostRequest::GetAllUsers(id, conn), HostAnswer::Array(r, *final(users), *final(count))),
            ),
    {
        let r = self.port.get_all_users(id, conn, users, count);
        proof {
            self.log@ = self.log@.push((HostRequest::GetAllUsers(id, conn), HostAnswer::Array(r, *users, *count)));
        }
        r
    }

    pub fn get_all_channels(&mut self, id: PluginId, conn: ConnectionT, channels: &mut usize, count: &mut usize) -> (r: ErrorT)
        ensures
            final(self).spec_port() == old(self).spec_port(),
            final(self).calls() == old(self).calls().push(
                (HostRequest::GetAllChannels(id, conn), HostAnswer::Array(r, *final(channels), *final(count))),
            ),
    {
        let r = self.port.get_all_channels(id, conn, channels, count);
        proof {
            self.log@ = self.log@.push((HostRequest::GetAllChannels(id, conn), HostAnswer::Array(r, *channels, *count)));
        }
        r
    }

    pub fn get_channel_of_user(&mut self, id: PluginId, conn: ConnectionT, user: UserIdT, channel: &mut ChannelIdT) -> (r: ErrorT)
        ensures
            final(self).spec_port() == old(self).spec_port(),
            final(self).calls() == old(self).calls().push(
                (HostRequest::GetChannelOfUser(id, conn, user), HostAnswer::Value(r, HostValue::Channel(*final(channel)))),
            ),
    {
        let r = self.port.get_channel_of_user(id, conn, user, channel);
        proof {
            self.log@ = self.log@.push(
                (HostRequest::GetChannelOfUser(id, conn, user), HostAnswer::Value(r, HostValue::Channel(*channel))),
            );
        }
        r
    }

    pub fn get_users_in_channel(
        &mut self,
        id: PluginId,
        conn: ConnectionT,
        channel: ChannelIdT,
        users: &mut usize,
        count: &mut usize,
    ) -> (r: ErrorT)
        ensures
            final(self).spec_port() == old(self).spec_port(),
            final(self).calls() == old(self).calls().push(
                (HostRequest::GetUsersInChannel(id, conn, channel), HostAnswer::Array(r, *final(users), *final(count))),
            ),
    {
        let r = self.port.get_users_in_channel(id, conn, channel, users, count);
        proof {
            self.log@ = self.log@.push(
                (HostRequest::GetUsersInChannel(id, conn, channel), HostAnswer::Array(r, *users, *count)),
            );
        }
        r
    }

    pub fn get_local_user_transmission_mode(&mut self, id: PluginId, mode: &mut TransmissionModeT) -> (r: ErrorT)
        ensures
            final(self).spec_port() == old(self).spec_port(),
            final(self).calls() == old(self).calls().push(
                (HostRequest::GetLocalUserTransmissionMode(id), HostAnswer::Value(r, HostValue::Mode(*final(mode)))),
            ),
    {
        let r = self.port.get_local_user_transmission_mode(id, mode);
        proof {
            self.log@ = self.log@.push(
                (HostRequest::GetLocalUserTransmissionMode(id), HostAnswer::Value(r, HostValue::Mode(*mode))),
            );
        }
        r
    }

    pub fn is_user_locally_muted(&mut self, id: PluginId, conn: ConnectionT, user: UserIdT, muted: &mut bool) -> (r: ErrorT)
        ensures
            final(self).spec_port() == old(self).spec_port(),
            final(self).calls() == old(self).calls().push(
                (HostRequest::IsUserLocallyMuted(id, conn, user), HostAnswer::Value(r, HostValue::Flag(*final(muted)))),
            ),
    {
        let r = self.port.is_user_locally_muted(id, conn, user, muted);
        proof {
            self.log@ = self.log@.push(
                (HostRequest::IsUserLocallyMuted(id, conn, user), HostAnswer::Value(r, HostValue::Flag(*muted))),
            );
        }
        r
    }

    pub fn is_local_user_muted(&mut self, id: PluginId, muted: &mut bool) -> (r: ErrorT)
        ensures
            final(self).spec_port() == old(self).spec_port(),
            final(self).calls() == old(self).calls().push(
                (HostRequest::IsLocalUserMuted(id), HostAnswer::Value(r, HostValue::Flag(*final(muted)))),
            ),
    {
        let r = self.port.is_local_user_muted(id, muted);
        proof {
            self.log@ = self.log@.push((HostRequest::IsLocalUserMuted(id), HostAnswer::Value(r, HostValue::Flag(*muted))));
        }
        r
    }

    pub fn get_user_hash(&mut self, id: PluginId, conn: ConnectionT, user: UserIdT, hash: &mut usize) -> (r: ErrorT)
        ensures
            final(self).spec_port() == old(self).spec_port(),
            final(self).calls() == old(self).calls().push(
                (HostRequest::GetUserHash(id, conn, user), HostAnswer::Pointer(r, *final(hash))),
            ),
    {
        let r = self.port.get_user_hash(id, conn, user, hash);
        proof {
            self.log@ = self.log@.push((HostRequest::GetUserHash(id, conn, user), HostAnswer::Pointer(r, *hash)));
        }
        r
    }

    pub fn get_server_hash(&mut self, id: PluginId, conn: ConnectionT, hash: &mut usize) -> (r: ErrorT)
        ensures
            final(self).spec_port() == old(self).spec_port(),
            final(self).calls() == old(self).calls().push(
                (HostRequest::GetServerHash(id, conn), HostAnswer::Pointer(r, *final(hash))),
            ),
    {
        let r = self.port.get_server_hash(id, conn, hash);
        proof {
            self.log@ = self.log@.push((HostRequest::GetServerHash(id, conn), HostAnswer::Pointer(r, *hash)));
        }
        r
    }

    pub fn get_user_comment(&mut self, id: PluginId, conn: ConnectionT, user: UserIdT, comment: &mut usize) -> (r: ErrorT)
        ensures
            final(self).spec_port() == old(self).spec_port(),
            final(self).calls() == old(self).calls().push(
                (HostRequest::GetUserComment(id, conn, user), HostAnswer::Pointer(r, *final(comment))),
            ),
    {
        let r = self.port.get_user_comment(id, conn, user, comment);
        proof {
            self.log@ = self.log@.push((HostRequest::GetUserComment(id, conn, user), HostAnswer::Pointer(r, *comment)));
        }
        r
    }

    pub fn get_channel_description(
        &mut self,
        id: PluginId,
        conn: ConnectionT,
        channel: ChannelIdT,
        description: &mut usize,
    ) -> (r: ErrorT)
        ensures
            final(self).spec_port() == old(self).spec_port(),
            final(self).calls() == old(self).calls().push(
                (HostRequest::GetChannelDescription(id, conn, channel), HostAnswer::Pointer(r, *final(description))),
            ),
    {
        let r = self.port.get_channel_description(id, conn, channel, description);
        proof {
            self.log@ = self.log@.push(
                (HostRequest::GetChannelDescription(id, conn, channel), HostAnswer::Pointer(r, *description)),
            );
        }
        r
    }

    pub fn request_local_user_transmission_mode(&mut self, id: PluginId, mode: TransmissionModeT) -> (r: ErrorT)
        ensures
            final(self).spec_port() == old(self).spec_port(),
            final(self).calls() == old(self).calls().push(
                (HostRequest::RequestLocalUserTransmissionMode(id, mode), HostAnswer::Status(r)),
            ),
    {
        let r = self.port.request_local_user_transmission_mode(id, mode);
        proof {
            self.log@ = self.log@.push((HostRequest::RequestLocalUserTransmissionMode(id, mode), HostAnswer::Status(r)));
        }
        r
    }

    pub fn request_user_move(
        &mut self,
        id: PluginId,
        conn: ConnectionT,
        user: UserIdT,
        channel: ChannelIdT,
        password: Option<&str>,
    ) -> (r: ErrorT)
        ensures
            final(self).spec_port() == old(self).spec_port(),
            final(self).calls() == old(self).calls().push(
                (
                    HostRequest::RequestUserMove(id, conn, user, channel, spec_opt_text(password)),
                    HostAnswer::Status(r),
                ),
            ),
    {
        let r = self.port.request_user_move(id, conn, user, channel, password);
        proof {
            self.log@ = self.log@.push(
                (HostRequest::RequestUserMove(id, conn, user, channel, spec_opt_text(password)), HostAnswer::Status(r)),
            );
        }
        r
    }

    pub fn request_microphone_activation_overwrite(&mut self, id: PluginId, activated: bool) -> (r: ErrorT)
        ensures
            final(self).spec_port() == old(self).spec_port(),
            final(self).calls() == old(self).calls().push(
                (HostRequest::RequestMicrophoneActivationOverwrite(id, activated), HostAnswer::Status(r)),
            ),
    {
        let r = self.port.request_microphone_activation_overwrite(id, activated);
        proof {
            self.log@ = self.log@.push(
                (HostRequest::RequestMicrophoneActivationOverwrite(id, activated), HostAnswer::Status(r)),
            );
        }
        r
    }

    pub fn request_local_mute(&mut self, id: PluginId, conn: ConnectionT, user: UserIdT, muted: bool) -> (r: ErrorT)
        ensures
            final(self).spec_port() == old(self).spec_port(),
            final(self).calls() == old(self).calls().push(
                (HostRequest::RequestLocalMute(id, conn, user, muted), HostAnswer::Status(r)),
            ),
    {
        let r = self.port.request_local_mute(id, conn, user, muted);
        proof {
            self.log@ = self.log@.push((HostRequest::RequestLocalMute(id, conn, user, muted), HostAnswer::Status(r)));
        }
        r
    }

    pub fn request_local_user_mute(&mut self, id: PluginId, muted: bool) -> (r: ErrorT)
        ensures
            final(self).spec_port() == old(self).spec_port(),
            final(self).calls() == old(self).calls().push(
                (HostRequest::RequestLocalUserMute(id, muted), HostAnswer::Status(r)),
            ),
    {
        let r = self.port.request_local_user_mute(id, muted);
        proof {
            self.log@ = self.log@.push((HostRequest::RequestLocalUserMute(id, muted), HostAnswer::Status(r)));
        }
        r
    }

    pub fn request_set_local_user_comment(&mut self, id: PluginId, conn: ConnectionT, comment: &str) -> (r: ErrorT)
        ensures
            final(self).spec_port() == old(self).spec_port(),
            final(self).calls() == old(self).calls().push(
                (HostRequest::RequestSetLocalUserComment(id, conn, comment@), HostAnswer::Status(r)),
            ),
    {
        let r = self.port.request_set_local_user_comment(id, conn, comment);
        proof {
            self.log@ = self.log@.push((HostRequest::RequestSetLocalUserComment(id, conn, comment@), HostAnswer::Status(r)));
        }
        r
    }

    pub fn find_user_by_name(&mut self, id: PluginId, conn: ConnectionT, name: &str, user: &mut UserIdT) -> (r: ErrorT)
        ensures
            final(self).spec_port() == old(self).spec_port(),
            final(self).calls() == old(self).calls().push(
                (HostRequest::FindUserByName(id, conn, name@), HostAnswer::Value(r, HostValue::User(*final(user)))),
            ),
    {
        let r = self.port.find_user_by_name(id, conn, name, user);
        proof {
            self.log@ = self.log@.push(
                (HostRequest::FindUserByName(id, conn, name@), HostAnswer::Value(r, HostValue::User(*user))),
            );
        }
        r
    }

    pub fn find_channel_by_name(&mut self, id: PluginId, conn: ConnectionT, name: &str, channel: &mut ChannelIdT) -> (r: ErrorT)
        ensures
            final(self).spec_port() == old(self).spec_port(),
            final(self).calls() == old(self).calls().push(
                (HostRequest::FindChannelByName(id, conn, name@), HostAnswer::Value(r, HostValue::Channel(*final(channel)))),
            ),
    {
        let r = self.port.find_channel_by_name(id, conn, name, channel);
        proof {
            self.log@ = self.log@.push(
                (HostRequest::FindChannelByName(id, conn, name@), HostAnswer::Value(r, HostValue::Channel(*channel))),
            );
        }
        r
    }

    pub fn send_data(
        &mut self,
        id: PluginId,
        conn: ConnectionT,
        users: &[UserIdT],
        data: &str,
        data_id: &str,
    ) -> (r: ErrorT)
        ensures
            final(self).spec_port() == old(self).spec_port(),
            final(self).calls() == old(self).calls().push(
                (HostRequest::SendData(id, conn, users@, data@, data_id@), HostAnswer::Status(r)),
            ),
    {
        let r = self.port.send_data(id, conn, users, data, data_id);
        proof {
            self.log@ = self.log@.push((HostRequest::SendData(id, conn, users@, data@, data_id@), HostAnswer::Status(r)));
        }
        r
    }

    pub fn log(&mut self, id: PluginId, message: &str) -> (r: ErrorT)
        ensures
            final(self).spec_port() == old(self).spec_port(),
            final(self).calls() == old(self).calls().push((HostRequest::Log(id, message@), HostAnswer::Status(r))),
    {
        let r = self.port.log(id, message);
        proof {
            self.log@ = self.log@.push((HostRequest::Log(id, message@), HostAnswer::Status(r)));
        }
        r
    }

    pub fn play_sample(&mut self, id: PluginId, path: &str) -> (r: ErrorT)
        ensures
            final(self).spec_port() == old(self).spec_port(),
            final(self).calls() == old(self).calls().push((HostRequest::PlaySample(id, path@), HostAnswer::Status(r))),
    {
        let r = self.port.play_sample(id, path);
        proof {
            self.log@ = self.log@.push((HostRequest::PlaySample(id, path@), HostAnswer::Status(r)));
        }
        r
    }

    pub fn free_memory(&mut self, id: PluginId, pointer: usize)
        ensures
            final(self).spec_port() == old(self).spec_port(),
            final(self).calls() == old(self).calls().push((HostRequest::FreeMemory(id, pointer), HostAnswer::Freed)),
    {
        self.port.free_memory(id, pointer);
        proof {
            self.log@ = self.log@.push((HostRequest::FreeMemory(id, pointer), HostAnswer::Freed));
        }
    }

    pub fn read_c_string(&mut self, pointer: usize) -> (r: Vec<u8>)
        ensures
            final(self).spec_port() == old(self).spec_port(),
            final(self).calls() == old(self).calls().push((HostRequest::ReadCString(pointer), HostAnswer::Bytes(r@))),
    {
        let r = self.port.read_c_string(pointer);
        proof {
            self.log@ = self.log@.push((HostRequest::ReadCString(pointer), HostAnswer::Bytes(r@)));
        }
        r
    }

    pub fn read_user_ids(&mut self, pointer: usize, count: usize) -> (r: Vec<UserIdT>)
        ensures
            final(self).spec_port() == old(self).spec_port(),
            final(self).calls() == old(self).calls().push(
                (HostRequest::ReadUserIds(pointer, count), HostAnswer::Users(r@)),
            ),
    {
        let r = self.port.read_user_ids(pointer, count);
        proof {
            self.log@ = self.log@.push((HostRequest::ReadUserIds(pointer, count), HostAnswer::Users(r@)));
        }
        r
    }

    pub fn read_channel_ids(&mut self, pointer: usize, count: usize) -> (r: Vec<ChannelIdT>)
        ensures
            final(self).spec_port() == old(self).spec_port(),
            final(self).calls() == old(self).calls().push(
                (HostRequest::ReadChannelIds(pointer, count), HostAnswer::Channels(r@)),
            ),
    {
        let r = self.port.read_channel_ids(pointer, count);
        proof {
            self.log@ = self.log@.push((HostRequest::ReadChannelIds(pointer, count), HostAnswer::Channels(r@)));
        }
        r
    }
}

/// The characters of an optional text argument.
pub open spec fn spec_opt_text(t: Option<&str>) -> Option<Seq<char>> {
    match t {
        Some(s) => Some(s@),
        None => None,
    }
}

} // verus!
