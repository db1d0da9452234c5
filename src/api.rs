//! The typed call surface over the host's capability table.
use vstd::prelude::*;
use crate::host::{spec_opt_text, HostAnswer, HostPort, HostRequest, HostTable, HostValue};
use crate::resource::FreeableMaybeUninit;
use crate::status::spec_channel;
use crate::traits::CheckableId;
use vstd::utf8::{decode_utf8, valid_utf8};
use crate::status::{classify, Classified};
use crate::text::{is_nul_free, spec_nul_free};
use crate::types::{
    ChannelIdT, ConnectionT, ErrorT, PluginId, TransmissionMode, TransmissionModeT, UserIdT,
    EC_CHANNEL_NOT_FOUND, EC_USER_NOT_FOUND,
};

verus! {

/// Why a call through the API handle did not produce a value.
#[derive(Clone, Copy, Debug, PartialEq, Eq, Structural)]
pub enum ApiError {
    /// The host reported a status other than success.
    Status(ErrorT),
    /// A text argument holds a NUL character, so it has no NUL-terminated form;
    /// the host was not called.
    EmbeddedNul,
    /// The host returned text that is not valid UTF-8.
    InvalidUtf8,
}

pub type MumbleResult<T> = Result<T, ApiError>;

/// `Ok` on success, the status as an error otherwise.
pub open spec fn spec_status_result(s: ErrorT) -> MumbleResult<()> {
    if s.spec_is_ok() {
        Ok(())
    } else {
        Err(ApiError::Status(s))
    }
}

/// Reads a host status as a result.
pub fn status_result(s: ErrorT) -> (r: MumbleResult<()>)
    ensures
        r == spec_status_result(s),
{
    if s.is_ok() {
        Ok(())
    } else {
        Err(ApiError::Status(s))
    }
}

/// The outcome of a search that the host answered with `s`, where `found` is
/// the handle it wrote and `not_found` the code meaning "no such item".
pub open spec fn spec_search_result<T>(s: ErrorT, not_found: i32, found: T) -> MumbleResult<
    Option<T>,
> {
    if s.spec_is_ok() {
        Ok(Some(found))
    } else if s.spec_code() == not_found {
        Ok(None)
    } else {
        Err(ApiError::Status(s))
    }
}

/// Reads the host's answer to a search: `None` for the not-found code, the
/// handle on success, and the status as an error for every other code.
pub fn search_result<T>(s: ErrorT, not_found: i32, found: T) -> (r: MumbleResult<Option<T>>)
    ensures
        r == spec_search_result(s, not_found, found),
{
    let codes = [not_found];
    proof {
        assert(codes@ == seq![not_found]);
        lemma_single_code(not_found, s.spec_code());
    }
    match classify(s, &codes) {
        Classified::Success => Ok(Some(found)),
        Classified::Absent => Ok(None),
        Classified::Failed(e) => Err(ApiError::Status(e)),
    }
}

proof fn lemma_single_code(code: i32, c: i32)
    ensures
        seq![code].contains(c) <==> c == code,
{
    if c == code {
        assert(seq![code][0] == code);
    }
}

/// A search answers `None` exactly when the host reports the not-found code,
/// fails with the status for every other failure code, and yields a handle
/// only on success.
pub proof fn lemma_search_absent_iff_not_found<T>(
    r: MumbleResult<Option<T>>,
    s: ErrorT,
    not_found: i32,
    found: T,
)
    requires
        not_found != crate::types::EC_OK,
        r == spec_search_result(s, not_found, found),
    ensures
        r == Ok::<Option<T>, ApiError>(None) <==> s.spec_code() == not_found,
        r is Err <==> (!s.spec_is_ok() && s.spec_code() != not_found),
        r is Err ==> r == Err::<Option<T>, ApiError>(ApiError::Status(s)),
        r == Ok::<Option<T>, ApiError>(Some(found)) <==> s.spec_is_ok(),
{
}


/// A host-call log entry, as recorded by `HostTable`.
pub type HostCall = (HostRequest, HostAnswer);

/// `log` is `prev` followed by exactly `n` more entries.
pub open spec fn extends_by(log: Seq<HostCall>, prev: Seq<HostCall>, n: int) -> bool {
    &&& log.len() == prev.len() + n
    &&& log.take(prev.len() as int) == prev
}

proof fn lemma_push_extends(prev: Seq<HostCall>, e: HostCall)
    ensures
        extends_by(prev.push(e), prev, 1),
        prev.push(e)[prev.len() as int] == e,
{
    assert(prev.push(e).take(prev.len() as int) =~= prev);
}

/// `r` is what a call returning a plain value means, given the status `s`
/// and the value `v` the host wrote.
pub open spec fn spec_value_result<T>(s: ErrorT, v: T) -> MumbleResult<T> {
    if s.spec_is_ok() {
        Ok(v)
    } else {
        Err(ApiError::Status(s))
    }
}

/// One request `req`, and `r` the status it was answered with, as a result.
pub open spec fn status_exchange(
    log: Seq<HostCall>,
    prev: Seq<HostCall>,
    req: HostRequest,
    r: MumbleResult<()>,
) -> bool {
    let k = prev.len() as int;
    &&& extends_by(log, prev, 1)
    &&& log[k].0 == req
    &&& match log[k].1 {
        HostAnswer::Status(s) => r == spec_status_result(s),
        _ => false,
    }
}

/// The call `req` that hands back host text: when it fails, nothing else
/// happens and `r` is its status; when it succeeds with pointer `p`, the text
/// at `p` is read once, `p` is given back as `id` exactly once, nothing else
/// is called, and `r` is the decoded text or `InvalidUtf8`.
pub open spec fn text_exchange(
    log: Seq<HostCall>,
    prev: Seq<HostCall>,
    req: HostRequest,
    id: PluginId,
    r: MumbleResult<String>,
) -> bool {
    let k = prev.len() as int;
    &&& log.len() > k
    &&& log.take(k) == prev
    &&& log[k].0 == req
    &&& match log[k].1 {
        HostAnswer::Pointer(s, p) => if s.spec_is_ok() {
            &&& log.len() == k + 3
            &&& log[k + 1].0 == HostRequest::ReadCString(p)
            &&& log[k + 2] == (HostRequest::FreeMemory(id, p), HostAnswer::Freed)
            &&& match log[k + 1].1 {
                HostAnswer::Bytes(b) => match r {
                    Ok(t) => valid_utf8(b) && t@ == decode_utf8(b),
                    Err(e) => !valid_utf8(b) && e == ApiError::InvalidUtf8,
                },
                _ => false,
            }
        } else {
            log.len() == k + 1 && r == Err::<String, ApiError>(ApiError::Status(s))
        },
        _ => false,
    }
}

/// The call `req` that hands back a host array of user handles: as
/// `text_exchange`, with the `n` handles at `p` read once and returned.
pub open spec fn users_exchange(
    log: Seq<HostCall>,
    prev: Seq<HostCall>,
    req: HostRequest,
    id: PluginId,
    r: MumbleResult<Vec<UserIdT>>,
) -> bool {
    let k = prev.len() as int;
    &&& log.len() > k
    &&& log.take(k) == prev
    &&& log[k].0 == req
    &&& match log[k].1 {
        HostAnswer::Array(s, p, n) => if s.spec_is_ok() {
            &&& log.len() == k + 3
            &&& log[k + 1].0 == HostRequest::ReadUserIds(p, n)
            &&& log[k + 2] == (HostRequest::FreeMemory(id, p), HostAnswer::Freed)
            &&& match log[k + 1].1 {
                HostAnswer::Users(ids) => r matches Ok(v) && v@ == ids,
                _ => false,
            }
        } else {
            log.len() == k + 1 && r == Err::<Vec<UserIdT>, ApiError>(ApiError::Status(s))
        },
        _ => false,
    }
}

/// As `users_exchange`, for an array of channel handles.
pub open spec fn channels_exchange(
    log: Seq<HostCall>,
    prev: Seq<HostCall>,
    req: HostRequest,
    id: PluginId,
    r: MumbleResult<Vec<ChannelIdT>>,
) -> bool {
    let k = prev.len() as int;
    &&& log.len() > k
    &&& log.take(k) == prev
    &&& log[k].0 == req
    &&& match log[k].1 {
        HostAnswer::Array(s, p, n) => if s.spec_is_ok() {
            &&& log.len() == k + 3
            &&& log[k + 1].0 == HostRequest::ReadChannelIds(p, n)
            &&& log[k + 2] == (HostRequest::FreeMemory(id, p), HostAnswer::Freed)
            &&& match log[k + 1].1 {
                HostAnswer::Channels(ids) => r matches Ok(v) && v@ == ids,
                _ => false,
            }
        } else {
            log.len() == k + 1 && r == Err::<Vec<ChannelIdT>, ApiError>(ApiError::Status(s))
        },
        _ => false,
    }
}

/// A call that hands back host memory gives back exactly what it obtained:
/// on success one `free_memory` of the pointer the host wrote, as the
/// handle's identity, and on failure none at all.
pub proof fn lemma_text_exchange_releases_once(
    log: Seq<HostCall>,
    prev: Seq<HostCall>,
    req: HostRequest,
    id: PluginId,
    r: MumbleResult<String>,
)
    requires
        text_exchange(log, prev, req, id, r),
        !(req is FreeMemory),
    ensures
        ({
            let k = prev.len() as int;
            match log[k].1 {
                HostAnswer::Pointer(s, p) => {
                    &&& forall|j: int|
                        k <= j < log.len() ==> ((#[trigger] log[j].0) is FreeMemory <==> (
                        s.spec_is_ok() && j == k + 2))
                    &&& s.spec_is_ok() ==> log[k + 2].0 == HostRequest::FreeMemory(id, p)
                },
                _ => false,
            }
        }),
{
}

/// The plugin's identity and the host's table, through which every host call
/// is made and recorded.
pub struct MumbleAPI<P> {
    id: PluginId,
    api: HostTable<P>,
}

impl<P: HostPort> MumbleAPI<P> {
    pub closed spec fn spec_id(&self) -> PluginId {
        self.id
    }

    pub closed spec fn spec_port(&self) -> P {
        self.api.spec_port()
    }

    /// Every host call made through this handle, in order, with its answer.
    pub closed spec fn calls(&self) -> Seq<HostCall> {
        self.api.calls()
    }

    /// `self` is `prev` with the same identity and port.
    pub open spec fn same_handle(&self, prev: &Self) -> bool {
        &&& self.spec_id() == prev.spec_id()
        &&& self.spec_port() == prev.spec_port()
    }

    /// A handle that calls the host through `raw_api` as `id`.
    pub fn new(id: PluginId, raw_api: P) -> (r: Self)
        ensures
            r.spec_id() == id,
            r.spec_port() == raw_api,
            r.calls() == Seq::<HostCall>::empty(),
    {
        MumbleAPI { id, api: HostTable::new(raw_api) }
    }

    pub fn id(&self) -> (r: &PluginId)
        ensures
            *r == self.spec_id(),
    {
        &self.id
    }

    pub fn api(&self) -> (r: &P)
        ensures
            *r == self.spec_port(),
    {
        self.api.port()
    }

    fn freeable_uninit(&self) -> (r: FreeableMaybeUninit)
        ensures
            r.wf(),
            r.held() is None,
            r.spec_plugin_id() == self.spec_id(),
    {
        FreeableMaybeUninit::new(self.id)
    }

    /// Ends a call that wrote a text pointer into `slot` with status `s`:
    /// decodes the text on success, then gives the memory back.
    fn finish_string(&mut self, s: ErrorT, slot: FreeableMaybeUninit) -> (r: MumbleResult<String>)
        requires
            slot.wf(),
            slot.held() is None,
            slot.spec_plugin_id() == old(self).spec_id(),
            old(self).calls().len() > 0,
            old(self).calls().last().1 == HostAnswer::Pointer(s, slot.cell()),
        ensures
            final(self).same_handle(old(self)),
            text_exchange(
                final(self).calls(),
                old(self).calls().drop_last(),
                old(self).calls().last().0,
                old(self).spec_id(),
                r,
            ),
    {
        let mut slot = slot;
        let ghost before = self.api.calls();
        let r = match status_result(s) {
            Err(e) => Err(e),
            Ok(()) => match slot.assume_init_to_string(&mut self.api) {
                Some(text) => Ok(text),
                None => Err(ApiError::InvalidUtf8),
            },
        };
        slot.release(&mut self.api);
        proof {
            let k = before.len() - 1;
            assert(before.drop_last() =~= before.take(k));
            assert(self.api.calls().take(k) =~= before.take(k));
            assert(self.api.calls()[k] == before[k]);
        }
        r
    }

    /// Ends a call that wrote an array of user handles with status `s`.
    fn finish_user_ids(&mut self, s: ErrorT, slot: FreeableMaybeUninit, count: usize) -> (r: MumbleResult<Vec<UserIdT>>)
        requires
            slot.wf(),
            slot.held() is None,
            slot.spec_plugin_id() == old(self).spec_id(),
            old(self).calls().len() > 0,
            old(self).calls().last().1 == HostAnswer::Array(s, slot.cell(), count),
        ensures
            final(self).same_handle(old(self)),
            users_exchange(
                final(self).calls(),
                old(self).calls().drop_last(),
                old(self).calls().last().0,
                old(self).spec_id(),
                r,
            ),
    {
        let mut slot = slot;
        let ghost before = self.api.calls();
        let r = match status_result(s) {
            Err(e) => Err(e),
            Ok(()) => {
                let p = slot.assume_init();
                Ok(self.api.read_user_ids(p, count))
            },
        };
        slot.release(&mut self.api);
        proof {
            let k = before.len() - 1;
            assert(before.drop_last() =~= before.take(k));
            assert(self.api.calls().take(k) =~= before.take(k));
            assert(self.api.calls()[k] == before[k]);
        }
        r
    }

    /// Ends a call that wrote an array of channel handles with status `s`.
    fn finish_channel_ids(&mut self, s: ErrorT, slot: FreeableMaybeUninit, count: usize) -> (r: MumbleResult<Vec<ChannelIdT>>)
        requires
            slot.wf(),
            slot.held() is None,
            slot.spec_plugin_id() == old(self).spec_id(),
            old(self).calls().len() > 0,
            old(self).calls().last().1 == HostAnswer::Array(s, slot.cell(), count),
        ensures
            final(self).same_handle(old(self)),
            channels_exchange(
                final(self).calls(),
                old(self).calls().drop_last(),
                old(self).calls().last().0,
                old(self).spec_id(),
                r,
            ),
    {
        let mut slot = slot;
        let ghost before = self.api.calls();
        let r = match status_result(s) {
            Err(e) => Err(e),
            Ok(()) => {
                let p = slot.assume_init();
                Ok(self.api.read_channel_ids(p, count))
            },
        };
        slot.release(&mut self.api);
        proof {
            let k = before.len() - 1;
            assert(before.drop_last() =~= before.take(k));
            assert(self.api.calls().take(k) =~= before.take(k));
            assert(self.api.calls()[k] == before[k]);
        }
        r
    }

    fn finish_value<T>(s: ErrorT, value: T) -> (r: MumbleResult<T>)
        ensures
            r == spec_value_result(s, value),
    {
        match status_result(s) {
            Ok(()) => Ok(value),
            Err(e) => Err(e),
        }
    }

    /// The connection the user currently has in focus.
    pub fn get_active_server_connection(&mut self) -> (r: MumbleResult<ConnectionT>)
        ensures
            final(self).same_handle(old(self)),
            extends_by(final(self).calls(), old(self).calls(), 1),
            final(self).calls().last().0 == HostRequest::GetActiveServerConnection(old(self).spec_id()),
            final(self).calls().last().1 matches HostAnswer::Value(s, HostValue::Connection(c)) && r
                == spec_value_result(s, c),
    {
        let mut conn_id = ConnectionT(0);
        let s = self.api.get_active_server_connection(self.id, &mut conn_id);
        proof {
            lemma_push_extends(old(self).calls(), self.calls().last());
        }
        Self::finish_value(s, conn_id)
    }

    /// Whether the server has finished synchronising `conn`.
    pub fn is_connection_synchronized(&mut self, conn: ConnectionT) -> (r: MumbleResult<bool>)
        ensures
            final(self).same_handle(old(self)),
            extends_by(final(self).calls(), old(self).calls(), 1),
            final(self).calls().last().0 == HostRequest::IsConnectionSynchronized(old(self).spec_id(), conn),
            final(self).calls().last().1 matches HostAnswer::Value(s, HostValue::Flag(c)) && r
                == spec_value_result(s, c),
    {
        let mut synchronized = false;
        let s = self.api.is_connection_synchronized(self.id, conn, &mut synchronized);
        proof {
            lemma_push_extends(old(self).calls(), self.calls().last());
        }
        Self::finish_value(s, synchronized)
    }

    pub fn get_local_user_id(&mut self, conn: ConnectionT) -> (r: MumbleResult<UserIdT>)
        ensures
            final(self).same_handle(old(self)),
            extends_by(final(self).calls(), old(self).calls(), 1),
            final(self).calls().last().0 == HostRequest::GetLocalUserId(old(self).spec_id(), conn),
            final(self).calls().last().1 matches HostAnswer::Value(s, HostValue::User(c)) && r
                == spec_value_result(s, c),
    {
        let mut user_id = UserIdT(0);
        let s = self.api.get_local_user_id(self.id, conn, &mut user_id);
        proof {
            lemma_push_extends(old(self).calls(), self.calls().last());
        }
        Self::finish_value(s, user_id)
    }

    pub fn get_local_user_transmission_mode(&mut self) -> (r: MumbleResult<TransmissionModeT>)
        ensures
            final(self).same_handle(old(self)),
            extends_by(final(self).calls(), old(self).calls(), 1),
            final(self).calls().last().0 == HostRequest::GetLocalUserTransmissionMode(old(self).spec_id()),
            final(self).calls().last().1 matches HostAnswer::Value(s, HostValue::Mode(c)) && r
                == spec_value_result(s, c),
    {
        let mut mode = TransmissionModeT(TransmissionMode::TM_CONTINOUS);
        let s = self.api.get_local_user_transmission_mode(self.id, &mut mode);
        proof {
            lemma_push_extends(old(self).calls(), self.calls().last());
        }
        Self::finish_value(s, mode)
    }

    pub fn get_user_locally_muted(&mut self, conn: ConnectionT, user_id: UserIdT) -> (r: MumbleResult<bool>)
        ensures
            final(self).same_handle(old(self)),
            extends_by(final(self).calls(), old(self).calls(), 1),
            final(self).calls().last().0 == HostRequest::IsUserLocallyMuted(old(self).spec_id(), conn, user_id),
            final(self).calls().last().1 matches HostAnswer::Value(s, HostValue::Flag(c)) && r
                == spec_value_result(s, c),
    {
        let mut muted = false;
        let s = self.api.is_user_locally_muted(self.id, conn, user_id, &mut muted);
        proof {
            lemma_push_extends(old(self).calls(), self.calls().last());
        }
        Self::finish_value(s, muted)
    }

    pub fn get_local_user_muted(&mut self) -> (r: MumbleResult<bool>)
        ensures
            final(self).same_handle(old(self)),
            extends_by(final(self).calls(), old(self).calls(), 1),
            final(self).calls().last().0 == HostRequest::IsLocalUserMuted(old(self).spec_id()),
            final(self).calls().last().1 matches HostAnswer::Value(s, HostValue::Flag(c)) && r
                == spec_value_result(s, c),
    {
        let mut muted = false;
        let s = self.api.is_local_user_muted(self.id, &mut muted);
        proof {
            lemma_push_extends(old(self).calls(), self.calls().last());
        }
        Self::finish_value(s, muted)
    }

    pub fn get_user_name(&mut self, conn: ConnectionT, user_id: UserIdT) -> (r: MumbleResult<String>)
        ensures
            final(self).same_handle(old(self)),
            text_exchange(final(self).calls(), old(self).calls(), HostRequest::GetUserName(old(self).spec_id(), conn, user_id), old(self).spec_id(), r),
    {
        let mut text_ref = self.freeable_uninit();
        let s = {
            let cell = text_ref.as_mut_const_ptr(&mut self.api);
            self.api.get_user_name(self.id, conn, user_id, cell)
        };
        proof {
            assert(self.calls().drop_last() =~= old(self).calls());
        }
        self.finish_string(s, text_ref)
    }

    pub fn get_channel_name(&mut self, conn: ConnectionT, channel_id: ChannelIdT) -> (r: MumbleResult<String>)
        ensures
            final(self).same_handle(old(self)),
            text_exchange(final(self).calls(), old(self).calls(), HostRequest::GetChannelName(old(self).spec_id(), conn, channel_id), old(self).spec_id(), r),
    {
        let mut text_ref = self.freeable_uninit();
        let s = {
            let cell = text_ref.as_mut_const_ptr(&mut self.api);
            self.api.get_channel_name(self.id, conn, channel_id, cell)
        };
        proof {
            assert(self.calls().drop_last() =~= old(self).calls());
        }
        self.finish_string(s, text_ref)
    }

    pub fn get_user_hash(&mut self, conn: ConnectionT, user_id: UserIdT) -> (r: MumbleResult<String>)
        ensures
            final(self).same_handle(old(self)),
            text_exchange(final(self).calls(), old(self).calls(), HostRequest::GetUserHash(old(self).spec_id(), conn, user_id), old(self).spec_id(), r),
    {
        let mut text_ref = self.freeable_uninit();
        let s = {
            let cell = text_ref.as_mut_const_ptr(&mut self.api);
            self.api.get_user_hash(self.id, conn, user_id, cell)
        };
        proof {
            assert(self.calls().drop_last() =~= old(self).calls());
        }
        self.finish_string(s, text_ref)
    }

    pub fn get_server_hash(&mut self, conn: ConnectionT) -> (r: MumbleResult<String>)
        ensures
            final(self).same_handle(old(self)),
            text_exchange(final(self).calls(), old(self).calls(), HostRequest::GetServerHash(old(self).spec_id(), conn), old(self).spec_id(), r),
    {
        let mut text_ref = self.freeable_uninit();
        let s = {
            let cell = text_ref.as_mut_const_ptr(&mut self.api);
            self.api.get_server_hash(self.id, conn, cell)
        };
        proof {
            assert(self.calls().drop_last() =~= old(self).calls());
        }
        self.finish_string(s, text_ref)
    }

    pub fn get_user_comment(&mut self, conn: ConnectionT, user_id: UserIdT) -> (r: MumbleResult<String>)
        ensures
            final(self).same_handle(old(self)),
            text_exchange(final(self).calls(), old(self).calls(), HostRequest::GetUserComment(old(self).spec_id(), conn, user_id), old(self).spec_id(), r),
    {
        let mut text_ref = self.freeable_uninit();
        let s = {
            let cell = text_ref.as_mut_const_ptr(&mut self.api);
            self.api.get_user_comment(self.id, conn, user_id, cell)
        };
        proof {
            assert(self.calls().drop_last() =~= old(self).calls());
        }
        self.finish_string(s, text_ref)
    }

    pub fn get_channel_description(&mut self, conn: ConnectionT, channel_id: ChannelIdT) -> (r: MumbleResult<String>)
        ensures
            final(self).same_handle(old(self)),
            text_exchange(final(self).calls(), old(self).calls(), HostRequest::GetChannelDescription(old(self).spec_id(), conn, channel_id), old(self).spec_id(), r),
    {
        let mut text_ref = self.freeable_uninit();
        let s = {
            let cell = text_ref.as_mut_const_ptr(&mut self.api);
            self.api.get_channel_description(self.id, conn, channel_id, cell)
        };
        proof {
            assert(self.calls().drop_last() =~= old(self).calls());
        }
        self.finish_string(s, text_ref)
    }

    pub fn get_all_users(&mut self, conn: ConnectionT) -> (r: MumbleResult<Vec<UserIdT>>)
        ensures
            final(self).same_handle(old(self)),
            users_exchange(final(self).calls(), old(self).calls(), HostRequest::GetAllUsers(old(self).spec_id(), conn), old(self).spec_id(), r),
    {
        let mut array_ref = self.freeable_uninit();
        let mut count: usize = 0;
        let s = {
            let cell = array_ref.as_mut_ptr(&mut self.api);
            self.api.get_all_users(self.id, conn, cell, &mut count)
        };
        proof {
            assert(self.calls().drop_last() =~= old(self).calls());
        }
        self.finish_user_ids(s, array_ref, count)
    }

    pub fn get_all_channels(&mut self, conn: ConnectionT) -> (r: MumbleResult<Vec<ChannelIdT>>)
        ensures
            final(self).same_handle(old(self)),
            channels_exchange(final(self).calls(), old(self).calls(), HostRequest::GetAllChannels(old(self).spec_id(), conn), old(self).spec_id(), r),
    {
        let mut array_ref = self.freeable_uninit();
        let mut count: usize = 0;
        let s = {
            let cell = array_ref.as_mut_ptr(&mut self.api);
            self.api.get_all_channels(self.id, conn, cell, &mut count)
        };
        proof {
            assert(self.calls().drop_last() =~= old(self).calls());
        }
        self.finish_channel_ids(s, array_ref, count)
    }

    pub fn get_users_in_channel(&mut self, conn: ConnectionT, channel_id: ChannelIdT) -> (r: MumbleResult<Vec<UserIdT>>)
        ensures
            final(self).same_handle(old(self)),
            users_exchange(final(self).calls(), old(self).calls(), HostRequest::GetUsersInChannel(old(self).spec_id(), conn, channel_id), old(self).spec_id(), r),
    {
        let mut array_ref = self.freeable_uninit();
        let mut count: usize = 0;
        let s = {
            let cell = array_ref.as_mut_ptr(&mut self.api);
            self.api.get_users_in_channel(self.id, conn, channel_id, cell, &mut count)
        };
        proof {
            assert(self.calls().drop_last() =~= old(self).calls());
        }
        self.finish_user_ids(s, array_ref, count)
    }

    /// The channel a user is in; the "no channel" sentinel becomes `None`.
    pub fn get_channel_of_user(&mut self, conn: ConnectionT, user_id: UserIdT) -> (r: MumbleResult<Option<ChannelIdT>>)
        ensures
            final(self).same_handle(old(self)),
            extends_by(final(self).calls(), old(self).calls(), 1),
            final(self).calls().last().0 == HostRequest::GetChannelOfUser(old(self).spec_id(), conn, user_id),
            final(self).calls().last().1 matches HostAnswer::Value(s, HostValue::Channel(c)) && r
                == spec_value_result(s, spec_channel(c)),
    {
        let mut channel = ChannelIdT(-1);
        let s = self.api.get_channel_of_user(self.id, conn, user_id, &mut channel);
        proof {
            lemma_push_extends(old(self).calls(), self.calls().last());
        }
        Self::finish_value(s, channel.check())
    }

    pub fn request_local_user_transmission_mode(&mut self, transmission_mode: TransmissionModeT) -> (r: MumbleResult<()>)
        ensures
            final(self).same_handle(old(self)),
            status_exchange(final(self).calls(), old(self).calls(), HostRequest::RequestLocalUserTransmissionMode(old(self).spec_id(), transmission_mode), r),
    {
        let s = self.api.request_local_user_transmission_mode(self.id, transmission_mode);
        proof {
            lemma_push_extends(old(self).calls(), self.calls().last());
        }
        status_result(s)
    }

    /// Moves a user to a channel, with the channel's password if one is given.
    pub fn request_user_move(
        &mut self,
        conn: ConnectionT,
        user_id: UserIdT,
        channel_id: ChannelIdT,
        password: Option<&str>,
    ) -> (r: MumbleResult<()>)
        ensures
            final(self).same_handle(old(self)),
            match password {
                Some(p) if !spec_nul_free(p@) => {
                    &&& r == Err::<(), ApiError>(ApiError::EmbeddedNul)
                    &&& final(self).calls() == old(self).calls()
                },
                _ => status_exchange(
                    final(self).calls(),
                    old(self).calls(),
                    HostRequest::RequestUserMove(
                        old(self).spec_id(),
                        conn,
                        user_id,
                        channel_id,
                        spec_opt_text(password),
                    ),
                    r,
                ),
            },
    {
        match password {
            Some(p) => {
                if !is_nul_free(p) {
                    return Err(ApiError::EmbeddedNul);
                }
            },
            None => {},
        }
        let s = self.api.request_user_move(self.id, conn, user_id, channel_id, password);
        proof {
            lemma_push_extends(old(self).calls(), self.calls().last());
        }
        status_result(s)
    }

    pub fn request_microphone_activation_overwrite(&mut self, activated: bool) -> (r: MumbleResult<()>)
        ensures
            final(self).same_handle(old(self)),
            status_exchange(final(self).calls(), old(self).calls(), HostRequest::RequestMicrophoneActivationOverwrite(old(self).spec_id(), activated), r),
    {
        let s = self.api.request_microphone_activation_overwrite(self.id, activated);
        proof {
            lemma_push_extends(old(self).calls(), self.calls().last());
        }
        status_result(s)
    }

    pub fn request_local_mute(&mut self, conn: ConnectionT, user_id: UserIdT, muted: bool) -> (r: MumbleResult<()>)
        ensures
            final(self).same_handle(old(self)),
            status_exchange(final(self).calls(), old(self).calls(), HostRequest::RequestLocalMute(old(self).spec_id(), conn, user_id, muted), r),
    {
        let s = self.api.request_local_mute(self.id, conn, user_id, muted);
        proof {
            lemma_push_extends(old(self).calls(), self.calls().last());
        }
        status_result(s)
    }

    pub fn request_local_user_mute(&mut self, muted: bool) -> (r: MumbleResult<()>)
        ensures
            final(self).same_handle(old(self)),
            status_exchange(final(self).calls(), old(self).calls(), HostRequest::RequestLocalUserMute(old(self).spec_id(), muted), r),
    {
        let s = self.api.request_local_user_mute(self.id, muted);
        proof {
            lemma_push_extends(old(self).calls(), self.calls().last());
        }
        status_result(s)
    }

    pub fn request_set_local_user_comment(&mut self, conn: ConnectionT, comment: &str) -> (r: MumbleResult<()>)
        ensures
            final(self).same_handle(old(self)),
            !(spec_nul_free(comment@)) ==> r == Err::<(), ApiError>(ApiError::EmbeddedNul) && final(self).calls() == old(self).calls(),
            spec_nul_free(comment@) ==> status_exchange(final(self).calls(), old(self).calls(), HostRequest::RequestSetLocalUserComment(old(self).spec_id(), conn, comment@), r),
    {
        if !(is_nul_free(comment)) {
            return Err(ApiError::EmbeddedNul);
        }
        let s = self.api.request_set_local_user_comment(self.id, conn, comment);
        proof {
            lemma_push_extends(old(self).calls(), self.calls().last());
        }
        status_result(s)
    }

    /// Looks a user up by name: `None` exactly when the host reports that no
    /// user has that name, an error for every other failure.
    pub fn find_user_by_name(&mut self, conn: ConnectionT, user_name: &str) -> (r: MumbleResult<Option<UserIdT>>)
        ensures
            final(self).same_handle(old(self)),
            !spec_nul_free(user_name@) ==> r == Err::<Option<UserIdT>, ApiError>(ApiError::EmbeddedNul)
                && final(self).calls() == old(self).calls(),
            spec_nul_free(user_name@) ==> {
                &&& extends_by(final(self).calls(), old(self).calls(), 1)
                &&& final(self).calls().last().0 == HostRequest::FindUserByName(
                    old(self).spec_id(),
                    conn,
                    user_name@,
                )
                &&& final(self).calls().last().1 matches HostAnswer::Value(s, HostValue::User(v))
                    && r == spec_search_result(s, EC_USER_NOT_FOUND, v)
            },
    {
        if !is_nul_free(user_name) {
            return Err(ApiError::EmbeddedNul);
        }
        let mut found = UserIdT(0);
        let s = self.api.find_user_by_name(self.id, conn, user_name, &mut found);
        proof {
            lemma_push_extends(old(self).calls(), self.calls().last());
        }
        search_result(s, EC_USER_NOT_FOUND, found)
    }

    /// Looks a channel up by name: `None` exactly when the host reports that no
    /// channel has that name, an error for every other failure.
    pub fn find_channel_by_name(&mut self, conn: ConnectionT, channel_name: &str) -> (r: MumbleResult<Option<ChannelIdT>>)
        ensures
            final(self).same_handle(old(self)),
            !spec_nul_free(channel_name@) ==> r == Err::<Option<ChannelIdT>, ApiError>(ApiError::EmbeddedNul)
                && final(self).calls() == old(self).calls(),
            spec_nul_free(channel_name@) ==> {
                &&& extends_by(final(self).calls(), old(self).calls(), 1)
                &&& final(self).calls().last().0 == HostRequest::FindChannelByName(
                    old(self).spec_id(),
                    conn,
                    channel_name@,
                )
                &&& final(self).calls().last().1 matches HostAnswer::Value(s, HostValue::Channel(v))
                    && r == spec_search_result(s, EC_CHANNEL_NOT_FOUND, v)
            },
    {
        if !is_nul_free(channel_name) {
            return Err(ApiError::EmbeddedNul);
        }
        let mut found = ChannelIdT(-1);
        let s = self.api.find_channel_by_name(self.id, conn, channel_name, &mut found);
        proof {
            lemma_push_extends(old(self).calls(), self.calls().last());
        }
        search_result(s, EC_CHANNEL_NOT_FOUND, found)
    }

    /// Sends `data_string`, tagged `data_id`, to `users` on `conn`.
    pub fn send_data(
        &mut self,
        conn: ConnectionT,
        users: &[UserIdT],
        data_string: &str,
        data_id: &str,
    ) -> (r: MumbleResult<()>)
        ensures
            final(self).same_handle(old(self)),
            !(spec_nul_free(data_string@) && spec_nul_free(data_id@)) ==> r == Err::<(), ApiError>(
                ApiError::EmbeddedNul,
            ) && final(self).calls() == old(self).calls(),
            spec_nul_free(data_string@) && spec_nul_free(data_id@) ==> status_exchange(
                final(self).calls(),
                old(self).calls(),
                HostRequest::SendData(old(self).spec_id(), conn, users@, data_string@, data_id@),
                r,
            ),
    {
        if !is_nul_free(data_string) || !is_nul_free(data_id) {
            return Err(ApiError::EmbeddedNul);
        }
        let s = self.api.send_data(self.id, conn, users, data_string, data_id);
        proof {
            lemma_push_extends(old(self).calls(), self.calls().last());
        }
        status_result(s)
    }

    /// Writes `message` to the host's log.
    pub fn log(&mut self, message: &str) -> (r: MumbleResult<()>)
        ensures
            final(self).same_handle(old(self)),
            !(spec_nul_free(message@)) ==> r == Err::<(), ApiError>(ApiError::EmbeddedNul) && final(self).calls() == old(self).calls(),
            spec_nul_free(message@) ==> status_exchange(final(self).calls(), old(self).calls(), HostRequest::Log(old(self).spec_id(), message@), r),
    {
        if !(is_nul_free(message)) {
            return Err(ApiError::EmbeddedNul);
        }
        let s = self.api.log(self.id, message);
        proof {
            lemma_push_extends(old(self).calls(), self.calls().last());
        }
        status_result(s)
    }

    /// Asks the host to play the sound file at `sample_path`.
    pub fn play_sample(&mut self, sample_path: &str) -> (r: MumbleResult<()>)
        ensures
            final(self).same_handle(old(self)),
            !(spec_nul_free(sample_path@)) ==> r == Err::<(), ApiError>(ApiError::EmbeddedNul) && final(self).calls() == old(self).calls(),
            spec_nul_free(sample_path@) ==> status_exchange(final(self).calls(), old(self).calls(), HostRequest::PlaySample(old(self).spec_id(), sample_path@), r),
    {
        if !(is_nul_free(sample_path)) {
            return Err(ApiError::EmbeddedNul);
        }
        let s = self.api.play_sample(self.id, sample_path);
        proof {
            lemma_push_extends(old(self).calls(), self.calls().last());
        }
        status_result(s)
    }
}

} // verus!
